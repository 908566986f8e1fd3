use gzip_codec::checksum::{checksum, make_table, POLYNOMIAL, TABLE_LEN};

fn pseudo_random(len: usize) -> Vec<u8> {
    let mut state: u64 = 12345;
    let mut out = Vec::with_capacity(len);
    for _ in 0..len {
        state = (state * 1103515245 + 12345) & 0x7fff_ffff;
        out.push(((state >> 16) & 0xff) as u8);
    }
    out
}

#[test]
fn checksum_of_nothing_is_zero() {
    assert_eq!(checksum(&[]), 0);
}

#[test]
fn checksum_of_one_byte() {
    assert_eq!(checksum(b"a"), 0xe8b7_be43);
}

#[test]
fn checksum_check_value() {
    assert_eq!(checksum(b"123456789"), 0xcbf4_3926);
}

#[test]
fn checksum_of_hello_world() {
    assert_eq!(checksum(b"hello world"), 0x0d4a_1185);
}

#[test]
fn checksum_of_a_sentence() {
    assert_eq!(checksum(b"The quick brown fox jumps over the lazy dog"), 0x414f_a339);
}

#[test]
fn checksum_of_every_byte_value() {
    let data: Vec<u8> = (0..=255u8).collect();
    assert_eq!(checksum(&data), 0x2905_8c73);
}

#[test]
fn checksum_of_a_long_buffer() {
    let data = pseudo_random(100_000);
    assert_eq!(&data[..5], &[0xdc, 0x04, 0x65, 0xaa, 0x1f]);
    assert_eq!(checksum(&data), 0xb152_98d5);
}

#[test]
fn checksum_agrees_with_the_engine() {
    let data = pseudo_random(4097);
    for len in [0usize, 1, 2, 7, 8, 9, 255, 256, 257, 4096, 4097] {
        let mut theirs = flate2::Crc::new();
        theirs.update(&data[..len]);
        assert_eq!(checksum(&data[..len]), theirs.sum(), "length {}", len);
    }
}

#[test]
fn table_has_one_entry_for_each_byte() {
    let table = make_table();
    assert_eq!(table.len(), TABLE_LEN);
    assert_eq!(table.len(), 256);
}

#[test]
fn table_entries() {
    let table = make_table();
    assert_eq!(table[0], 0);
    assert_eq!(table[1], 0x7707_3096);
    assert_eq!(table[2], 0xee0e_612c);
    assert_eq!(table[128], POLYNOMIAL);
    assert_eq!(table[128], 0xedb8_8320);
    assert_eq!(table[255], 0x2d02_ef8d);
}
