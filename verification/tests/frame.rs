use gzip_codec::frame::{
    check_frame, has_gzip_start, read_word, Trailer, ID1, ID2, METHOD_DEFLATE, SHORTEST_FRAME,
    TRAILER_LEN,
};

const HELLO_STREAM: [u8; 31] = [
    0x1f, 0x8b, 0x08, 0x00, 0x00, 0x00, 0x00, 0x00, 0x02, 0xff, 0xcb, 0x48, 0xcd, 0xc9, 0xc9,
    0x57, 0x28, 0xcf, 0x2f, 0xca, 0x49, 0x01, 0x00, 0x85, 0x11, 0x4a, 0x0d, 0x0b, 0x00, 0x00,
    0x00,
];

fn blank_frame(len: usize) -> Vec<u8> {
    let mut stream = vec![0u8; len];
    if len >= 3 {
        stream[0] = 0x1f;
        stream[1] = 0x8b;
        stream[2] = 8;
    }
    stream
}

#[test]
fn frame_constants() {
    assert_eq!(ID1, 0x1f);
    assert_eq!(ID2, 0x8b);
    assert_eq!(METHOD_DEFLATE, 8);
    assert_eq!(TRAILER_LEN, 8);
    assert_eq!(SHORTEST_FRAME, 18);
}

#[test]
fn read_word_is_little_endian() {
    assert_eq!(read_word(&[0x85, 0x11, 0x4a, 0x0d], 0), 0x0d4a_1185);
    assert_eq!(read_word(&[0x01, 0x00, 0x00, 0x00], 0), 1);
    assert_eq!(read_word(&[0x00, 0x00, 0x00, 0x01], 0), 0x0100_0000);
    assert_eq!(read_word(&[0xff, 0xff, 0xff, 0xff], 0), u32::MAX);
}

#[test]
fn read_word_at_an_offset() {
    let bytes = [9u8, 9, 0x78, 0x56, 0x34, 0x12, 9];
    assert_eq!(read_word(&bytes, 2), 0x1234_5678);
    assert_eq!(read_word(&bytes, 3), 0x0912_3456);
}

#[test]
fn trailer_of_hello_world() {
    let trailer = Trailer::of(b"hello world");
    assert_eq!(trailer, Trailer { crc: 0x0d4a_1185, size: 11 });
}

#[test]
fn trailer_of_nothing() {
    assert_eq!(Trailer::of(&[]), Trailer { crc: 0, size: 0 });
}

#[test]
fn trailer_read_from_a_stream() {
    assert_eq!(Trailer::read(&HELLO_STREAM), Some(Trailer { crc: 0x0d4a_1185, size: 11 }));
}

#[test]
fn trailer_read_needs_eight_bytes() {
    assert_eq!(Trailer::read(&[]), None);
    assert_eq!(Trailer::read(&[1, 2, 3, 4, 5, 6, 7]), None);
    assert_eq!(
        Trailer::read(&[1, 0, 0, 0, 2, 0, 0, 0]),
        Some(Trailer { crc: 1, size: 2 })
    );
}

#[test]
fn start_of_a_real_stream() {
    assert!(has_gzip_start(&HELLO_STREAM));
}

#[test]
fn start_needs_eighteen_bytes() {
    assert!(!has_gzip_start(&[]));
    assert!(!has_gzip_start(&[0x1f]));
    assert!(!has_gzip_start(&[0x1f, 0x8b]));
    assert!(!has_gzip_start(&blank_frame(3)));
    assert!(!has_gzip_start(&blank_frame(17)));
    assert!(has_gzip_start(&blank_frame(18)));
    assert!(has_gzip_start(&blank_frame(19)));
}

#[test]
fn start_needs_the_magic_bytes() {
    let mut stream = blank_frame(18);
    stream[0] = 0x1e;
    assert!(!has_gzip_start(&stream));
    let mut stream = blank_frame(18);
    stream[1] = 0x8c;
    assert!(!has_gzip_start(&stream));
    let mut stream = blank_frame(18);
    stream.swap(0, 1);
    assert!(!has_gzip_start(&stream));
}

#[test]
fn start_needs_the_deflate_method() {
    let mut stream = blank_frame(18);
    stream[2] = 7;
    assert!(!has_gzip_start(&stream));
    stream[2] = 0;
    assert!(!has_gzip_start(&stream));
    stream[2] = 9;
    assert!(!has_gzip_start(&stream));
}

#[test]
fn frame_of_a_real_stream_matches_its_payload() {
    assert!(check_frame(&HELLO_STREAM, b"hello world"));
}

#[test]
fn frame_does_not_match_another_payload() {
    assert!(!check_frame(&HELLO_STREAM, b"hello worle"));
    assert!(!check_frame(&HELLO_STREAM, b"hello world!"));
    assert!(!check_frame(&HELLO_STREAM, b""));
}

#[test]
fn frame_with_a_wrong_length_field() {
    let mut stream = HELLO_STREAM.to_vec();
    stream[27] = 0x0c;
    assert!(!check_frame(&stream, b"hello world"));
}

#[test]
fn frame_with_a_wrong_checksum_field() {
    for at in 23..27 {
        let mut stream = HELLO_STREAM.to_vec();
        stream[at] ^= 0x01;
        assert!(!check_frame(&stream, b"hello world"), "byte {}", at);
    }
}

#[test]
fn frame_with_a_wrong_start() {
    let mut stream = HELLO_STREAM.to_vec();
    stream[0] = 0;
    assert!(!check_frame(&stream, b"hello world"));
    assert!(!check_frame(&HELLO_STREAM[13..], b"hello world"));
}

#[test]
fn blank_frame_matches_the_empty_payload() {
    assert!(check_frame(&blank_frame(18), &[]));
    assert!(!check_frame(&blank_frame(17), &[]));
    assert!(!check_frame(&blank_frame(18), &[0]));
}
