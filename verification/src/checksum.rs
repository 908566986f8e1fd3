//! CRC-32 as gzip uses it: polynomial `0xEDB88320` (reflected), register
//! preset to all ones, result inverted.

use vstd::prelude::*;

verus! {

/// The generator polynomial, bit-reversed.
pub const POLYNOMIAL: u32 = 0xEDB8_8320;

/// Number of entries of the lookup table: one for each value of a byte.
pub const TABLE_LEN: usize = 256;

/// One step of the division: the register moves right by one bit, and the
/// polynomial is subtracted if the bit that left was set.
pub open spec fn shift_bit(reg: u32) -> u32 {
    if reg & 1 == 1 {
        (reg >> 1) ^ POLYNOMIAL
    } else {
        reg >> 1
    }
}

/// Eight steps of the division.
pub open spec fn shift_byte(reg: u32) -> u32 {
    shift_bit(shift_bit(shift_bit(shift_bit(shift_bit(shift_bit(shift_bit(shift_bit(reg))))))))
}

/// The register after one more byte of input.
pub open spec fn absorb(reg: u32, byte: u8) -> u32 {
    shift_byte(reg ^ (byte as u32))
}

/// The register after all of `data`, starting from all ones.
pub open spec fn register(data: Seq<u8>) -> u32
    decreases data.len(),
{
    if data.len() == 0 {
        0xFFFF_FFFF
    } else {
        absorb(register(data.drop_last()), data.last())
    }
}

/// The CRC-32 of `data`.
pub open spec fn crc32(data: Seq<u8>) -> u32 {
    register(data) ^ 0xFFFF_FFFF
}

/// What a lookup table holds: at each index the index itself, taken through
/// eight steps.
pub open spec fn is_table(table: Seq<u32>) -> bool {
    &&& table.len() == TABLE_LEN
    &&& forall|i: int| 0 <= i < table.len() ==> #[trigger] table[i] == shift_byte(i as u32)
}

/// Eight steps act on the low byte alone; the rest of the register only moves
/// down by eight bits.
pub proof fn lemma_shift_byte_splits(reg: u32)
    ensures
        shift_byte(reg) == shift_byte(reg & 0xFF) ^ (reg >> 8),
{
    assert(shift_byte(reg) == shift_byte(reg & 0xFF) ^ (reg >> 8)) by (bit_vector);
}

/// The step that a lookup table makes equals `absorb`.
pub proof fn lemma_absorb_by_table(reg: u32, byte: u8)
    ensures
        ((reg ^ (byte as u32)) & 0xFF) < 256,
        absorb(reg, byte) == shift_byte((reg ^ (byte as u32)) & 0xFF) ^ (reg >> 8),
{
    let mixed: u32 = reg ^ (byte as u32);
    lemma_shift_byte_splits(mixed);
    assert((mixed & 0xFF) < 256) by (bit_vector);
    assert(mixed >> 8 == reg >> 8) by (bit_vector)
        requires
            mixed == reg ^ (byte as u32),
    ;
}

fn step(reg: u32) -> (next: u32)
    ensures
        next == shift_bit(reg),
{
    if reg & 1 == 1 {
        (reg >> 1) ^ POLYNOMIAL
    } else {
        reg >> 1
    }
}

/// Builds the lookup table.
pub fn make_table() -> (table: Vec<u32>)
    ensures
        is_table(table@),
{
    let mut table: Vec<u32> = Vec::with_capacity(TABLE_LEN);
    let mut index: u32 = 0;
    while index < 256
        invariant
            index <= 256,
            table@.len() == index,
            forall|i: int| 0 <= i < table@.len() ==> #[trigger] table@[i] == shift_byte(i as u32),
        decreases 256 - index,
    {
        let entry = step(step(step(step(step(step(step(step(index))))))));
        table.push(entry);
        index += 1;
    }
    table
}

/// Computes the CRC-32 of `data`, one table lookup for each byte.
pub fn checksum(data: &[u8]) -> (sum: u32)
    ensures
        sum == crc32(data@),
{
    let table = make_table();
    let mut reg: u32 = 0xFFFF_FFFF;
    let mut pos: usize = 0;
    while pos < data.len()
        invariant
            pos <= data.len(),
            is_table(table@),
            reg == register(data@.take(pos as int)),
        decreases data.len() - pos,
    {
        let byte = data[pos];
        let low: u32 = (reg ^ (byte as u32)) & 0xFF;
        proof {
            lemma_absorb_by_table(reg, byte);
            assert(data@.take(pos + 1).drop_last() =~= data@.take(pos as int));
        }
        reg = table[low as usize] ^ (reg >> 8);
        pos += 1;
    }
    proof {
        assert(data@.take(pos as int) =~= data@);
    }
    reg ^ 0xFFFF_FFFF
}

} // verus!
