//! The gzip frame: the fixed start of the header and the eight-byte trailer.
//!
//! A member starts with the identification bytes `1f 8b` and the compression
//! method, and ends with the CRC-32 of the uncompressed data and its length
//! modulo 2^32, both least significant byte first.

use vstd::prelude::*;
use crate::checksum::{checksum, crc32};

verus! {

/// First identification byte.
pub const ID1: u8 = 0x1f;

/// Second identification byte.
pub const ID2: u8 = 0x8b;

/// Compression method: deflate, the only one the format defines.
pub const METHOD_DEFLATE: u8 = 8;

/// Length of the trailer.
pub const TRAILER_LEN: usize = 8;

/// No member is shorter than its fixed header and its trailer.
pub const SHORTEST_FRAME: usize = 18;

/// The trailer of a member.
#[derive(Clone, Copy, Debug, PartialEq, Eq, Structural)]
pub struct Trailer {
    /// CRC-32 of the uncompressed data.
    pub crc: u32,
    /// Length of the uncompressed data modulo 2^32.
    pub size: u32,
}

/// The number that the four bytes from `at` on spell, least significant first.
pub open spec fn word_at(bytes: Seq<u8>, at: int) -> int
    recommends
        0 <= at,
        at + 4 <= bytes.len(),
{
    bytes[at] + 0x100 * bytes[at + 1] + 0x1_0000 * bytes[at + 2] + 0x100_0000 * bytes[at + 3]
}

/// The trailer that belongs to `payload`.
pub open spec fn trailer_of(payload: Seq<u8>) -> Trailer {
    Trailer { crc: crc32(payload), size: (payload.len() % 0x1_0000_0000) as u32 }
}

/// The trailer that `stream` ends with.
pub open spec fn stored_trailer(stream: Seq<u8>) -> Trailer
    recommends
        stream.len() >= TRAILER_LEN,
{
    Trailer {
        crc: word_at(stream, stream.len() - 8) as u32,
        size: word_at(stream, stream.len() - 4) as u32,
    }
}

/// `stream` is long enough for a member and starts as one: identification
/// bytes, then the deflate method.
pub open spec fn starts_as_gzip(stream: Seq<u8>) -> bool {
    &&& stream.len() >= SHORTEST_FRAME
    &&& stream[0] == ID1
    &&& stream[1] == ID2
    &&& stream[2] == METHOD_DEFLATE
}

/// `stream` is framed as a gzip member whose uncompressed data is `payload`.
pub open spec fn frames(stream: Seq<u8>, payload: Seq<u8>) -> bool {
    &&& starts_as_gzip(stream)
    &&& stored_trailer(stream) == trailer_of(payload)
}

/// Four bytes spell one number only: two words that differ in a byte differ.
pub proof fn lemma_word_tells_bytes(a: Seq<u8>, b: Seq<u8>, at: int)
    requires
        0 <= at,
        at + 4 <= a.len(),
        at + 4 <= b.len(),
        word_at(a, at) == word_at(b, at),
    ensures
        forall|i: int| at <= i < at + 4 ==> a[i] == b[i],
{
}

/// Reads the word at `at`.
pub fn read_word(bytes: &[u8], at: usize) -> (word: u32)
    requires
        at + 4 <= bytes.len(),
    ensures
        word == word_at(bytes@, at as int),
{
    let b0: u32 = bytes[at] as u32;
    let b1: u32 = bytes[at + 1] as u32;
    let b2: u32 = bytes[at + 2] as u32;
    let b3: u32 = bytes[at + 3] as u32;
    b0 + 0x100 * b1 + 0x1_0000 * b2 + 0x100_0000 * b3
}

/// Tells whether `stream` is long enough for a member and starts as one.
pub fn has_gzip_start(stream: &[u8]) -> (ok: bool)
    ensures
        ok == starts_as_gzip(stream@),
{
    if stream.len() < SHORTEST_FRAME {
        return false;
    }
    stream[0] == ID1 && stream[1] == ID2 && stream[2] == METHOD_DEFLATE
}

impl Trailer {
    /// Computes the trailer that belongs to `payload`.
    pub fn of(payload: &[u8]) -> (trailer: Trailer)
        ensures
            trailer == trailer_of(payload@),
    {
        let len: u64 = payload.len() as u64;
        Trailer { crc: checksum(payload), size: (len % 0x1_0000_0000) as u32 }
    }

    /// Reads the trailer that `stream` ends with; `None` if `stream` is too
    /// short to have one.
    pub fn read(stream: &[u8]) -> (trailer: Option<Trailer>)
        ensures
            trailer == if stream@.len() >= TRAILER_LEN {
                Some(stored_trailer(stream@))
            } else {
                None
            },
    {
        let len = stream.len();
        if len < TRAILER_LEN {
            return None;
        }
        Some(Trailer { crc: read_word(stream, len - 8), size: read_word(stream, len - 4) })
    }
}

/// Tells whether `stream` is framed as a gzip member whose uncompressed data
/// is `payload`.
pub fn check_frame(stream: &[u8], payload: &[u8]) -> (ok: bool)
    ensures
        ok == frames(stream@, payload@),
{
    if !has_gzip_start(stream) {
        return false;
    }
    match Trailer::read(stream) {
        Some(stored) => stored == Trailer::of(payload),
        None => false,
    }
}

} // verus!
