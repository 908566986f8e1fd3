//! Encoding and decoding of one buffer, with `flate2` as the engine.
//!
//! The engine is not verified. What it returns is given a name, and every
//! result that leaves this module has been checked against the frame by
//! verified code: [`decode`] hands out a payload only if the stream's trailer
//! carries its CRC-32 and length, and [`encode`] hands out a stream only after
//! it has been decoded again and compared with the input.

use vstd::prelude::*;
use std::io::Write;
use flate2::Compression;
use flate2::write::{GzDecoder, GzEncoder};
use crate::error::GzipError;
use crate::frame::{
    check_frame, frames, has_gzip_start, lemma_word_tells_bytes, starts_as_gzip, stored_trailer,
    trailer_of, TRAILER_LEN,
};

verus! {

/// The direction of a run.
#[derive(Debug, Copy, Clone, PartialEq, Eq, PartialOrd, Ord, Structural)]
pub enum CompressAction {
    /// Compress the input into a gzip stream.
    Encode,
    /// Decompress a gzip stream.
    Decode,
}

/// `std::io::Error`, in which the engine's writers report a failure. Nothing
/// is read from it here: every failure of a call counts alike.
#[verifier::external_type_specification]
#[verifier::external_body]
pub struct ExIoError(std::io::Error);

/// The stream that `flate2`'s `GzEncoder` makes of `data` at the default
/// level with a default header; `None` where it reports an error.
pub uninterp spec fn gz_stream(data: Seq<u8>) -> Option<Seq<u8>>;

/// The payload that `flate2`'s `GzDecoder` finds in `stream`; `None` where it
/// reports an error.
pub uninterp spec fn gz_payload(stream: Seq<u8>) -> Option<Seq<u8>>;

/// Runs `flate2::write::GzEncoder` over `data`: `new` with an empty `Vec` and
/// `Compression::default()`, `write_all`, `finish`.
///
/// Nothing is claimed of the bytes that come back but that they depend on
/// `data` alone: the header holds no time stamp and a fixed system byte.
#[verifier::external_body]
fn deflate_to_gzip(data: &[u8]) -> (res: Result<Vec<u8>, std::io::Error>)
    ensures
        res is Ok <==> gz_stream(data@) is Some,
        res matches Ok(stream) ==> gz_stream(data@) == Some(stream@),
{
    let mut encoder = GzEncoder::new(Vec::new(), Compression::default());
    encoder.write_all(data)?;
    encoder.finish()
}

/// Runs `flate2::write::GzDecoder` over `stream`: `new` with an empty `Vec`,
/// `write_all`, `finish`.
///
/// Nothing is claimed of the bytes that come back but that they depend on
/// `stream` alone.
#[verifier::external_body]
fn inflate_gzip(stream: &[u8]) -> (res: Result<Vec<u8>, std::io::Error>)
    ensures
        res is Ok <==> gz_payload(stream@) is Some,
        res matches Ok(payload) ==> gz_payload(stream@) == Some(payload@),
{
    let mut decoder = GzDecoder::new(Vec::new());
    decoder.write_all(stream)?;
    decoder.finish()
}

/// A result with its bytes as a sequence.
pub open spec fn outcome(res: Result<Vec<u8>, GzipError>) -> Result<Seq<u8>, GzipError> {
    match res {
        Ok(bytes) => Ok(bytes@),
        Err(e) => Err(e),
    }
}

/// The bytes of an optional buffer as a sequence.
pub open spec fn bytes_of(buffer: Option<Vec<u8>>) -> Option<Seq<u8>> {
    match buffer {
        Some(bytes) => Some(bytes@),
        None => None,
    }
}

/// What decoding `stream` yields when the engine found `inflated` in it: the
/// payload if there is one and the frame of `stream` matches it.
pub open spec fn accepted(stream: Seq<u8>, inflated: Option<Seq<u8>>) -> Result<
    Seq<u8>,
    GzipError,
> {
    match inflated {
        Some(payload) => if frames(stream, payload) {
            Ok(payload)
        } else {
            Err(GzipError::Format)
        },
        None => Err(GzipError::Format),
    }
}

/// What decoding `stream` yields.
pub open spec fn decoded(stream: Seq<u8>) -> Result<Seq<u8>, GzipError> {
    accepted(stream, gz_payload(stream))
}

/// What encoding `data` yields when the engine made `stream` of it and found
/// `inflated` in `stream`: the stream, if it decodes back to `data`.
pub open spec fn sealed(data: Seq<u8>, stream: Seq<u8>, inflated: Option<Seq<u8>>) -> Result<
    Seq<u8>,
    GzipError,
> {
    match accepted(stream, inflated) {
        Ok(payload) => if payload == data {
            Ok(stream)
        } else {
            Err(GzipError::Codec)
        },
        Err(_) => Err(GzipError::Codec),
    }
}

/// What encoding `data` yields.
pub open spec fn encoded(data: Seq<u8>) -> Result<Seq<u8>, GzipError> {
    match gz_stream(data) {
        Some(stream) => sealed(data, stream, gz_payload(stream)),
        None => Err(GzipError::Codec),
    }
}

/// What a run in the direction `action` makes of `input`.
pub open spec fn transformed(input: Seq<u8>, action: CompressAction) -> Result<
    Seq<u8>,
    GzipError,
> {
    match action {
        CompressAction::Encode => encoded(input),
        CompressAction::Decode => decoded(input),
    }
}

/// The one failure that a run in the direction `action` can end in.
pub open spec fn failure_of(action: CompressAction) -> GzipError {
    match action {
        CompressAction::Encode => GzipError::Codec,
        CompressAction::Decode => GzipError::Format,
    }
}

/// Tells whether two buffers hold the same bytes.
pub fn same_bytes(a: &[u8], b: &[u8]) -> (same: bool)
    ensures
        same == (a@ == b@),
{
    if a.len() != b.len() {
        return false;
    }
    let mut pos: usize = 0;
    while pos < a.len()
        invariant
            a@.len() == b@.len(),
            pos <= a.len(),
            forall|i: int| 0 <= i < pos ==> a@[i] == b@[i],
        decreases a.len() - pos,
    {
        if a[pos] != b[pos] {
            return false;
        }
        pos += 1;
    }
    assert(a@ =~= b@);
    true
}

/// Decides on what the engine found in `stream`: the payload is handed out
/// if the frame of `stream` matches it, and a format error otherwise.
pub fn accept(stream: &[u8], inflated: Option<Vec<u8>>) -> (res: Result<Vec<u8>, GzipError>)
    ensures
        outcome(res) == accepted(stream@, bytes_of(inflated)),
{
    match inflated {
        Some(payload) => {
            if check_frame(stream, payload.as_slice()) {
                Ok(payload)
            } else {
                Err(GzipError::Format)
            }
        },
        None => Err(GzipError::Format),
    }
}

/// Decides on a stream that the engine made of `data`, given what the engine
/// found in it again: `stream` is handed out if it decodes back to `data`.
pub fn seal(data: &[u8], stream: Vec<u8>, inflated: Option<Vec<u8>>) -> (res: Result<
    Vec<u8>,
    GzipError,
>)
    ensures
        outcome(res) == sealed(data@, stream@, bytes_of(inflated)),
{
    match accept(stream.as_slice(), inflated) {
        Ok(payload) => {
            if same_bytes(payload.as_slice(), data) {
                Ok(stream)
            } else {
                Err(GzipError::Codec)
            }
        },
        Err(_) => Err(GzipError::Codec),
    }
}

/// Decompresses a gzip stream.
///
/// Fails with [`GzipError::Format`] unless the engine accepts `stream` and
/// the frame of `stream` matches the payload: magic bytes, deflate method,
/// CRC-32 and length.
pub fn decode(stream: &[u8]) -> (res: Result<Vec<u8>, GzipError>)
    ensures
        outcome(res) == decoded(stream@),
        !starts_as_gzip(stream@) ==> res is Err,
        res matches Ok(payload) ==> frames(stream@, payload@),
        res matches Err(e) ==> e == GzipError::Format,
{
    if !has_gzip_start(stream) {
        return Err(GzipError::Format);
    }
    let inflated = match inflate_gzip(stream) {
        Ok(payload) => Some(payload),
        Err(_) => None,
    };
    accept(stream, inflated)
}

/// Compresses `data` into a gzip stream.
///
/// The stream is decoded again before it is handed out, so every stream that
/// comes back is complete and holds `data`. Fails with [`GzipError::Codec`]
/// if the engine fails or the stream does not pass.
pub fn encode(data: &[u8]) -> (res: Result<Vec<u8>, GzipError>)
    ensures
        outcome(res) == encoded(data@),
        res matches Ok(stream) ==> frames(stream@, data@) && decoded(stream@) == Ok::<
            Seq<u8>,
            GzipError,
        >(data@),
        res matches Err(e) ==> e == GzipError::Codec,
{
    match deflate_to_gzip(data) {
        Ok(stream) => {
            let inflated = match inflate_gzip(stream.as_slice()) {
                Ok(payload) => Some(payload),
                Err(_) => None,
            };
            seal(data, stream, inflated)
        },
        Err(_) => Err(GzipError::Codec),
    }
}

/// Transforms `input` in the direction `action`.
///
/// The result depends on `input` and `action` alone. An encode run fails
/// with [`GzipError::Codec`] only, a decode run with [`GzipError::Format`]
/// only.
pub fn gzip(input: &[u8], action: CompressAction) -> (res: Result<Vec<u8>, GzipError>)
    ensures
        outcome(res) == transformed(input@, action),
        res matches Err(e) ==> e == failure_of(action),
{
    match action {
        CompressAction::Encode => encode(input),
        CompressAction::Decode => decode(input),
    }
}

/// Round trip: a stream that encoding `data` yields decodes to `data`.
pub proof fn lemma_round_trip(data: Seq<u8>)
    ensures
        encoded(data) matches Ok(stream) ==> decoded(stream) == Ok::<Seq<u8>, GzipError>(data),
{
}

/// A stream that encoding `data` yields starts with the magic bytes `1f 8b`
/// and the deflate method, and ends with the CRC-32 of `data` and the length
/// of `data` modulo 2^32.
pub proof fn lemma_encoded_frame(data: Seq<u8>)
    ensures
        encoded(data) matches Ok(stream) ==> {
            &&& stream.len() >= 18
            &&& stream[0] == 0x1f
            &&& stream[1] == 0x8b
            &&& stream[2] == 8
            &&& stored_trailer(stream) == trailer_of(data)
        },
{
}

/// A payload that decoding `stream` yields is the one that the frame of
/// `stream` announces: `stream` starts as a gzip member, and its trailer holds
/// the CRC-32 and the length of the payload.
pub proof fn lemma_decoded_frame(stream: Seq<u8>)
    ensures
        decoded(stream) matches Ok(payload) ==> {
            &&& starts_as_gzip(stream)
            &&& stored_trailer(stream) == trailer_of(payload)
        },
{
}

/// A stream too short for a member, or one that does not start with the magic
/// bytes and the deflate method, is rejected whatever the engine makes of it.
pub proof fn lemma_bad_start_rejected(stream: Seq<u8>)
    requires
        !starts_as_gzip(stream),
    ensures
        decoded(stream) == Err::<Seq<u8>, GzipError>(GzipError::Format),
{
}

/// A change in the trailer never goes unnoticed: if `stream` decodes to a
/// payload and `altered` differs from it in a byte of the trailer, then
/// `altered` does not decode to that payload. Whatever it decodes to has
/// another CRC-32 or another length; and if the engine finds in `altered` what
/// it found in `stream`, decoding `altered` fails with a format error.
pub proof fn lemma_altered_trailer(stream: Seq<u8>, altered: Seq<u8>, at: int)
    requires
        decoded(stream) is Ok,
        altered.len() == stream.len(),
        stream.len() - TRAILER_LEN <= at < stream.len(),
        altered[at] != stream[at],
    ensures
        decoded(altered) != decoded(stream),
        decoded(altered) matches Ok(other) ==> trailer_of(other) != trailer_of(
            decoded(stream)->Ok_0,
        ),
        gz_payload(altered) == gz_payload(stream) ==> decoded(altered) == Err::<
            Seq<u8>,
            GzipError,
        >(GzipError::Format),
{
    let len = stream.len() as int;
    if stored_trailer(altered) == stored_trailer(stream) {
        lemma_word_tells_bytes(stream, altered, len - 8);
        lemma_word_tells_bytes(stream, altered, len - 4);
    }
}

/// A run fails in one way only: an encode run with a codec error, a decode
/// run with a format error.
pub proof fn lemma_failure_by_direction(input: Seq<u8>, action: CompressAction)
    ensures
        transformed(input, action) matches Err(e) ==> e == failure_of(action),
{
}

/// Two runs on the same input in the same direction end alike: with the same
/// bytes, or with the same failure.
pub proof fn lemma_rerun_ends_alike(
    input: Seq<u8>,
    action: CompressAction,
    first: Result<Vec<u8>, GzipError>,
    second: Result<Vec<u8>, GzipError>,
)
    requires
        outcome(first) == transformed(input, action),
        outcome(second) == transformed(input, action),
    ensures
        outcome(first) == outcome(second),
{
}

} // verus!
