//! Gzip encoding and decoding of whole byte buffers.
//!
//! The compression itself is done by `flate2`. Around it this crate proves what
//! it hands out: every stream that [`codec::encode`] returns carries the gzip
//! magic bytes and a trailer with the CRC-32 and the length of the input, and
//! decodes back to that input; every payload that [`codec::decode`] returns
//! matches the trailer of the stream it came from.

pub mod checksum;
pub mod codec;
pub mod error;
pub mod frame;
