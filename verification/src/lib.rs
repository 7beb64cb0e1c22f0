//! Parser for the H.264 Annex-B byte-stream format.
//!
//! The library walks a raw elementary stream, locates start-code-delimited
//! NAL units, removes emulation-prevention escape bytes, decodes the one-byte
//! NAL unit header into a typed classification, and exposes the raw payload.
//! On top of the bit-level reader it provides the Exponential-Golomb codec
//! (`ue(v)`, `se(v)`, `me(v)`) used throughout H.264 syntax, and a parser for
//! the SEI message container with its continuation-byte length/type scheme.

pub mod bits;
pub mod error;
pub mod golomb;
pub mod nalu;
pub mod pps;
pub mod rbsp;
pub mod sei;
pub mod sps;
pub mod stream;
