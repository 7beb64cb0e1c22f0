//! The error taxonomy shared by every decoder in the crate.

use vstd::prelude::*;

verus! {

/// A decode failure, returned as a typed result to the immediate caller.
#[derive(Debug, Clone, Copy, PartialEq, Eq, Structural)]
pub enum Error {
    /// The input bytes violate the format: a start-code byte that is neither
    /// `0x00` nor `0x01`, a set forbidden_zero_bit, an illegal combination of
    /// `nal_ref_idc` and `nal_unit_type`, an Exp-Golomb code wider than the
    /// supported 32 bits, an `me(v)` lookup miss, or an unsupported
    /// `chroma_array_type`.
    MalformedInput,
    /// The underlying byte source was exhausted in the middle of a unit or of
    /// a field.
    UnexpectedEndOfData,
    /// A length-prefixed (AVCC) stream was requested; only the Annex-B
    /// byte-stream format is implemented.
    UnsupportedFormat,
}

} // verus!
