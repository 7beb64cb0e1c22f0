//! The outer shell of the picture parameter set. Field-level PPS decoding is
//! outside the core and left to consumers of the raw payload.

use vstd::prelude::*;

verus! {

/// The picture parameter set record; a placeholder shell holding its first
/// payload byte.
#[derive(Debug, Clone, Copy, PartialEq, Eq, Structural)]
pub struct PictureParameterSet {
    pub b: u8,
}

} // verus!
