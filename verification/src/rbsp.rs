//! Raw byte sequence payloads (RBSP): the de-escaped NALU body after its
//! one-byte header.

use vstd::prelude::*;

verus! {

/// An uninterpreted RBSP, held as its raw bytes.
#[derive(Debug, Clone)]
pub struct DebugRbSp {
    pub bytes: Vec<u8>,
}

impl DebugRbSp {
    /// Wrap a copy of the bytes.
    pub fn from_bytes(bytes: &Vec<u8>) -> (r: DebugRbSp)
        ensures
            r.bytes@ == bytes@,
    {
        let mut copy: Vec<u8> = Vec::new();
        let mut i: usize = 0;
        while i < bytes.len()
            invariant
                i <= bytes@.len(),
                copy@ == bytes@.subrange(0, i as int),
            decreases bytes@.len() - i,
        {
            copy.push(bytes[i]);
            proof {
                assert(bytes@.subrange(0, i as int).push(bytes@[i as int]) =~= bytes@.subrange(
                    0,
                    i + 1,
                ));
            }
            i = i + 1;
        }
        proof {
            assert(bytes@.subrange(0, bytes@.len() as int) =~= bytes@);
        }
        DebugRbSp { bytes: copy }
    }

    /// The payload byte length.
    pub fn len(&self) -> (r: usize)
        ensures
            r == self.bytes@.len(),
    {
        self.bytes.len()
    }

    /// The payload bytes.
    pub fn as_bytes(&self) -> (r: &Vec<u8>)
        ensures
            r@ == self.bytes@,
    {
        &self.bytes
    }
}

} // verus!
