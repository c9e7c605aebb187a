//! Parameters of the modulus used by the squaring operation.
use vstd::prelude::*;

verus! {

/// The parameters of the word-sized modulus `2^32`. It is no field: the
/// multiplication sub-protocol uses it only as a modulus.
#[derive(Debug, Clone, Copy, PartialEq, Eq)]
pub struct U32Field;

/// `2^32`, the modulus that a stored modulus of zero stands for.
pub const TWO_POW_32: u64 = 0x1_0000_0000;

impl U32Field {
    /// The modulus as little-endian bytes: `2^32` needs a fifth byte.
    pub const MODULUS: [u8; 5] = [0, 0, 0, 0, 1];

    /// The modulus, `2^32`.
    pub fn modulus() -> (r: u64)
        ensures
            r == 0x1_0000_0000,
    {
        TWO_POW_32
    }
}

} // verus!
