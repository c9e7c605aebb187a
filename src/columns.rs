//! The columns of one trace row. Each entry is an element of the prime field
//! `F_p` (the BabyBear field), held as its canonical representative.
use vstd::prelude::*;

verus! {

/// The characteristic of the trace field: `15 * 2^27 + 1`.
pub const FIELD_P: u64 = 2013265921;

/// The offset added to each signed carry of the multiplication identity, so
/// that it can be range-checked as two bytes.
pub const WITNESS_OFFSET: u64 = 16384;

/// The number of columns of a row.
pub const NUM_COLS: usize = 64;

/// Whether `v` is the canonical representative of a field element.
pub open spec fn felt(v: u32) -> bool {
    (v as int) < FIELD_P as int
}

/// The columns of a memory read: the value read, as bytes, and the previous
/// access to the word.
#[derive(Debug, Clone, Copy, PartialEq, Eq)]
pub struct MemoryReadCols {
    pub value: [u32; 4],
    pub prev_shard: u32,
    pub prev_clk: u32,
}

/// The columns of a memory write: the value written and the value replaced,
/// as bytes, and the previous access to the word.
#[derive(Debug, Clone, Copy, PartialEq, Eq)]
pub struct MemoryWriteCols {
    pub prev_value: [u32; 4],
    pub value: [u32; 4],
    pub prev_shard: u32,
    pub prev_clk: u32,
}

/// The columns of a zero test: the inverse of the tested value where it is
/// not zero, and the indicator that it is zero.
#[derive(Debug, Clone, Copy, PartialEq, Eq)]
pub struct IsZeroCols {
    pub inverse: u32,
    pub result: u32,
}

/// The columns of the modular multiplication `a * b = quotient * m + result`:
/// the result and the quotient as bytes, and each signed carry between limb
/// positions, offset and split into a low and a high byte.
#[derive(Debug, Clone, Copy, PartialEq, Eq)]
pub struct FieldOpCols {
    pub result: [u32; 4],
    pub carry: [u32; 8],
    pub witness_low: [u32; 11],
    pub witness_high: [u32; 11],
}

/// The columns of a range check `lhs < rhs` on four bytes: a flag on the most
/// significant byte where the two differ, and the two bytes compared there.
#[derive(Debug, Clone, Copy, PartialEq, Eq)]
pub struct FieldLtCols {
    pub byte_flags: [u32; 4],
    pub lhs_comparison_byte: u32,
    pub rhs_comparison_byte: u32,
}

/// A set of columns for the squaring operation.
#[derive(Debug, Clone, Copy, PartialEq, Eq)]
pub struct Uint32SqrCols {
    /// The shard number of the syscall.
    pub shard: u32,
    /// The clock cycle of the syscall.
    pub clk: u32,
    /// The pointer to the first input, the x value.
    pub x_ptr: u32,
    /// The pointer to the second input, the modulus value.
    pub modulus_ptr: u32,
    /// x is overwritten with the result, so it is a write.
    pub x_memory: MemoryWriteCols,
    pub modulus_memory: MemoryReadCols,
    /// Whether the modulus is zero; then `2^32` is the effective modulus.
    pub modulus_is_zero: IsZeroCols,
    /// Equal to `is_real * (1 - modulus_is_zero.result)`.
    pub modulus_is_not_zero: u32,
    /// The output `(x * x) % modulus`, with its witnesses.
    pub output: FieldOpCols,
    pub output_range_check: FieldLtCols,
    pub is_real: u32,
}

} // verus!
