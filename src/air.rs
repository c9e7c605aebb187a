//! The row-local constraint system of the squaring operation.
//!
//! Every constraint is a polynomial over the row's entries that must vanish in
//! the field `F_p`, or a lookup that the byte table answers. A boolean
//! assertion `v * (v - 1) = 0` has the roots `0` and `1` only, and is stated
//! as such.
use vstd::prelude::*;
use crate::executor::sqr_mod;
use crate::executor::effective_modulus;
use crate::words::le4;
use crate::columns::{FieldLtCols, Uint32SqrCols, FIELD_P, WITNESS_OFFSET, felt};

verus! {

/// `v` is zero in the field.
pub open spec fn vanishes(v: int) -> bool {
    v % (FIELD_P as int) == 0
}

/// `v` is `0` or `1`.
pub open spec fn is_bit(v: u32) -> bool {
    v == 0 || v == 1
}

/// Limb `i` of x, the value that the write to `x_ptr` replaced.
pub open spec fn x_limb(row: Uint32SqrCols, i: int) -> int {
    row.x_memory.prev_value@[i] as int
}

/// Limb `i` of the stored modulus.
pub open spec fn modulus_limb(row: Uint32SqrCols, i: int) -> int {
    row.modulus_memory.value@[i] as int
}

/// Limb `i` of the claimed result.
pub open spec fn result_limb(row: Uint32SqrCols, i: int) -> int {
    row.output.result@[i] as int
}

/// Limb `i` of the quotient witness.
pub open spec fn quotient_limb(row: Uint32SqrCols, i: int) -> int {
    row.output.carry@[i] as int
}

/// The zero indicator of the modulus.
pub open spec fn zero_flag(row: Uint32SqrCols) -> int {
    row.modulus_is_zero.result as int
}

/// Coefficient `j` of the effective modulus polynomial
/// `modulus * (1 - z) + 2^32 * z`, with `2^32` as the coefficients `[0, 0, 0, 0, 1]`.
pub open spec fn eff_limb(row: Uint32SqrCols, j: int) -> int {
    if j < 4 {
        modulus_limb(row, j) * (1 - zero_flag(row))
    } else {
        zero_flag(row)
    }
}

/// The signed carry out of limb position `k`.
pub open spec fn carry(row: Uint32SqrCols, k: int) -> int {
    row.output.witness_low@[k] as int + 256 * row.output.witness_high@[k] as int - WITNESS_OFFSET as int
}

/// The sum of the modulus bytes: zero exactly when the modulus is.
pub open spec fn modulus_byte_sum(row: Uint32SqrCols) -> int {
    modulus_limb(row, 0) + modulus_limb(row, 1) + modulus_limb(row, 2) + modulus_limb(row, 3)
}

/// Limb position `k` of `x * x - quotient * e - result`, with the carry in
/// from position `k - 1` and the carry out to position `k + 1`.
pub open spec fn mul_limb(row: Uint32SqrCols, k: int) -> int {
    if k == 0 {
        x_limb(row, 0) * x_limb(row, 0) - quotient_limb(row, 0) * eff_limb(row, 0) - result_limb(row, 0) - 256 * carry(row, 0)
    } else if k == 1 {
        x_limb(row, 0) * x_limb(row, 1) + x_limb(row, 1) * x_limb(row, 0) - quotient_limb(row, 0) * eff_limb(row, 1) - quotient_limb(row, 1) * eff_limb(row, 0) - result_limb(row, 1) + carry(row, 0) - 256 * carry(row, 1)
    } else if k == 2 {
        x_limb(row, 0) * x_limb(row, 2) + x_limb(row, 1) * x_limb(row, 1) + x_limb(row, 2) * x_limb(row, 0) - quotient_limb(row, 0) * eff_limb(row, 2) - quotient_limb(row, 1) * eff_limb(row, 1) - quotient_limb(row, 2) * eff_limb(row, 0) - result_limb(row, 2) + carry(row, 1) - 256 * carry(row, 2)
    } else if k == 3 {
        x_limb(row, 0) * x_limb(row, 3) + x_limb(row, 1) * x_limb(row, 2) + x_limb(row, 2) * x_limb(row, 1) + x_limb(row, 3) * x_limb(row, 0) - quotient_limb(row, 0) * eff_limb(row, 3) - quotient_limb(row, 1) * eff_limb(row, 2) - quotient_limb(row, 2) * eff_limb(row, 1) - quotient_limb(row, 3) * eff_limb(row, 0) - result_limb(row, 3) + carry(row, 2) - 256 * carry(row, 3)
    } else if k == 4 {
        x_limb(row, 1) * x_limb(row, 3) + x_limb(row, 2) * x_limb(row, 2) + x_limb(row, 3) * x_limb(row, 1) - quotient_limb(row, 0) * eff_limb(row, 4) - quotient_limb(row, 1) * eff_limb(row, 3) - quotient_limb(row, 2) * eff_limb(row, 2) - quotient_limb(row, 3) * eff_limb(row, 1) - quotient_limb(row, 4) * eff_limb(row, 0) + carry(row, 3) - 256 * carry(row, 4)
    } else if k == 5 {
        x_limb(row, 2) * x_limb(row, 3) + x_limb(row, 3) * x_limb(row, 2) - quotient_limb(row, 1) * eff_limb(row, 4) - quotient_limb(row, 2) * eff_limb(row, 3) - quotient_limb(row, 3) * eff_limb(row, 2) - quotient_limb(row, 4) * eff_limb(row, 1) - quotient_limb(row, 5) * eff_limb(row, 0) + carry(row, 4) - 256 * carry(row, 5)
    } else if k == 6 {
        x_limb(row, 3) * x_limb(row, 3) - quotient_limb(row, 2) * eff_limb(row, 4) - quotient_limb(row, 3) * eff_limb(row, 3) - quotient_limb(row, 4) * eff_limb(row, 2) - quotient_limb(row, 5) * eff_limb(row, 1) - quotient_limb(row, 6) * eff_limb(row, 0) + carry(row, 5) - 256 * carry(row, 6)
    } else if k == 7 {
        0 - quotient_limb(row, 3) * eff_limb(row, 4) - quotient_limb(row, 4) * eff_limb(row, 3) - quotient_limb(row, 5) * eff_limb(row, 2) - quotient_limb(row, 6) * eff_limb(row, 1) - quotient_limb(row, 7) * eff_limb(row, 0) + carry(row, 6) - 256 * carry(row, 7)
    } else if k == 8 {
        0 - quotient_limb(row, 4) * eff_limb(row, 4) - quotient_limb(row, 5) * eff_limb(row, 3) - quotient_limb(row, 6) * eff_limb(row, 2) - quotient_limb(row, 7) * eff_limb(row, 1) + carry(row, 7) - 256 * carry(row, 8)
    } else if k == 9 {
        0 - quotient_limb(row, 5) * eff_limb(row, 4) - quotient_limb(row, 6) * eff_limb(row, 3) - quotient_limb(row, 7) * eff_limb(row, 2) + carry(row, 8) - 256 * carry(row, 9)
    } else if k == 10 {
        0 - quotient_limb(row, 6) * eff_limb(row, 4) - quotient_limb(row, 7) * eff_limb(row, 3) + carry(row, 9) - 256 * carry(row, 10)
    } else {
        0 - quotient_limb(row, 7) * eff_limb(row, 4) + carry(row, 10)
    }
}

/// Every entry of the row is a field element.
pub open spec fn row_felts(row: Uint32SqrCols) -> bool {
    &&& felt(row.shard) && felt(row.clk) && felt(row.x_ptr) && felt(row.modulus_ptr)
    &&& forall|i: int| 0 <= i < 4 ==> felt(#[trigger] row.x_memory.prev_value@[i])
    &&& forall|i: int| 0 <= i < 4 ==> felt(#[trigger] row.x_memory.value@[i])
    &&& felt(row.x_memory.prev_shard) && felt(row.x_memory.prev_clk)
    &&& forall|i: int| 0 <= i < 4 ==> felt(#[trigger] row.modulus_memory.value@[i])
    &&& felt(row.modulus_memory.prev_shard) && felt(row.modulus_memory.prev_clk)
    &&& felt(row.modulus_is_zero.inverse) && felt(row.modulus_is_zero.result)
    &&& felt(row.modulus_is_not_zero)
    &&& forall|i: int| 0 <= i < 4 ==> felt(#[trigger] row.output.result@[i])
    &&& forall|i: int| 0 <= i < 8 ==> felt(#[trigger] row.output.carry@[i])
    &&& forall|i: int| 0 <= i < 11 ==> felt(#[trigger] row.output.witness_low@[i])
    &&& forall|i: int| 0 <= i < 11 ==> felt(#[trigger] row.output.witness_high@[i])
    &&& forall|i: int| 0 <= i < 4 ==> felt(#[trigger] row.output_range_check.byte_flags@[i])
    &&& felt(row.output_range_check.lhs_comparison_byte)
    &&& felt(row.output_range_check.rhs_comparison_byte)
    &&& felt(row.is_real)
}

/// The byte-range lookups that a real row sends: every byte limb of memory
/// and of the multiplication witnesses is below 256.
pub open spec fn bytes_in_range(row: Uint32SqrCols) -> bool {
    &&& forall|i: int| 0 <= i < 4 ==> #[trigger] row.x_memory.prev_value@[i] < 256
    &&& forall|i: int| 0 <= i < 4 ==> #[trigger] row.x_memory.value@[i] < 256
    &&& forall|i: int| 0 <= i < 4 ==> #[trigger] row.modulus_memory.value@[i] < 256
    &&& forall|i: int| 0 <= i < 4 ==> #[trigger] row.output.result@[i] < 256
    &&& forall|i: int| 0 <= i < 8 ==> #[trigger] row.output.carry@[i] < 256
    &&& forall|i: int| 0 <= i < 11 ==> #[trigger] row.output.witness_low@[i] < 256
    &&& forall|i: int| 0 <= i < 11 ==> #[trigger] row.output.witness_high@[i] < 256
}

/// The constraints of a real row: byte ranges, the zero test of the modulus
/// byte sum, the multiplication identity at each limb position, and the result
/// written over x.
pub open spec fn real_row_constraints(row: Uint32SqrCols) -> bool {
    &&& bytes_in_range(row)
    &&& is_bit(row.modulus_is_zero.result)
    &&& vanishes(modulus_byte_sum(row) * row.modulus_is_zero.inverse - (1 - zero_flag(row)))
    &&& vanishes(modulus_byte_sum(row) * zero_flag(row))
    &&& vanishes(mul_limb(row, 0))
    &&& vanishes(mul_limb(row, 1))
    &&& vanishes(mul_limb(row, 2))
    &&& vanishes(mul_limb(row, 3))
    &&& vanishes(mul_limb(row, 4))
    &&& vanishes(mul_limb(row, 5))
    &&& vanishes(mul_limb(row, 6))
    &&& vanishes(mul_limb(row, 7))
    &&& vanishes(mul_limb(row, 8))
    &&& vanishes(mul_limb(row, 9))
    &&& vanishes(mul_limb(row, 10))
    &&& vanishes(mul_limb(row, 11))
    &&& forall|i: int| 0 <= i < 4 ==> vanishes(#[trigger] row.x_memory.value@[i] - row.output.result@[i])
}

/// The sum of the range-check flags at positions `j` and above.
pub open spec fn flags_from(c: FieldLtCols, j: int) -> int
    decreases 4 - j,
{
    if j >= 4 {
        0
    } else {
        c.byte_flags@[j] as int + flags_from(c, j + 1)
    }
}

/// The range check `result < rhs` on four bytes: one flag marks the byte
/// compared, all bytes above it are equal, and the byte lookup answers
/// `lhs_comparison_byte < rhs_comparison_byte`.
pub open spec fn lt_constraints(c: FieldLtCols, lhs: [u32; 4], rhs: [u32; 4]) -> bool {
    &&& forall|i: int| 0 <= i < 4 ==> is_bit(#[trigger] c.byte_flags@[i])
    &&& vanishes(flags_from(c, 0) - 1)
    &&& forall|i: int|
        0 <= i < 4 ==> vanishes(#[trigger] c.byte_flags@[i] * (c.lhs_comparison_byte - lhs@[i]))
    &&& forall|i: int|
        0 <= i < 4 ==> vanishes(#[trigger] c.byte_flags@[i] * (c.rhs_comparison_byte - rhs@[i]))
    &&& forall|j: int| 0 <= j < 4 ==> vanishes((1 - #[trigger] flags_from(c, j)) * (lhs@[j] - rhs@[j]))
    &&& c.lhs_comparison_byte < 256 && c.rhs_comparison_byte < 256
    &&& c.lhs_comparison_byte < c.rhs_comparison_byte
}

/// All constraints of one row. `is_real` is boolean; a real row meets the
/// real-row constraints; `modulus_is_not_zero = is_real * (1 - z)`; and where
/// it is set, the result is checked to be below the modulus.
pub open spec fn constraints_hold(row: Uint32SqrCols) -> bool {
    &&& is_bit(row.is_real)
    &&& row.is_real == 1 ==> real_row_constraints(row)
    &&& vanishes(row.modulus_is_not_zero - row.is_real * (1 - zero_flag(row)))
    &&& row.modulus_is_not_zero == 1 ==> lt_constraints(
        row.output_range_check,
        row.output.result,
        row.modulus_memory.value,
    )
}

fn byte_mul(u: i64, v: i64) -> (r: i64)
    requires
        0 <= u < 256,
        0 <= v < 256,
    ensures
        r == u * v,
        0 <= r <= 65025,
{
    assert(0 <= u * v <= 65025) by (nonlinear_arith)
        requires
            0 <= u < 256,
            0 <= v < 256,
    ;
    u * v
}

fn all_bytes<const N: usize>(limbs: &[u32; N]) -> (r: bool)
    ensures
        r == forall|i: int| 0 <= i < N ==> #[trigger] limbs@[i] < 256,
{
    let mut i: usize = 0;
    while i < N
        invariant
            i <= N,
            forall|j: int| 0 <= j < i ==> #[trigger] limbs@[j] < 256,
        decreases N - i,
    {
        if limbs[i] >= 256 {
            return false;
        }
        i = i + 1;
    }
    true
}

fn check_bytes(row: &Uint32SqrCols) -> (r: bool)
    ensures
        r == bytes_in_range(*row),
{
    if !all_bytes(&row.x_memory.prev_value) {
        return false;
    }
    if !all_bytes(&row.x_memory.value) {
        return false;
    }
    if !all_bytes(&row.modulus_memory.value) {
        return false;
    }
    if !all_bytes(&row.output.result) {
        return false;
    }
    if !all_bytes(&row.output.carry) {
        return false;
    }
    if !all_bytes(&row.output.witness_low) {
        return false;
    }
    if !all_bytes(&row.output.witness_high) {
        return false;
    }
    true
}

/// The zero test of the modulus byte sum.
pub open spec fn zero_test_holds(row: Uint32SqrCols) -> bool {
    &&& is_bit(row.modulus_is_zero.result)
    &&& vanishes(modulus_byte_sum(row) * row.modulus_is_zero.inverse - (1 - zero_flag(row)))
    &&& vanishes(modulus_byte_sum(row) * zero_flag(row))
}

fn check_zero_test(row: &Uint32SqrCols) -> (r: bool)
    requires
        row_felts(*row),
        bytes_in_range(*row),
    ensures
        r == zero_test_holds(*row),
{
    let z = row.modulus_is_zero.result;
    if !(z == 0 || z == 1) {
        return false;
    }
    let m = row.modulus_memory.value;
    assert(m@[0] < 256 && m@[1] < 256 && m@[2] < 256 && m@[3] < 256);
    let s: u64 = m[0] as u64 + m[1] as u64 + m[2] as u64 + m[3] as u64;
    assert(s as int == modulus_byte_sum(*row));
    let inv = row.modulus_is_zero.inverse as u64;
    assert(s * inv <= 1020 * 0xffff_ffff) by (nonlinear_arith)
        requires
            s <= 1020,
            inv <= 0xffff_ffff,
    ;
    let t: u64 = s * inv + z as u64;
    proof {
        lemma_vanishes_shift(s * inv + z, 1);
        let zf = zero_flag(*row);
        let si = s as int;
        assert(si * zf == if zf == 1 { si } else { 0 }) by (nonlinear_arith)
            requires
                zf == 0 || zf == 1,
        ;
        lemma_small_vanishes(si * zf);
    }
    t % FIELD_P == 1 && !(z == 1 && s != 0)
}

fn eval_real_row(row: &Uint32SqrCols) -> (r: bool)
    requires
        row_felts(*row),
        row.is_real == 1,
    ensures
        r == real_row_constraints(*row),
{
    if !check_bytes(row) {
        return false;
    }
    if !check_zero_test(row) {
        return false;
    }
    let v = mul_limb_values(row);
    proof {
        assert forall|k: int| 0 <= k < 12 implies vanishes(mul_limb(*row, k)) == (#[trigger] v@[k] == 0) by {
            lemma_small_vanishes(v@[k] as int);
        }
    }
    if !(v[0] == 0 && v[1] == 0 && v[2] == 0 && v[3] == 0 && v[4] == 0 && v[5] == 0 && v[6] == 0
        && v[7] == 0 && v[8] == 0 && v[9] == 0 && v[10] == 0 && v[11] == 0) {
        assert(!(v@[0] == 0 && v@[1] == 0 && v@[2] == 0 && v@[3] == 0 && v@[4] == 0 && v@[5] == 0
            && v@[6] == 0 && v@[7] == 0 && v@[8] == 0 && v@[9] == 0 && v@[10] == 0 && v@[11] == 0));
        return false;
    }
    let xw = row.x_memory.value;
    let rv = row.output.result;
    proof {
        assert forall|i: int| 0 <= i < 4 implies vanishes(#[trigger] xw@[i] - rv@[i]) == (xw@[i] == rv@[i]) by {
            lemma_small_vanishes(xw@[i] - rv@[i]);
        }
    }
    let r = xw[0] == rv[0] && xw[1] == rv[1] && xw[2] == rv[2] && xw[3] == rv[3];
    proof {
        if !r {
            assert(!(xw@[0] == rv@[0] && xw@[1] == rv@[1] && xw@[2] == rv@[2] && xw@[3] == rv@[3]));
        }
    }
    r
}

fn carries(row: &Uint32SqrCols) -> (c: [i64; 11])
    requires
        bytes_in_range(*row),
    ensures
        forall|j: int| 0 <= j < 11 ==> #[trigger] c@[j] == carry(*row, j),
        forall|j: int| 0 <= j < 11 ==> -16384 <= #[trigger] c@[j] < 65536,
{
    let wl = row.output.witness_low;
    let wh = row.output.witness_high;
    let mut c: [i64; 11] = [0; 11];
    let mut k: usize = 0;
    while k < 11
        invariant
            k <= 11,
            wl == row.output.witness_low,
            wh == row.output.witness_high,
            bytes_in_range(*row),
            forall|j: int| 0 <= j < k ==> #[trigger] c@[j] == carry(*row, j),
            forall|j: int| 0 <= j < k ==> -16384 <= #[trigger] c@[j] < 65536,
        decreases 11 - k,
    {
        assert(wl@[k as int] < 256 && wh@[k as int] < 256);
        c[k] = wl[k] as i64 + 256 * (wh[k] as i64) - WITNESS_OFFSET as i64;
        k = k + 1;
    }
    c
}

#[verifier::rlimit(60)]
fn mul_limb_values(row: &Uint32SqrCols) -> (v: [i64; 12])
    requires
        bytes_in_range(*row),
        is_bit(row.modulus_is_zero.result),
    ensures
        forall|k: int| 0 <= k < 12 ==> #[trigger] v@[k] == mul_limb(*row, k),
        forall|k: int| 0 <= k < 12 ==> -20000000 < #[trigger] v@[k] < 20000000,
{
    let z = row.modulus_is_zero.result;
    let m = row.modulus_memory.value;
    let xv = row.x_memory.prev_value;
    let a: [i64; 4] = [xv[0] as i64, xv[1] as i64, xv[2] as i64, xv[3] as i64];
    let q0 = row.output.carry;
    let q: [i64; 8] = [
        q0[0] as i64, q0[1] as i64, q0[2] as i64, q0[3] as i64,
        q0[4] as i64, q0[5] as i64, q0[6] as i64, q0[7] as i64,
    ];
    let e: [i64; 5] = if z == 1 {
        [0, 0, 0, 0, 1]
    } else {
        [m[0] as i64, m[1] as i64, m[2] as i64, m[3] as i64, 0]
    };
    let rv = row.output.result;
    let r: [i64; 4] = [rv[0] as i64, rv[1] as i64, rv[2] as i64, rv[3] as i64];
    let c = carries(row);
    proof {
        assert forall|j: int| 0 <= j < 4 implies #[trigger] eff_limb(*row, j) == e@[j] by {
            let mj = modulus_limb(*row, j);
            let zf = zero_flag(*row);
            assert(mj * (1 - zf) == if zf == 1 { 0 } else { mj }) by (nonlinear_arith)
                requires
                    zf == 0 || zf == 1,
            ;
        }
        assert(eff_limb(*row, 4) == e@[4]);
        assert(forall|j: int| 0 <= j < 5 ==> 0 <= #[trigger] e@[j] < 256);
        assert(forall|j: int| 0 <= j < 4 ==> #[trigger] a@[j] == x_limb(*row, j));
        assert(forall|j: int| 0 <= j < 8 ==> #[trigger] q@[j] == quotient_limb(*row, j));
        assert(forall|j: int| 0 <= j < 4 ==> #[trigger] r@[j] == result_limb(*row, j));
        assert(forall|j: int| 0 <= j < 4 ==> 0 <= #[trigger] a@[j] < 256);
        assert(forall|j: int| 0 <= j < 8 ==> 0 <= #[trigger] q@[j] < 256);
        assert(forall|j: int| 0 <= j < 4 ==> 0 <= #[trigger] r@[j] < 256);
    }
    let v0: i64 = byte_mul(a[0], a[0]) - byte_mul(q[0], e[0]) - r[0] - 256 * c[0];
    let v1: i64 = byte_mul(a[0], a[1]) + byte_mul(a[1], a[0]) - byte_mul(q[0], e[1]) - byte_mul(q[1], e[0]) - r[1] + c[0] - 256 * c[1];
    let v2: i64 = byte_mul(a[0], a[2]) + byte_mul(a[1], a[1]) + byte_mul(a[2], a[0]) - byte_mul(q[0], e[2]) - byte_mul(q[1], e[1]) - byte_mul(q[2], e[0]) - r[2] + c[1] - 256 * c[2];
    let v3: i64 = byte_mul(a[0], a[3]) + byte_mul(a[1], a[2]) + byte_mul(a[2], a[1]) + byte_mul(a[3], a[0]) - byte_mul(q[0], e[3]) - byte_mul(q[1], e[2]) - byte_mul(q[2], e[1]) - byte_mul(q[3], e[0]) - r[3] + c[2] - 256 * c[3];
    let v4: i64 = byte_mul(a[1], a[3]) + byte_mul(a[2], a[2]) + byte_mul(a[3], a[1]) - byte_mul(q[0], e[4]) - byte_mul(q[1], e[3]) - byte_mul(q[2], e[2]) - byte_mul(q[3], e[1]) - byte_mul(q[4], e[0]) + c[3] - 256 * c[4];
    let v5: i64 = byte_mul(a[2], a[3]) + byte_mul(a[3], a[2]) - byte_mul(q[1], e[4]) - byte_mul(q[2], e[3]) - byte_mul(q[3], e[2]) - byte_mul(q[4], e[1]) - byte_mul(q[5], e[0]) + c[4] - 256 * c[5];
    let v6: i64 = byte_mul(a[3], a[3]) - byte_mul(q[2], e[4]) - byte_mul(q[3], e[3]) - byte_mul(q[4], e[2]) - byte_mul(q[5], e[1]) - byte_mul(q[6], e[0]) + c[5] - 256 * c[6];
    let v7: i64 = 0 - byte_mul(q[3], e[4]) - byte_mul(q[4], e[3]) - byte_mul(q[5], e[2]) - byte_mul(q[6], e[1]) - byte_mul(q[7], e[0]) + c[6] - 256 * c[7];
    let v8: i64 = 0 - byte_mul(q[4], e[4]) - byte_mul(q[5], e[3]) - byte_mul(q[6], e[2]) - byte_mul(q[7], e[1]) + c[7] - 256 * c[8];
    let v9: i64 = 0 - byte_mul(q[5], e[4]) - byte_mul(q[6], e[3]) - byte_mul(q[7], e[2]) + c[8] - 256 * c[9];
    let v10: i64 = 0 - byte_mul(q[6], e[4]) - byte_mul(q[7], e[3]) + c[9] - 256 * c[10];
    let v11: i64 = 0 - byte_mul(q[7], e[4]) + c[10];
    proof {
        assert(v0 as int == mul_limb(*row, 0));
        assert(v1 as int == mul_limb(*row, 1));
        assert(v2 as int == mul_limb(*row, 2));
        assert(v3 as int == mul_limb(*row, 3));
        assert(v4 as int == mul_limb(*row, 4));
        assert(v5 as int == mul_limb(*row, 5));
        assert(v6 as int == mul_limb(*row, 6));
        assert(v7 as int == mul_limb(*row, 7));
        assert(v8 as int == mul_limb(*row, 8));
        assert(v9 as int == mul_limb(*row, 9));
        assert(v10 as int == mul_limb(*row, 10));
        assert(v11 as int == mul_limb(*row, 11));
    }
    let v = [v0, v1, v2, v3, v4, v5, v6, v7, v8, v9, v10, v11];
    assert(forall|k: int| 0 <= k < 12 ==> #[trigger] v@[k] == mul_limb(*row, k));
    v
}

pub proof fn lemma_small_vanishes(v: int)
    requires
        -(FIELD_P as int) < v < FIELD_P as int,
    ensures
        vanishes(v) == (v == 0),
{
}

fn check_lt(c: &FieldLtCols, lhs: &[u32; 4], rhs: &[u32; 4]) -> (r: bool)
    requires
        forall|i: int| 0 <= i < 4 ==> #[trigger] lhs@[i] < 256,
        forall|i: int| 0 <= i < 4 ==> #[trigger] rhs@[i] < 256,
        felt(c.lhs_comparison_byte),
        felt(c.rhs_comparison_byte),
    ensures
        r == lt_constraints(*c, *lhs, *rhs),
{
    let f = c.byte_flags;
    if !((f[0] == 0 || f[0] == 1) && (f[1] == 0 || f[1] == 1) && (f[2] == 0 || f[2] == 1) && (f[3]
        == 0 || f[3] == 1)) {
        proof {
            let k: int = if !is_bit(f@[0]) { 0 } else if !is_bit(f@[1]) { 1 } else if !is_bit(f@[2]) { 2 } else { 3 };
            assert(!is_bit(c.byte_flags@[k]));
        }
        return false;
    }
    proof {
        reveal_with_fuel(flags_from, 5);
        lemma_small_vanishes(flags_from(*c, 0) - 1);
    }
    if f[0] + f[1] + f[2] + f[3] != 1 {
        return false;
    }
    proof {
        assert forall|k: int| 0 <= k < 4 implies is_bit(#[trigger] c.byte_flags@[k]) by {
            assert(is_bit(f@[0]) && is_bit(f@[1]) && is_bit(f@[2]) && is_bit(f@[3]));
        }
    }
    let lb = c.lhs_comparison_byte;
    let rb = c.rhs_comparison_byte;
    proof {
        lemma_lt_terms(*c, *lhs, *rhs);
    }
    let mut i: usize = 0;
    while i < 4
        invariant
            i <= 4,
            f == c.byte_flags,
            forall|k: int| 0 <= k < 4 ==> #[trigger] lhs@[k] < 256,
            forall|k: int| 0 <= k < 4 ==> #[trigger] rhs@[k] < 256,
            felt(c.lhs_comparison_byte),
            felt(c.rhs_comparison_byte),
            forall|k: int| 0 <= k < 4 ==> is_bit(#[trigger] c.byte_flags@[k]),
            flags_from(*c, 0) == 1,
            lb == c.lhs_comparison_byte,
            rb == c.rhs_comparison_byte,
            forall|k: int| 0 <= k < i ==> (#[trigger] f@[k] == 0 || lb == lhs@[k]),
            forall|k: int| 0 <= k < i ==> (#[trigger] f@[k] == 0 || rb == rhs@[k]),
        decreases 4 - i,
    {
        if !(f[i] == 0 || (lb == lhs[i] && rb == rhs[i])) {
            proof {
                lemma_lt_terms(*c, *lhs, *rhs);
            }
            assert(!vanishes(c.byte_flags@[i as int] * (lb - lhs@[i as int])) || !vanishes(
                c.byte_flags@[i as int] * (rb - rhs@[i as int]),
            ));
            return false;
        }
        i = i + 1;
    }
    let f3 = f[3];
    let f23 = f[2] + f3;
    let f13 = f[1] + f23;
    let g: [u32; 4] = [f13 + f[0], f13, f23, f3];
    proof {
        assert forall|j: int| 0 <= j < 4 implies #[trigger] flags_from(*c, j) == g@[j] by {
            reveal_with_fuel(flags_from, 5);
        }
    }
    let mut j: usize = 0;
    while j < 4
        invariant
            j <= 4,
            forall|k: int| 0 <= k < 4 ==> #[trigger] flags_from(*c, k) == g@[k],
            forall|k: int| 0 <= k < 4 ==> #[trigger] lhs@[k] < 256,
            forall|k: int| 0 <= k < 4 ==> #[trigger] rhs@[k] < 256,
            felt(c.lhs_comparison_byte),
            felt(c.rhs_comparison_byte),
            forall|k: int| 0 <= k < 4 ==> is_bit(#[trigger] c.byte_flags@[k]),
            flags_from(*c, 0) == 1,
            lb == c.lhs_comparison_byte,
            rb == c.rhs_comparison_byte,
            forall|k: int| 0 <= k < j ==> (flags_from(*c, k) == 1 || #[trigger] lhs@[k] == rhs@[k]),
        decreases 4 - j,
    {
        if !(g[j] == 1 || lhs[j] == rhs[j]) {
            proof {
                lemma_lt_terms(*c, *lhs, *rhs);
            }
            assert(!vanishes((1 - flags_from(*c, j as int)) * (lhs@[j as int] - rhs@[j as int])));
            return false;
        }
        j = j + 1;
    }
    lb < 256 && rb < 256 && lb < rb
}

/// Evaluates every constraint of one row.
pub fn eval_row(row: &Uint32SqrCols) -> (r: bool)
    requires
        row_felts(*row),
    ensures
        r == constraints_hold(*row),
{
    let is_real = row.is_real;
    if !(is_real == 0 || is_real == 1) {
        return false;
    }
    if is_real == 1 && !eval_real_row(row) {
        return false;
    }
    let z = row.modulus_is_zero.result;
    let mnz = row.modulus_is_not_zero;
    proof {
        let ir = is_real as int;
        let zf = z as int;
        assert(ir * (1 - zf) == if ir == 0 { 0 } else { 1 - zf }) by (nonlinear_arith)
            requires
                ir == 0 || ir == 1,
        ;
        lemma_vanishes_shift(mnz + zf, 1);
        lemma_small_vanishes(mnz as int);
    }
    let ok = if is_real == 0 {
        mnz == 0
    } else {
        (mnz as u64 + z as u64) % FIELD_P == 1
    };
    if !ok {
        return false;
    }
    if mnz == 1 {
        proof {
            assert(bytes_in_range(*row));
        }
        check_lt(&row.output_range_check, &row.output.result, &row.modulus_memory.value)
    } else {
        true
    }
}

pub proof fn lemma_lt_terms(c: FieldLtCols, lhs: [u32; 4], rhs: [u32; 4])
    requires
        forall|i: int| 0 <= i < 4 ==> #[trigger] lhs@[i] < 256,
        forall|i: int| 0 <= i < 4 ==> #[trigger] rhs@[i] < 256,
        felt(c.lhs_comparison_byte),
        felt(c.rhs_comparison_byte),
        forall|i: int| 0 <= i < 4 ==> is_bit(#[trigger] c.byte_flags@[i]),
        flags_from(c, 0) == 1,
    ensures
        forall|i: int| 0 <= i < 4 ==> vanishes(#[trigger] c.byte_flags@[i] * (c.lhs_comparison_byte - lhs@[i]))
            == (c.byte_flags@[i] == 0 || c.lhs_comparison_byte == lhs@[i]),
        forall|i: int| 0 <= i < 4 ==> vanishes(#[trigger] c.byte_flags@[i] * (c.rhs_comparison_byte - rhs@[i]))
            == (c.byte_flags@[i] == 0 || c.rhs_comparison_byte == rhs@[i]),
        forall|j: int| 0 <= j < 4 ==> vanishes((1 - #[trigger] flags_from(c, j)) * (lhs@[j] - rhs@[j]))
            == (flags_from(c, j) == 1 || lhs@[j] == rhs@[j]),
{
    let lb = c.lhs_comparison_byte;
    let rb = c.rhs_comparison_byte;
    reveal_with_fuel(flags_from, 5);
        assert forall|i: int| 0 <= i < 4 implies vanishes(#[trigger] c.byte_flags@[i] * (lb - lhs@[i]))
            == (c.byte_flags@[i] == 0 || lb == lhs@[i]) by {
            let fi = c.byte_flags@[i] as int;
            let d = lb - lhs@[i];
            assert(fi * d == if fi == 0 { 0 } else { d }) by (nonlinear_arith)
                requires
                    fi == 0 || fi == 1,
            ;
            lemma_small_vanishes(fi * d);
        }
        assert forall|i: int| 0 <= i < 4 implies vanishes(#[trigger] c.byte_flags@[i] * (rb - rhs@[i]))
            == (c.byte_flags@[i] == 0 || rb == rhs@[i]) by {
            let fi = c.byte_flags@[i] as int;
            let d = rb - rhs@[i];
            assert(fi * d == if fi == 0 { 0 } else { d }) by (nonlinear_arith)
                requires
                    fi == 0 || fi == 1,
            ;
            lemma_small_vanishes(fi * d);
        }
        assert forall|j: int| 0 <= j < 4 implies vanishes((1 - #[trigger] flags_from(c, j)) * (lhs@[j] - rhs@[j]))
            == (flags_from(c, j) == 1 || lhs@[j] == rhs@[j]) by {
            let g = flags_from(c, j);
            assert(g == 0 || g == 1);
            let d = lhs@[j] - rhs@[j];
            assert((1 - g) * d == if g == 1 { 0 } else { d }) by (nonlinear_arith)
                requires
                    g == 0 || g == 1,
            ;
            lemma_small_vanishes((1 - g) * d);
        }
    }

/// The integer denoted by four byte limbs.
pub open spec fn limbs_word(l: [u32; 4]) -> int {
    le4(l@[0] as int, l@[1] as int, l@[2] as int, l@[3] as int)
}

/// The integer denoted by the eight quotient limbs.
pub open spec fn quotient_value(row: Uint32SqrCols) -> int {
    quotient_limb(row, 0) + 256 * quotient_limb(row, 1) + 65536 * quotient_limb(row, 2) + 16777216 * quotient_limb(row, 3) + 4294967296 * quotient_limb(row, 4) + 1099511627776 * quotient_limb(row, 5) + 281474976710656 * quotient_limb(row, 6) + 72057594037927936 * quotient_limb(row, 7)
}

/// The effective modulus that the row's polynomial selects.
pub open spec fn eff_value(row: Uint32SqrCols) -> int {
    eff_limb(row, 0) + 256 * eff_limb(row, 1) + 65536 * eff_limb(row, 2) + 16777216 * eff_limb(row, 3)
        + 4294967296 * eff_limb(row, 4)
}

proof fn lemma_dist_left4(y: int, a0: int, a1: int, a2: int, a3: int)
    ensures
        y * (a0 + 256 * a1 + 65536 * a2 + 16777216 * a3) == y * a0 + 256 * (y * a1) + 65536 * (y * a2)
            + 16777216 * (y * a3),
{
    assert(y * (a0 + 256 * a1 + 65536 * a2 + 16777216 * a3) == y * a0 + 256 * (y * a1) + 65536 * (y * a2)
        + 16777216 * (y * a3)) by (nonlinear_arith);
}

proof fn lemma_dist_left5(y: int, e0: int, e1: int, e2: int, e3: int, e4: int)
    ensures
        y * (e0 + 256 * e1 + 65536 * e2 + 16777216 * e3 + 4294967296 * e4) == y * e0 + 256 * (y * e1)
            + 65536 * (y * e2) + 16777216 * (y * e3) + 4294967296 * (y * e4),
{
    assert(y * (e0 + 256 * e1 + 65536 * e2 + 16777216 * e3 + 4294967296 * e4) == y * e0 + 256 * (y * e1)
        + 65536 * (y * e2) + 16777216 * (y * e3) + 4294967296 * (y * e4)) by (nonlinear_arith);
}

proof fn lemma_dist_right4(y: int, a0: int, a1: int, a2: int, a3: int)
    ensures
        (a0 + 256 * a1 + 65536 * a2 + 16777216 * a3) * y == a0 * y + 256 * (a1 * y) + 65536 * (a2 * y)
            + 16777216 * (a3 * y),
{
    assert((a0 + 256 * a1 + 65536 * a2 + 16777216 * a3) * y == a0 * y + 256 * (a1 * y) + 65536 * (a2 * y)
        + 16777216 * (a3 * y)) by (nonlinear_arith);
}

proof fn lemma_dist_right8(y: int, q0: int, q1: int, q2: int, q3: int, q4: int, q5: int, q6: int, q7: int)
    ensures
        (q0 + 256 * q1 + 65536 * q2 + 16777216 * q3 + 4294967296 * q4 + 1099511627776 * q5
            + 281474976710656 * q6 + 72057594037927936 * q7) * y == q0 * y + 256 * (q1 * y) + 65536 * (q2
            * y) + 16777216 * (q3 * y) + 4294967296 * (q4 * y) + 1099511627776 * (q5 * y)
            + 281474976710656 * (q6 * y) + 72057594037927936 * (q7 * y),
{
    assert((q0 + 256 * q1 + 65536 * q2 + 16777216 * q3 + 4294967296 * q4 + 1099511627776 * q5
        + 281474976710656 * q6 + 72057594037927936 * q7) * y == q0 * y + 256 * (q1 * y) + 65536 * (q2
        * y) + 16777216 * (q3 * y) + 4294967296 * (q4 * y) + 1099511627776 * (q5 * y)
        + 281474976710656 * (q6 * y) + 72057594037927936 * (q7 * y)) by (nonlinear_arith);
}

pub proof fn lemma_eff_limbs(row: Uint32SqrCols)
    requires
        is_bit(row.modulus_is_zero.result),
    ensures
        forall|j: int| 0 <= j < 4 ==> #[trigger] eff_limb(row, j) == if zero_flag(row) == 1 { 0 } else { modulus_limb(row, j) },
        eff_limb(row, 4) == zero_flag(row),
{
    assert forall|j: int| 0 <= j < 4 implies #[trigger] eff_limb(row, j) == if zero_flag(row) == 1 { 0 } else { modulus_limb(row, j) } by {
        let mj = modulus_limb(row, j);
        let zf = zero_flag(row);
        assert(mj * (1 - zf) == if zf == 1 { 0 } else { mj }) by (nonlinear_arith)
            requires
                zf == 0 || zf == 1,
        ;
    }
}

#[verifier::rlimit(50)]
proof fn lemma_mul_identity(row: Uint32SqrCols)
    requires
        real_row_constraints(row),
    ensures
        limbs_word(row.x_memory.prev_value) * limbs_word(row.x_memory.prev_value)
            == quotient_value(row) * eff_value(row) + limbs_word(row.output.result),
{
    let a0 = x_limb(row, 0);
    let a1 = x_limb(row, 1);
    let a2 = x_limb(row, 2);
    let a3 = x_limb(row, 3);
    let q0 = quotient_limb(row, 0);
    let q1 = quotient_limb(row, 1);
    let q2 = quotient_limb(row, 2);
    let q3 = quotient_limb(row, 3);
    let q4 = quotient_limb(row, 4);
    let q5 = quotient_limb(row, 5);
    let q6 = quotient_limb(row, 6);
    let q7 = quotient_limb(row, 7);
    let e0 = eff_limb(row, 0);
    let e1 = eff_limb(row, 1);
    let e2 = eff_limb(row, 2);
    let e3 = eff_limb(row, 3);
    let e4 = eff_limb(row, 4);
    let r0 = result_limb(row, 0);
    let r1 = result_limb(row, 1);
    let r2 = result_limb(row, 2);
    let r3 = result_limb(row, 3);
    let c0 = carry(row, 0);
    let c1 = carry(row, 1);
    let c2 = carry(row, 2);
    let c3 = carry(row, 3);
    let c4 = carry(row, 4);
    let c5 = carry(row, 5);
    let c6 = carry(row, 6);
    let c7 = carry(row, 7);
    let c8 = carry(row, 8);
    let c9 = carry(row, 9);
    let c10 = carry(row, 10);
    assert(forall|u: int, v: int| 0 <= u < 256 && 0 <= v < 256 ==> 0 <= #[trigger] (u * v) <= 65025)
        by (nonlinear_arith);
    lemma_eff_limbs(row);
    assert(0 <= e0 < 256 && 0 <= e1 < 256 && 0 <= e2 < 256 && 0 <= e3 < 256 && 0 <= e4 < 256);
    assert(a0 < 256 && a1 < 256 && a2 < 256 && a3 < 256);
    assert(q0 < 256 && q1 < 256 && q2 < 256 && q3 < 256 && q4 < 256 && q5 < 256 && q6 < 256 && q7 < 256);
    assert(r0 < 256 && r1 < 256 && r2 < 256 && r3 < 256);
    assert(-16384 <= c0 && c0 < 65536 && -16384 <= c1 && c1 < 65536 && -16384 <= c2 && c2 < 65536 && -16384 <= c3 && c3 < 65536);
    assert(-16384 <= c4 && c4 < 65536 && -16384 <= c5 && c5 < 65536 && -16384 <= c6 && c6 < 65536 && -16384 <= c7 && c7 < 65536);
    assert(-16384 <= c8 && c8 < 65536 && -16384 <= c9 && c9 < 65536 && -16384 <= c10 && c10 < 65536);
    assert(mul_limb(row, 0) == a0 * a0 - q0 * e0 - r0 - 256 * c0);
    assert(mul_limb(row, 1) == a0 * a1 + a1 * a0 - q0 * e1 - q1 * e0 - r1 + c0 - 256 * c1);
    assert(mul_limb(row, 2) == a0 * a2 + a1 * a1 + a2 * a0 - q0 * e2 - q1 * e1 - q2 * e0 - r2 + c1 - 256 * c2);
    assert(mul_limb(row, 3) == a0 * a3 + a1 * a2 + a2 * a1 + a3 * a0 - q0 * e3 - q1 * e2 - q2 * e1 - q3 * e0 - r3 + c2 - 256 * c3);
    assert(mul_limb(row, 4) == a1 * a3 + a2 * a2 + a3 * a1 - q0 * e4 - q1 * e3 - q2 * e2 - q3 * e1 - q4 * e0 + c3 - 256 * c4);
    assert(mul_limb(row, 5) == a2 * a3 + a3 * a2 - q1 * e4 - q2 * e3 - q3 * e2 - q4 * e1 - q5 * e0 + c4 - 256 * c5);
    assert(mul_limb(row, 6) == a3 * a3 - q2 * e4 - q3 * e3 - q4 * e2 - q5 * e1 - q6 * e0 + c5 - 256 * c6);
    assert(mul_limb(row, 7) == 0 - q3 * e4 - q4 * e3 - q5 * e2 - q6 * e1 - q7 * e0 + c6 - 256 * c7);
    assert(mul_limb(row, 8) == 0 - q4 * e4 - q5 * e3 - q6 * e2 - q7 * e1 + c7 - 256 * c8);
    assert(mul_limb(row, 9) == 0 - q5 * e4 - q6 * e3 - q7 * e2 + c8 - 256 * c9);
    assert(mul_limb(row, 10) == 0 - q6 * e4 - q7 * e3 + c9 - 256 * c10);
    assert(mul_limb(row, 11) == 0 - q7 * e4 + c10);
    assert forall|k: int| 0 <= k < 12 implies #[trigger] mul_limb(row, k) == 0 by {
        lemma_small_vanishes(mul_limb(row, k));
    }
    assert(a0 * a0 - q0 * e0 - r0 - 256 * c0 == 0);
    assert(a0 * a1 + a1 * a0 - q0 * e1 - q1 * e0 - r1 + c0 - 256 * c1 == 0);
    assert(a0 * a2 + a1 * a1 + a2 * a0 - q0 * e2 - q1 * e1 - q2 * e0 - r2 + c1 - 256 * c2 == 0);
    assert(a0 * a3 + a1 * a2 + a2 * a1 + a3 * a0 - q0 * e3 - q1 * e2 - q2 * e1 - q3 * e0 - r3 + c2 - 256 * c3 == 0);
    assert(a1 * a3 + a2 * a2 + a3 * a1 - q0 * e4 - q1 * e3 - q2 * e2 - q3 * e1 - q4 * e0 + c3 - 256 * c4 == 0);
    assert(a2 * a3 + a3 * a2 - q1 * e4 - q2 * e3 - q3 * e2 - q4 * e1 - q5 * e0 + c4 - 256 * c5 == 0);
    assert(a3 * a3 - q2 * e4 - q3 * e3 - q4 * e2 - q5 * e1 - q6 * e0 + c5 - 256 * c6 == 0);
    assert(0 - q3 * e4 - q4 * e3 - q5 * e2 - q6 * e1 - q7 * e0 + c6 - 256 * c7 == 0);
    assert(0 - q4 * e4 - q5 * e3 - q6 * e2 - q7 * e1 + c7 - 256 * c8 == 0);
    assert(0 - q5 * e4 - q6 * e3 - q7 * e2 + c8 - 256 * c9 == 0);
    assert(0 - q6 * e4 - q7 * e3 + c9 - 256 * c10 == 0);
    assert(0 - q7 * e4 + c10 == 0);
    let x = limbs_word(row.x_memory.prev_value);
    let e = eff_value(row);
    lemma_dist_right4(x, a0, a1, a2, a3);
    lemma_dist_right8(e, q0, q1, q2, q3, q4, q5, q6, q7);
    lemma_dist_left4(a0, a0, a1, a2, a3);
    lemma_dist_left4(a1, a0, a1, a2, a3);
    lemma_dist_left4(a2, a0, a1, a2, a3);
    lemma_dist_left4(a3, a0, a1, a2, a3);
    lemma_dist_left5(q0, e0, e1, e2, e3, e4);
    lemma_dist_left5(q1, e0, e1, e2, e3, e4);
    lemma_dist_left5(q2, e0, e1, e2, e3, e4);
    lemma_dist_left5(q3, e0, e1, e2, e3, e4);
    lemma_dist_left5(q4, e0, e1, e2, e3, e4);
    lemma_dist_left5(q5, e0, e1, e2, e3, e4);
    lemma_dist_left5(q6, e0, e1, e2, e3, e4);
    lemma_dist_left5(q7, e0, e1, e2, e3, e4);
}

proof fn lemma_lt_sound(c: FieldLtCols, lhs: [u32; 4], rhs: [u32; 4])
    requires
        forall|i: int| 0 <= i < 4 ==> #[trigger] lhs@[i] < 256,
        forall|i: int| 0 <= i < 4 ==> #[trigger] rhs@[i] < 256,
        felt(c.lhs_comparison_byte),
        felt(c.rhs_comparison_byte),
        lt_constraints(c, lhs, rhs),
    ensures
        limbs_word(lhs) < limbs_word(rhs),
{
    reveal_with_fuel(flags_from, 5);
    lemma_small_vanishes(flags_from(c, 0) - 1);
    lemma_lt_terms(c, lhs, rhs);
    let f = c.byte_flags@;
    assert(is_bit(f[0]) && is_bit(f[1]) && is_bit(f[2]) && is_bit(f[3]));
    assert(vanishes((1 - flags_from(c, 1)) * (lhs@[1] - rhs@[1])));
    assert(vanishes((1 - flags_from(c, 2)) * (lhs@[2] - rhs@[2])));
    assert(vanishes((1 - flags_from(c, 3)) * (lhs@[3] - rhs@[3])));
    assert(vanishes(c.byte_flags@[0] * (c.lhs_comparison_byte - lhs@[0])));
    assert(vanishes(c.byte_flags@[1] * (c.lhs_comparison_byte - lhs@[1])));
    assert(vanishes(c.byte_flags@[2] * (c.lhs_comparison_byte - lhs@[2])));
    assert(vanishes(c.byte_flags@[3] * (c.lhs_comparison_byte - lhs@[3])));
    assert(vanishes(c.byte_flags@[0] * (c.rhs_comparison_byte - rhs@[0])));
    assert(vanishes(c.byte_flags@[1] * (c.rhs_comparison_byte - rhs@[1])));
    assert(vanishes(c.byte_flags@[2] * (c.rhs_comparison_byte - rhs@[2])));
    assert(vanishes(c.byte_flags@[3] * (c.rhs_comparison_byte - rhs@[3])));
    assert(lhs@[0] < 256 && lhs@[1] < 256 && lhs@[2] < 256 && lhs@[3] < 256);
    assert(rhs@[0] < 256 && rhs@[1] < 256 && rhs@[2] < 256 && rhs@[3] < 256);
}

/// A real row that meets every constraint squares x modulo the effective
/// modulus: the zero indicator is set exactly when the stored modulus is
/// zero, and the word written over x is `x * x mod effective_modulus`.
#[verifier::rlimit(50)]
pub proof fn lemma_constraints_sound(row: Uint32SqrCols)
    requires
        row_felts(row),
        constraints_hold(row),
        row.is_real == 1,
    ensures
        0 <= limbs_word(row.x_memory.prev_value) < 0x1_0000_0000,
        0 <= limbs_word(row.modulus_memory.value) < 0x1_0000_0000,
        (row.modulus_is_zero.result == 1) == (limbs_word(row.modulus_memory.value) == 0),
        limbs_word(row.x_memory.value) == sqr_mod(
            limbs_word(row.x_memory.prev_value) as u32,
            limbs_word(row.modulus_memory.value) as u32,
        ),
{
    let xw = row.x_memory.prev_value@;
    let mw = row.modulus_memory.value@;
    let rw = row.output.result@;
    let vw = row.x_memory.value@;
    assert(xw[0] < 256 && xw[1] < 256 && xw[2] < 256 && xw[3] < 256);
    assert(mw[0] < 256 && mw[1] < 256 && mw[2] < 256 && mw[3] < 256);
    assert(rw[0] < 256 && rw[1] < 256 && rw[2] < 256 && rw[3] < 256);
    assert(vw[0] < 256 && vw[1] < 256 && vw[2] < 256 && vw[3] < 256);
    let x = limbs_word(row.x_memory.prev_value);
    let m = limbs_word(row.modulus_memory.value);
    let r = limbs_word(row.output.result);
    // The zero test.
    let s = modulus_byte_sum(row);
    let zf = zero_flag(row);
    let inv = row.modulus_is_zero.inverse as int;
    assert(s * zf == if zf == 1 { s } else { 0 }) by (nonlinear_arith)
        requires
            zf == 0 || zf == 1,
    ;
    lemma_small_vanishes(s * zf);
    if s == 0 {
        assert(s * inv == 0) by (nonlinear_arith)
            requires
                s == 0,
        ;
        lemma_small_vanishes(zf - 1);
    }
    assert((zf == 1) == (m == 0));
    // The value written is the result.
    assert forall|i: int| 0 <= i < 4 implies #[trigger] vw[i] == rw[i] by {
        lemma_small_vanishes(vw[i] - rw[i]);
    }
    assert(limbs_word(row.x_memory.value) == r);
    lemma_mul_identity(row);
    let q = quotient_value(row);
    let e = eff_value(row);
    let em = effective_modulus(m as u32);
    lemma_eff_limbs(row);
    assert(eff_limb(row, 0) == if zf == 1 { 0 } else { modulus_limb(row, 0) });
    assert(eff_limb(row, 1) == if zf == 1 { 0 } else { modulus_limb(row, 1) });
    assert(eff_limb(row, 2) == if zf == 1 { 0 } else { modulus_limb(row, 2) });
    assert(eff_limb(row, 3) == if zf == 1 { 0 } else { modulus_limb(row, 3) });
    assert(e == em);
    // The result is below the effective modulus.
    if zf == 0 {
        lemma_small_vanishes(row.modulus_is_not_zero - 1);
        assert(row.modulus_is_not_zero == 1);
        lemma_lt_sound(row.output_range_check, row.output.result, row.modulus_memory.value);
    }
    assert(0 <= r < em);
    assert(q >= 0);
    vstd::arithmetic::div_mod::lemma_fundamental_div_mod_converse(x * x, em, q, r);
}

/// Limb position `k` of `x * x - quotient * e - result`, before carries.
pub open spec fn limb_sum(row: Uint32SqrCols, k: int) -> int {
    if k == 0 {
        x_limb(row, 0) * x_limb(row, 0) - quotient_limb(row, 0) * eff_limb(row, 0) - result_limb(row, 0)
    } else if k == 1 {
        x_limb(row, 0) * x_limb(row, 1) + x_limb(row, 1) * x_limb(row, 0) - quotient_limb(row, 0) * eff_limb(row, 1) - quotient_limb(row, 1) * eff_limb(row, 0) - result_limb(row, 1)
    } else if k == 2 {
        x_limb(row, 0) * x_limb(row, 2) + x_limb(row, 1) * x_limb(row, 1) + x_limb(row, 2) * x_limb(row, 0) - quotient_limb(row, 0) * eff_limb(row, 2) - quotient_limb(row, 1) * eff_limb(row, 1) - quotient_limb(row, 2) * eff_limb(row, 0) - result_limb(row, 2)
    } else if k == 3 {
        x_limb(row, 0) * x_limb(row, 3) + x_limb(row, 1) * x_limb(row, 2) + x_limb(row, 2) * x_limb(row, 1) + x_limb(row, 3) * x_limb(row, 0) - quotient_limb(row, 0) * eff_limb(row, 3) - quotient_limb(row, 1) * eff_limb(row, 2) - quotient_limb(row, 2) * eff_limb(row, 1) - quotient_limb(row, 3) * eff_limb(row, 0) - result_limb(row, 3)
    } else if k == 4 {
        x_limb(row, 1) * x_limb(row, 3) + x_limb(row, 2) * x_limb(row, 2) + x_limb(row, 3) * x_limb(row, 1) - quotient_limb(row, 0) * eff_limb(row, 4) - quotient_limb(row, 1) * eff_limb(row, 3) - quotient_limb(row, 2) * eff_limb(row, 2) - quotient_limb(row, 3) * eff_limb(row, 1) - quotient_limb(row, 4) * eff_limb(row, 0)
    } else if k == 5 {
        x_limb(row, 2) * x_limb(row, 3) + x_limb(row, 3) * x_limb(row, 2) - quotient_limb(row, 1) * eff_limb(row, 4) - quotient_limb(row, 2) * eff_limb(row, 3) - quotient_limb(row, 3) * eff_limb(row, 2) - quotient_limb(row, 4) * eff_limb(row, 1) - quotient_limb(row, 5) * eff_limb(row, 0)
    } else if k == 6 {
        x_limb(row, 3) * x_limb(row, 3) - quotient_limb(row, 2) * eff_limb(row, 4) - quotient_limb(row, 3) * eff_limb(row, 3) - quotient_limb(row, 4) * eff_limb(row, 2) - quotient_limb(row, 5) * eff_limb(row, 1) - quotient_limb(row, 6) * eff_limb(row, 0)
    } else if k == 7 {
        0 - quotient_limb(row, 3) * eff_limb(row, 4) - quotient_limb(row, 4) * eff_limb(row, 3) - quotient_limb(row, 5) * eff_limb(row, 2) - quotient_limb(row, 6) * eff_limb(row, 1) - quotient_limb(row, 7) * eff_limb(row, 0)
    } else if k == 8 {
        0 - quotient_limb(row, 4) * eff_limb(row, 4) - quotient_limb(row, 5) * eff_limb(row, 3) - quotient_limb(row, 6) * eff_limb(row, 2) - quotient_limb(row, 7) * eff_limb(row, 1)
    } else if k == 9 {
        0 - quotient_limb(row, 5) * eff_limb(row, 4) - quotient_limb(row, 6) * eff_limb(row, 3) - quotient_limb(row, 7) * eff_limb(row, 2)
    } else if k == 10 {
        0 - quotient_limb(row, 6) * eff_limb(row, 4) - quotient_limb(row, 7) * eff_limb(row, 3)
    } else {
        0 - quotient_limb(row, 7) * eff_limb(row, 4)
    }
}

/// The byte limbs that enter the multiplication identity.
pub open spec fn operand_bytes(row: Uint32SqrCols) -> bool {
    &&& forall|i: int| 0 <= i < 4 ==> #[trigger] row.x_memory.prev_value@[i] < 256
    &&& forall|i: int| 0 <= i < 4 ==> #[trigger] row.modulus_memory.value@[i] < 256
    &&& forall|i: int| 0 <= i < 4 ==> #[trigger] row.output.result@[i] < 256
    &&& forall|i: int| 0 <= i < 8 ==> #[trigger] row.output.carry@[i] < 256
}

/// The limb sums of the multiplication identity, before carries.
#[verifier::rlimit(60)]
pub fn limb_sums(row: &Uint32SqrCols) -> (v: [i64; 12])
    requires
        operand_bytes(*row),
        is_bit(row.modulus_is_zero.result),
    ensures
        forall|k: int| 0 <= k < 12 ==> #[trigger] v@[k] == limb_sum(*row, k),
        forall|k: int| 0 <= k < 12 ==> -400000 < #[trigger] v@[k] < 400000,
{
    let z = row.modulus_is_zero.result;
    let m = row.modulus_memory.value;
    let xv = row.x_memory.prev_value;
    let a: [i64; 4] = [xv[0] as i64, xv[1] as i64, xv[2] as i64, xv[3] as i64];
    let q0 = row.output.carry;
    let q: [i64; 8] = [
        q0[0] as i64, q0[1] as i64, q0[2] as i64, q0[3] as i64,
        q0[4] as i64, q0[5] as i64, q0[6] as i64, q0[7] as i64,
    ];
    let e: [i64; 5] = if z == 1 {
        [0, 0, 0, 0, 1]
    } else {
        [m[0] as i64, m[1] as i64, m[2] as i64, m[3] as i64, 0]
    };
    let rv = row.output.result;
    let r: [i64; 4] = [rv[0] as i64, rv[1] as i64, rv[2] as i64, rv[3] as i64];
    proof {
        lemma_eff_limbs(*row);
        assert forall|j: int| 0 <= j < 4 implies #[trigger] eff_limb(*row, j) == e@[j] by {
        }
        assert(eff_limb(*row, 4) == e@[4]);
        assert(forall|j: int| 0 <= j < 5 ==> 0 <= #[trigger] e@[j] < 256);
        assert(forall|j: int| 0 <= j < 4 ==> #[trigger] a@[j] == x_limb(*row, j));
        assert(forall|j: int| 0 <= j < 8 ==> #[trigger] q@[j] == quotient_limb(*row, j));
        assert(forall|j: int| 0 <= j < 4 ==> #[trigger] r@[j] == result_limb(*row, j));
        assert(forall|j: int| 0 <= j < 4 ==> 0 <= #[trigger] a@[j] < 256);
        assert(forall|j: int| 0 <= j < 8 ==> 0 <= #[trigger] q@[j] < 256);
        assert(forall|j: int| 0 <= j < 4 ==> 0 <= #[trigger] r@[j] < 256);
    }
    let s0: i64 = byte_mul(a[0], a[0]) - byte_mul(q[0], e[0]) - r[0];
    let s1: i64 = byte_mul(a[0], a[1]) + byte_mul(a[1], a[0]) - byte_mul(q[0], e[1]) - byte_mul(q[1], e[0]) - r[1];
    let s2: i64 = byte_mul(a[0], a[2]) + byte_mul(a[1], a[1]) + byte_mul(a[2], a[0]) - byte_mul(q[0], e[2]) - byte_mul(q[1], e[1]) - byte_mul(q[2], e[0]) - r[2];
    let s3: i64 = byte_mul(a[0], a[3]) + byte_mul(a[1], a[2]) + byte_mul(a[2], a[1]) + byte_mul(a[3], a[0]) - byte_mul(q[0], e[3]) - byte_mul(q[1], e[2]) - byte_mul(q[2], e[1]) - byte_mul(q[3], e[0]) - r[3];
    let s4: i64 = byte_mul(a[1], a[3]) + byte_mul(a[2], a[2]) + byte_mul(a[3], a[1]) - byte_mul(q[0], e[4]) - byte_mul(q[1], e[3]) - byte_mul(q[2], e[2]) - byte_mul(q[3], e[1]) - byte_mul(q[4], e[0]);
    let s5: i64 = byte_mul(a[2], a[3]) + byte_mul(a[3], a[2]) - byte_mul(q[1], e[4]) - byte_mul(q[2], e[3]) - byte_mul(q[3], e[2]) - byte_mul(q[4], e[1]) - byte_mul(q[5], e[0]);
    let s6: i64 = byte_mul(a[3], a[3]) - byte_mul(q[2], e[4]) - byte_mul(q[3], e[3]) - byte_mul(q[4], e[2]) - byte_mul(q[5], e[1]) - byte_mul(q[6], e[0]);
    let s7: i64 = 0 - byte_mul(q[3], e[4]) - byte_mul(q[4], e[3]) - byte_mul(q[5], e[2]) - byte_mul(q[6], e[1]) - byte_mul(q[7], e[0]);
    let s8: i64 = 0 - byte_mul(q[4], e[4]) - byte_mul(q[5], e[3]) - byte_mul(q[6], e[2]) - byte_mul(q[7], e[1]);
    let s9: i64 = 0 - byte_mul(q[5], e[4]) - byte_mul(q[6], e[3]) - byte_mul(q[7], e[2]);
    let s10: i64 = 0 - byte_mul(q[6], e[4]) - byte_mul(q[7], e[3]);
    let s11: i64 = 0 - byte_mul(q[7], e[4]);
    proof {
        assert(s0 as int == limb_sum(*row, 0));
        assert(s1 as int == limb_sum(*row, 1));
        assert(s2 as int == limb_sum(*row, 2));
        assert(s3 as int == limb_sum(*row, 3));
        assert(s4 as int == limb_sum(*row, 4));
        assert(s5 as int == limb_sum(*row, 5));
        assert(s6 as int == limb_sum(*row, 6));
        assert(s7 as int == limb_sum(*row, 7));
        assert(s8 as int == limb_sum(*row, 8));
        assert(s9 as int == limb_sum(*row, 9));
        assert(s10 as int == limb_sum(*row, 10));
        assert(s11 as int == limb_sum(*row, 11));
    }
    let v = [s0, s1, s2, s3, s4, s5, s6, s7, s8, s9, s10, s11];
    assert(forall|k: int| 0 <= k < 12 ==> #[trigger] v@[k] == limb_sum(*row, k));
    v
}

/// In a real row that meets every constraint, the word written over x is the
/// claimed result.
pub proof fn lemma_result_is_written(row: Uint32SqrCols)
    requires
        constraints_hold(row),
        row.is_real == 1,
    ensures
        limbs_word(row.x_memory.value) == limbs_word(row.output.result),
{
    let vw = row.x_memory.value@;
    let rw = row.output.result@;
    assert(vw[0] < 256 && vw[1] < 256 && vw[2] < 256 && vw[3] < 256);
    assert(rw[0] < 256 && rw[1] < 256 && rw[2] < 256 && rw[3] < 256);
    assert forall|i: int| 0 <= i < 4 implies #[trigger] vw[i] == rw[i] by {
        lemma_small_vanishes(vw[i] - rw[i]);
    }
}

/// `x * x - quotient * e - result`, limb position by limb position.
pub open spec fn weighted_limb_sums(row: Uint32SqrCols) -> int {
    limb_sum(row, 0) + 256 * limb_sum(row, 1) + 65536 * limb_sum(row, 2) + 16777216 * limb_sum(row, 3) + 4294967296 * limb_sum(row, 4) + 1099511627776 * limb_sum(row, 5) + 281474976710656 * limb_sum(row, 6) + 72057594037927936 * limb_sum(row, 7) + 18446744073709551616 * limb_sum(row, 8) + 4722366482869645213696 * limb_sum(row, 9) + 1208925819614629174706176 * limb_sum(row, 10) + 309485009821345068724781056 * limb_sum(row, 11)
}

#[verifier::rlimit(50)]
pub proof fn lemma_limb_sum_identity(row: Uint32SqrCols)
    ensures
        limbs_word(row.x_memory.prev_value) * limbs_word(row.x_memory.prev_value)
            - quotient_value(row) * eff_value(row) - limbs_word(row.output.result) == weighted_limb_sums(row),
{
    let a0 = x_limb(row, 0);
    let a1 = x_limb(row, 1);
    let a2 = x_limb(row, 2);
    let a3 = x_limb(row, 3);
    let q0 = quotient_limb(row, 0);
    let q1 = quotient_limb(row, 1);
    let q2 = quotient_limb(row, 2);
    let q3 = quotient_limb(row, 3);
    let q4 = quotient_limb(row, 4);
    let q5 = quotient_limb(row, 5);
    let q6 = quotient_limb(row, 6);
    let q7 = quotient_limb(row, 7);
    let e0 = eff_limb(row, 0);
    let e1 = eff_limb(row, 1);
    let e2 = eff_limb(row, 2);
    let e3 = eff_limb(row, 3);
    let e4 = eff_limb(row, 4);
    let r0 = result_limb(row, 0);
    let r1 = result_limb(row, 1);
    let r2 = result_limb(row, 2);
    let r3 = result_limb(row, 3);
    assert(limb_sum(row, 0) == a0 * a0 - q0 * e0 - r0);
    assert(limb_sum(row, 1) == a0 * a1 + a1 * a0 - q0 * e1 - q1 * e0 - r1);
    assert(limb_sum(row, 2) == a0 * a2 + a1 * a1 + a2 * a0 - q0 * e2 - q1 * e1 - q2 * e0 - r2);
    assert(limb_sum(row, 3) == a0 * a3 + a1 * a2 + a2 * a1 + a3 * a0 - q0 * e3 - q1 * e2 - q2 * e1 - q3 * e0 - r3);
    assert(limb_sum(row, 4) == a1 * a3 + a2 * a2 + a3 * a1 - q0 * e4 - q1 * e3 - q2 * e2 - q3 * e1 - q4 * e0);
    assert(limb_sum(row, 5) == a2 * a3 + a3 * a2 - q1 * e4 - q2 * e3 - q3 * e2 - q4 * e1 - q5 * e0);
    assert(limb_sum(row, 6) == a3 * a3 - q2 * e4 - q3 * e3 - q4 * e2 - q5 * e1 - q6 * e0);
    assert(limb_sum(row, 7) == 0 - q3 * e4 - q4 * e3 - q5 * e2 - q6 * e1 - q7 * e0);
    assert(limb_sum(row, 8) == 0 - q4 * e4 - q5 * e3 - q6 * e2 - q7 * e1);
    assert(limb_sum(row, 9) == 0 - q5 * e4 - q6 * e3 - q7 * e2);
    assert(limb_sum(row, 10) == 0 - q6 * e4 - q7 * e3);
    assert(limb_sum(row, 11) == 0 - q7 * e4);
    let x = limbs_word(row.x_memory.prev_value);
    let e = eff_value(row);
    lemma_dist_right4(x, a0, a1, a2, a3);
    lemma_dist_right8(e, q0, q1, q2, q3, q4, q5, q6, q7);
    lemma_dist_left4(a0, a0, a1, a2, a3);
    lemma_dist_left4(a1, a0, a1, a2, a3);
    lemma_dist_left4(a2, a0, a1, a2, a3);
    lemma_dist_left4(a3, a0, a1, a2, a3);
    lemma_dist_left5(q0, e0, e1, e2, e3, e4);
    lemma_dist_left5(q1, e0, e1, e2, e3, e4);
    lemma_dist_left5(q2, e0, e1, e2, e3, e4);
    lemma_dist_left5(q3, e0, e1, e2, e3, e4);
    lemma_dist_left5(q4, e0, e1, e2, e3, e4);
    lemma_dist_left5(q5, e0, e1, e2, e3, e4);
    lemma_dist_left5(q6, e0, e1, e2, e3, e4);
    lemma_dist_left5(q7, e0, e1, e2, e3, e4);
}

/// A memory access that a row registers with the global memory argument: the
/// word at `addr` goes from its previous access to this one.
#[derive(Debug, Clone, Copy, PartialEq, Eq)]
pub struct MemoryInteraction {
    pub shard: u32,
    pub clk: u32,
    pub addr: u32,
    pub prev_shard: u32,
    pub prev_clk: u32,
    pub prev_value: [u32; 4],
    pub value: [u32; 4],
    pub multiplicity: u32,
}

/// The dispatch record that a row registers with the global syscall argument.
#[derive(Debug, Clone, Copy, PartialEq, Eq)]
pub struct SyscallInteraction {
    pub shard: u32,
    pub clk: u32,
    pub syscall_id: u32,
    pub arg1: u32,
    pub arg2: u32,
    pub multiplicity: u32,
}

/// The memory accesses of a row, weighted by `is_real`: x is read and
/// rewritten at `clk + 1`, the modulus is read at `clk`.
pub open spec fn row_memory_interactions(row: Uint32SqrCols) -> Seq<MemoryInteraction> {
    seq![
        MemoryInteraction {
            shard: row.shard,
            clk: ((row.clk + 1) % (FIELD_P as int)) as u32,
            addr: row.x_ptr,
            prev_shard: row.x_memory.prev_shard,
            prev_clk: row.x_memory.prev_clk,
            prev_value: row.x_memory.prev_value,
            value: row.x_memory.value,
            multiplicity: row.is_real,
        },
        MemoryInteraction {
            shard: row.shard,
            clk: row.clk,
            addr: row.modulus_ptr,
            prev_shard: row.modulus_memory.prev_shard,
            prev_clk: row.modulus_memory.prev_clk,
            prev_value: row.modulus_memory.value,
            value: row.modulus_memory.value,
            multiplicity: row.is_real,
        },
    ]
}

/// The memory accesses that a row registers.
pub fn memory_interactions(row: &Uint32SqrCols) -> (r: Vec<MemoryInteraction>)
    requires
        row_felts(*row),
    ensures
        r@ == row_memory_interactions(*row),
{
    let write_clk = ((row.clk as u64 + 1) % FIELD_P) as u32;
    let r = vec![
        MemoryInteraction {
            shard: row.shard,
            clk: write_clk,
            addr: row.x_ptr,
            prev_shard: row.x_memory.prev_shard,
            prev_clk: row.x_memory.prev_clk,
            prev_value: row.x_memory.prev_value,
            value: row.x_memory.value,
            multiplicity: row.is_real,
        },
        MemoryInteraction {
            shard: row.shard,
            clk: row.clk,
            addr: row.modulus_ptr,
            prev_shard: row.modulus_memory.prev_shard,
            prev_clk: row.modulus_memory.prev_clk,
            prev_value: row.modulus_memory.value,
            value: row.modulus_memory.value,
            multiplicity: row.is_real,
        },
    ];
    assert(r@ =~= row_memory_interactions(*row));
    r
}

/// The dispatch record that a row registers: the row stands for one
/// invocation of `syscall_id` with the two pointers, weighted by `is_real`.
pub fn syscall_interaction(row: &Uint32SqrCols, syscall_id: u32) -> (r: SyscallInteraction)
    ensures
        r == (SyscallInteraction {
            shard: row.shard,
            clk: row.clk,
            syscall_id,
            arg1: row.x_ptr,
            arg2: row.modulus_ptr,
            multiplicity: row.is_real,
        }),
{
    SyscallInteraction {
        shard: row.shard,
        clk: row.clk,
        syscall_id,
        arg1: row.x_ptr,
        arg2: row.modulus_ptr,
        multiplicity: row.is_real,
    }
}

pub proof fn lemma_vanishes_shift(t: int, d: int)
    requires
        t >= 0,
        0 <= d < FIELD_P,
    ensures
        vanishes(t - d) == (t % (FIELD_P as int) == d),
{
}

} // verus!
