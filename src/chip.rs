//! The trace builder of the squaring operation: one row per event, then
//! padding rows, and the byte-range lookups that the rows request.
use vstd::prelude::*;
use crate::air::{
    bytes_in_range, carry, constraints_hold, eff_limb, eff_value, eval_row, flags_from, is_bit,
    lemma_constraints_sound, lemma_eff_limbs, lemma_limb_sum_identity, lemma_lt_terms,
    lemma_result_is_written, lemma_small_vanishes, lemma_vanishes_shift, limb_sum, limb_sums,
    limbs_word, lt_constraints, modulus_byte_sum, mul_limb, operand_bytes, quotient_limb,
    quotient_value, real_row_constraints, result_limb, row_felts, vanishes, weighted_limb_sums,
    x_limb, zero_flag, zero_test_holds,
};
use crate::columns::{
    FieldLtCols, FieldOpCols, IsZeroCols, MemoryReadCols, MemoryWriteCols, Uint32SqrCols, FIELD_P,
    NUM_COLS, WITNESS_OFFSET, felt,
};
use crate::event::Uint32SqrEvent;
use crate::executor::{effective_modulus, lemma_sqr_mod_range, sqr_mod, uint32_sqr_mod};
use crate::small_inverses::lemma_byte_sums_invertible;
use crate::words::le4;

verus! {

/// The byte-table operations that a row asks for.
#[derive(Debug, Clone, Copy, PartialEq, Eq)]
pub enum ByteOpcode {
    /// `a` is a byte.
    U8Range,
    /// `a < b`, both bytes.
    LTU,
}

/// A request to the shared byte table.
#[derive(Debug, Clone, Copy, PartialEq, Eq)]
pub struct ByteLookupEvent {
    pub shard: u32,
    pub opcode: ByteOpcode,
    pub a: u32,
    pub b: u32,
}

/// The four byte limbs of a word, least significant first.
pub open spec fn limbs_of(w: u32) -> Seq<u32> {
    seq![w & 0xff, (w >> 8u32) & 0xff, (w >> 16u32) & 0xff, (w >> 24u32) & 0xff]
}

/// The eight byte limbs of a double word, least significant first.
pub open spec fn limbs_of_u64(v: u64) -> Seq<u32> {
    seq![
        (v & 0xff) as u32, ((v >> 8u64) & 0xff) as u32, ((v >> 16u64) & 0xff) as u32,
        ((v >> 24u64) & 0xff) as u32, ((v >> 32u64) & 0xff) as u32, ((v >> 40u64) & 0xff) as u32,
        ((v >> 48u64) & 0xff) as u32, ((v >> 56u64) & 0xff) as u32,
    ]
}

/// The inverse of `s` in the field found among `(k * p + 1) / s` for
/// `k >= from`, or zero where none is found below `s`.
pub open spec fn inverse_search(s: nat, from: nat) -> nat
    decreases s - from,
{
    if from >= s {
        0
    } else if (from * (FIELD_P as nat) + 1) % s == 0 {
        (from * (FIELD_P as nat) + 1) / s
    } else {
        inverse_search(s, from + 1)
    }
}

/// The carry out of limb position `k` when the identity is filled in.
pub open spec fn computed_carry(row: Uint32SqrCols, k: nat) -> int
    decreases k,
{
    let prev = if k == 0 {
        0
    } else {
        computed_carry(row, (k - 1) as nat)
    };
    (limb_sum(row, k as int) + prev) / 256
}

/// The most significant limb position where `a` and `b` differ, below `n`,
/// or `-1`.
pub open spec fn top_difference(a: Seq<u32>, b: Seq<u32>, n: int) -> int
    decreases n,
{
    if n <= 0 {
        -1
    } else if a[n - 1] != b[n - 1] {
        n - 1
    } else {
        top_difference(a, b, n - 1)
    }
}

/// The range-check columns that show `lhs < rhs`, or zero columns where the
/// check is off.
pub open spec fn lt_cols_of(on: bool, lhs: Seq<u32>, rhs: Seq<u32>, c: FieldLtCols) -> bool {
    let t = top_difference(lhs, rhs, 4);
    if on && t >= 0 {
        &&& forall|i: int| 0 <= i < 4 ==> #[trigger] c.byte_flags@[i] == if i == t { 1u32 } else { 0u32 }
        &&& c.lhs_comparison_byte == lhs[t]
        &&& c.rhs_comparison_byte == rhs[t]
    } else {
        &&& forall|i: int| 0 <= i < 4 ==> #[trigger] c.byte_flags@[i] == 0
        &&& c.lhs_comparison_byte == 0
        &&& c.rhs_comparison_byte == 0
    }
}

/// The sum of the bytes of a word.
pub open spec fn byte_sum(w: u32) -> nat {
    ((w & 0xff) + ((w >> 8u32) & 0xff) + ((w >> 16u32) & 0xff) + ((w >> 24u32) & 0xff)) as nat
}

/// The event's values fit the trace field.
pub open spec fn event_fits(e: Uint32SqrEvent) -> bool {
    &&& felt(e.shard) && felt(e.clk) && felt(e.x_ptr) && felt(e.modulus_ptr)
    &&& felt(e.x_memory_records@[0].prev_shard) && felt(e.x_memory_records@[0].prev_timestamp)
    &&& felt(e.modulus_memory_records@[0].prev_shard) && felt(e.modulus_memory_records@[0].prev_timestamp)
}

/// `row` is the row that the trace builder fills in for `e`.
pub open spec fn populated(row: Uint32SqrCols, e: Uint32SqrEvent) -> bool {
    let xr = e.x_memory_records@[0];
    let mr = e.modulus_memory_records@[0];
    let x = e.x@[0];
    let m = e.modulus@[0];
    let zero = m == 0;
    &&& row.is_real == 1
    &&& row.shard == e.shard && row.clk == e.clk
    &&& row.x_ptr == e.x_ptr && row.modulus_ptr == e.modulus_ptr
    &&& row.x_memory.prev_value@ == limbs_of(xr.prev_value)
    &&& row.x_memory.value@ == limbs_of(xr.value)
    &&& row.x_memory.prev_shard == xr.prev_shard && row.x_memory.prev_clk == xr.prev_timestamp
    &&& row.modulus_memory.value@ == limbs_of(mr.value)
    &&& row.modulus_memory.prev_shard == mr.prev_shard
    &&& row.modulus_memory.prev_clk == mr.prev_timestamp
    &&& row.modulus_is_zero.result == if zero { 1u32 } else { 0u32 }
    &&& row.modulus_is_zero.inverse == if zero { 0 } else { inverse_search(byte_sum(m), 0) }
    &&& row.modulus_is_not_zero == if zero { 0u32 } else { 1u32 }
    &&& row.output.result@ == limbs_of(sqr_mod(x, m) as u32)
    &&& row.output.carry@ == limbs_of_u64(((x as int * x as int) / effective_modulus(m)) as u64)
    &&& forall|k: int| 0 <= k < 11 ==> #[trigger] row.output.witness_low@[k] == (computed_carry(row, k as nat) + WITNESS_OFFSET) % 256
    &&& forall|k: int| 0 <= k < 11 ==> #[trigger] row.output.witness_high@[k] == (computed_carry(row, k as nat) + WITNESS_OFFSET) / 256
    &&& lt_cols_of(!zero, row.output.result@, row.modulus_memory.value@, row.output_range_check)
}

/// The canonical padding row: all zero but the carry witnesses, which hold
/// the offset zero carries of `0 * 0 = 0`.
pub open spec fn is_padding_row(row: Uint32SqrCols) -> bool {
    &&& row.is_real == 0 && row.modulus_is_not_zero == 0
    &&& row.shard == 0 && row.clk == 0 && row.x_ptr == 0 && row.modulus_ptr == 0
    &&& forall|i: int| 0 <= i < 4 ==> #[trigger] row.x_memory.prev_value@[i] == 0
    &&& forall|i: int| 0 <= i < 4 ==> #[trigger] row.x_memory.value@[i] == 0
    &&& row.x_memory.prev_shard == 0 && row.x_memory.prev_clk == 0
    &&& forall|i: int| 0 <= i < 4 ==> #[trigger] row.modulus_memory.value@[i] == 0
    &&& row.modulus_memory.prev_shard == 0 && row.modulus_memory.prev_clk == 0
    &&& row.modulus_is_zero.inverse == 0 && row.modulus_is_zero.result == 0
    &&& forall|i: int| 0 <= i < 4 ==> #[trigger] row.output.result@[i] == 0
    &&& forall|i: int| 0 <= i < 8 ==> #[trigger] row.output.carry@[i] == 0
    &&& forall|i: int| 0 <= i < 11 ==> #[trigger] row.output.witness_low@[i] == 0
    &&& forall|i: int| 0 <= i < 11 ==> #[trigger] row.output.witness_high@[i] == 64
    &&& forall|i: int| 0 <= i < 4 ==> #[trigger] row.output_range_check.byte_flags@[i] == 0
    &&& row.output_range_check.lhs_comparison_byte == 0
    &&& row.output_range_check.rhs_comparison_byte == 0
}

fn word_limbs(w: u32) -> (r: [u32; 4])
    ensures
        r@ == limbs_of(w),
        forall|i: int| 0 <= i < 4 ==> #[trigger] r@[i] < 256,
{
    let r = [w & 0xff, (w >> 8u32) & 0xff, (w >> 16u32) & 0xff, (w >> 24u32) & 0xff];
    assert((w & 0xff) < 256 && ((w >> 8u32) & 0xff) < 256 && ((w >> 16u32) & 0xff) < 256 && ((w
        >> 24u32) & 0xff) < 256) by (bit_vector);
    assert(r@ =~= limbs_of(w));
    r
}

fn double_word_limbs(v: u64) -> (r: [u32; 8])
    ensures
        r@ == limbs_of_u64(v),
        forall|i: int| 0 <= i < 8 ==> #[trigger] r@[i] < 256,
{
    let r = [
        (v & 0xff) as u32, ((v >> 8u64) & 0xff) as u32, ((v >> 16u64) & 0xff) as u32,
        ((v >> 24u64) & 0xff) as u32, ((v >> 32u64) & 0xff) as u32, ((v >> 40u64) & 0xff) as u32,
        ((v >> 48u64) & 0xff) as u32, ((v >> 56u64) & 0xff) as u32,
    ];
    assert((v & 0xff) < 256 && ((v >> 8u64) & 0xff) < 256 && ((v >> 16u64) & 0xff) < 256 && ((v
        >> 24u64) & 0xff) < 256 && ((v >> 32u64) & 0xff) < 256 && ((v >> 40u64) & 0xff) < 256 && ((v
        >> 48u64) & 0xff) < 256 && ((v >> 56u64) & 0xff) < 256) by (bit_vector);
    assert(r@ =~= limbs_of_u64(v));
    r
}

/// The inverse of a nonzero byte sum in the field, by search over
/// `(k * p + 1) / s`.
pub fn field_inverse(s: u64) -> (r: u32)
    requires
        0 < s <= 1020,
    ensures
        r as nat == inverse_search(s as nat, 0),
        (s * r) % (FIELD_P as int) == 1,
        felt(r),
{
    proof {
        lemma_byte_sums_invertible(s as nat);
        lemma_inverse_search(s as nat, 0);
    }
    let mut k: u64 = 0;
    while k < s
        invariant
            0 < s <= 1020,
            k <= s,
            inverse_search(s as nat, k as nat) == inverse_search(s as nat, 0),
        decreases s - k,
    {
        let n: u64 = k * FIELD_P + 1;
        if n % s == 0 {
            let r = n / s;
            proof {
                assert(r * s == n) by (nonlinear_arith)
                    requires
                        n % s == 0,
                        r == n / s,
                        s > 0,
                ;
                assert(r < FIELD_P) by (nonlinear_arith)
                    requires
                        r * s == n,
                        n == k * FIELD_P + 1,
                        k < s,
                        s > 0,
                ;
                assert((s as int * r as int) % (FIELD_P as int) == 1) by (nonlinear_arith)
                    requires
                        r * s == k * FIELD_P + 1,
                ;
            }
            return r as u32;
        }
        k = k + 1;
    }
    0
}

fn floor_div256(n: i64) -> (r: i64)
    requires
        -1000000 < n < 1000000,
    ensures
        r == n / 256,
{
    if n >= 0 {
        n / 256
    } else {
        let r = -((-n + 255) / 256);
        proof {
            let m = -n;
            assert(r * 256 <= n < r * 256 + 256);
        }
        r
    }
}

fn fill_witness(row: &mut Uint32SqrCols)
    requires
        operand_bytes(*old(row)),
        is_bit(old(row).modulus_is_zero.result),
    ensures
        forall|k: int| 0 <= k < 11 ==> #[trigger] final(row).output.witness_low@[k] < 256,
        forall|k: int| 0 <= k < 11 ==> #[trigger] final(row).output.witness_high@[k] < 256,
        forall|k: int| 0 <= k < 11 ==> #[trigger] final(row).output.witness_low@[k] == (computed_carry(*final(row), k as nat) + WITNESS_OFFSET) % 256,
        forall|k: int| 0 <= k < 11 ==> #[trigger] final(row).output.witness_high@[k] == (computed_carry(*final(row), k as nat) + WITNESS_OFFSET) / 256,
        final(row).output.result == old(row).output.result,
        final(row).output.carry == old(row).output.carry,
        final(row).output_range_check == old(row).output_range_check,
        final(row).x_memory == old(row).x_memory,
        final(row).modulus_memory == old(row).modulus_memory,
        final(row).modulus_is_zero == old(row).modulus_is_zero,
        final(row).modulus_is_not_zero == old(row).modulus_is_not_zero,
        final(row).shard == old(row).shard,
        final(row).clk == old(row).clk,
        final(row).x_ptr == old(row).x_ptr,
        final(row).modulus_ptr == old(row).modulus_ptr,
        final(row).is_real == old(row).is_real,
{
    let s = limb_sums(row);
    let ghost r0 = *row;
    let mut prev: i64 = 0;
    let mut k: usize = 0;
    while k < 11
        invariant
            k <= 11,
            forall|j: int| 0 <= j < 12 ==> #[trigger] s@[j] == limb_sum(r0, j),
            forall|j: int| 0 <= j < 12 ==> -400000 < #[trigger] s@[j] < 400000,
            -2000 < prev < 2000,
            k > 0 ==> prev == computed_carry(r0, (k - 1) as nat),
            k == 0 ==> prev == 0,
            row.output.result == r0.output.result,
            row.output.carry == r0.output.carry,
            row.output_range_check == r0.output_range_check,
            row.x_memory == r0.x_memory,
            row.modulus_memory == r0.modulus_memory,
            row.modulus_is_zero == r0.modulus_is_zero,
            row.modulus_is_not_zero == r0.modulus_is_not_zero,
            row.shard == r0.shard,
            row.clk == r0.clk,
            row.x_ptr == r0.x_ptr,
            row.modulus_ptr == r0.modulus_ptr,
            row.is_real == r0.is_real,
            forall|j: int| 0 <= j < k ==> #[trigger] row.output.witness_low@[j] == (computed_carry(r0, j as nat) + WITNESS_OFFSET) % 256,
            forall|j: int| 0 <= j < k ==> #[trigger] row.output.witness_low@[j] < 256,
            forall|j: int| 0 <= j < k ==> #[trigger] row.output.witness_high@[j] < 256,
            forall|j: int| 0 <= j < k ==> #[trigger] row.output.witness_high@[j] == (computed_carry(r0, j as nat) + WITNESS_OFFSET) / 256,
        decreases 11 - k,
    {
        let c = floor_div256(s[k] + prev);
        proof {
            assert(c == computed_carry(r0, k as nat));
        }
        let w = (c + WITNESS_OFFSET as i64) as u32;
        row.output.witness_low[k] = w % 256;
        row.output.witness_high[k] = w / 256;
        prev = c;
        k = k + 1;
    }
    proof {
        assert forall|j: nat| j < 12 implies #[trigger] computed_carry(*row, j) == computed_carry(r0, j) by {
            lemma_carry_frame(*row, r0, j);
        }
    }
}

fn lt_cols(on: bool, lhs: &[u32; 4], rhs: &[u32; 4]) -> (c: FieldLtCols)
    requires
        forall|i: int| 0 <= i < 4 ==> #[trigger] lhs@[i] < 256,
        forall|i: int| 0 <= i < 4 ==> #[trigger] rhs@[i] < 256,
    ensures
        lt_cols_of(on, lhs@, rhs@, c),
        felt(c.lhs_comparison_byte) && felt(c.rhs_comparison_byte),
        forall|i: int| 0 <= i < 4 ==> felt(#[trigger] c.byte_flags@[i]),
{
    let mut c = FieldLtCols { byte_flags: [0, 0, 0, 0], lhs_comparison_byte: 0, rhs_comparison_byte: 0 };
    if !on {
        return c;
    }
    let mut n: usize = 4;
    while n > 0
        invariant
            n <= 4,
            top_difference(lhs@, rhs@, 4) == top_difference(lhs@, rhs@, n as int),
            forall|i: int| 0 <= i < 4 ==> #[trigger] lhs@[i] < 256,
            forall|i: int| 0 <= i < 4 ==> #[trigger] rhs@[i] < 256,
            on,
            c == (FieldLtCols { byte_flags: [0, 0, 0, 0], lhs_comparison_byte: 0, rhs_comparison_byte: 0 }),
        decreases n,
    {
        if lhs[n - 1] != rhs[n - 1] {
            c.byte_flags[n - 1] = 1;
            c.lhs_comparison_byte = lhs[n - 1];
            c.rhs_comparison_byte = rhs[n - 1];
            assert(lhs@[n - 1] < 256 && rhs@[n - 1] < 256);
            assert(top_difference(lhs@, rhs@, n as int) == n - 1);
            return c;
        }
        n = n - 1;
    }
    assert(top_difference(lhs@, rhs@, 0) == -1);
    c
}

/// Fills in the row of one event.
pub fn populate_row(event: &Uint32SqrEvent) -> (row: Uint32SqrCols)
    requires
        event.well_formed(),
        event_fits(*event),
    ensures
        populated(row, *event),
        row_felts(row),
        constraints_hold(row),
{
    let xr = event.x_memory_records[0];
    let mr = event.modulus_memory_records[0];
    let x = event.x[0];
    let m = event.modulus[0];
    let m_limbs = word_limbs(mr.value);
    let s: u64 = m_limbs[0] as u64 + m_limbs[1] as u64 + m_limbs[2] as u64 + m_limbs[3] as u64;
    proof {
        assert(s == byte_sum(m));
        let w = m;
        assert(((w & 0xff) + ((w >> 8u32) & 0xff) + ((w >> 16u32) & 0xff) + ((w >> 24u32) & 0xff) == 0)
            == (w == 0)) by (bit_vector);
    }
    let zero = m == 0;
    let inverse = if zero { 0 } else { field_inverse(s) };
    let result = uint32_sqr_mod(x, m);
    let result_limbs = word_limbs(result);
    let xx = x as u64;
    assert(xx * xx <= 0xffff_ffffu64 * 0xffff_ffffu64) by (nonlinear_arith)
        requires
            xx <= 0xffff_ffffu64,
    ;
    let quotient: u64 = if zero { (xx * xx) / 0x1_0000_0000u64 } else { (xx * xx) / (m as u64) };
    let range_check = lt_cols(!zero, &result_limbs, &m_limbs);
    let mut row = Uint32SqrCols {
        shard: event.shard,
        clk: event.clk,
        x_ptr: event.x_ptr,
        modulus_ptr: event.modulus_ptr,
        x_memory: MemoryWriteCols {
            prev_value: word_limbs(xr.prev_value),
            value: word_limbs(xr.value),
            prev_shard: xr.prev_shard,
            prev_clk: xr.prev_timestamp,
        },
        modulus_memory: MemoryReadCols {
            value: m_limbs,
            prev_shard: mr.prev_shard,
            prev_clk: mr.prev_timestamp,
        },
        modulus_is_zero: IsZeroCols { inverse, result: if zero { 1 } else { 0 } },
        modulus_is_not_zero: if zero { 0 } else { 1 },
        output: FieldOpCols {
            result: result_limbs,
            carry: double_word_limbs(quotient),
            witness_low: [0; 11],
            witness_high: [0; 11],
        },
        output_range_check: range_check,
        is_real: 1,
    };
    fill_witness(&mut row);
    proof {
        assert forall|k: int| 0 <= k < 11 implies felt(#[trigger] row.output.witness_low@[k])
            && felt(row.output.witness_high@[k]) by {
        }
        lemma_populated_row_holds(row, *event);
    }
    row
}

/// The canonical padding row.
pub fn dummy_row() -> (row: Uint32SqrCols)
    ensures
        is_padding_row(row),
        row_felts(row),
        constraints_hold(row),
{
    let row = Uint32SqrCols {
        shard: 0,
        clk: 0,
        x_ptr: 0,
        modulus_ptr: 0,
        x_memory: MemoryWriteCols { prev_value: [0; 4], value: [0; 4], prev_shard: 0, prev_clk: 0 },
        modulus_memory: MemoryReadCols { value: [0; 4], prev_shard: 0, prev_clk: 0 },
        modulus_is_zero: IsZeroCols { inverse: 0, result: 0 },
        modulus_is_not_zero: 0,
        output: FieldOpCols { result: [0; 4], carry: [0; 8], witness_low: [0; 11], witness_high: [64; 11] },
        output_range_check: FieldLtCols { byte_flags: [0; 4], lhs_comparison_byte: 0, rhs_comparison_byte: 0 },
        is_real: 0,
    };
    proof {
        lemma_padding_rows_hold(row);
    }
    row
}

/// Padding rows meet every constraint, whatever the columns that the
/// constraints of a real row alone read: `is_real` and
/// `modulus_is_not_zero` are zero, and the rest goes unchecked.
pub proof fn lemma_padding_rows_hold(row: Uint32SqrCols)
    requires
        row.is_real == 0,
        row.modulus_is_not_zero == 0,
    ensures
        constraints_hold(row),
{
    assert(row.is_real * (1 - row.modulus_is_zero.result) == 0);
}

/// The canonical padding row meets every constraint.
pub proof fn lemma_dummy_row_holds(row: Uint32SqrCols)
    requires
        is_padding_row(row),
    ensures
        constraints_hold(row),
{
    lemma_padding_rows_hold(row);
}

/// One range request per limb.
pub open spec fn range_lookups(shard: u32, limbs: Seq<u32>) -> Seq<ByteLookupEvent> {
    limbs.map_values(|b: u32| ByteLookupEvent { shard, opcode: ByteOpcode::U8Range, a: b, b: 0 })
}

/// The byte-table requests of one row: a range request for each byte limb
/// of memory and of the multiplication, and the comparison of the range
/// check where it is on.
pub open spec fn row_lookups(row: Uint32SqrCols) -> Seq<ByteLookupEvent> {
    let c = row.output_range_check;
    range_lookups(row.shard, row.x_memory.prev_value@) + range_lookups(row.shard, row.x_memory.value@)
        + range_lookups(row.shard, row.modulus_memory.value@) + range_lookups(row.shard, row.output.result@)
        + range_lookups(row.shard, row.output.carry@) + range_lookups(row.shard, row.output.witness_low@)
        + range_lookups(row.shard, row.output.witness_high@) + if row.modulus_is_not_zero == 1 {
        seq![
            ByteLookupEvent {
                shard: row.shard,
                opcode: ByteOpcode::LTU,
                a: c.lhs_comparison_byte,
                b: c.rhs_comparison_byte,
            },
        ]
    } else {
        Seq::empty()
    }
}

/// The requests of the first `n` rows, in row order.
pub open spec fn rows_lookups(rows: Seq<Uint32SqrCols>, n: nat) -> Seq<ByteLookupEvent>
    decreases n,
{
    if n == 0 {
        Seq::empty()
    } else {
        rows_lookups(rows, (n - 1) as nat) + row_lookups(rows[n - 1])
    }
}

/// `2^n`.
pub open spec fn pow2(n: nat) -> nat
    decreases n,
{
    if n == 0 {
        1
    } else {
        2 * pow2((n - 1) as nat)
    }
}

/// The first of `p, 2p, 4p, ...` that is at least `n`.
pub open spec fn next_pow2(n: nat, p: nat) -> nat
    decreases n - p,
{
    if p == 0 || p >= n {
        p
    } else if 2 * p >= n {
        2 * p
    } else {
        next_pow2(n, 2 * p)
    }
}

/// The number of rows of a trace of `n` events: `2^l` where the shape fixes
/// `l`, else the least power of two that is at least `n`.
pub open spec fn padded_len(n: nat, fixed_log2_rows: Option<u32>) -> nat {
    match fixed_log2_rows {
        Some(l) => pow2(l as nat),
        None => next_pow2(n, 1),
    }
}

/// `rows` is the trace of `events`: one populated row per event, in order,
/// then canonical padding rows up to the padded row count.
pub open spec fn is_trace_of(rows: Seq<Uint32SqrCols>, events: Seq<Uint32SqrEvent>, fixed_log2_rows: Option<u32>) -> bool {
    &&& rows.len() == padded_len(events.len(), fixed_log2_rows)
    &&& forall|i: int| 0 <= i < events.len() ==> populated(#[trigger] rows[i], events[i])
    &&& forall|i: int| events.len() <= i < rows.len() ==> is_padding_row(#[trigger] rows[i])
}

fn push_range<const N: usize>(out: &mut Vec<ByteLookupEvent>, shard: u32, limbs: &[u32; N])
    ensures
        final(out)@ == old(out)@ + range_lookups(shard, limbs@),
{
    let ghost start = out@;
    let mut i: usize = 0;
    while i < N
        invariant
            i <= N,
            out@ == start + range_lookups(shard, limbs@.subrange(0, i as int)),
        decreases N - i,
    {
        out.push(ByteLookupEvent { shard, opcode: ByteOpcode::U8Range, a: limbs[i], b: 0 });
        proof {
            assert(range_lookups(shard, limbs@.subrange(0, i + 1)) =~= range_lookups(
                shard,
                limbs@.subrange(0, i as int),
            ).push(ByteLookupEvent { shard, opcode: ByteOpcode::U8Range, a: limbs@[i as int], b: 0 }));
        }
        i = i + 1;
    }
    assert(limbs@.subrange(0, N as int) =~= limbs@);
}

/// Appends the byte-table requests of one row.
pub fn push_row_lookups(out: &mut Vec<ByteLookupEvent>, row: &Uint32SqrCols)
    ensures
        final(out)@ == old(out)@ + row_lookups(*row),
{
    let ghost start = out@;
    push_range(out, row.shard, &row.x_memory.prev_value);
    push_range(out, row.shard, &row.x_memory.value);
    push_range(out, row.shard, &row.modulus_memory.value);
    push_range(out, row.shard, &row.output.result);
    push_range(out, row.shard, &row.output.carry);
    push_range(out, row.shard, &row.output.witness_low);
    push_range(out, row.shard, &row.output.witness_high);
    if row.modulus_is_not_zero == 1 {
        out.push(
            ByteLookupEvent {
                shard: row.shard,
                opcode: ByteOpcode::LTU,
                a: row.output_range_check.lhs_comparison_byte,
                b: row.output_range_check.rhs_comparison_byte,
            },
        );
    }
    assert(out@ =~= start + row_lookups(*row));
}

fn padded_row_count(n: usize, fixed_log2_rows: Option<u32>) -> (r: usize)
    requires
        n <= 0x4000_0000,
        fixed_log2_rows matches Some(l) ==> l <= 30,
    ensures
        r == padded_len(n as nat, fixed_log2_rows),
        r >= 1,
        fixed_log2_rows is None ==> r >= n,
{
    match fixed_log2_rows {
        Some(l) => {
            let mut p: usize = 1;
            let mut i: u32 = 0;
            while i < l
                invariant
                    i <= l <= 30,
                    p == pow2(i as nat),
                    p <= 0x4000_0000,
                decreases l - i,
            {
                proof {
                    lemma_pow2_bound(i as nat);
                }
                p = p * 2;
                i = i + 1;
            }
            proof {
                lemma_pow2_pos(l as nat);
            }
            p
        },
        None => {
            let mut p: usize = 1;
            while p < n
                invariant
                    1 <= p <= 0x8000_0000,
                    n <= 0x4000_0000,
                    next_pow2(n as nat, p as nat) == next_pow2(n as nat, 1),
                decreases 0x8000_0000 - p,
            {
                p = p * 2;
            }
            p
        },
    }
}

proof fn lemma_pow2_pos(n: nat)
    ensures
        pow2(n) >= 1,
    decreases n,
{
    if n > 0 {
        lemma_pow2_pos((n - 1) as nat);
    }
}

proof fn lemma_pow2_mono(a: nat, b: nat)
    requires
        a <= b,
    ensures
        pow2(a) <= pow2(b),
    decreases b,
{
    if a < b {
        lemma_pow2_mono(a, (b - 1) as nat);
    }
}

proof fn lemma_pow2_bound(n: nat)
    requires
        n < 30,
    ensures
        pow2(n) <= 0x2000_0000,
{
    lemma_pow2_mono(n, 29);
    reveal_with_fuel(pow2, 30);
    assert(pow2(29) == 0x2000_0000);
}

/// The chip of the squaring operation.
pub struct Uint32SqrChip;

impl Uint32SqrChip {
    pub fn new() -> (r: Self) {
        Uint32SqrChip
    }

    /// The chip's name.
    pub fn name(&self) -> (r: String)
        ensures
            r@ == "Uint32SqrMod"@,
    {
        String::from_str("Uint32SqrMod")
    }

    /// The number of columns of a row.
    pub fn width(&self) -> (r: usize)
        ensures
            r == NUM_COLS,
    {
        NUM_COLS
    }

    /// The constraints relate no two rows.
    pub fn local_only(&self) -> (r: bool)
        ensures
            r,
    {
        true
    }

    /// Whether the chip has rows in a shard: as a fixed shape says where one
    /// is given, else where the shard has an event for it.
    pub fn included(&self, num_events: usize, shape_included: Option<bool>) -> (r: bool)
        ensures
            r == match shape_included {
                Some(b) => b,
                None => num_events > 0,
            },
    {
        match shape_included {
            Some(b) => b,
            None => num_events > 0,
        }
    }

    /// One row per event, in order, then padding rows up to the padded row
    /// count; and the rows' byte-table requests, in row order.
    pub fn generate_trace(&self, events: &Vec<Uint32SqrEvent>, fixed_log2_rows: Option<u32>) -> (r: (
        Vec<Uint32SqrCols>,
        Vec<ByteLookupEvent>,
    ))
        requires
            forall|i: int| 0 <= i < events@.len() ==> (#[trigger] events@[i]).well_formed() && event_fits(events@[i]),
            events@.len() <= 0x4000_0000,
            fixed_log2_rows matches Some(l) ==> l <= 30 && events@.len() <= pow2(l as nat),
        ensures
            is_trace_of(r.0@, events@, fixed_log2_rows),
            forall|i: int| 0 <= i < r.0@.len() ==> row_felts(#[trigger] r.0@[i]),
            forall|i: int| 0 <= i < r.0@.len() ==> constraints_hold(#[trigger] r.0@[i]),
            r.1@ == rows_lookups(r.0@, events@.len()),
    {
        let mut rows: Vec<Uint32SqrCols> = Vec::new();
        let mut lookups: Vec<ByteLookupEvent> = Vec::new();
        let mut i: usize = 0;
        while i < events.len()
            invariant
                i <= events@.len(),
                rows@.len() == i,
                forall|j: int| 0 <= j < events@.len() ==> (#[trigger] events@[j]).well_formed() && event_fits(events@[j]),
                forall|j: int| 0 <= j < i ==> populated(#[trigger] rows@[j], events@[j]),
                forall|j: int| 0 <= j < i ==> row_felts(#[trigger] rows@[j]),
                forall|j: int| 0 <= j < i ==> constraints_hold(#[trigger] rows@[j]),
                lookups@ == rows_lookups(rows@, i as nat),
            decreases events@.len() - i,
        {
            let row = populate_row(&events[i]);
            push_row_lookups(&mut lookups, &row);
            let ghost before = rows@;
            rows.push(row);
            proof {
                lemma_rows_lookups_prefix(before, rows@, i as nat);
                assert(rows@[i as int] == row);
            }
            i = i + 1;
        }
        let target = padded_row_count(events.len(), fixed_log2_rows);
        let ghost filled = rows@;
        while rows.len() < target
            invariant
                events@.len() <= rows@.len(),
                rows@.len() <= target || rows@.len() == events@.len(),
                forall|j: int| 0 <= j < events@.len() ==> #[trigger] rows@[j] == filled[j],
                filled.len() == events@.len(),
                forall|j: int| events@.len() <= j < rows@.len() ==> is_padding_row(#[trigger] rows@[j]),
                forall|j: int| 0 <= j < rows@.len() ==> row_felts(#[trigger] rows@[j]),
                forall|j: int| 0 <= j < rows@.len() ==> constraints_hold(#[trigger] rows@[j]),
            decreases target - rows@.len(),
        {
            rows.push(dummy_row());
        }
        proof {
            if fixed_log2_rows is None {
                assert(rows@.len() == target);
            } else {
                assert(rows@.len() == target);
            }
            lemma_rows_lookups_prefix(filled, rows@, events@.len());
        }
        (rows, lookups)
    }

    /// Evaluates the constraints on one row.
    pub fn eval(&self, row: &Uint32SqrCols) -> (r: bool)
        requires
            row_felts(*row),
        ensures
            r == constraints_hold(*row),
    {
        eval_row(row)
    }
}

proof fn lemma_rows_lookups_prefix(a: Seq<Uint32SqrCols>, b: Seq<Uint32SqrCols>, n: nat)
    requires
        n <= a.len(),
        n <= b.len(),
        forall|j: int| 0 <= j < n ==> a[j] == b[j],
    ensures
        rows_lookups(a, n) == rows_lookups(b, n),
    decreases n,
{
    if n > 0 {
        lemma_rows_lookups_prefix(a, b, (n - 1) as nat);
    }
}

/// The result limbs of a populated row decode to the result that the
/// constraints check: `x * x` modulo the effective modulus.
pub proof fn lemma_result_limbs_decode(row: Uint32SqrCols, e: Uint32SqrEvent)
    requires
        populated(row, e),
    ensures
        limbs_word(row.output.result) == sqr_mod(e.x@[0], e.modulus@[0]),
{
    let w = sqr_mod(e.x@[0], e.modulus@[0]) as u32;
    lemma_sqr_mod_range(e.x@[0], e.modulus@[0]);
    lemma_limbs_of_value(w);
}

/// The limbs of a word decode to the word.
pub proof fn lemma_limbs_of_value(w: u32)
    ensures
        le4(limbs_of(w)[0] as int, limbs_of(w)[1] as int, limbs_of(w)[2] as int, limbs_of(w)[3] as int)
            == w as int,
{
    crate::words::lemma_word_bytes_value(w);
    assert((w & 0xff) as u8 as u32 == w & 0xff && ((w >> 8u32) & 0xff) as u8 as u32 == (w >> 8u32) & 0xff
        && ((w >> 16u32) & 0xff) as u8 as u32 == (w >> 16u32) & 0xff && ((w >> 24u32) & 0xff) as u8 as u32
        == (w >> 24u32) & 0xff) by (bit_vector);
}

/// Filling in a row is a function of the event: two rows filled in for one
/// event are the same row.
pub proof fn lemma_populate_deterministic(r1: Uint32SqrCols, r2: Uint32SqrCols, e: Uint32SqrEvent)
    requires
        populated(r1, e),
        populated(r2, e),
    ensures
        r1 == r2,
{
    assert(r1.x_memory.prev_value =~= r2.x_memory.prev_value);
    assert(r1.x_memory.value =~= r2.x_memory.value);
    assert(r1.modulus_memory.value =~= r2.modulus_memory.value);
    assert(r1.output.result =~= r2.output.result);
    assert(r1.output.carry =~= r2.output.carry);
    assert(r1.x_memory == r2.x_memory);
    assert(r1.modulus_memory == r2.modulus_memory);
    assert(r1.modulus_is_zero == r2.modulus_is_zero);
    assert forall|k: nat| k < 11 implies #[trigger] computed_carry(r1, k) == computed_carry(r2, k) by {
        lemma_carry_frame(r1, r2, k);
    }
    assert forall|k: int| 0 <= k < 11 implies #[trigger] r1.output.witness_low@[k] == r2.output.witness_low@[k]
        && r1.output.witness_high@[k] == r2.output.witness_high@[k] by {
        assert(computed_carry(r1, k as nat) == computed_carry(r2, k as nat));
    }
    assert(r1.output.witness_low =~= r2.output.witness_low);
    assert(r1.output.witness_high =~= r2.output.witness_high);
    assert(r1.output_range_check.byte_flags =~= r2.output_range_check.byte_flags);
}

/// Trace generation is a function of the event batch and the shape: two
/// traces of one batch are the same rows.
pub proof fn lemma_trace_deterministic(
    t1: Seq<Uint32SqrCols>,
    t2: Seq<Uint32SqrCols>,
    events: Seq<Uint32SqrEvent>,
    fixed_log2_rows: Option<u32>,
)
    requires
        is_trace_of(t1, events, fixed_log2_rows),
        is_trace_of(t2, events, fixed_log2_rows),
    ensures
        t1 == t2,
{
    assert forall|i: int| 0 <= i < t1.len() implies t1[i] == t2[i] by {
        if i < events.len() {
            lemma_populate_deterministic(t1[i], t2[i], events[i]);
        } else {
            let a = t1[i];
            let b = t2[i];
            assert(is_padding_row(a) && is_padding_row(b));
            assert(a.x_memory.prev_value =~= b.x_memory.prev_value);
            assert(a.x_memory.value =~= b.x_memory.value);
            assert(a.modulus_memory.value =~= b.modulus_memory.value);
            assert(a.output.result =~= b.output.result);
            assert(a.output.carry =~= b.output.carry);
            assert(a.output.witness_low =~= b.output.witness_low);
            assert(a.output.witness_high =~= b.output.witness_high);
            assert(a.output_range_check.byte_flags =~= b.output_range_check.byte_flags);
        }
    }
    assert(t1 =~= t2);
}

/// Two real rows that meet every constraint and read the same x and modulus
/// agree on the result and on the zero indicator: neither can be changed
/// alone in a valid row.
pub proof fn lemma_result_unique(r1: Uint32SqrCols, r2: Uint32SqrCols)
    requires
        row_felts(r1),
        row_felts(r2),
        constraints_hold(r1),
        constraints_hold(r2),
        r1.is_real == 1,
        r2.is_real == 1,
        r1.x_memory.prev_value == r2.x_memory.prev_value,
        r1.modulus_memory.value == r2.modulus_memory.value,
    ensures
        limbs_word(r1.x_memory.value) == limbs_word(r2.x_memory.value),
        limbs_word(r1.output.result) == limbs_word(r2.output.result),
        r1.modulus_is_zero.result == r2.modulus_is_zero.result,
        r1.modulus_is_not_zero == r2.modulus_is_not_zero,
{
    lemma_constraints_sound(r1);
    lemma_constraints_sound(r2);
    lemma_result_is_written(r1);
    lemma_result_is_written(r2);
    lemma_small_vanishes(r1.modulus_is_not_zero - (1 - zero_flag(r1)));
    lemma_small_vanishes(r2.modulus_is_not_zero - (1 - zero_flag(r2)));
}

proof fn lemma_limb_sum_bounds(row: Uint32SqrCols)
    requires
        operand_bytes(row),
        is_bit(row.modulus_is_zero.result),
    ensures
        forall|k: int| 0 <= k < 12 ==> -400000 < #[trigger] limb_sum(row, k) < 400000,
{
    assert(forall|u: int, v: int| 0 <= u < 256 && 0 <= v < 256 ==> 0 <= #[trigger] (u * v) <= 65025)
        by (nonlinear_arith);
    lemma_eff_limbs(row);
    assert(forall|j: int| 0 <= j < 5 ==> 0 <= #[trigger] eff_limb(row, j) < 256);
    assert(forall|j: int| 0 <= j < 4 ==> 0 <= #[trigger] x_limb(row, j) < 256);
    assert(forall|j: int| 0 <= j < 8 ==> 0 <= #[trigger] quotient_limb(row, j) < 256);
    assert(forall|j: int| 0 <= j < 4 ==> 0 <= #[trigger] result_limb(row, j) < 256);
    assert(forall|j: int| 0 <= j < 4 ==> 0 <= #[trigger] x_limb(row, j) < 256);
    assert forall|k: int| 0 <= k < 12 implies -400000 < #[trigger] limb_sum(row, k) < 400000 by {
        assert(x_limb(row, 0) < 256 && x_limb(row, 1) < 256 && x_limb(row, 2) < 256 && x_limb(row, 3) < 256);
        assert(eff_limb(row, 0) < 256 && eff_limb(row, 1) < 256 && eff_limb(row, 2) < 256 && eff_limb(row, 3) < 256 && eff_limb(row, 4) < 256);
        assert(quotient_limb(row, 0) < 256 && quotient_limb(row, 1) < 256 && quotient_limb(row, 2) < 256 && quotient_limb(row, 3) < 256);
        assert(quotient_limb(row, 4) < 256 && quotient_limb(row, 5) < 256 && quotient_limb(row, 6) < 256 && quotient_limb(row, 7) < 256);
    }
}

/// Where the limb sums add up to zero, the computed carries close every limb
/// position of the identity exactly and leave nothing beyond the last.
#[verifier::rlimit(50)]
proof fn lemma_carry_chain(row: Uint32SqrCols)
    requires
        operand_bytes(row),
        is_bit(row.modulus_is_zero.result),
        weighted_limb_sums(row) == 0,
    ensures
        forall|k: nat| k < 12 ==> -2000 < #[trigger] computed_carry(row, k) < 2000,
        limb_sum(row, 0) - 256 * computed_carry(row, 0) == 0,
        forall|k: nat| 1 <= k < 11 ==> limb_sum(row, k as int) + computed_carry(row, (k - 1) as nat) - 256 * #[trigger] computed_carry(row, k) == 0,
        limb_sum(row, 11) + computed_carry(row, 10) == 0,
{
    lemma_limb_sum_bounds(row);
    let s0 = limb_sum(row, 0);
    let s1 = limb_sum(row, 1);
    let s2 = limb_sum(row, 2);
    let s3 = limb_sum(row, 3);
    let s4 = limb_sum(row, 4);
    let s5 = limb_sum(row, 5);
    let s6 = limb_sum(row, 6);
    let s7 = limb_sum(row, 7);
    let s8 = limb_sum(row, 8);
    let s9 = limb_sum(row, 9);
    let s10 = limb_sum(row, 10);
    let s11 = limb_sum(row, 11);
    assert(-400000 < s0 < 400000);
    assert(-400000 < s1 < 400000);
    assert(-400000 < s2 < 400000);
    assert(-400000 < s3 < 400000);
    assert(-400000 < s4 < 400000);
    assert(-400000 < s5 < 400000);
    assert(-400000 < s6 < 400000);
    assert(-400000 < s7 < 400000);
    assert(-400000 < s8 < 400000);
    assert(-400000 < s9 < 400000);
    assert(-400000 < s10 < 400000);
    assert(-400000 < s11 < 400000);
    let c0 = computed_carry(row, 0);
    let c1 = computed_carry(row, 1);
    let c2 = computed_carry(row, 2);
    let c3 = computed_carry(row, 3);
    let c4 = computed_carry(row, 4);
    let c5 = computed_carry(row, 5);
    let c6 = computed_carry(row, 6);
    let c7 = computed_carry(row, 7);
    let c8 = computed_carry(row, 8);
    let c9 = computed_carry(row, 9);
    let c10 = computed_carry(row, 10);
    let c11 = computed_carry(row, 11);
    assert(-2000 < c0 < 2000);
    assert(-2000 < c1 < 2000);
    assert(-2000 < c2 < 2000);
    assert(-2000 < c3 < 2000);
    assert(-2000 < c4 < 2000);
    assert(-2000 < c5 < 2000);
    assert(-2000 < c6 < 2000);
    assert(-2000 < c7 < 2000);
    assert(-2000 < c8 < 2000);
    assert(-2000 < c9 < 2000);
    assert(-2000 < c10 < 2000);
    assert(-2000 < c11 < 2000);
    let m0 = s0 + 0 - 256 * c0;
    let m1 = s1 + c0 - 256 * c1;
    let m2 = s2 + c1 - 256 * c2;
    let m3 = s3 + c2 - 256 * c3;
    let m4 = s4 + c3 - 256 * c4;
    let m5 = s5 + c4 - 256 * c5;
    let m6 = s6 + c5 - 256 * c6;
    let m7 = s7 + c6 - 256 * c7;
    let m8 = s8 + c7 - 256 * c8;
    let m9 = s9 + c8 - 256 * c9;
    let m10 = s10 + c9 - 256 * c10;
    let m11 = s11 + c10 - 256 * c11;
    assert(0 <= m0 < 256);
    assert(0 <= m1 < 256);
    assert(0 <= m2 < 256);
    assert(0 <= m3 < 256);
    assert(0 <= m4 < 256);
    assert(0 <= m5 < 256);
    assert(0 <= m6 < 256);
    assert(0 <= m7 < 256);
    assert(0 <= m8 < 256);
    assert(0 <= m9 < 256);
    assert(0 <= m10 < 256);
    assert(0 <= m11 < 256);
    assert(m0 + 256 * m1 + 65536 * m2 + 16777216 * m3 + 4294967296 * m4 + 1099511627776 * m5 + 281474976710656 * m6 + 72057594037927936 * m7 + 18446744073709551616 * m8 + 4722366482869645213696 * m9 + 1208925819614629174706176 * m10 + 309485009821345068724781056 * m11 == (s0 + 256 * s1 + 65536 * s2 + 16777216 * s3 + 4294967296 * s4 + 1099511627776 * s5 + 281474976710656 * s6 + 72057594037927936 * s7 + 18446744073709551616 * s8 + 4722366482869645213696 * s9 + 1208925819614629174706176 * s10 + 309485009821345068724781056 * s11) - 0x1_000000_000000_000000_000000 * c11);
    assert(c11 == 0);
    assert(m0 == 0 && m1 == 0 && m2 == 0 && m3 == 0 && m4 == 0 && m5 == 0 && m6 == 0 && m7 == 0 && m8 == 0 && m9 == 0 && m10 == 0 && m11 == 0);
    assert forall|k: nat| k < 12 implies -2000 < #[trigger] computed_carry(row, k) < 2000 by {
        assert(k == 0 || k == 1 || k == 2 || k == 3 || k == 4 || k == 5 || k == 6 || k == 7 || k == 8 || k == 9 || k == 10 || k == 11);
    }
    assert forall|k: nat| 1 <= k < 11 implies limb_sum(row, k as int) + computed_carry(row, (k - 1) as nat) - 256 * #[trigger] computed_carry(row, k) == 0 by {
        assert(k == 1 || k == 2 || k == 3 || k == 4 || k == 5 || k == 6 || k == 7 || k == 8 || k == 9 || k == 10);
    }
}

proof fn lemma_limbs_of_bytes(w: u32)
    ensures
        forall|i: int| 0 <= i < 4 ==> #[trigger] limbs_of(w)[i] < 256,
        le4(limbs_of(w)[0] as int, limbs_of(w)[1] as int, limbs_of(w)[2] as int, limbs_of(w)[3] as int)
            == w as int,
        (w == 0) == (byte_sum(w) == 0),
{
    assert((w & 0xff) < 256 && ((w >> 8u32) & 0xff) < 256 && ((w >> 16u32) & 0xff) < 256 && ((w
        >> 24u32) & 0xff) < 256) by (bit_vector);
    assert(((w & 0xff) + ((w >> 8u32) & 0xff) + ((w >> 16u32) & 0xff) + ((w >> 24u32) & 0xff) == 0)
        == (w == 0)) by (bit_vector);
    lemma_limbs_of_value(w);
}

proof fn lemma_limbs_of_u64(v: u64)
    ensures
        forall|i: int| 0 <= i < 8 ==> #[trigger] limbs_of_u64(v)[i] < 256,
        limbs_of_u64(v)[0] + 256 * limbs_of_u64(v)[1] + 65536 * limbs_of_u64(v)[2] + 16777216
            * limbs_of_u64(v)[3] + 4294967296 * limbs_of_u64(v)[4] + 1099511627776 * limbs_of_u64(v)[5]
            + 281474976710656 * limbs_of_u64(v)[6] + 72057594037927936 * limbs_of_u64(v)[7] == v as int,
{
    let b0 = v & 0xff;
    let b1 = (v >> 8u64) & 0xff;
    let b2 = (v >> 16u64) & 0xff;
    let b3 = (v >> 24u64) & 0xff;
    let b4 = (v >> 32u64) & 0xff;
    let b5 = (v >> 40u64) & 0xff;
    let b6 = (v >> 48u64) & 0xff;
    let b7 = (v >> 56u64) & 0xff;
    assert(b0 < 256 && b1 < 256 && b2 < 256 && b3 < 256 && b4 < 256 && b5 < 256 && b6 < 256 && b7 < 256) by (bit_vector)
        requires
            b0 == v & 0xff,
            b1 == (v >> 8u64) & 0xff,
            b2 == (v >> 16u64) & 0xff,
            b3 == (v >> 24u64) & 0xff,
            b4 == (v >> 32u64) & 0xff,
            b5 == (v >> 40u64) & 0xff,
            b6 == (v >> 48u64) & 0xff,
            b7 == (v >> 56u64) & 0xff,
    ;
    assert(v == b0 + 256 * b1 + 65536 * b2 + 16777216 * b3 + 4294967296 * b4 + 1099511627776 * b5
        + 281474976710656 * b6 + 72057594037927936 * b7) by (bit_vector)
        requires
            b0 == v & 0xff,
            b1 == (v >> 8u64) & 0xff,
            b2 == (v >> 16u64) & 0xff,
            b3 == (v >> 24u64) & 0xff,
            b4 == (v >> 32u64) & 0xff,
            b5 == (v >> 40u64) & 0xff,
            b6 == (v >> 48u64) & 0xff,
            b7 == (v >> 56u64) & 0xff,
    ;
}

proof fn lemma_lt_cols_hold(c: FieldLtCols, lhs: [u32; 4], rhs: [u32; 4])
    requires
        forall|i: int| 0 <= i < 4 ==> #[trigger] lhs@[i] < 256,
        forall|i: int| 0 <= i < 4 ==> #[trigger] rhs@[i] < 256,
        lt_cols_of(true, lhs@, rhs@, c),
        limbs_word(lhs) < limbs_word(rhs),
    ensures
        lt_constraints(c, lhs, rhs),
{
    reveal_with_fuel(top_difference, 5);
    reveal_with_fuel(flags_from, 5);
    let t = top_difference(lhs@, rhs@, 4);
    assert(lhs@[0] < 256 && lhs@[1] < 256 && lhs@[2] < 256 && lhs@[3] < 256);
    assert(rhs@[0] < 256 && rhs@[1] < 256 && rhs@[2] < 256 && rhs@[3] < 256);
    assert(t >= 0);
    assert(forall|j: int| t < j < 4 ==> lhs@[j] == rhs@[j]);
    assert(lhs@[t] < rhs@[t]);
    assert(forall|i: int| 0 <= i < 4 ==> is_bit(#[trigger] c.byte_flags@[i]));
    assert forall|j: int| 0 <= j < 4 implies #[trigger] flags_from(c, j) == if j <= t { 1int } else { 0int } by {
        assert(flags_from(c, 3) == c.byte_flags@[3] as int + flags_from(c, 4));
    }
    assert(vanishes(flags_from(c, 0) - 1));
    assert forall|i: int| 0 <= i < 4 implies vanishes(#[trigger] c.byte_flags@[i] * (c.lhs_comparison_byte - lhs@[i])) by {
        if i == t {
            assert(c.lhs_comparison_byte - lhs@[i] == 0);
        } else {
            assert(c.byte_flags@[i] == 0);
        }
    }
    assert forall|i: int| 0 <= i < 4 implies vanishes(#[trigger] c.byte_flags@[i] * (c.rhs_comparison_byte - rhs@[i])) by {
        if i == t {
            assert(c.rhs_comparison_byte - rhs@[i] == 0);
        } else {
            assert(c.byte_flags@[i] == 0);
        }
    }
    assert forall|j: int| 0 <= j < 4 implies vanishes((1 - #[trigger] flags_from(c, j)) * (lhs@[j] - rhs@[j])) by {
        if j <= t {
            assert(1 - flags_from(c, j) == 0);
        } else {
            assert(lhs@[j] - rhs@[j] == 0);
        }
    }
}

proof fn lemma_inverse_search(s: nat, from: nat)
    requires
        s > 0,
    ensures
        inverse_search(s, from) != 0 ==> (s as int * inverse_search(s, from) as int) % (FIELD_P as int) == 1,
    decreases s - from,
{
    if from < s {
        let n = from * (FIELD_P as nat) + 1;
        if n % s == 0 {
            let r = n / s;
            assert(s * r == n) by (nonlinear_arith)
                requires
                    n % s == 0,
                    r == n / s,
                    s > 0,
            ;
            assert((s as int * r as int) % (FIELD_P as int) == 1) by (nonlinear_arith)
                requires
                    s * r == from * (FIELD_P as nat) + 1,
            ;
        } else {
            lemma_inverse_search(s, from + 1);
        }
    }
}

/// A row filled in for a well-formed event meets every constraint.
#[verifier::rlimit(80)]
pub proof fn lemma_populated_row_holds(row: Uint32SqrCols, e: Uint32SqrEvent)
    requires
        e.well_formed(),
        event_fits(e),
        populated(row, e),
    ensures
        constraints_hold(row),
{
    let x = e.x@[0];
    let m = e.modulus@[0];
    let rv = sqr_mod(x, m) as u32;
    lemma_sqr_mod_range(x, m);
    lemma_limbs_of_bytes(x);
    lemma_limbs_of_bytes(m);
    lemma_limbs_of_bytes(rv);
    let em = effective_modulus(m);
    let xx = x as int * x as int;
    assert(0 <= xx <= 0xffff_ffff * 0xffff_ffff) by (nonlinear_arith)
        requires
            xx == x as int * x as int,
            0 <= x <= 0xffff_ffff,
    ;
    let qv = xx / em;
    assert(0 <= qv <= xx) by (nonlinear_arith)
        requires
            qv == xx / em,
            em >= 1,
            xx >= 0,
    ;
    lemma_limbs_of_u64(qv as u64);
    assert(operand_bytes(row));
    assert(is_bit(row.modulus_is_zero.result));
    // The identity x * x = quotient * e + result holds of the filled-in limbs.
    vstd::arithmetic::div_mod::lemma_fundamental_div_mod(xx, em);
    assert(limbs_word(row.x_memory.prev_value) == x as int);
    assert(limbs_word(row.output.result) == rv as int);
    assert(quotient_value(row) == qv);
    lemma_eff_limbs(row);
    assert(eff_value(row) == em);
    assert(qv * em == em * qv) by (nonlinear_arith);
    lemma_limb_sum_identity(row);
    assert(weighted_limb_sums(row) == 0);
    lemma_carry_chain(row);
    assert(-2000 < computed_carry(row, 0) < 2000);
    assert(-2000 < computed_carry(row, 1) < 2000);
    assert(-2000 < computed_carry(row, 2) < 2000);
    assert(-2000 < computed_carry(row, 3) < 2000);
    assert(-2000 < computed_carry(row, 4) < 2000);
    assert(-2000 < computed_carry(row, 5) < 2000);
    assert(-2000 < computed_carry(row, 6) < 2000);
    assert(-2000 < computed_carry(row, 7) < 2000);
    assert(-2000 < computed_carry(row, 8) < 2000);
    assert(-2000 < computed_carry(row, 9) < 2000);
    assert(-2000 < computed_carry(row, 10) < 2000);
    assert(carry(row, 0) == computed_carry(row, 0));
    assert(carry(row, 1) == computed_carry(row, 1));
    assert(carry(row, 2) == computed_carry(row, 2));
    assert(carry(row, 3) == computed_carry(row, 3));
    assert(carry(row, 4) == computed_carry(row, 4));
    assert(carry(row, 5) == computed_carry(row, 5));
    assert(carry(row, 6) == computed_carry(row, 6));
    assert(carry(row, 7) == computed_carry(row, 7));
    assert(carry(row, 8) == computed_carry(row, 8));
    assert(carry(row, 9) == computed_carry(row, 9));
    assert(carry(row, 10) == computed_carry(row, 10));
    assert(mul_limb(row, 0) == limb_sum(row, 0) - 256 * carry(row, 0));
    assert(mul_limb(row, 1) == limb_sum(row, 1) + carry(row, 0) - 256 * carry(row, 1));
    assert(mul_limb(row, 2) == limb_sum(row, 2) + carry(row, 1) - 256 * carry(row, 2));
    assert(mul_limb(row, 3) == limb_sum(row, 3) + carry(row, 2) - 256 * carry(row, 3));
    assert(mul_limb(row, 4) == limb_sum(row, 4) + carry(row, 3) - 256 * carry(row, 4));
    assert(mul_limb(row, 5) == limb_sum(row, 5) + carry(row, 4) - 256 * carry(row, 5));
    assert(mul_limb(row, 6) == limb_sum(row, 6) + carry(row, 5) - 256 * carry(row, 6));
    assert(mul_limb(row, 7) == limb_sum(row, 7) + carry(row, 6) - 256 * carry(row, 7));
    assert(mul_limb(row, 8) == limb_sum(row, 8) + carry(row, 7) - 256 * carry(row, 8));
    assert(mul_limb(row, 9) == limb_sum(row, 9) + carry(row, 8) - 256 * carry(row, 9));
    assert(mul_limb(row, 10) == limb_sum(row, 10) + carry(row, 9) - 256 * carry(row, 10));
    assert(mul_limb(row, 11) == limb_sum(row, 11) + carry(row, 10));
    assert forall|k: int| 0 <= k < 12 implies #[trigger] mul_limb(row, k) == 0 by {
        assert(k == 0 || k == 1 || k == 2 || k == 3 || k == 4 || k == 5 || k == 6 || k == 7 || k == 8 || k == 9 || k == 10 || k == 11);
        if k >= 1 && k < 11 {
            assert(limb_sum(row, k) + computed_carry(row, (k - 1) as nat) - 256 * computed_carry(row, k as nat) == 0);
        }
    }
    assert forall|k: int| 0 <= k < 11 implies #[trigger] row.output.witness_low@[k] < 256 && row.output.witness_high@[k] < 256 by {
        assert(-2000 < computed_carry(row, k as nat) < 2000);
    }
    assert(bytes_in_range(row));
    // The zero test.
    let sm = modulus_byte_sum(row);
    assert(sm == byte_sum(m));
    if m == 0 {
        assert(sm * row.modulus_is_zero.inverse - (1 - zero_flag(row)) == 0);
        assert(sm * zero_flag(row) == 0);
    } else {
        lemma_byte_sums_invertible(byte_sum(m));
        lemma_inverse_search(byte_sum(m), 0);
        lemma_vanishes_shift(sm * row.modulus_is_zero.inverse, 1);
        assert(sm * zero_flag(row) == 0);
    }
    assert(zero_test_holds(row));
    assert forall|i: int| 0 <= i < 4 implies vanishes(#[trigger] row.x_memory.value@[i] - row.output.result@[i]) by {
        assert(row.x_memory.value@[i] == row.output.result@[i]);
    }
    assert(real_row_constraints(row));
    assert(row.modulus_is_not_zero - row.is_real * (1 - zero_flag(row)) == 0);
    if row.modulus_is_not_zero == 1 {
        lemma_lt_cols_hold(row.output_range_check, row.output.result, row.modulus_memory.value);
    }
}

/// In a real row that meets every constraint with a nonzero modulus, the
/// range-check witness is the one the trace builder fills in: the flag sits
/// on the most significant limb where result and modulus differ.
pub proof fn lemma_range_witness_unique(row: Uint32SqrCols)
    requires
        row_felts(row),
        constraints_hold(row),
        row.is_real == 1,
        row.modulus_is_not_zero == 1,
    ensures
        lt_cols_of(true, row.output.result@, row.modulus_memory.value@, row.output_range_check),
{
    let c = row.output_range_check;
    let lhs = row.output.result;
    let rhs = row.modulus_memory.value;
    assert(lhs@[0] < 256 && lhs@[1] < 256 && lhs@[2] < 256 && lhs@[3] < 256);
    assert(rhs@[0] < 256 && rhs@[1] < 256 && rhs@[2] < 256 && rhs@[3] < 256);
    reveal_with_fuel(top_difference, 5);
    reveal_with_fuel(flags_from, 5);
    lemma_small_vanishes(flags_from(c, 0) - 1);
    lemma_lt_terms(c, lhs, rhs);
    let f = c.byte_flags@;
    assert(is_bit(f[0]) && is_bit(f[1]) && is_bit(f[2]) && is_bit(f[3]));
    assert(vanishes((1 - flags_from(c, 1)) * (lhs@[1] - rhs@[1])));
    assert(vanishes((1 - flags_from(c, 2)) * (lhs@[2] - rhs@[2])));
    assert(vanishes((1 - flags_from(c, 3)) * (lhs@[3] - rhs@[3])));
    assert(vanishes(f[0] * (c.lhs_comparison_byte - lhs@[0])) && vanishes(f[0] * (c.rhs_comparison_byte - rhs@[0])));
    assert(vanishes(f[1] * (c.lhs_comparison_byte - lhs@[1])) && vanishes(f[1] * (c.rhs_comparison_byte - rhs@[1])));
    assert(vanishes(f[2] * (c.lhs_comparison_byte - lhs@[2])) && vanishes(f[2] * (c.rhs_comparison_byte - rhs@[2])));
    assert(vanishes(f[3] * (c.lhs_comparison_byte - lhs@[3])) && vanishes(f[3] * (c.rhs_comparison_byte - rhs@[3])));
    let t = top_difference(lhs@, rhs@, 4);
    assert(t >= 0);
    assert forall|i: int| 0 <= i < 4 implies #[trigger] c.byte_flags@[i] == if i == t { 1u32 } else { 0u32 } by {
    }
}

proof fn lemma_carry_frame(a: Uint32SqrCols, b: Uint32SqrCols, k: nat)
    requires
        a.output.result == b.output.result,
        a.output.carry == b.output.carry,
        a.x_memory == b.x_memory,
        a.modulus_memory == b.modulus_memory,
        a.modulus_is_zero == b.modulus_is_zero,
    ensures
        computed_carry(a, k) == computed_carry(b, k),
    decreases k,
{
    if k > 0 {
        lemma_carry_frame(a, b, (k - 1) as nat);
    }
    assert(limb_sum(a, k as int) == limb_sum(b, k as int));
}

} // verus!
