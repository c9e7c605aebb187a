use uint32_sqr::air::{memory_interactions, syscall_interaction};
use uint32_sqr::chip::{dummy_row, field_inverse, populate_row, ByteOpcode, Uint32SqrChip};
use uint32_sqr::columns::{Uint32SqrCols, FIELD_P, NUM_COLS};
use uint32_sqr::event::Uint32SqrEvent;
use uint32_sqr::executor::{uint32_sqr_mod, SyscallContext, Uint32SqrSyscall, UINT32_SQR};
use uint32_sqr::params::U32Field;
use uint32_sqr::words::{
    bytes_to_word_le, value_from_limbs_le, word_to_bytes_le, words_to_bytes_le_vec,
};

const X_PTR: u32 = 0x1000;
const MODULUS_PTR: u32 = 0x2000;

/// Runs the instruction once on fresh memory and returns the word left at x
/// and the event.
fn run(x: u32, modulus: u32) -> (u32, Uint32SqrEvent) {
    let mut rt = SyscallContext::new(1, 100, 7);
    rt.set_word(X_PTR, x);
    rt.set_word(MODULUS_PTR, modulus);
    let r = Uint32SqrSyscall.execute(&mut rt, UINT32_SQR, X_PTR, MODULUS_PTR);
    assert_eq!(r, None);
    let out = rt.word_unrecorded(X_PTR);
    let event = rt.precompile_events.pop().unwrap();
    (out, event)
}

fn trace(events: &Vec<Uint32SqrEvent>, log2: Option<u32>) -> Vec<Uint32SqrCols> {
    Uint32SqrChip::new().generate_trace(events, log2).0
}

fn valid(row: &Uint32SqrCols) -> bool {
    Uint32SqrChip::new().eval(row)
}

/// A small deterministic sequence of 32-bit values.
fn sample(n: usize) -> Vec<u32> {
    let mut v = Vec::new();
    let mut s: u64 = 0x9e37_79b9_7f4a_7c15;
    for _ in 0..n {
        s = s.wrapping_mul(6364136223846793005).wrapping_add(1442695040888963407);
        v.push((s >> 32) as u32);
    }
    v
}

#[test]
fn test_uint32_modulus() {
    assert_eq!(value_from_limbs_le(&U32Field::MODULUS), U32Field::modulus());
}

#[test]
fn test_uint32_sqr() {
    let mut events = Vec::new();
    let xs = sample(20);
    let ms = sample(41);
    for i in 0..20 {
        let (x, m) = (xs[i], ms[20 + i]);
        let (out, e) = run(x, m);
        assert_eq!(out as u64, (x as u64 * x as u64) % (m as u64));
        events.push(e);
    }
    for &x in xs.iter().take(10) {
        let (out, e) = run(x, 0);
        assert_eq!(out, x.wrapping_mul(x));
        events.push(e);
    }
    let rows = trace(&events, None);
    assert_eq!(rows.len(), 32);
    for row in rows.iter() {
        assert!(valid(row));
    }
}

#[test]
fn literal_scenarios() {
    assert_eq!(run(3, 5).0, 4);
    assert_eq!(run(0xFFFF_FFFF, 0).0, 1);
    assert_eq!(run(1, 0).0, 1);
    assert_eq!(run(0, 7).0, 0);
    assert_eq!(uint32_sqr_mod(3, 5), 4);
    assert_eq!(uint32_sqr_mod(0xFFFF_FFFF, 0), 1);
}

#[test]
fn nonzero_modulus_reduces_below_modulus() {
    let xs = sample(50);
    let ms = sample(100);
    for i in 0..50 {
        let m = ms[50 + i] | 1;
        let r = uint32_sqr_mod(xs[i], m);
        assert_eq!(r as u64, (xs[i] as u64 * xs[i] as u64) % m as u64);
        assert!(r < m);
    }
    assert_eq!(uint32_sqr_mod(0xFFFF_FFFF, 0xFFFF_FFFF), 0);
    assert_eq!(uint32_sqr_mod(0xFFFF_FFFF, 0xFFFF_FFFE), 1);
}

#[test]
fn zero_modulus_keeps_low_word() {
    for x in sample(50) {
        assert_eq!(uint32_sqr_mod(x, 0), x.wrapping_mul(x));
    }
    assert_eq!(uint32_sqr_mod(0x1_0000 as u32, 0), 0);
    assert_eq!(uint32_sqr_mod(0x1_0001 as u32, 0), 0x2_0001);
}

#[test]
fn zero_and_one_edges() {
    for m in [0u32, 2, 3, 7, 255, 256, 0xFFFF_FFFF] {
        assert_eq!(run(0, m).0, 0);
        assert_eq!(run(1, m).0, 1);
    }
    assert_eq!(run(1, 1).0, 0);
}

#[test]
fn word_bytes_round_trip() {
    for w in sample(20).into_iter().chain([0u32, 1, 0xFFFF_FFFF]) {
        let b = word_to_bytes_le(w);
        assert_eq!(bytes_to_word_le(b), w);
        assert_eq!(value_from_limbs_le(&b), w as u64);
    }
    assert_eq!(word_to_bytes_le(0x0403_0201), [1, 2, 3, 4]);
    assert_eq!(words_to_bytes_le_vec(&vec![0x0403_0201, 0x0807_0605]), vec![1, 2, 3, 4, 5, 6, 7, 8]);
    let row = populate_row(&run(0xFFFF_FFFF, 0).1);
    let r = &row.output.result;
    let bytes = [r[0] as u8, r[1] as u8, r[2] as u8, r[3] as u8];
    assert_eq!(bytes_to_word_le(bytes), 1);
}

#[test]
fn trace_generation_is_repeatable() {
    let mut events = Vec::new();
    for (x, m) in [(3u32, 5u32), (0xFFFF_FFFF, 0), (12345, 0xFFFF), (7, 1)] {
        events.push(run(x, m).1);
    }
    let (rows1, lookups1) = Uint32SqrChip::new().generate_trace(&events, Some(3));
    let (rows2, lookups2) = Uint32SqrChip::new().generate_trace(&events, Some(3));
    assert_eq!(rows1, rows2);
    assert_eq!(lookups1, lookups2);
    assert_eq!(rows1.len(), 8);
    for i in 0..4 {
        assert_eq!(rows1[i], populate_row(&events[i]));
    }
    assert_eq!(rows1[4], dummy_row());
}

#[test]
fn mutated_rows_are_rejected() {
    let row = populate_row(&run(3, 5).1);
    assert!(valid(&row));
    assert_eq!(row.output.result, [4, 0, 0, 0]);

    let mut bad = row;
    bad.output.result[0] = 5;
    assert!(!valid(&bad));

    let mut bad = row;
    bad.output.result[0] = 5;
    bad.x_memory.value[0] = 5;
    assert!(!valid(&bad));

    let mut bad = row;
    bad.modulus_is_zero.result = 1;
    assert!(!valid(&bad));

    let mut bad = row;
    bad.modulus_is_zero.inverse = 0;
    assert!(!valid(&bad));

    let mut bad = row;
    bad.output_range_check.byte_flags = [0, 1, 0, 0];
    assert!(!valid(&bad));

    let mut bad = row;
    bad.output.witness_low[0] = bad.output.witness_low[0] + 1;
    assert!(!valid(&bad));

    let mut bad = row;
    bad.is_real = 2;
    assert!(!valid(&bad));

    let zero_row = populate_row(&run(0xFFFF_FFFF, 0).1);
    assert!(valid(&zero_row));
    let mut bad = zero_row;
    bad.modulus_is_zero.result = 0;
    bad.modulus_is_not_zero = 1;
    assert!(!valid(&bad));
}

#[test]
fn padding_rows_hold() {
    let pad = dummy_row();
    assert!(valid(&pad));
    assert_eq!(pad.is_real, 0);
    let mut odd = pad;
    odd.output.result = [9, 9, 9, 9];
    odd.x_memory.prev_value = [1, 2, 3, 4];
    odd.modulus_is_zero.inverse = 77;
    odd.shard = 5;
    assert!(valid(&odd));
    let mut real_flag = pad;
    real_flag.modulus_is_not_zero = 1;
    assert!(!valid(&real_flag));
}

#[test]
fn padded_row_counts() {
    let events: Vec<Uint32SqrEvent> = (0..5u32).map(|i| run(i, 10).1).collect();
    assert_eq!(trace(&events, None).len(), 8);
    assert_eq!(trace(&events, Some(4)).len(), 16);
    assert_eq!(trace(&Vec::new(), None).len(), 1);
    assert_eq!(trace(&events[..4].to_vec(), None).len(), 4);
}

#[test]
fn byte_lookups_are_requested() {
    let events = vec![run(3, 5).1, run(2, 0).1];
    let (_, lookups) = Uint32SqrChip::new().generate_trace(&events, None);
    let ltu: Vec<_> = lookups.iter().filter(|l| l.opcode == ByteOpcode::LTU).collect();
    assert_eq!(ltu.len(), 1);
    assert_eq!((ltu[0].a, ltu[0].b), (4, 5));
    let per_row = 4 + 4 + 4 + 4 + 8 + 11 + 11;
    assert_eq!(lookups.len(), 2 * per_row + 1);
}

#[test]
fn execution_records_memory_and_clock() {
    let mut rt = SyscallContext::new(2, 40, 9);
    rt.set_word(X_PTR, 6);
    rt.set_word(MODULUS_PTR, 7);
    Uint32SqrSyscall.execute(&mut rt, UINT32_SQR, X_PTR, MODULUS_PTR);
    assert_eq!(rt.clk, 41);
    let e = &rt.precompile_events[0];
    assert_eq!(e.x, vec![6]);
    assert_eq!(e.modulus, vec![7]);
    assert_eq!(e.clk, 40);
    assert_eq!(e.modulus_memory_records[0].timestamp, 40);
    assert_eq!(e.x_memory_records[0].timestamp, 41);
    assert_eq!(e.x_memory_records[0].prev_value, 6);
    assert_eq!(e.x_memory_records[0].value, 1);
    assert_eq!(e.local_mem_access.len(), 2);
    let s = rt.syscall_events[0];
    assert_eq!((s.arg1, s.arg2, s.lookup_id, s.syscall_id), (X_PTR, MODULUS_PTR, 9, UINT32_SQR));
    assert_eq!(Uint32SqrSyscall.num_extra_cycles(), 1);
}

#[test]
fn same_word_operand_and_modulus() {
    let mut rt = SyscallContext::new(1, 10, 1);
    rt.set_word(X_PTR, 9);
    Uint32SqrSyscall.execute(&mut rt, UINT32_SQR, X_PTR, X_PTR);
    assert_eq!(rt.word_unrecorded(X_PTR), 0);
    assert_eq!(rt.precompile_events[0].local_mem_access.len(), 1);
}

#[test]
fn chip_metadata() {
    let chip = Uint32SqrChip::new();
    assert_eq!(chip.name(), "Uint32SqrMod");
    assert_eq!(chip.width(), NUM_COLS);
    assert!(chip.local_only());
    assert!(chip.included(3, None));
    assert!(!chip.included(0, None));
    assert!(chip.included(0, Some(true)));
    assert!(!chip.included(3, Some(false)));
}

#[test]
fn every_modulus_byte_sum_has_an_inverse() {
    for s in 1..=1020u64 {
        let inv = field_inverse(s) as u64;
        assert_ne!(inv, 0);
        assert!(inv < FIELD_P);
        assert_eq!((s * inv) % FIELD_P, 1);
    }
    assert_eq!(field_inverse(1), 1);
    assert_eq!(field_inverse(2), ((FIELD_P + 1) / 2) as u32);
}

#[test]
fn large_quotients_fill_valid_rows() {
    for (x, m) in [(0xFFFF_FFFFu32, 1u32), (0xFFFF_FFFF, 2), (0x8000_0000, 3), (0xFFFF_FFFF, 0x100)] {
        let (out, e) = run(x, m);
        assert_eq!(out as u64, (x as u64 * x as u64) % m as u64);
        let row = populate_row(&e);
        assert!(valid(&row));
    }
}

#[test]
fn rows_register_bus_interactions() {
    let row = populate_row(&run(3, 5).1);
    let mem = memory_interactions(&row);
    assert_eq!(mem.len(), 2);
    assert_eq!((mem[0].addr, mem[0].clk, mem[0].multiplicity), (X_PTR, 101, 1));
    assert_eq!(mem[0].prev_value, [3, 0, 0, 0]);
    assert_eq!(mem[0].value, [4, 0, 0, 0]);
    assert_eq!((mem[1].addr, mem[1].clk), (MODULUS_PTR, 100));
    assert_eq!(mem[1].value, [5, 0, 0, 0]);
    let sys = syscall_interaction(&row, UINT32_SQR);
    assert_eq!((sys.shard, sys.clk, sys.arg1, sys.arg2, sys.multiplicity), (1, 100, X_PTR, MODULUS_PTR, 1));
    let pad = syscall_interaction(&dummy_row(), UINT32_SQR);
    assert_eq!(pad.multiplicity, 0);
}
