//! Native execution of the squaring instruction against word-addressed memory.
use vstd::prelude::*;
use std::collections::HashMap;
use crate::event::{
    LookupId, MemoryLocalEvent, MemoryReadRecord, MemoryRecord, MemoryWriteRecord, SyscallEvent,
    Uint32SqrEvent,
};

verus! {

broadcast use vstd::std_specs::hash::group_hash_axioms;

/// The instruction code of the squaring precompile.
pub const UINT32_SQR: u32 = 0x00_01_01_32;

/// `x * x` modulo the effective modulus: `modulus`, or `2^32` where the stored
/// modulus is zero.
pub open spec fn sqr_mod(x: u32, modulus: u32) -> int {
    (x as int * x as int) % effective_modulus(modulus)
}

/// The modulus that a stored modulus stands for: zero stands for `2^32`.
pub open spec fn effective_modulus(modulus: u32) -> int {
    if modulus == 0 {
        0x1_0000_0000
    } else {
        modulus as int
    }
}

/// `x * x` modulo `modulus`, where a modulus of zero stands for `2^32`.
pub fn uint32_sqr_mod(x: u32, modulus: u32) -> (r: u32)
    ensures
        r as int == sqr_mod(x, modulus),
        (r as int) < effective_modulus(modulus),
{
    let xx = x as u64;
    assert(xx * xx <= 0xffff_ffffu64 * 0xffff_ffffu64) by (nonlinear_arith)
        requires
            xx <= 0xffff_ffffu64,
    ;
    let sq: u64 = xx * xx;
    if modulus == 0 {
        (sq % 0x1_0000_0000u64) as u32
    } else {
        (sq % (modulus as u64)) as u32
    }
}

/// The result is below the effective modulus; with the zero sentinel it is
/// the low 32 bits of `x * x`.
pub proof fn lemma_sqr_mod_range(x: u32, modulus: u32)
    ensures
        0 <= sqr_mod(x, modulus) < effective_modulus(modulus),
        modulus != 0 ==> sqr_mod(x, modulus) < modulus,
        modulus == 0 ==> sqr_mod(x, modulus) == (x as int * x as int) % 0x1_0000_0000,
{
}

/// Zero squares to zero under every modulus, and one squares to one under
/// every modulus but one (where everything reduces to zero).
pub proof fn lemma_sqr_mod_edges(modulus: u32)
    ensures
        sqr_mod(0, modulus) == 0,
        modulus != 1 ==> sqr_mod(1, modulus) == 1,
{
    let e = effective_modulus(modulus);
    assert(0int * 0int == 0 && 1int * 1int == 1);
    vstd::arithmetic::div_mod::lemma_small_mod(0nat, e as nat);
    if modulus != 1 {
        vstd::arithmetic::div_mod::lemma_small_mod(1nat, e as nat);
    }
}

/// The state of a word of memory that was never written.
pub open spec fn untouched() -> MemoryRecord {
    MemoryRecord { shard: 0, timestamp: 0, value: 0 }
}

/// The state of the word at `addr`.
pub open spec fn entry_at(memory: Map<u32, MemoryRecord>, addr: u32) -> MemoryRecord {
    if memory.contains_key(addr) {
        memory[addr]
    } else {
        untouched()
    }
}

/// What a syscall sees of the machine: the clock, the shard, its memory, and
/// the records it adds to.
pub struct SyscallContext {
    pub shard: u32,
    pub clk: u32,
    pub syscall_lookup_id: LookupId,
    pub memory: HashMap<u32, MemoryRecord>,
    pub syscall_events: Vec<SyscallEvent>,
    pub precompile_events: Vec<Uint32SqrEvent>,
}

impl SyscallContext {
    pub fn new(shard: u32, clk: u32, syscall_lookup_id: LookupId) -> (r: Self)
        ensures
            r.shard == shard,
            r.clk == clk,
            r.syscall_lookup_id == syscall_lookup_id,
            r.memory@ == Map::<u32, MemoryRecord>::empty(),
            r.syscall_events@.len() == 0,
            r.precompile_events@.len() == 0,
    {
        SyscallContext {
            shard,
            clk,
            syscall_lookup_id,
            memory: HashMap::new(),
            syscall_events: Vec::new(),
            precompile_events: Vec::new(),
        }
    }

    /// The state of the word at `addr`.
    pub fn entry(&self, addr: u32) -> (r: MemoryRecord)
        ensures
            r == entry_at(self.memory@, addr),
    {
        match self.memory.get(&addr) {
            Some(e) => *e,
            None => MemoryRecord { shard: 0, timestamp: 0, value: 0 },
        }
    }

    /// Sets the word at `addr`, leaving its access history as it was.
    pub fn set_word(&mut self, addr: u32, value: u32)
        ensures
            final(self).memory@ == old(self).memory@.insert(
                addr,
                MemoryRecord { value, ..entry_at(old(self).memory@, addr) },
            ),
            final(self).shard == old(self).shard,
            final(self).clk == old(self).clk,
            final(self).syscall_lookup_id == old(self).syscall_lookup_id,
            final(self).syscall_events@ == old(self).syscall_events@,
            final(self).precompile_events@ == old(self).precompile_events@,
    {
        let e = self.entry(addr);
        self.memory.insert(addr, MemoryRecord { value, ..e });
    }

    /// Reads the word at `addr` without recording an access.
    pub fn word_unrecorded(&self, addr: u32) -> (r: u32)
        ensures
            r == entry_at(self.memory@, addr).value,
    {
        self.entry(addr).value
    }

    /// Reads the word at `addr` at the current clock, recording the access.
    pub fn mr(&mut self, addr: u32) -> (r: MemoryReadRecord)
        ensures
            r == (MemoryReadRecord {
                value: entry_at(old(self).memory@, addr).value,
                shard: old(self).shard,
                timestamp: old(self).clk,
                prev_shard: entry_at(old(self).memory@, addr).shard,
                prev_timestamp: entry_at(old(self).memory@, addr).timestamp,
            }),
            final(self).memory@ == old(self).memory@.insert(
                addr,
                MemoryRecord { shard: old(self).shard, timestamp: old(self).clk, value: r.value },
            ),
            final(self).shard == old(self).shard,
            final(self).clk == old(self).clk,
            final(self).syscall_lookup_id == old(self).syscall_lookup_id,
            final(self).syscall_events@ == old(self).syscall_events@,
            final(self).precompile_events@ == old(self).precompile_events@,
    {
        let e = self.entry(addr);
        let rec = MemoryReadRecord {
            value: e.value,
            shard: self.shard,
            timestamp: self.clk,
            prev_shard: e.shard,
            prev_timestamp: e.timestamp,
        };
        self.memory.insert(addr, MemoryRecord { shard: self.shard, timestamp: self.clk, value: e.value });
        rec
    }

    /// Writes `value` to the word at `addr` at the current clock, recording
    /// the access.
    pub fn mw(&mut self, addr: u32, value: u32) -> (r: MemoryWriteRecord)
        ensures
            r == (MemoryWriteRecord {
                value,
                shard: old(self).shard,
                timestamp: old(self).clk,
                prev_value: entry_at(old(self).memory@, addr).value,
                prev_shard: entry_at(old(self).memory@, addr).shard,
                prev_timestamp: entry_at(old(self).memory@, addr).timestamp,
            }),
            final(self).memory@ == old(self).memory@.insert(
                addr,
                MemoryRecord { shard: old(self).shard, timestamp: old(self).clk, value },
            ),
            final(self).shard == old(self).shard,
            final(self).clk == old(self).clk,
            final(self).syscall_lookup_id == old(self).syscall_lookup_id,
            final(self).syscall_events@ == old(self).syscall_events@,
            final(self).precompile_events@ == old(self).precompile_events@,
    {
        let e = self.entry(addr);
        let rec = MemoryWriteRecord {
            value,
            shard: self.shard,
            timestamp: self.clk,
            prev_value: e.value,
            prev_shard: e.shard,
            prev_timestamp: e.timestamp,
        };
        self.memory.insert(addr, MemoryRecord { shard: self.shard, timestamp: self.clk, value });
        rec
    }
}

/// The local memory events of one execution: the modulus word read, then the
/// x word written; one event where both are the same word.
pub open spec fn local_events(
    x_ptr: u32,
    modulus_ptr: u32,
    x_rec: MemoryWriteRecord,
    m_rec: MemoryReadRecord,
) -> Seq<MemoryLocalEvent> {
    let m_initial = MemoryRecord { shard: m_rec.prev_shard, timestamp: m_rec.prev_timestamp, value: m_rec.value };
    let m_final = MemoryRecord { shard: m_rec.shard, timestamp: m_rec.timestamp, value: m_rec.value };
    let x_initial = MemoryRecord { shard: x_rec.prev_shard, timestamp: x_rec.prev_timestamp, value: x_rec.prev_value };
    let x_final = MemoryRecord { shard: x_rec.shard, timestamp: x_rec.timestamp, value: x_rec.value };
    if x_ptr == modulus_ptr {
        seq![MemoryLocalEvent { addr: x_ptr, initial_mem_access: m_initial, final_mem_access: x_final }]
    } else {
        seq![
            MemoryLocalEvent { addr: modulus_ptr, initial_mem_access: m_initial, final_mem_access: m_final },
            MemoryLocalEvent { addr: x_ptr, initial_mem_access: x_initial, final_mem_access: x_final },
        ]
    }
}

fn local_mem_access(
    x_ptr: u32,
    modulus_ptr: u32,
    x_rec: MemoryWriteRecord,
    m_rec: MemoryReadRecord,
) -> (r: Vec<MemoryLocalEvent>)
    ensures
        r@ == local_events(x_ptr, modulus_ptr, x_rec, m_rec),
{
    let m_initial = MemoryRecord { shard: m_rec.prev_shard, timestamp: m_rec.prev_timestamp, value: m_rec.value };
    let m_final = MemoryRecord { shard: m_rec.shard, timestamp: m_rec.timestamp, value: m_rec.value };
    let x_initial = MemoryRecord { shard: x_rec.prev_shard, timestamp: x_rec.prev_timestamp, value: x_rec.prev_value };
    let x_final = MemoryRecord { shard: x_rec.shard, timestamp: x_rec.timestamp, value: x_rec.value };
    let r = if x_ptr == modulus_ptr {
        vec![MemoryLocalEvent { addr: x_ptr, initial_mem_access: m_initial, final_mem_access: x_final }]
    } else {
        vec![
            MemoryLocalEvent { addr: modulus_ptr, initial_mem_access: m_initial, final_mem_access: m_final },
            MemoryLocalEvent { addr: x_ptr, initial_mem_access: x_initial, final_mem_access: x_final },
        ]
    };
    assert(r@ =~= local_events(x_ptr, modulus_ptr, x_rec, m_rec));
    r
}

/// The squaring syscall.
pub struct Uint32SqrSyscall;

impl Uint32SqrSyscall {
    /// Squares the word at `arg1` modulo the word at `arg2` (zero standing for
    /// `2^32`) and writes the result over the word at `arg1`, one cycle after
    /// reading the modulus. Records the event and its dispatch record.
    pub fn execute(&self, rt: &mut SyscallContext, syscall_code: u32, arg1: u32, arg2: u32) -> (r:
        Option<u32>)
        requires
            arg1 % 4 == 0,
            arg2 % 4 == 0,
            old(rt).clk < u32::MAX,
        ensures
            r.is_none(),
            ({
                let m0 = old(rt).memory@;
                let x = entry_at(m0, arg1).value;
                let modulus = entry_at(m0, arg2).value;
                let result = sqr_mod(x, modulus) as u32;
                let m_rec = MemoryReadRecord {
                    value: modulus,
                    shard: old(rt).shard,
                    timestamp: old(rt).clk,
                    prev_shard: entry_at(m0, arg2).shard,
                    prev_timestamp: entry_at(m0, arg2).timestamp,
                };
                let m1 = m0.insert(arg2, MemoryRecord { shard: old(rt).shard, timestamp: old(rt).clk, value: modulus });
                let x_rec = MemoryWriteRecord {
                    value: result,
                    shard: old(rt).shard,
                    timestamp: (old(rt).clk + 1) as u32,
                    prev_value: entry_at(m1, arg1).value,
                    prev_shard: entry_at(m1, arg1).shard,
                    prev_timestamp: entry_at(m1, arg1).timestamp,
                };
                let event = Uint32SqrEvent {
                    lookup_id: old(rt).syscall_lookup_id,
                    shard: old(rt).shard,
                    clk: old(rt).clk,
                    x_ptr: arg1,
                    x: final(rt).precompile_events@.last().x,
                    modulus_ptr: arg2,
                    modulus: final(rt).precompile_events@.last().modulus,
                    x_memory_records: final(rt).precompile_events@.last().x_memory_records,
                    modulus_memory_records: final(rt).precompile_events@.last().modulus_memory_records,
                    local_mem_access: final(rt).precompile_events@.last().local_mem_access,
                };
                &&& final(rt).memory@ == m1.insert(
                    arg1,
                    MemoryRecord { shard: old(rt).shard, timestamp: (old(rt).clk + 1) as u32, value: result },
                )
                &&& final(rt).clk == old(rt).clk + 1
                &&& final(rt).shard == old(rt).shard
                &&& final(rt).syscall_lookup_id == old(rt).syscall_lookup_id
                &&& final(rt).precompile_events@ == old(rt).precompile_events@.push(event)
                &&& event.x@ == seq![x]
                &&& event.modulus@ == seq![modulus]
                &&& event.x_memory_records@ == seq![x_rec]
                &&& event.modulus_memory_records@ == seq![m_rec]
                &&& event.local_mem_access@ == local_events(arg1, arg2, x_rec, m_rec)
                &&& event.well_formed()
                &&& final(rt).syscall_events@ == old(rt).syscall_events@.push(
                    SyscallEvent {
                        shard: old(rt).shard,
                        clk: old(rt).clk,
                        syscall_id: syscall_code,
                        arg1,
                        arg2,
                        lookup_id: old(rt).syscall_lookup_id,
                    },
                )
            }),
    {
        let clk = rt.clk;
        let x_ptr = arg1;
        let modulus_ptr = arg2;

        // x is overwritten below, so this read needs no record of its own.
        let x_word = rt.word_unrecorded(x_ptr);
        let modulus_record = rt.mr(modulus_ptr);
        let modulus_word = modulus_record.value;

        let result = uint32_sqr_mod(x_word, modulus_word);

        // The write comes one cycle after the read.
        rt.clk = rt.clk + 1;
        let x_record = rt.mw(x_ptr, result);

        let lookup_id = rt.syscall_lookup_id;
        let shard = rt.shard;
        let local = local_mem_access(x_ptr, modulus_ptr, x_record, modulus_record);
        let event = Uint32SqrEvent {
            lookup_id,
            shard,
            clk,
            x_ptr,
            x: vec![x_word],
            modulus_ptr,
            modulus: vec![modulus_word],
            x_memory_records: vec![x_record],
            modulus_memory_records: vec![modulus_record],
            local_mem_access: local,
        };
        proof {
            assert(x_ptr == modulus_ptr ==> x_word == modulus_word);
        }
        let syscall_event = SyscallEvent {
            shard,
            clk,
            syscall_id: syscall_code,
            arg1,
            arg2,
            lookup_id,
        };
        rt.syscall_events.push(syscall_event);
        rt.precompile_events.push(event);
        None
    }

    /// The cycles this instruction costs beyond the base instruction.
    pub fn num_extra_cycles(&self) -> (r: u32)
        ensures
            r == 1,
    {
        1
    }
}

} // verus!
