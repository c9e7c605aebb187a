//! The records that one execution of the squaring instruction leaves behind.
use vstd::prelude::*;
use crate::executor::sqr_mod;

verus! {

/// A correlation token matching an event to the instruction that invoked it.
pub type LookupId = u64;

/// A read of one memory word: the value seen, when it was read, and when the
/// word was last touched before that.
#[derive(Debug, Clone, Copy, PartialEq, Eq)]
pub struct MemoryReadRecord {
    pub value: u32,
    pub shard: u32,
    pub timestamp: u32,
    pub prev_shard: u32,
    pub prev_timestamp: u32,
}

/// A write of one memory word: the new value and the value it replaced, when
/// it was written, and when the word was last touched before that.
#[derive(Debug, Clone, Copy, PartialEq, Eq)]
pub struct MemoryWriteRecord {
    pub value: u32,
    pub shard: u32,
    pub timestamp: u32,
    pub prev_value: u32,
    pub prev_shard: u32,
    pub prev_timestamp: u32,
}

/// The state of one memory word: its value and its last access.
#[derive(Debug, Clone, Copy, PartialEq, Eq)]
pub struct MemoryRecord {
    pub shard: u32,
    pub timestamp: u32,
    pub value: u32,
}

/// How one address changed over an instruction, for the global memory
/// argument: its state before the first access and after the last.
#[derive(Debug, Clone, Copy, PartialEq, Eq)]
pub struct MemoryLocalEvent {
    pub addr: u32,
    pub initial_mem_access: MemoryRecord,
    pub final_mem_access: MemoryRecord,
}

/// One execution of the squaring instruction.
#[derive(Debug, Clone)]
pub struct Uint32SqrEvent {
    /// The lookup identifier.
    pub lookup_id: LookupId,
    /// The shard number.
    pub shard: u32,
    /// The clock cycle.
    pub clk: u32,
    /// The pointer to the x value.
    pub x_ptr: u32,
    /// The x value as a list of words.
    pub x: Vec<u32>,
    /// The pointer to the modulus value.
    pub modulus_ptr: u32,
    /// The modulus as a list of words.
    pub modulus: Vec<u32>,
    /// The memory records for the x value.
    pub x_memory_records: Vec<MemoryWriteRecord>,
    /// The memory records for the modulus value.
    pub modulus_memory_records: Vec<MemoryReadRecord>,
    /// The local memory access records.
    pub local_mem_access: Vec<MemoryLocalEvent>,
}

/// The syscall-dispatch record of one instruction: what the dispatch bus
/// matches an event against.
#[derive(Debug, Clone, Copy, PartialEq, Eq)]
pub struct SyscallEvent {
    pub shard: u32,
    pub clk: u32,
    pub syscall_id: u32,
    pub arg1: u32,
    pub arg2: u32,
    pub lookup_id: LookupId,
}

impl Uint32SqrEvent {
    /// The event is one word wide and its records agree with its operands:
    /// the modulus read at `clk`, and `x` overwritten with its square modulo
    /// the effective modulus at `clk + 1`.
    pub open spec fn well_formed(&self) -> bool {
        &&& self.x@.len() == 1
        &&& self.modulus@.len() == 1
        &&& self.x_memory_records@.len() == 1
        &&& self.modulus_memory_records@.len() == 1
        &&& self.x_memory_records@[0].prev_value == self.x@[0]
        &&& self.x_memory_records@[0].value == sqr_mod(self.x@[0], self.modulus@[0]) as u32
        &&& self.modulus_memory_records@[0].value == self.modulus@[0]
        &&& self.x_memory_records@[0].shard == self.shard
        &&& self.modulus_memory_records@[0].shard == self.shard
        &&& self.modulus_memory_records@[0].timestamp == self.clk
        &&& self.x_memory_records@[0].timestamp == self.clk + 1
    }
}

} // verus!
