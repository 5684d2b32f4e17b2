//! Instructions that do no work on data: WAIT, HLT and NOP.
use vstd::prelude::*;

use crate::cpu::{Cpu, MEMORY_SIZE};
use crate::decoder::{decode_single, decoded, single, DecodeError};
use crate::instruction::{FillerInstruction, Instruction};

verus! {

/// Decodes WAIT (0x9B) at physical address `addr`.
pub fn decode_wait(cpu: &mut Cpu, addr: &u32) -> (r: Result<Instruction, DecodeError>)
    requires
        old(cpu).wf(),
        *addr < MEMORY_SIZE,
    ensures
        r == single(old(cpu).memory@, *addr, 0x9B, Instruction::Wait((FillerInstruction { length: 1 }))),
        decoded(*old(cpu), *final(cpu), r),
{
    decode_single(cpu, addr, 0x9B, Instruction::Wait(FillerInstruction { length: 1 }))
}

/// Decodes HLT (0xF4) at physical address `addr`.
pub fn decode_hlt(cpu: &mut Cpu, addr: &u32) -> (r: Result<Instruction, DecodeError>)
    requires
        old(cpu).wf(),
        *addr < MEMORY_SIZE,
    ensures
        r == single(old(cpu).memory@, *addr, 0xF4, Instruction::Hlt((FillerInstruction { length: 1 }))),
        decoded(*old(cpu), *final(cpu), r),
{
    decode_single(cpu, addr, 0xF4, Instruction::Hlt(FillerInstruction { length: 1 }))
}

/// Decodes NOP (0x90) at physical address `addr`.
pub fn decode_nop(cpu: &mut Cpu, addr: &u32) -> (r: Result<Instruction, DecodeError>)
    requires
        old(cpu).wf(),
        *addr < MEMORY_SIZE,
    ensures
        r == single(old(cpu).memory@, *addr, 0x90, Instruction::Nop((FillerInstruction { length: 1 }))),
        decoded(*old(cpu), *final(cpu), r),
{
    decode_single(cpu, addr, 0x90, Instruction::Nop(FillerInstruction { length: 1 }))
}

} // verus!
