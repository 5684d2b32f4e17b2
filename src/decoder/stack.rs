//! Pushing and popping the flags register.
use vstd::prelude::*;

use crate::cpu::{Cpu, MEMORY_SIZE};
use crate::decoder::{decode_single, decoded, single, DecodeError};
use crate::instruction::{FillerInstruction, Instruction};

verus! {

/// Decodes POPF (0x9D) at physical address `addr`.
pub fn decode_popf(cpu: &mut Cpu, addr: &u32) -> (r: Result<Instruction, DecodeError>)
    requires
        old(cpu).wf(),
        *addr < MEMORY_SIZE,
    ensures
        r == single(old(cpu).memory@, *addr, 0x9D, Instruction::Popf((FillerInstruction { length: 1 }))),
        decoded(*old(cpu), *final(cpu), r),
{
    decode_single(cpu, addr, 0x9D, Instruction::Popf(FillerInstruction { length: 1 }))
}

/// Decodes PUSHF (0x9C) at physical address `addr`.
pub fn decode_pushf(cpu: &mut Cpu, addr: &u32) -> (r: Result<Instruction, DecodeError>)
    requires
        old(cpu).wf(),
        *addr < MEMORY_SIZE,
    ensures
        r == single(old(cpu).memory@, *addr, 0x9C, Instruction::Pushf((FillerInstruction { length: 1 }))),
        decoded(*old(cpu), *final(cpu), r),
{
    decode_single(cpu, addr, 0x9C, Instruction::Pushf(FillerInstruction { length: 1 }))
}

} // verus!
