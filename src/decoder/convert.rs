//! Sign extension of the accumulator: CBW and CWD.
use vstd::prelude::*;

use crate::cpu::{Cpu, MEMORY_SIZE};
use crate::decoder::{decode_single, decoded, single, DecodeError};
use crate::instruction::{FillerInstruction, Instruction};

verus! {

/// Decodes CBW (0x98) at physical address `addr`.
pub fn decode_cbw(cpu: &mut Cpu, addr: &u32) -> (r: Result<Instruction, DecodeError>)
    requires
        old(cpu).wf(),
        *addr < MEMORY_SIZE,
    ensures
        r == single(old(cpu).memory@, *addr, 0x98, Instruction::Cbw((FillerInstruction { length: 1 }))),
        decoded(*old(cpu), *final(cpu), r),
{
    decode_single(cpu, addr, 0x98, Instruction::Cbw(FillerInstruction { length: 1 }))
}

/// Decodes CWD (0x99) at physical address `addr`.
pub fn decode_cwd(cpu: &mut Cpu, addr: &u32) -> (r: Result<Instruction, DecodeError>)
    requires
        old(cpu).wf(),
        *addr < MEMORY_SIZE,
    ensures
        r == single(old(cpu).memory@, *addr, 0x99, Instruction::Cwd((FillerInstruction { length: 1 }))),
        decoded(*old(cpu), *final(cpu), r),
{
    decode_single(cpu, addr, 0x99, Instruction::Cwd(FillerInstruction { length: 1 }))
}

} // verus!
