//! Decimal adjustments: DAA, DAS, AAA, AAS, and AAM and AAD, which carry
//! their number base in a second byte.
use vstd::prelude::*;

use crate::cpu::{byte_at, Cpu, MEMORY_SIZE};
use crate::decoder::{decode_single, decoded, fetch, single, DecodeError};
use crate::instruction::{AAMDBase, FillerInstruction, Instruction};

verus! {

/// The base operand that follows the opcode of AAM and AAD.
pub open spec fn base_of(mem: Seq<u8>, addr: u32) -> AAMDBase {
    AAMDBase { base: byte_at(mem, addr + 1), length: 2 }
}

/// Decodes DAA (0x27) at physical address `addr`.
pub fn decode_daa(cpu: &mut Cpu, addr: &u32) -> (r: Result<Instruction, DecodeError>)
    requires
        old(cpu).wf(),
        *addr < MEMORY_SIZE,
    ensures
        r == single(old(cpu).memory@, *addr, 0x27, Instruction::Daa((FillerInstruction { length: 1 }))),
        decoded(*old(cpu), *final(cpu), r),
{
    decode_single(cpu, addr, 0x27, Instruction::Daa(FillerInstruction { length: 1 }))
}

/// Decodes DAS (0x2F) at physical address `addr`.
pub fn decode_das(cpu: &mut Cpu, addr: &u32) -> (r: Result<Instruction, DecodeError>)
    requires
        old(cpu).wf(),
        *addr < MEMORY_SIZE,
    ensures
        r == single(old(cpu).memory@, *addr, 0x2F, Instruction::Das((FillerInstruction { length: 1 }))),
        decoded(*old(cpu), *final(cpu), r),
{
    decode_single(cpu, addr, 0x2F, Instruction::Das(FillerInstruction { length: 1 }))
}

/// Decodes AAA (0x37) at physical address `addr`.
pub fn decode_aaa(cpu: &mut Cpu, addr: &u32) -> (r: Result<Instruction, DecodeError>)
    requires
        old(cpu).wf(),
        *addr < MEMORY_SIZE,
    ensures
        r == single(old(cpu).memory@, *addr, 0x37, Instruction::Aaa((FillerInstruction { length: 1 }))),
        decoded(*old(cpu), *final(cpu), r),
{
    decode_single(cpu, addr, 0x37, Instruction::Aaa(FillerInstruction { length: 1 }))
}

/// Decodes AAS (0x3F) at physical address `addr`.
pub fn decode_aas(cpu: &mut Cpu, addr: &u32) -> (r: Result<Instruction, DecodeError>)
    requires
        old(cpu).wf(),
        *addr < MEMORY_SIZE,
    ensures
        r == single(old(cpu).memory@, *addr, 0x3F, Instruction::Aas((FillerInstruction { length: 1 }))),
        decoded(*old(cpu), *final(cpu), r),
{
    decode_single(cpu, addr, 0x3F, Instruction::Aas(FillerInstruction { length: 1 }))
}

/// Decodes AAM (0xD4) and its base at physical address `addr`.
pub fn decode_aam(cpu: &mut Cpu, addr: &u32) -> (r: Result<Instruction, DecodeError>)
    requires
        old(cpu).wf(),
        *addr < MEMORY_SIZE,
    ensures
        r == single(old(cpu).memory@, *addr, 0xD4, Instruction::Aam(base_of(old(cpu).memory@, *addr))),
        decoded(*old(cpu), *final(cpu), r),
{
    let base = AAMDBase { base: fetch(cpu, *addr, 1), length: 2 };
    decode_single(cpu, addr, 0xD4, Instruction::Aam(base))
}

/// Decodes AAD (0xD5) and its base at physical address `addr`.
pub fn decode_aad(cpu: &mut Cpu, addr: &u32) -> (r: Result<Instruction, DecodeError>)
    requires
        old(cpu).wf(),
        *addr < MEMORY_SIZE,
    ensures
        r == single(old(cpu).memory@, *addr, 0xD5, Instruction::Aad(base_of(old(cpu).memory@, *addr))),
        decoded(*old(cpu), *final(cpu), r),
{
    let base = AAMDBase { base: fetch(cpu, *addr, 1), length: 2 };
    decode_single(cpu, addr, 0xD5, Instruction::Aad(base))
}

} // verus!
