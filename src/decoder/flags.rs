//! Flag instructions: set and clear carry, direction and interrupt, complement
//! carry, and moving AH to and from the flags.
use vstd::prelude::*;

use crate::cpu::{byte_at, Cpu, MEMORY_SIZE};
use crate::decoder::{decode_single, decoded, fetch, finish, single, unknown_sub_form, DecodeError};
use crate::instruction::{FillerInstruction, Instruction};

verus! {

/// 0xF9 STC, 0xFD STD, 0xFB STI.
pub open spec fn store_flags_spec(mem: Seq<u8>, addr: u32) -> Result<Instruction, DecodeError> {
    let op = byte_at(mem, addr as int);
    let f = FillerInstruction { length: 1 };
    if op == 0xF9 {
        Ok(Instruction::Stc(f))
    } else if op == 0xFD {
        Ok(Instruction::Std(f))
    } else if op == 0xFB {
        Ok(Instruction::Sti(f))
    } else {
        unknown_sub_form(mem, addr)
    }
}

/// 0xF8 CLC, 0xFC CLD, 0xFA CLI.
pub open spec fn clear_flags_spec(mem: Seq<u8>, addr: u32) -> Result<Instruction, DecodeError> {
    let op = byte_at(mem, addr as int);
    let f = FillerInstruction { length: 1 };
    if op == 0xF8 {
        Ok(Instruction::Clc(f))
    } else if op == 0xFC {
        Ok(Instruction::Cld(f))
    } else if op == 0xFA {
        Ok(Instruction::Cli(f))
    } else {
        unknown_sub_form(mem, addr)
    }
}

/// Decodes STC, STD or STI at physical address `addr`.
pub fn decode_store_flags(cpu: &mut Cpu, addr: &u32) -> (r: Result<Instruction, DecodeError>)
    requires
        old(cpu).wf(),
        *addr < MEMORY_SIZE,
    ensures
        r == store_flags_spec(old(cpu).memory@, *addr),
        decoded(*old(cpu), *final(cpu), r),
{
    let a = *addr;
    let op = fetch(cpu, a, 0);
    let f = FillerInstruction { length: 1 };
    let ins = if op == 0xF9 {
        Instruction::Stc(f)
    } else if op == 0xFD {
        Instruction::Std(f)
    } else if op == 0xFB {
        Instruction::Sti(f)
    } else {
        return Err(DecodeError::UnknownSubForm { address: a, opcode: op });
    };
    finish(cpu, ins)
}

/// Decodes CLC, CLD or CLI at physical address `addr`.
pub fn decode_clear_flags(cpu: &mut Cpu, addr: &u32) -> (r: Result<Instruction, DecodeError>)
    requires
        old(cpu).wf(),
        *addr < MEMORY_SIZE,
    ensures
        r == clear_flags_spec(old(cpu).memory@, *addr),
        decoded(*old(cpu), *final(cpu), r),
{
    let a = *addr;
    let op = fetch(cpu, a, 0);
    let f = FillerInstruction { length: 1 };
    let ins = if op == 0xF8 {
        Instruction::Clc(f)
    } else if op == 0xFC {
        Instruction::Cld(f)
    } else if op == 0xFA {
        Instruction::Cli(f)
    } else {
        return Err(DecodeError::UnknownSubForm { address: a, opcode: op });
    };
    finish(cpu, ins)
}

/// Decodes CMC (0xF5) at physical address `addr`.
pub fn decode_cmc(cpu: &mut Cpu, addr: &u32) -> (r: Result<Instruction, DecodeError>)
    requires
        old(cpu).wf(),
        *addr < MEMORY_SIZE,
    ensures
        r == single(old(cpu).memory@, *addr, 0xF5, Instruction::Cmc((FillerInstruction { length: 1 }))),
        decoded(*old(cpu), *final(cpu), r),
{
    decode_single(cpu, addr, 0xF5, Instruction::Cmc(FillerInstruction { length: 1 }))
}

/// Decodes SAHF (0x9E) at physical address `addr`.
pub fn decode_sahf(cpu: &mut Cpu, addr: &u32) -> (r: Result<Instruction, DecodeError>)
    requires
        old(cpu).wf(),
        *addr < MEMORY_SIZE,
    ensures
        r == single(old(cpu).memory@, *addr, 0x9E, Instruction::Sahf((FillerInstruction { length: 1 }))),
        decoded(*old(cpu), *final(cpu), r),
{
    decode_single(cpu, addr, 0x9E, Instruction::Sahf(FillerInstruction { length: 1 }))
}

/// Decodes LAHF (0x9F) at physical address `addr`.
pub fn decode_lahf(cpu: &mut Cpu, addr: &u32) -> (r: Result<Instruction, DecodeError>)
    requires
        old(cpu).wf(),
        *addr < MEMORY_SIZE,
    ensures
        r == single(old(cpu).memory@, *addr, 0x9F, Instruction::Lahf((FillerInstruction { length: 1 }))),
        decoded(*old(cpu), *final(cpu), r),
{
    decode_single(cpu, addr, 0x9F, Instruction::Lahf(FillerInstruction { length: 1 }))
}

} // verus!
