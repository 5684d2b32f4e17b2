//! Prefixes: segment override, LOCK and the repeat prefixes, one byte each.
use vstd::prelude::*;

use crate::cpu::{byte_at, Cpu, MEMORY_SIZE};
use crate::decoder::{decode_single, decoded, fetch, finish, single, unknown_sub_form, DecodeError};
use crate::instruction::{
    FillerInstruction, Instruction, RepInstruction, SegmentOverride, SegmentRegister,
};

verus! {

/// Segment override prefixes: 0x26 ES, 0x2E CS, 0x36 SS, 0x3E DS.
pub open spec fn seg_override_spec(mem: Seq<u8>, addr: u32) -> Result<Instruction, DecodeError> {
    let op = byte_at(mem, addr as int);
    if op == 0x26 {
        Ok(Instruction::Seg(SegmentOverride { segment: SegmentRegister::ES, length: 1 }))
    } else if op == 0x2E {
        Ok(Instruction::Seg(SegmentOverride { segment: SegmentRegister::CS, length: 1 }))
    } else if op == 0x36 {
        Ok(Instruction::Seg(SegmentOverride { segment: SegmentRegister::SS, length: 1 }))
    } else if op == 0x3E {
        Ok(Instruction::Seg(SegmentOverride { segment: SegmentRegister::DS, length: 1 }))
    } else {
        unknown_sub_form(mem, addr)
    }
}

/// Repeat prefixes: 0xF3 REP/REPZ, 0xF2 REPNZ.
pub open spec fn rep_spec(mem: Seq<u8>, addr: u32) -> Result<Instruction, DecodeError> {
    let op = byte_at(mem, addr as int);
    if op == 0xF3 {
        Ok(Instruction::Rep(RepInstruction::Repz))
    } else if op == 0xF2 {
        Ok(Instruction::Rep(RepInstruction::Repnz))
    } else {
        unknown_sub_form(mem, addr)
    }
}

/// Decodes a segment override prefix at physical address `addr`.
pub fn decode_seg_override(cpu: &mut Cpu, addr: &u32) -> (r: Result<Instruction, DecodeError>)
    requires
        old(cpu).wf(),
        *addr < MEMORY_SIZE,
    ensures
        r == seg_override_spec(old(cpu).memory@, *addr),
        decoded(*old(cpu), *final(cpu), r),
{
    let a = *addr;
    let op = fetch(cpu, a, 0);
    let segment = if op == 0x26 {
        SegmentRegister::ES
    } else if op == 0x2E {
        SegmentRegister::CS
    } else if op == 0x36 {
        SegmentRegister::SS
    } else if op == 0x3E {
        SegmentRegister::DS
    } else {
        return Err(DecodeError::UnknownSubForm { address: a, opcode: op });
    };
    finish(cpu, Instruction::Seg(SegmentOverride { segment, length: 1 }))
}

/// Decodes LOCK (0xF0) at physical address `addr`.
pub fn decode_lock(cpu: &mut Cpu, addr: &u32) -> (r: Result<Instruction, DecodeError>)
    requires
        old(cpu).wf(),
        *addr < MEMORY_SIZE,
    ensures
        r == single(old(cpu).memory@, *addr, 0xF0, Instruction::Lock((FillerInstruction { length: 1 }))),
        decoded(*old(cpu), *final(cpu), r),
{
    decode_single(cpu, addr, 0xF0, Instruction::Lock(FillerInstruction { length: 1 }))
}

/// Decodes a repeat prefix at physical address `addr`.
pub fn decode_rep(cpu: &mut Cpu, addr: &u32) -> (r: Result<Instruction, DecodeError>)
    requires
        old(cpu).wf(),
        *addr < MEMORY_SIZE,
    ensures
        r == rep_spec(old(cpu).memory@, *addr),
        decoded(*old(cpu), *final(cpu), r),
{
    let a = *addr;
    let op = fetch(cpu, a, 0);
    let rep = if op == 0xF3 {
        RepInstruction::Repz
    } else if op == 0xF2 {
        RepInstruction::Repnz
    } else {
        return Err(DecodeError::UnknownSubForm { address: a, opcode: op });
    };
    finish(cpu, Instruction::Rep(rep))
}

} // verus!
