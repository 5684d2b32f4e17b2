//! Software interrupts (INT 3, INT n, INTO) and the return from an interrupt.
use vstd::prelude::*;

use crate::cpu::{byte_at, Cpu, MEMORY_SIZE};
use crate::decoder::{decode_single, decoded, fetch, finish, single, unknown_sub_form, DecodeError};
use crate::instruction::{FillerInstruction, Instruction, IntImm8Instruction, IntInstruction};

verus! {

/// 0xCC is the breakpoint, 0xCD is followed by a vector number, 0xCE traps on overflow.
pub open spec fn int_spec(mem: Seq<u8>, addr: u32) -> Result<Instruction, DecodeError> {
    let op = byte_at(mem, addr as int);
    if op == 0xCC {
        Ok(Instruction::Int(IntInstruction::Int3(FillerInstruction { length: 1 })))
    } else if op == 0xCD {
        Ok(
            Instruction::Int(
                IntInstruction::IntImm8(
                    IntImm8Instruction { int_vector: byte_at(mem, addr + 1), length: 2 },
                ),
            ),
        )
    } else if op == 0xCE {
        Ok(Instruction::Int(IntInstruction::Into(FillerInstruction { length: 1 })))
    } else {
        unknown_sub_form(mem, addr)
    }
}

/// Decodes IRET (0xCF) at physical address `addr`.
pub fn decode_iret(cpu: &mut Cpu, addr: &u32) -> (r: Result<Instruction, DecodeError>)
    requires
        old(cpu).wf(),
        *addr < MEMORY_SIZE,
    ensures
        r == single(old(cpu).memory@, *addr, 0xCF, Instruction::Iret((FillerInstruction { length: 1 }))),
        decoded(*old(cpu), *final(cpu), r),
{
    decode_single(cpu, addr, 0xCF, Instruction::Iret(FillerInstruction { length: 1 }))
}

/// Decodes INT 3, INT n or INTO at physical address `addr`.
pub fn decode_int(cpu: &mut Cpu, addr: &u32) -> (r: Result<Instruction, DecodeError>)
    requires
        old(cpu).wf(),
        *addr < MEMORY_SIZE,
    ensures
        r == int_spec(old(cpu).memory@, *addr),
        decoded(*old(cpu), *final(cpu), r),
{
    let a = *addr;
    let op = fetch(cpu, a, 0);
    let ins = if op == 0xCC {
        IntInstruction::Int3(FillerInstruction { length: 1 })
    } else if op == 0xCD {
        IntInstruction::IntImm8(IntImm8Instruction { int_vector: fetch(cpu, a, 1), length: 2 })
    } else if op == 0xCE {
        IntInstruction::Into(FillerInstruction { length: 1 })
    } else {
        return Err(DecodeError::UnknownSubForm { address: a, opcode: op });
    };
    finish(cpu, Instruction::Int(ins))
}

} // verus!
