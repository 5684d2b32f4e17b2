//! Port input and output: a fixed port number in the instruction (0xE4 to
//! 0xE7) or the port in DX (0xEC to 0xEF); odd opcodes move a word.
use vstd::prelude::*;

use crate::cpu::{byte_at, Cpu, MEMORY_SIZE};
use crate::decoder::{decoded, fetch, finish, unknown_sub_form, DecodeError};
use crate::instruction::{
    FixedIn, FixedOut, InInstruction, Instruction, OutInstruction, VariableIn, VariableOut,
};

verus! {

pub open spec fn in_spec(mem: Seq<u8>, addr: u32) -> Result<Instruction, DecodeError> {
    let op = byte_at(mem, addr as int);
    if op == 0xE4 || op == 0xE5 {
        Ok(
            Instruction::In(
                InInstruction::Fixed(
                    FixedIn { is_ax: op == 0xE5, port_number: byte_at(mem, addr + 1), length: 2 },
                ),
            ),
        )
    } else if op == 0xEC || op == 0xED {
        Ok(Instruction::In(InInstruction::Variable(VariableIn { is_ax: op == 0xED, length: 1 })))
    } else {
        unknown_sub_form(mem, addr)
    }
}

pub open spec fn out_spec(mem: Seq<u8>, addr: u32) -> Result<Instruction, DecodeError> {
    let op = byte_at(mem, addr as int);
    if op == 0xE6 || op == 0xE7 {
        Ok(
            Instruction::Out(
                OutInstruction::Fixed(
                    FixedOut { is_ax: op == 0xE7, port_number: byte_at(mem, addr + 1), length: 2 },
                ),
            ),
        )
    } else if op == 0xEE || op == 0xEF {
        Ok(
            Instruction::Out(OutInstruction::Variable(VariableOut { is_ax: op == 0xEF, length: 1 })),
        )
    } else {
        unknown_sub_form(mem, addr)
    }
}

/// Decodes an IN at physical address `addr`.
pub fn decode_in(cpu: &mut Cpu, addr: &u32) -> (r: Result<Instruction, DecodeError>)
    requires
        old(cpu).wf(),
        *addr < MEMORY_SIZE,
    ensures
        r == in_spec(old(cpu).memory@, *addr),
        decoded(*old(cpu), *final(cpu), r),
{
    let a = *addr;
    let op = fetch(cpu, a, 0);
    let ins = if op == 0xE4 || op == 0xE5 {
        InInstruction::Fixed(FixedIn { is_ax: op == 0xE5, port_number: fetch(cpu, a, 1), length: 2 })
    } else if op == 0xEC || op == 0xED {
        InInstruction::Variable(VariableIn { is_ax: op == 0xED, length: 1 })
    } else {
        return Err(DecodeError::UnknownSubForm { address: a, opcode: op });
    };
    finish(cpu, Instruction::In(ins))
}

/// Decodes an OUT at physical address `addr`.
pub fn decode_out(cpu: &mut Cpu, addr: &u32) -> (r: Result<Instruction, DecodeError>)
    requires
        old(cpu).wf(),
        *addr < MEMORY_SIZE,
    ensures
        r == out_spec(old(cpu).memory@, *addr),
        decoded(*old(cpu), *final(cpu), r),
{
    let a = *addr;
    let op = fetch(cpu, a, 0);
    let ins = if op == 0xE6 || op == 0xE7 {
        OutInstruction::Fixed(FixedOut { is_ax: op == 0xE7, port_number: fetch(cpu, a, 1), length: 2 })
    } else if op == 0xEE || op == 0xEF {
        OutInstruction::Variable(VariableOut { is_ax: op == 0xEF, length: 1 })
    } else {
        return Err(DecodeError::UnknownSubForm { address: a, opcode: op });
    };
    finish(cpu, Instruction::Out(ins))
}

} // verus!
