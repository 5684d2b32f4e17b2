//! Short conditional jumps (0x70 to 0x7F) and JCXZ (0xE3), each followed by
//! a signed 8-bit displacement.
use vstd::prelude::*;

use crate::cpu::{byte_at, Cpu, MEMORY_SIZE};
use crate::decoder::{decode_single, decoded, fetch, finish, single, unknown_sub_form, DecodeError};
use crate::instruction::{
    jump_condition_at, Instruction, JcxzInstruction, JumpCondition, JumpInstruction,
};

verus! {

/// The condition is the one at index `opcode - 0x70`.
pub open spec fn jcond_spec(mem: Seq<u8>, addr: u32) -> Result<Instruction, DecodeError> {
    let op = byte_at(mem, addr as int);
    if 0x70 <= op <= 0x7F {
        Ok(
            Instruction::Jcond(
                JumpInstruction {
                    jump_condition: jump_condition_at(op - 0x70),
                    signed_disp: byte_at(mem, addr + 1) as i8,
                    length: 2,
                },
            ),
        )
    } else {
        unknown_sub_form(mem, addr)
    }
}

/// JCXZ with the displacement found after the opcode.
pub open spec fn jcxz_of(mem: Seq<u8>, addr: u32) -> Instruction {
    Instruction::Jcxz(JcxzInstruction { signed_disp: byte_at(mem, addr + 1) as i8, length: 2 })
}

/// Decodes a conditional jump at physical address `addr`.
pub fn decode_jcond(cpu: &mut Cpu, addr: &u32) -> (r: Result<Instruction, DecodeError>)
    requires
        old(cpu).wf(),
        *addr < MEMORY_SIZE,
    ensures
        r == jcond_spec(old(cpu).memory@, *addr),
        decoded(*old(cpu), *final(cpu), r),
{
    let a = *addr;
    let op = fetch(cpu, a, 0);
    if op < 0x70 || op > 0x7F {
        return Err(DecodeError::UnknownSubForm { address: a, opcode: op });
    }
    let ins = JumpInstruction {
        jump_condition: JumpCondition::from_index(op - 0x70),
        signed_disp: fetch(cpu, a, 1) as i8,
        length: 2,
    };
    finish(cpu, Instruction::Jcond(ins))
}

/// Decodes JCXZ at physical address `addr`.
pub fn decode_jcxz(cpu: &mut Cpu, addr: &u32) -> (r: Result<Instruction, DecodeError>)
    requires
        old(cpu).wf(),
        *addr < MEMORY_SIZE,
    ensures
        r == single(old(cpu).memory@, *addr, 0xE3, jcxz_of(old(cpu).memory@, *addr)),
        decoded(*old(cpu), *final(cpu), r),
{
    let ins = Instruction::Jcxz(
        JcxzInstruction { signed_disp: fetch(cpu, *addr, 1) as i8, length: 2 },
    );
    decode_single(cpu, addr, 0xE3, ins)
}

} // verus!
