//! Returns from a procedure, near (0xC3, 0xC2) or far (0xCB, 0xCA), the
//! 0xC2 and 0xCA forms with a word to add to the stack pointer.
use vstd::prelude::*;

use crate::cpu::{byte_at, word_at, Cpu, MEMORY_SIZE};
use crate::decoder::{decoded, fetch, fetch_word, finish, unknown_sub_form, DecodeError};
use crate::instruction::{Instruction, RetAddIntraInter, RetInstruction, RetIntraInter};

verus! {

pub open spec fn ret_spec(mem: Seq<u8>, addr: u32) -> Result<Instruction, DecodeError> {
    let op = byte_at(mem, addr as int);
    if op == 0xC3 || op == 0xCB {
        Ok(Instruction::Ret(RetInstruction::Ret(RetIntraInter { is_inter: op == 0xCB, length: 1 })))
    } else if op == 0xC2 || op == 0xCA {
        Ok(
            Instruction::Ret(
                RetInstruction::RetAdd(
                    RetAddIntraInter { is_inter: op == 0xCA, data: word_at(mem, addr + 1), length: 3 },
                ),
            ),
        )
    } else {
        unknown_sub_form(mem, addr)
    }
}

/// Decodes a RET at physical address `addr`.
pub fn decode_ret(cpu: &mut Cpu, addr: &u32) -> (r: Result<Instruction, DecodeError>)
    requires
        old(cpu).wf(),
        *addr < MEMORY_SIZE,
    ensures
        r == ret_spec(old(cpu).memory@, *addr),
        decoded(*old(cpu), *final(cpu), r),
{
    let a = *addr;
    let op = fetch(cpu, a, 0);
    let ins = if op == 0xC3 || op == 0xCB {
        RetInstruction::Ret(RetIntraInter { is_inter: op == 0xCB, length: 1 })
    } else if op == 0xC2 || op == 0xCA {
        RetInstruction::RetAdd(
            RetAddIntraInter { is_inter: op == 0xCA, data: fetch_word(cpu, a, 1), length: 3 },
        )
    } else {
        return Err(DecodeError::UnknownSubForm { address: a, opcode: op });
    };
    finish(cpu, Instruction::Ret(ins))
}

} // verus!
