//! LOOPNZ (0xE0), LOOPZ (0xE1) and LOOP (0xE2), each followed by a signed
//! 8-bit displacement.
use vstd::prelude::*;

use crate::cpu::{byte_at, Cpu, MEMORY_SIZE};
use crate::decoder::{decoded, fetch, finish, unknown_sub_form, DecodeError};
use crate::instruction::{loop_condition_at, Instruction, LoopCondition, LoopInstruction};

verus! {

/// The condition is the one at index `opcode - 0xE0`.
pub open spec fn loop_spec(mem: Seq<u8>, addr: u32) -> Result<Instruction, DecodeError> {
    let op = byte_at(mem, addr as int);
    if 0xE0 <= op <= 0xE2 {
        Ok(
            Instruction::Loop(
                LoopInstruction {
                    loop_condition: loop_condition_at(op - 0xE0),
                    disp: byte_at(mem, addr + 1) as i8,
                    length: 2,
                },
            ),
        )
    } else {
        unknown_sub_form(mem, addr)
    }
}

/// Decodes a loop instruction at physical address `addr`.
pub fn decode_loop_set(cpu: &mut Cpu, addr: &u32) -> (r: Result<Instruction, DecodeError>)
    requires
        old(cpu).wf(),
        *addr < MEMORY_SIZE,
    ensures
        r == loop_spec(old(cpu).memory@, *addr),
        decoded(*old(cpu), *final(cpu), r),
{
    let a = *addr;
    let op = fetch(cpu, a, 0);
    if op < 0xE0 || op > 0xE2 {
        return Err(DecodeError::UnknownSubForm { address: a, opcode: op });
    }
    let ins = LoopInstruction {
        loop_condition: LoopCondition::from_index(op - 0xE0),
        disp: fetch(cpu, a, 1) as i8,
        length: 2,
    };
    finish(cpu, Instruction::Loop(ins))
}

} // verus!
