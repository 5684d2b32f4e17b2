//! Pointer loads: LDS (0xC5), LES (0xC4) and LEA (0x8D), whose r/m operand
//! must be memory.
use vstd::prelude::*;

use crate::cpu::{byte_at, Cpu, MEMORY_SIZE};
use crate::decoder::utils::{
    decode_modrm_byte, displacement_at, displacement_size, gpr, gpr_of, modrm_of,
    read_displacement, rm_operand, rm_operand_of,
};
use crate::decoder::{decoded, fetch, finish, unknown_sub_form, DecodeError};
use crate::instruction::{Instruction, LoadInstruction, LoadInstructionData, RMMode};

verus! {

/// Decoding of a pointer load at `addr`: the reg field names a word register;
/// a register r/m operand is an invalid encoding.
pub open spec fn load_pointer_spec(mem: Seq<u8>, addr: u32) -> Result<Instruction, DecodeError> {
    let op = byte_at(mem, addr as int);
    let b = byte_at(mem, addr + 1);
    let m = modrm_of(b);
    if op != 0xC4 && op != 0xC5 && op != 0x8D {
        unknown_sub_form(mem, addr)
    } else if m.rm_mode is Reg {
        Err(DecodeError::InvalidOperand { address: addr, opcode: op, modrm: b })
    } else {
        let data = LoadInstructionData {
            register: gpr(true, m.reg_part as int),
            displacement: displacement_at(mem, addr as int, m.displacement_mode),
            decoded_mem_mode: rm_operand(m, true),
            length: (2 + displacement_size(m.displacement_mode)) as u8,
        };
        Ok(
            Instruction::LoadPointer(
                if op == 0x8D {
                    LoadInstruction::LEA(data)
                } else if op == 0xC5 {
                    LoadInstruction::LDS(data)
                } else {
                    LoadInstruction::LES(data)
                },
            ),
        )
    }
}

/// Decodes LDS, LES or LEA at physical address `addr`.
pub fn decode_load_pointer(cpu: &mut Cpu, addr: &u32) -> (r: Result<Instruction, DecodeError>)
    requires
        old(cpu).wf(),
        *addr < MEMORY_SIZE,
    ensures
        r == load_pointer_spec(old(cpu).memory@, *addr),
        decoded(*old(cpu), *final(cpu), r),
{
    let a = *addr;
    let op = fetch(cpu, a, 0);
    if op != 0xC4 && op != 0xC5 && op != 0x8D {
        return Err(DecodeError::UnknownSubForm { address: a, opcode: op });
    }
    let b = fetch(cpu, a, 1);
    let m = decode_modrm_byte(b);
    if matches!(m.rm_mode, RMMode::Reg(_)) {
        return Err(DecodeError::InvalidOperand { address: a, opcode: op, modrm: b });
    }
    let (displacement, length) = read_displacement(cpu, a, m.displacement_mode);
    let data = LoadInstructionData {
        register: gpr_of(true, m.reg_part),
        displacement,
        decoded_mem_mode: rm_operand_of(m, true),
        length,
    };
    let ins = if op == 0x8D {
        LoadInstruction::LEA(data)
    } else if op == 0xC5 {
        LoadInstruction::LDS(data)
    } else {
        LoadInstruction::LES(data)
    };
    finish(cpu, Instruction::LoadPointer(ins))
}

} // verus!
