//! MOV in its five encodings: immediate to register, memory to and from the
//! accumulator, register to and from register/memory, segment register to and
//! from register/memory, and immediate to register/memory.
use vstd::prelude::*;

use crate::cpu::{byte_at, physical, word_at, Cpu, MEMORY_SIZE};
use crate::decoder::utils::{
    decode_modrm_byte, displacement_at, displacement_size, gpr, gpr_of, modrm_of,
    read_displacement, rm_operand, rm_operand_of,
};
use crate::decoder::{decoded, fetch, fetch_word, finish, unknown_sub_form, DecodeError};
use crate::instruction::{
    register_at, segment_register_at, Immediate, Instruction, MemoryAddress, MovImmToReg,
    MovImmToRM, MovInstruction, MovMemToAcc, MovMemToReg, MovRegToRM, MovSregToFromRM, RMMode,
    Register, Registers, SegmentRegister,
};

verus! {

/// MOV register, immediate (0xB0 to 0xBF): the register index is `opcode - 0xB0`,
/// and from 0xB8 on the immediate is a word.
pub open spec fn mov_imm_to_reg_spec(mem: Seq<u8>, addr: u32) -> MovImmToReg {
    let op = byte_at(mem, addr as int);
    if op < 0xB8 {
        MovImmToReg {
            dest: register_at(op - 0xB0),
            imm: Immediate::Byte(byte_at(mem, addr + 1)),
            length: 2,
        }
    } else {
        MovImmToReg {
            dest: register_at(op - 0xB0),
            imm: Immediate::Word(word_at(mem, addr + 1)),
            length: 3,
        }
    }
}

/// MOV between the accumulator and a direct address in the data segment
/// (0xA0 to 0xA3): odd opcodes move a word, 0xA0 and 0xA1 load the accumulator.
pub open spec fn mov_acc_spec(mem: Seq<u8>, ds: u16, addr: u32) -> MovMemToAcc {
    let op = byte_at(mem, addr as int);
    let wide = op == 0xA1 || op == 0xA3;
    let target = physical(ds, word_at(mem, addr + 1));
    MovMemToAcc {
        dest: if wide {
            Register::AX
        } else {
            Register::AL
        },
        mem_addr: if wide {
            MemoryAddress::Word(target)
        } else {
            MemoryAddress::Byte(target)
        },
        to_acc: op == 0xA0 || op == 0xA1,
        length: 3,
    }
}

/// MOV between a segment register and register/memory (0x8C stores the
/// segment register, 0x8E loads it). A reg field above 3 names no segment register.
pub open spec fn mov_sreg_spec(mem: Seq<u8>, addr: u32) -> Result<Instruction, DecodeError> {
    let op = byte_at(mem, addr as int);
    let b = byte_at(mem, addr + 1);
    let m = modrm_of(b);
    match segment_register_at(m.reg_part as int) {
        None => Err(DecodeError::InvalidOperand { address: addr, opcode: op, modrm: b }),
        Some(s) => {
            let body = MovSregToFromRM {
                to_rm: op == 0x8C,
                is_rm_a_reg: m.rm_mode is Reg,
                decoded_rm: rm_operand(m, true),
                decdode_reg: Registers::Seg(s),
                displacement: displacement_at(mem, addr as int, m.displacement_mode),
                length: (2 + displacement_size(m.displacement_mode)) as u8,
            };
            if op == 0x8C {
                Ok(Instruction::Mov(MovInstruction::SregToRM(body)))
            } else {
                Ok(Instruction::Mov(MovInstruction::RMToSreg(body)))
            }
        },
    }
}

/// MOV register/memory, immediate (0xC6 byte, 0xC7 word): the immediate
/// follows the displacement.
pub open spec fn mov_imm_to_rm_spec(mem: Seq<u8>, addr: u32) -> MovImmToRM {
    let op = byte_at(mem, addr as int);
    let wide = op == 0xC7;
    let m = modrm_of(byte_at(mem, addr + 1));
    let len = 2 + displacement_size(m.displacement_mode);
    MovImmToRM {
        is_16bit: wide,
        is_rm_a_reg: m.rm_mode is Reg,
        decoded_rm: rm_operand(m, wide),
        displacement: displacement_at(mem, addr as int, m.displacement_mode),
        imm: if wide {
            Immediate::Word(word_at(mem, addr + len))
        } else {
            Immediate::Byte(byte_at(mem, addr + len))
        },
        length: (if wide {
            len + 2
        } else {
            len + 1
        }) as u8,
    }
}

/// MOV between a general register and register/memory (0x88 to 0x8B): odd
/// opcodes move words, 0x8A and 0x8B load the register named by the reg field.
pub open spec fn mov_reg_rm_spec(mem: Seq<u8>, addr: u32) -> MovInstruction {
    let op = byte_at(mem, addr as int);
    let wide = op == 0x89 || op == 0x8B;
    let m = modrm_of(byte_at(mem, addr + 1));
    let reg = Registers::Gpr(gpr(wide, m.reg_part as int));
    let displacement = displacement_at(mem, addr as int, m.displacement_mode);
    let length = (2 + displacement_size(m.displacement_mode)) as u8;
    if op == 0x8A || op == 0x8B {
        MovInstruction::MemToReg(
            MovMemToReg {
                is_16bit: wide,
                decoded_rm: rm_operand(m, wide),
                decdode_reg: reg,
                displacement,
                length,
            },
        )
    } else {
        MovInstruction::RegToRM(
            MovRegToRM {
                is_16bit: wide,
                is_rm_a_reg: m.rm_mode is Reg,
                decoded_rm: rm_operand(m, wide),
                decdode_reg: reg,
                displacement,
                length,
            },
        )
    }
}

/// Decoding of the MOV family at `addr`, with `ds` the data segment.
pub open spec fn mov_spec(mem: Seq<u8>, ds: u16, addr: u32) -> Result<Instruction, DecodeError> {
    let op = byte_at(mem, addr as int);
    if 0xB0 <= op <= 0xBF {
        Ok(Instruction::Mov(MovInstruction::ImmToReg(mov_imm_to_reg_spec(mem, addr))))
    } else if 0xA0 <= op <= 0xA3 {
        Ok(Instruction::Mov(MovInstruction::MemToAcc(mov_acc_spec(mem, ds, addr))))
    } else if op == 0x8C || op == 0x8E {
        mov_sreg_spec(mem, addr)
    } else if op == 0xC6 || op == 0xC7 {
        Ok(Instruction::Mov(MovInstruction::ImmToRM(mov_imm_to_rm_spec(mem, addr))))
    } else if 0x88 <= op <= 0x8B {
        Ok(Instruction::Mov(mov_reg_rm_spec(mem, addr)))
    } else {
        unknown_sub_form(mem, addr)
    }
}

fn mov_imm_to_reg(cpu: &Cpu, addr: u32, op: u8) -> (r: MovImmToReg)
    requires
        cpu.wf(),
        addr < MEMORY_SIZE,
        op == byte_at(cpu.memory@, addr as int),
        0xB0 <= op <= 0xBF,
    ensures
        r == mov_imm_to_reg_spec(cpu.memory@, addr),
{
    let dest = Register::from_index(op - 0xB0);
    if op < 0xB8 {
        MovImmToReg { dest, imm: Immediate::Byte(fetch(cpu, addr, 1)), length: 2 }
    } else {
        MovImmToReg { dest, imm: Immediate::Word(fetch_word(cpu, addr, 1)), length: 3 }
    }
}

fn mov_acc(cpu: &Cpu, addr: u32, op: u8) -> (r: MovMemToAcc)
    requires
        cpu.wf(),
        addr < MEMORY_SIZE,
        op == byte_at(cpu.memory@, addr as int),
    ensures
        r == mov_acc_spec(cpu.memory@, cpu.regs.ds, addr),
{
    let wide = op == 0xA1 || op == 0xA3;
    let target = Cpu::get_physical_address(cpu.regs.ds, fetch_word(cpu, addr, 1));
    MovMemToAcc {
        dest: if wide {
            Register::AX
        } else {
            Register::AL
        },
        mem_addr: if wide {
            MemoryAddress::Word(target)
        } else {
            MemoryAddress::Byte(target)
        },
        to_acc: op == 0xA0 || op == 0xA1,
        length: 3,
    }
}

fn mov_sreg(cpu: &Cpu, addr: u32, op: u8) -> (r: Result<Instruction, DecodeError>)
    requires
        cpu.wf(),
        addr < MEMORY_SIZE,
        op == byte_at(cpu.memory@, addr as int),
    ensures
        r == mov_sreg_spec(cpu.memory@, addr),
{
    let b = fetch(cpu, addr, 1);
    let m = decode_modrm_byte(b);
    match SegmentRegister::from_index(m.reg_part) {
        None => Err(DecodeError::InvalidOperand { address: addr, opcode: op, modrm: b }),
        Some(s) => {
            let (displacement, length) = read_displacement(cpu, addr, m.displacement_mode);
            let body = MovSregToFromRM {
                to_rm: op == 0x8C,
                is_rm_a_reg: matches!(m.rm_mode, RMMode::Reg(_)),
                decoded_rm: rm_operand_of(m, true),
                decdode_reg: Registers::Seg(s),
                displacement,
                length,
            };
            if op == 0x8C {
                Ok(Instruction::Mov(MovInstruction::SregToRM(body)))
            } else {
                Ok(Instruction::Mov(MovInstruction::RMToSreg(body)))
            }
        },
    }
}

fn mov_imm_to_rm(cpu: &Cpu, addr: u32, op: u8) -> (r: MovImmToRM)
    requires
        cpu.wf(),
        addr < MEMORY_SIZE,
        op == byte_at(cpu.memory@, addr as int),
    ensures
        r == mov_imm_to_rm_spec(cpu.memory@, addr),
{
    let wide = op == 0xC7;
    let m = decode_modrm_byte(fetch(cpu, addr, 1));
    let (displacement, length) = read_displacement(cpu, addr, m.displacement_mode);
    let (imm, length) = if wide {
        (Immediate::Word(fetch_word(cpu, addr, length as u32)), length + 2)
    } else {
        (Immediate::Byte(fetch(cpu, addr, length as u32)), length + 1)
    };
    MovImmToRM {
        is_16bit: wide,
        is_rm_a_reg: matches!(m.rm_mode, RMMode::Reg(_)),
        decoded_rm: rm_operand_of(m, wide),
        displacement,
        imm,
        length,
    }
}

fn mov_reg_rm(cpu: &Cpu, addr: u32, op: u8) -> (r: MovInstruction)
    requires
        cpu.wf(),
        addr < MEMORY_SIZE,
        op == byte_at(cpu.memory@, addr as int),
    ensures
        r == mov_reg_rm_spec(cpu.memory@, addr),
{
    let wide = op == 0x89 || op == 0x8B;
    let m = decode_modrm_byte(fetch(cpu, addr, 1));
    let reg = Registers::Gpr(gpr_of(wide, m.reg_part));
    let decoded_rm = rm_operand_of(m, wide);
    let (displacement, length) = read_displacement(cpu, addr, m.displacement_mode);
    if op == 0x8A || op == 0x8B {
        MovInstruction::MemToReg(
            MovMemToReg { is_16bit: wide, decoded_rm, decdode_reg: reg, displacement, length },
        )
    } else {
        MovInstruction::RegToRM(
            MovRegToRM {
                is_16bit: wide,
                is_rm_a_reg: matches!(m.rm_mode, RMMode::Reg(_)),
                decoded_rm,
                decdode_reg: reg,
                displacement,
                length,
            },
        )
    }
}

/// Decodes a MOV at physical address `addr`; on success the instruction
/// pointer moves past it.
pub fn decode_mov(cpu: &mut Cpu, addr: &u32) -> (r: Result<Instruction, DecodeError>)
    requires
        old(cpu).wf(),
        *addr < MEMORY_SIZE,
    ensures
        r == mov_spec(old(cpu).memory@, old(cpu).regs.ds, *addr),
        decoded(*old(cpu), *final(cpu), r),
{
    let a = *addr;
    let op = fetch(cpu, a, 0);
    let ins = if 0xB0 <= op && op <= 0xBF {
        Instruction::Mov(MovInstruction::ImmToReg(mov_imm_to_reg(cpu, a, op)))
    } else if 0xA0 <= op && op <= 0xA3 {
        Instruction::Mov(MovInstruction::MemToAcc(mov_acc(cpu, a, op)))
    } else if op == 0x8C || op == 0x8E {
        match mov_sreg(cpu, a, op) {
            Ok(ins) => ins,
            Err(e) => {
                return Err(e);
            },
        }
    } else if op == 0xC6 || op == 0xC7 {
        Instruction::Mov(MovInstruction::ImmToRM(mov_imm_to_rm(cpu, a, op)))
    } else if 0x88 <= op && op <= 0x8B {
        Instruction::Mov(mov_reg_rm(cpu, a, op))
    } else {
        return Err(DecodeError::UnknownSubForm { address: a, opcode: op });
    };
    finish(cpu, ins)
}

} // verus!
