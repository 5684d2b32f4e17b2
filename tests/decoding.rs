use emu8086::cpu::{Cpu, MEMORY_SIZE};
use emu8086::decoder::utils::decode_modrm_byte;
use emu8086::decoder::{decode, DecodeError};
use emu8086::decoder::jump::decode_jcond;
use emu8086::decoder::nop::decode_nop;
use emu8086::decoder::mov::decode_mov;
use emu8086::decoder::load::decode_load_pointer;
use emu8086::instruction::{
    AAMDBase, DecodedRMMode, Displacement, DisplacementMode, FillerInstruction, FixedIn,
    FixedOut, Immediate, InInstruction, Instruction, IntImm8Instruction, IntInstruction,
    JcxzInstruction, JumpCondition, JumpInstruction, LoadInstruction, LoadInstructionData,
    LoopCondition, LoopInstruction, MemoryAddress, MemoryMode, ModRM, MovImmToRM, MovImmToReg,
    MovInstruction, MovMemToAcc, MovMemToReg, MovRegToRM, MovSregToFromRM, OutInstruction,
    RMMode, Register, Registers, RepInstruction, RetAddIntraInter, RetInstruction, RetIntraInter,
    SegmentOverride, SegmentRegister, VariableIn, VariableOut,
};

const LOAD: u32 = 0x10100;

fn loaded(program: &[u8]) -> Cpu {
    let mut cpu = Cpu::new();
    cpu.load_com(program, None, None);
    cpu
}

fn decode_one(program: &[u8]) -> (Result<Instruction, DecodeError>, Cpu) {
    let mut cpu = loaded(program);
    let r = decode(&mut cpu, &LOAD);
    (r, cpu)
}

fn one(length: u8) -> FillerInstruction {
    FillerInstruction { length }
}

#[test]
fn mov_imm_byte_to_al() {
    let (r, cpu) = decode_one(&[0xB0, 0x05]);
    assert_eq!(
        r,
        Ok(Instruction::Mov(MovInstruction::ImmToReg(MovImmToReg {
            dest: Register::AL,
            imm: Immediate::Byte(0x05),
            length: 2,
        })))
    );
    assert_eq!(cpu.regs.ip, 0x0102);
}

#[test]
fn mov_imm_word_to_ax() {
    let (r, cpu) = decode_one(&[0xB8, 0x34, 0x12]);
    assert_eq!(
        r,
        Ok(Instruction::Mov(MovInstruction::ImmToReg(MovImmToReg {
            dest: Register::AX,
            imm: Immediate::Word(0x1234),
            length: 3,
        })))
    );
    assert_eq!(cpu.regs.ip, 0x0103);
}

#[test]
fn mov_imm_register_order() {
    let expected = [
        Register::AL, Register::CL, Register::DL, Register::BL,
        Register::AH, Register::CH, Register::DH, Register::BH,
        Register::AX, Register::CX, Register::DX, Register::BX,
        Register::SP, Register::BP, Register::SI, Register::DI,
    ];
    for (i, reg) in expected.iter().enumerate() {
        let (r, _) = decode_one(&[0xB0 + i as u8, 0x01, 0x00]);
        match r {
            Ok(Instruction::Mov(MovInstruction::ImmToReg(m))) => assert_eq!(m.dest, *reg),
            other => panic!("unexpected {:?}", other),
        }
    }
}

#[test]
fn mov_register_to_register() {
    let (r, cpu) = decode_one(&[0x89, 0xD8]);
    assert_eq!(
        r,
        Ok(Instruction::Mov(MovInstruction::RegToRM(MovRegToRM {
            is_16bit: true,
            is_rm_a_reg: true,
            decoded_rm: DecodedRMMode::Reg(Register::AX),
            decdode_reg: Registers::Gpr(Register::BX),
            displacement: Displacement::Zero(0),
            length: 2,
        })))
    );
    assert_eq!(cpu.regs.ip, 0x0102);
}

#[test]
fn nop_is_one_byte() {
    let (r, cpu) = decode_one(&[0x90]);
    assert_eq!(r, Ok(Instruction::Nop(one(1))));
    assert_eq!(cpu.regs.ip, 0x0101);
}

#[test]
fn jz_backwards_two() {
    let (r, cpu) = decode_one(&[0x74, 0xFE]);
    assert_eq!(
        r,
        Ok(Instruction::Jcond(JumpInstruction {
            jump_condition: JumpCondition::JE_JZ,
            signed_disp: -2,
            length: 2,
        }))
    );
    assert_eq!(cpu.regs.ip, 0x0102);
}

#[test]
fn unknown_opcode_changes_nothing() {
    let mut cpu = loaded(&[0x0F, 0x01]);
    let ip = cpu.regs.ip;
    let r = decode(&mut cpu, &LOAD);
    assert_eq!(r, Err(DecodeError::UnknownOpcode { address: LOAD, opcode: 0x0F }));
    assert_eq!(cpu.regs.ip, ip);
    assert_eq!(cpu.read_byte(LOAD), 0x0F);
    assert_eq!(cpu.read_byte(LOAD + 1), 0x01);
}

#[test]
fn mov_mem_to_reg_with_byte_displacement() {
    let (r, cpu) = decode_one(&[0x8B, 0x46, 0xFC]);
    assert_eq!(
        r,
        Ok(Instruction::Mov(MovInstruction::MemToReg(MovMemToReg {
            is_16bit: true,
            decoded_rm: DecodedRMMode::Mem(MemoryMode::BP_DISP8),
            decdode_reg: Registers::Gpr(Register::AX),
            displacement: Displacement::Byte(-4),
            length: 3,
        })))
    );
    assert_eq!(cpu.regs.ip, 0x0103);
}

#[test]
fn mov_direct_address_to_byte_register() {
    let (r, _) = decode_one(&[0x8A, 0x1E, 0x34, 0x12]);
    assert_eq!(
        r,
        Ok(Instruction::Mov(MovInstruction::MemToReg(MovMemToReg {
            is_16bit: false,
            decoded_rm: DecodedRMMode::Mem(MemoryMode::DISP16),
            decdode_reg: Registers::Gpr(Register::BL),
            displacement: Displacement::Word(0x1234),
            length: 4,
        })))
    );
}

#[test]
fn mov_word_displacement_is_signed() {
    let (r, _) = decode_one(&[0x8B, 0x87, 0x00, 0x80]);
    assert_eq!(
        r,
        Ok(Instruction::Mov(MovInstruction::MemToReg(MovMemToReg {
            is_16bit: true,
            decoded_rm: DecodedRMMode::Mem(MemoryMode::BX_DIS168),
            decdode_reg: Registers::Gpr(Register::AX),
            displacement: Displacement::Word(-32768),
            length: 4,
        })))
    );
}

#[test]
fn mov_byte_register_to_memory() {
    let (r, _) = decode_one(&[0x88, 0x27]);
    assert_eq!(
        r,
        Ok(Instruction::Mov(MovInstruction::RegToRM(MovRegToRM {
            is_16bit: false,
            is_rm_a_reg: false,
            decoded_rm: DecodedRMMode::Mem(MemoryMode::BX),
            decdode_reg: Registers::Gpr(Register::AH),
            displacement: Displacement::Zero(0),
            length: 2,
        })))
    );
}

#[test]
fn mov_imm_word_to_memory_is_six_bytes() {
    let (r, cpu) = decode_one(&[0xC7, 0x06, 0x00, 0x02, 0x34, 0x12]);
    assert_eq!(
        r,
        Ok(Instruction::Mov(MovInstruction::ImmToRM(MovImmToRM {
            is_16bit: true,
            is_rm_a_reg: false,
            decoded_rm: DecodedRMMode::Mem(MemoryMode::DISP16),
            displacement: Displacement::Word(0x0200),
            imm: Immediate::Word(0x1234),
            length: 6,
        })))
    );
    assert_eq!(cpu.regs.ip, 0x0106);
}

#[test]
fn mov_imm_byte_to_register_form() {
    let (r, _) = decode_one(&[0xC6, 0xC3, 0x7F]);
    assert_eq!(
        r,
        Ok(Instruction::Mov(MovInstruction::ImmToRM(MovImmToRM {
            is_16bit: false,
            is_rm_a_reg: true,
            decoded_rm: DecodedRMMode::Reg(Register::BL),
            displacement: Displacement::Zero(0),
            imm: Immediate::Byte(0x7F),
            length: 3,
        })))
    );
}

#[test]
fn mov_imm_byte_after_byte_displacement() {
    let (r, _) = decode_one(&[0xC6, 0x47, 0x02, 0x09]);
    assert_eq!(
        r,
        Ok(Instruction::Mov(MovInstruction::ImmToRM(MovImmToRM {
            is_16bit: false,
            is_rm_a_reg: false,
            decoded_rm: DecodedRMMode::Mem(MemoryMode::BX_DISP8),
            displacement: Displacement::Byte(2),
            imm: Immediate::Byte(0x09),
            length: 4,
        })))
    );
}

#[test]
fn mov_accumulator_forms_use_data_segment() {
    let (r, _) = decode_one(&[0xA1, 0x00, 0x02]);
    assert_eq!(
        r,
        Ok(Instruction::Mov(MovInstruction::MemToAcc(MovMemToAcc {
            dest: Register::AX,
            mem_addr: MemoryAddress::Word(0x10200),
            to_acc: true,
            length: 3,
        })))
    );
    let (r, _) = decode_one(&[0xA2, 0x34, 0x12]);
    assert_eq!(
        r,
        Ok(Instruction::Mov(MovInstruction::MemToAcc(MovMemToAcc {
            dest: Register::AL,
            mem_addr: MemoryAddress::Byte(0x11234),
            to_acc: false,
            length: 3,
        })))
    );
}

#[test]
fn mov_segment_register_forms() {
    let (r, _) = decode_one(&[0x8E, 0xD8]);
    assert_eq!(
        r,
        Ok(Instruction::Mov(MovInstruction::RMToSreg(MovSregToFromRM {
            to_rm: false,
            is_rm_a_reg: true,
            decoded_rm: DecodedRMMode::Reg(Register::AX),
            decdode_reg: Registers::Seg(SegmentRegister::DS),
            displacement: Displacement::Zero(0),
            length: 2,
        })))
    );
    let (r, _) = decode_one(&[0x8C, 0x06, 0x34, 0x12]);
    assert_eq!(
        r,
        Ok(Instruction::Mov(MovInstruction::SregToRM(MovSregToFromRM {
            to_rm: true,
            is_rm_a_reg: false,
            decoded_rm: DecodedRMMode::Mem(MemoryMode::DISP16),
            decdode_reg: Registers::Seg(SegmentRegister::ES),
            displacement: Displacement::Word(0x1234),
            length: 4,
        })))
    );
}

#[test]
fn mov_segment_field_above_three_is_invalid() {
    let mut cpu = loaded(&[0x8C, 0xE0]);
    let r = decode(&mut cpu, &LOAD);
    assert_eq!(
        r,
        Err(DecodeError::InvalidOperand { address: LOAD, opcode: 0x8C, modrm: 0xE0 })
    );
    assert_eq!(cpu.regs.ip, 0x0100);
}

#[test]
fn lea_with_byte_displacement() {
    let (r, cpu) = decode_one(&[0x8D, 0x40, 0x10]);
    assert_eq!(
        r,
        Ok(Instruction::LoadPointer(LoadInstruction::LEA(LoadInstructionData {
            register: Register::AX,
            displacement: Displacement::Byte(0x10),
            decoded_mem_mode: DecodedRMMode::Mem(MemoryMode::BX_SI_DISP8),
            length: 3,
        })))
    );
    assert_eq!(cpu.regs.ip, 0x0103);
}

#[test]
fn lds_and_les() {
    let (r, _) = decode_one(&[0xC5, 0x36, 0x00, 0x01]);
    assert_eq!(
        r,
        Ok(Instruction::LoadPointer(LoadInstruction::LDS(LoadInstructionData {
            register: Register::SI,
            displacement: Displacement::Word(0x0100),
            decoded_mem_mode: DecodedRMMode::Mem(MemoryMode::DISP16),
            length: 4,
        })))
    );
    let (r, _) = decode_one(&[0xC4, 0x1C]);
    assert_eq!(
        r,
        Ok(Instruction::LoadPointer(LoadInstruction::LES(LoadInstructionData {
            register: Register::BX,
            displacement: Displacement::Zero(0),
            decoded_mem_mode: DecodedRMMode::Mem(MemoryMode::SI),
            length: 2,
        })))
    );
}

#[test]
fn pointer_load_from_register_is_invalid() {
    let mut cpu = loaded(&[0xC4, 0xC0]);
    let r = decode(&mut cpu, &LOAD);
    assert_eq!(
        r,
        Err(DecodeError::InvalidOperand { address: LOAD, opcode: 0xC4, modrm: 0xC0 })
    );
    assert_eq!(cpu.regs.ip, 0x0100);
}

#[test]
fn return_forms() {
    assert_eq!(
        decode_one(&[0xC3]).0,
        Ok(Instruction::Ret(RetInstruction::Ret(RetIntraInter { is_inter: false, length: 1 })))
    );
    assert_eq!(
        decode_one(&[0xCB]).0,
        Ok(Instruction::Ret(RetInstruction::Ret(RetIntraInter { is_inter: true, length: 1 })))
    );
    let (r, cpu) = decode_one(&[0xCA, 0x04, 0x00]);
    assert_eq!(
        r,
        Ok(Instruction::Ret(RetInstruction::RetAdd(RetAddIntraInter {
            is_inter: true,
            data: 4,
            length: 3,
        })))
    );
    assert_eq!(cpu.regs.ip, 0x0103);
    assert_eq!(
        decode_one(&[0xC2, 0x10, 0x20]).0,
        Ok(Instruction::Ret(RetInstruction::RetAdd(RetAddIntraInter {
            is_inter: false,
            data: 0x2010,
            length: 3,
        })))
    );
}

#[test]
fn interrupts() {
    let (r, cpu) = decode_one(&[0xCD, 0x21]);
    assert_eq!(
        r,
        Ok(Instruction::Int(IntInstruction::IntImm8(IntImm8Instruction {
            int_vector: 0x21,
            length: 2,
        })))
    );
    assert_eq!(cpu.regs.ip, 0x0102);
    assert_eq!(decode_one(&[0xCC]).0, Ok(Instruction::Int(IntInstruction::Int3(one(1)))));
    assert_eq!(decode_one(&[0xCE]).0, Ok(Instruction::Int(IntInstruction::Into(one(1)))));
    assert_eq!(decode_one(&[0xCF]).0, Ok(Instruction::Iret(one(1))));
}

#[test]
fn port_input_and_output() {
    assert_eq!(
        decode_one(&[0xE4, 0x60]).0,
        Ok(Instruction::In(InInstruction::Fixed(FixedIn {
            is_ax: false,
            port_number: 0x60,
            length: 2,
        })))
    );
    assert_eq!(
        decode_one(&[0xED]).0,
        Ok(Instruction::In(InInstruction::Variable(VariableIn { is_ax: true, length: 1 })))
    );
    assert_eq!(
        decode_one(&[0xE7, 0x43]).0,
        Ok(Instruction::Out(OutInstruction::Fixed(FixedOut {
            is_ax: true,
            port_number: 0x43,
            length: 2,
        })))
    );
    assert_eq!(
        decode_one(&[0xEE]).0,
        Ok(Instruction::Out(OutInstruction::Variable(VariableOut { is_ax: false, length: 1 })))
    );
}

#[test]
fn prefixes() {
    let seg = |op: u8| decode_one(&[op]).0;
    assert_eq!(
        seg(0x26),
        Ok(Instruction::Seg(SegmentOverride { segment: SegmentRegister::ES, length: 1 }))
    );
    assert_eq!(
        seg(0x2E),
        Ok(Instruction::Seg(SegmentOverride { segment: SegmentRegister::CS, length: 1 }))
    );
    assert_eq!(
        seg(0x36),
        Ok(Instruction::Seg(SegmentOverride { segment: SegmentRegister::SS, length: 1 }))
    );
    assert_eq!(
        seg(0x3E),
        Ok(Instruction::Seg(SegmentOverride { segment: SegmentRegister::DS, length: 1 }))
    );
    assert_eq!(seg(0xF0), Ok(Instruction::Lock(one(1))));
    let (r, cpu) = decode_one(&[0xF3]);
    assert_eq!(r, Ok(Instruction::Rep(RepInstruction::Repz)));
    assert_eq!(cpu.regs.ip, 0x0101);
    assert_eq!(seg(0xF2), Ok(Instruction::Rep(RepInstruction::Repnz)));
}

#[test]
fn loops_and_jcxz() {
    let (r, cpu) = decode_one(&[0xE2, 0xFE]);
    assert_eq!(
        r,
        Ok(Instruction::Loop(LoopInstruction {
            loop_condition: LoopCondition::DIRECT,
            disp: -2,
            length: 2,
        }))
    );
    assert_eq!(cpu.regs.ip, 0x0102);
    assert_eq!(
        decode_one(&[0xE0, 0x05]).0,
        Ok(Instruction::Loop(LoopInstruction {
            loop_condition: LoopCondition::NZERO_NEQUAL,
            disp: 5,
            length: 2,
        }))
    );
    assert_eq!(
        decode_one(&[0xE1, 0x80]).0,
        Ok(Instruction::Loop(LoopInstruction {
            loop_condition: LoopCondition::ZERO_EQUAL,
            disp: -128,
            length: 2,
        }))
    );
    assert_eq!(
        decode_one(&[0xE3, 0x10]).0,
        Ok(Instruction::Jcxz(JcxzInstruction { signed_disp: 16, length: 2 }))
    );
}

#[test]
fn jump_condition_order() {
    let expected = [
        JumpCondition::JO, JumpCondition::JNO, JumpCondition::JB_JC_JNAE,
        JumpCondition::JAE_JNB_JNC, JumpCondition::JE_JZ, JumpCondition::JNE_JNZ,
        JumpCondition::JBE_JNA, JumpCondition::JA_JNBE, JumpCondition::JS, JumpCondition::JNS,
        JumpCondition::JP_JPE, JumpCondition::JNP_JPO, JumpCondition::JL_JNGE,
        JumpCondition::JGE_JNL, JumpCondition::JLE_JNG, JumpCondition::JG_JNLE,
    ];
    for (i, cond) in expected.iter().enumerate() {
        let (r, _) = decode_one(&[0x70 + i as u8, 0x7F]);
        assert_eq!(
            r,
            Ok(Instruction::Jcond(JumpInstruction {
                jump_condition: *cond,
                signed_disp: 127,
                length: 2,
            }))
        );
    }
}

#[test]
fn decimal_adjust() {
    assert_eq!(
        decode_one(&[0xD4, 0x0A]).0,
        Ok(Instruction::Aam(AAMDBase { base: 10, length: 2 }))
    );
    let (r, cpu) = decode_one(&[0xD5, 0x08]);
    assert_eq!(r, Ok(Instruction::Aad(AAMDBase { base: 8, length: 2 })));
    assert_eq!(cpu.regs.ip, 0x0102);
    assert_eq!(decode_one(&[0x27]).0, Ok(Instruction::Daa(one(1))));
    assert_eq!(decode_one(&[0x2F]).0, Ok(Instruction::Das(one(1))));
    assert_eq!(decode_one(&[0x37]).0, Ok(Instruction::Aaa(one(1))));
    assert_eq!(decode_one(&[0x3F]).0, Ok(Instruction::Aas(one(1))));
}

#[test]
fn one_byte_instructions() {
    let cases = [
        (0xF8, Instruction::Clc(one(1))),
        (0xFC, Instruction::Cld(one(1))),
        (0xFA, Instruction::Cli(one(1))),
        (0xF9, Instruction::Stc(one(1))),
        (0xFD, Instruction::Std(one(1))),
        (0xFB, Instruction::Sti(one(1))),
        (0xF5, Instruction::Cmc(one(1))),
        (0x9E, Instruction::Sahf(one(1))),
        (0x9F, Instruction::Lahf(one(1))),
        (0x9C, Instruction::Pushf(one(1))),
        (0x9D, Instruction::Popf(one(1))),
        (0x9B, Instruction::Wait(one(1))),
        (0xF4, Instruction::Hlt(one(1))),
        (0x98, Instruction::Cbw(one(1))),
        (0x99, Instruction::Cwd(one(1))),
        (0xD7, Instruction::Xlat(one(1))),
    ];
    for (op, ins) in cases.iter() {
        let (r, cpu) = decode_one(&[*op]);
        assert_eq!(r, Ok(*ins));
        assert_eq!(cpu.regs.ip, 0x0101);
    }
}

#[test]
fn family_decoder_rejects_foreign_opcode() {
    let mut cpu = loaded(&[0x91]);
    assert_eq!(
        decode_nop(&mut cpu, &LOAD),
        Err(DecodeError::UnknownSubForm { address: LOAD, opcode: 0x91 })
    );
    assert_eq!(cpu.regs.ip, 0x0100);
    let mut cpu = loaded(&[0xE3, 0x00]);
    assert_eq!(
        decode_jcond(&mut cpu, &LOAD),
        Err(DecodeError::UnknownSubForm { address: LOAD, opcode: 0xE3 })
    );
    let mut cpu = loaded(&[0x90]);
    assert_eq!(
        decode_mov(&mut cpu, &LOAD),
        Err(DecodeError::UnknownSubForm { address: LOAD, opcode: 0x90 })
    );
    assert_eq!(
        decode_load_pointer(&mut cpu, &LOAD),
        Err(DecodeError::UnknownSubForm { address: LOAD, opcode: 0x90 })
    );
    assert_eq!(cpu.regs.ip, 0x0100);
}

#[test]
fn unassigned_opcodes_are_unknown() {
    for op in [0x00u8, 0x0F, 0x40, 0x50, 0x80, 0xFF, 0xE8, 0xEB] {
        let mut cpu = loaded(&[op, 0, 0, 0]);
        assert_eq!(
            decode(&mut cpu, &LOAD),
            Err(DecodeError::UnknownOpcode { address: LOAD, opcode: op })
        );
        assert_eq!(cpu.regs.ip, 0x0100);
    }
}

#[test]
fn modrm_decode_is_repeatable() {
    for b in 0..=255u8 {
        let first = decode_modrm_byte(b);
        let second = decode_modrm_byte(b);
        assert_eq!(first, second);
        assert_eq!(first.reg_part, (b >> 3) & 7);
    }
}

#[test]
fn modrm_fields() {
    assert_eq!(
        decode_modrm_byte(0x46),
        ModRM {
            displacement_mode: DisplacementMode::BYTE,
            reg_part: 0,
            rm_mode: RMMode::Mem(MemoryMode::BP_DISP8),
        }
    );
    assert_eq!(
        decode_modrm_byte(0x06),
        ModRM {
            displacement_mode: DisplacementMode::WORD,
            reg_part: 0,
            rm_mode: RMMode::Mem(MemoryMode::DISP16),
        }
    );
    assert_eq!(
        decode_modrm_byte(0x00),
        ModRM {
            displacement_mode: DisplacementMode::ZERO,
            reg_part: 0,
            rm_mode: RMMode::Mem(MemoryMode::BX_SI),
        }
    );
    assert_eq!(
        decode_modrm_byte(0xBE),
        ModRM {
            displacement_mode: DisplacementMode::WORD,
            reg_part: 7,
            rm_mode: RMMode::Mem(MemoryMode::BP_DISP16),
        }
    );
    assert_eq!(
        decode_modrm_byte(0xD8),
        ModRM {
            displacement_mode: DisplacementMode::ZERO,
            reg_part: 3,
            rm_mode: RMMode::Reg(0),
        }
    );
}

#[test]
fn instruction_pointer_follows_lengths() {
    let program = [
        0xB0, 0x05, // 2
        0xC7, 0x06, 0x00, 0x02, 0x34, 0x12, // 6
        0x90, // 1
        0x8B, 0x46, 0xFC, // 3
        0x8C, 0x06, 0x34, 0x12, // 4
        0xCD, 0x21, // 2
        0xF4, // 1
    ];
    let mut cpu = loaded(&program);
    let mut expected_ip: u16 = 0x0100;
    for _ in 0..7 {
        let before = cpu.regs.ip;
        assert_eq!(before, expected_ip);
        let ins = cpu.step().expect("decodes");
        expected_ip = before + ins.length() as u16;
        assert_eq!(cpu.regs.ip, expected_ip);
    }
    assert_eq!(cpu.regs.ip, 0x0100 + program.len() as u16);
}

#[test]
fn instruction_pointer_wraps() {
    let mut cpu = Cpu::new();
    cpu.regs.ip = 0xFFFF;
    let addr = Cpu::get_physical_address(cpu.regs.cs, cpu.regs.ip);
    cpu.write_byte(addr, 0xB0);
    cpu.write_byte(addr + 1, 0x01);
    let r = cpu.step();
    assert!(r.is_ok());
    assert_eq!(cpu.regs.ip, 0x0001);
}

#[test]
fn operands_wrap_at_top_of_memory() {
    let mut cpu = Cpu::new();
    let top = MEMORY_SIZE - 1;
    cpu.write_byte(top, 0xB8);
    cpu.write_byte(0, 0x34);
    cpu.write_byte(1, 0x12);
    assert_eq!(
        decode(&mut cpu, &top),
        Ok(Instruction::Mov(MovInstruction::ImmToReg(MovImmToReg {
            dest: Register::AX,
            imm: Immediate::Word(0x1234),
            length: 3,
        })))
    );
}

#[test]
fn written_bytes_decode_back() {
    let mut cpu = Cpu::new();
    let at: u32 = 0x4000;
    for (i, b) in [0x89u8, 0x5E, 0xF0].iter().enumerate() {
        cpu.write_byte(at + i as u32, *b);
    }
    assert_eq!(
        decode(&mut cpu, &at),
        Ok(Instruction::Mov(MovInstruction::RegToRM(MovRegToRM {
            is_16bit: true,
            is_rm_a_reg: false,
            decoded_rm: DecodedRMMode::Mem(MemoryMode::BP_DISP8),
            decdode_reg: Registers::Gpr(Register::BX),
            displacement: Displacement::Byte(-16),
            length: 3,
        })))
    );
    assert_eq!(cpu.regs.ip, 3);
}

#[test]
fn length_method_matches_variant() {
    let (r, _) = decode_one(&[0xC7, 0x86, 0x10, 0x00, 0xFF, 0xFF]);
    let ins = r.expect("decodes");
    assert_eq!(ins.length(), 6);
    assert_eq!(Instruction::Rep(RepInstruction::Repz).length(), 1);
}

#[test]
fn stored_encodings_decode_back() {
    let mut cpu = Cpu::new();
    cpu.regs.ds = 0x2000;
    let at: u32 = 0x3000;
    let bytes = [0xC5u8, 0x9F, 0x34, 0x12];
    for (i, b) in bytes.iter().enumerate() {
        cpu.write_byte(at + i as u32, *b);
    }
    assert_eq!(
        decode(&mut cpu, &at),
        Ok(Instruction::LoadPointer(LoadInstruction::LDS(LoadInstructionData {
            register: Register::BX,
            displacement: Displacement::Word(0x1234),
            decoded_mem_mode: DecodedRMMode::Mem(MemoryMode::BX_DIS168),
            length: 4,
        })))
    );
    let at: u32 = 0x3100;
    for (i, b) in [0xA3u8, 0xFF, 0xFF].iter().enumerate() {
        cpu.write_byte(at + i as u32, *b);
    }
    assert_eq!(
        decode(&mut cpu, &at),
        Ok(Instruction::Mov(MovInstruction::MemToAcc(MovMemToAcc {
            dest: Register::AX,
            mem_addr: MemoryAddress::Word(0x2FFFF),
            to_acc: false,
            length: 3,
        })))
    );
    assert_eq!(cpu.regs.ip, 7);
}
