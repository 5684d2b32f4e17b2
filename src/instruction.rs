//! The decoded form of an instruction: a closed set of variants, each with
//! its operands and its encoded length in bytes.
use vstd::prelude::*;

verus! {

/// General-purpose registers, in the order the 8086 encodes them: the eight
/// byte registers (indices 0 to 7), then the eight word registers (8 to 15).
#[derive(Debug, Clone, Copy, PartialEq, Eq)]
pub enum Register {
    AL,
    CL,
    DL,
    BL,
    AH,
    CH,
    DH,
    BH,
    AX,
    CX,
    DX,
    BX,
    SP,
    BP,
    SI,
    DI,
}

/// The general-purpose register with encoding index `i` (`0 <= i < 16`).
pub open spec fn register_at(i: int) -> Register
    recommends
        0 <= i < 16,
{
    if i == 0 {
        Register::AL
    } else if i == 1 {
        Register::CL
    } else if i == 2 {
        Register::DL
    } else if i == 3 {
        Register::BL
    } else if i == 4 {
        Register::AH
    } else if i == 5 {
        Register::CH
    } else if i == 6 {
        Register::DH
    } else if i == 7 {
        Register::BH
    } else if i == 8 {
        Register::AX
    } else if i == 9 {
        Register::CX
    } else if i == 10 {
        Register::DX
    } else if i == 11 {
        Register::BX
    } else if i == 12 {
        Register::SP
    } else if i == 13 {
        Register::BP
    } else if i == 14 {
        Register::SI
    } else {
        Register::DI
    }
}

impl Register {
    /// The register with encoding index `index`.
    pub fn from_index(index: u8) -> (r: Register)
        requires
            index < 16,
        ensures
            r == register_at(index as int),
    {
        match index {
            0 => Register::AL,
            1 => Register::CL,
            2 => Register::DL,
            3 => Register::BL,
            4 => Register::AH,
            5 => Register::CH,
            6 => Register::DH,
            7 => Register::BH,
            8 => Register::AX,
            9 => Register::CX,
            10 => Register::DX,
            11 => Register::BX,
            12 => Register::SP,
            13 => Register::BP,
            14 => Register::SI,
            _ => Register::DI,
        }
    }
}

/// Segment registers, in the order of their 2-bit encoding.
#[derive(Debug, Clone, Copy, PartialEq, Eq)]
pub enum SegmentRegister {
    ES,
    CS,
    SS,
    DS,
}

/// The segment register with encoding index `i`, if there is one.
pub open spec fn segment_register_at(i: int) -> Option<SegmentRegister> {
    if i == 0 {
        Some(SegmentRegister::ES)
    } else if i == 1 {
        Some(SegmentRegister::CS)
    } else if i == 2 {
        Some(SegmentRegister::SS)
    } else if i == 3 {
        Some(SegmentRegister::DS)
    } else {
        None
    }
}

impl SegmentRegister {
    /// The segment register with encoding index `index`; `None` from 4 on.
    pub fn from_index(index: u8) -> (r: Option<SegmentRegister>)
        ensures
            r == segment_register_at(index as int),
    {
        match index {
            0 => Some(SegmentRegister::ES),
            1 => Some(SegmentRegister::CS),
            2 => Some(SegmentRegister::SS),
            3 => Some(SegmentRegister::DS),
            _ => None,
        }
    }
}

/// A register operand: general-purpose or segment.
#[derive(Debug, Clone, Copy, PartialEq, Eq)]
pub enum Registers {
    Gpr(Register),
    Seg(SegmentRegister),
}

#[derive(Debug, Clone, Copy, PartialEq, Eq)]
pub enum Immediate {
    Byte(u8),
    Word(u16),
}

/// A physical memory address, with the width of the access.
#[derive(Debug, Clone, Copy, PartialEq, Eq)]
pub enum MemoryAddress {
    Byte(u32),
    Word(u32),
}

#[derive(Debug, Clone, Copy, PartialEq, Eq)]
pub struct MovImmToReg {
    pub dest: Register,
    pub imm: Immediate,
    pub length: u8,
}

#[derive(Debug, Clone, Copy, PartialEq, Eq)]
pub struct MovMemToAcc {
    pub dest: Register,
    pub mem_addr: MemoryAddress,
    pub to_acc: bool,
    pub length: u8,
}

/// Displacement that follows a ModR/M byte.
#[derive(Debug, Clone, Copy, PartialEq, Eq)]
pub enum Displacement {
    Zero(u8),
    Byte(i8),
    Word(i16),
}

/// MOV from the r/m operand into the register named by the reg field.
#[derive(Debug, Clone, Copy, PartialEq, Eq)]
pub struct MovMemToReg {
    pub is_16bit: bool,
    pub decoded_rm: DecodedRMMode,
    pub decdode_reg: Registers,
    pub displacement: Displacement,
    pub length: u8,
}

/// The r/m operand of a ModR/M byte once its width is known.
#[derive(Debug, Clone, Copy, PartialEq, Eq)]
pub enum DecodedRMMode {
    Mem(MemoryMode),
    Reg(Register),
}

/// MOV from the register named by the reg field into the r/m operand.
#[derive(Debug, Clone, Copy, PartialEq, Eq)]
pub struct MovRegToRM {
    pub is_16bit: bool,
    pub is_rm_a_reg: bool,
    pub decoded_rm: DecodedRMMode,
    pub decdode_reg: Registers,
    pub displacement: Displacement,
    pub length: u8,
}

#[derive(Debug, Clone, Copy, PartialEq, Eq)]
pub struct MovSregToFromRM {
    pub to_rm: bool,
    pub is_rm_a_reg: bool,
    pub decoded_rm: DecodedRMMode,
    pub decdode_reg: Registers,
    pub displacement: Displacement,
    pub length: u8,
}

#[derive(Debug, Clone, Copy, PartialEq, Eq)]
pub struct MovImmToRM {
    pub is_16bit: bool,
    pub is_rm_a_reg: bool,
    pub decoded_rm: DecodedRMMode,
    pub displacement: Displacement,
    pub imm: Immediate,
    pub length: u8,
}

#[derive(Debug, Clone, Copy, PartialEq, Eq)]
pub enum MovInstruction {
    ImmToReg(MovImmToReg),
    MemToAcc(MovMemToAcc),
    MemToReg(MovMemToReg),
    RegToRM(MovRegToRM),
    SregToRM(MovSregToFromRM),
    RMToSreg(MovSregToFromRM),
    ImmToRM(MovImmToRM),
}

/// An instruction with no operands.
#[derive(Debug, Clone, Copy, PartialEq, Eq)]
pub struct FillerInstruction {
    pub length: u8,
}

#[derive(Debug, Clone, Copy, PartialEq, Eq)]
pub struct FixedOut {
    pub is_ax: bool,
    pub port_number: u8,
    pub length: u8,
}

#[derive(Debug, Clone, Copy, PartialEq, Eq)]
pub struct VariableOut {
    pub is_ax: bool,
    pub length: u8,
}

#[derive(Debug, Clone, Copy, PartialEq, Eq)]
pub enum OutInstruction {
    Fixed(FixedOut),
    Variable(VariableOut),
}

#[derive(Debug, Clone, Copy, PartialEq, Eq)]
pub struct FixedIn {
    pub is_ax: bool,
    pub port_number: u8,
    pub length: u8,
}

#[derive(Debug, Clone, Copy, PartialEq, Eq)]
pub struct VariableIn {
    pub is_ax: bool,
    pub length: u8,
}

#[derive(Debug, Clone, Copy, PartialEq, Eq)]
pub enum InInstruction {
    Fixed(FixedIn),
    Variable(VariableIn),
}

/// The repeat prefixes; each is one byte long.
#[derive(Debug, Clone, Copy, PartialEq, Eq)]
pub enum RepInstruction {
    Repz,
    Repnz,
}

/// AAM or AAD with its number base.
#[derive(Debug, Clone, Copy, PartialEq, Eq)]
pub struct AAMDBase {
    pub base: u8,
    pub length: u8,
}

#[derive(Debug, Clone, Copy, PartialEq, Eq)]
pub struct IntImm8Instruction {
    pub int_vector: u8,
    pub length: u8,
}

#[derive(Debug, Clone, Copy, PartialEq, Eq)]
pub enum IntInstruction {
    Int3(FillerInstruction),
    IntImm8(IntImm8Instruction),
    Into(FillerInstruction),
}

#[derive(Debug, Clone, Copy, PartialEq, Eq)]
pub struct RetIntraInter {
    pub is_inter: bool,
    pub length: u8,
}

#[derive(Debug, Clone, Copy, PartialEq, Eq)]
pub struct RetAddIntraInter {
    pub is_inter: bool,
    pub data: u16,
    pub length: u8,
}

#[derive(Debug, Clone, Copy, PartialEq, Eq)]
pub enum RetInstruction {
    Ret(RetIntraInter),
    RetAdd(RetAddIntraInter),
}

/// Conditions of the short conditional jumps, in opcode order from 0x70.
#[allow(non_camel_case_types)]
#[derive(Debug, Clone, Copy, PartialEq, Eq)]
pub enum JumpCondition {
    JO,
    JNO,
    JB_JC_JNAE,
    JAE_JNB_JNC,
    JE_JZ,
    JNE_JNZ,
    JBE_JNA,
    JA_JNBE,
    JS,
    JNS,
    JP_JPE,
    JNP_JPO,
    JL_JNGE,
    JGE_JNL,
    JLE_JNG,
    JG_JNLE,
}

/// The jump condition of opcode `0x70 + i` (`0 <= i < 16`).
pub open spec fn jump_condition_at(i: int) -> JumpCondition
    recommends
        0 <= i < 16,
{
    if i == 0 {
        JumpCondition::JO
    } else if i == 1 {
        JumpCondition::JNO
    } else if i == 2 {
        JumpCondition::JB_JC_JNAE
    } else if i == 3 {
        JumpCondition::JAE_JNB_JNC
    } else if i == 4 {
        JumpCondition::JE_JZ
    } else if i == 5 {
        JumpCondition::JNE_JNZ
    } else if i == 6 {
        JumpCondition::JBE_JNA
    } else if i == 7 {
        JumpCondition::JA_JNBE
    } else if i == 8 {
        JumpCondition::JS
    } else if i == 9 {
        JumpCondition::JNS
    } else if i == 10 {
        JumpCondition::JP_JPE
    } else if i == 11 {
        JumpCondition::JNP_JPO
    } else if i == 12 {
        JumpCondition::JL_JNGE
    } else if i == 13 {
        JumpCondition::JGE_JNL
    } else if i == 14 {
        JumpCondition::JLE_JNG
    } else {
        JumpCondition::JG_JNLE
    }
}

impl JumpCondition {
    pub fn from_index(index: u8) -> (r: JumpCondition)
        requires
            index < 16,
        ensures
            r == jump_condition_at(index as int),
    {
        match index {
            0 => JumpCondition::JO,
            1 => JumpCondition::JNO,
            2 => JumpCondition::JB_JC_JNAE,
            3 => JumpCondition::JAE_JNB_JNC,
            4 => JumpCondition::JE_JZ,
            5 => JumpCondition::JNE_JNZ,
            6 => JumpCondition::JBE_JNA,
            7 => JumpCondition::JA_JNBE,
            8 => JumpCondition::JS,
            9 => JumpCondition::JNS,
            10 => JumpCondition::JP_JPE,
            11 => JumpCondition::JNP_JPO,
            12 => JumpCondition::JL_JNGE,
            13 => JumpCondition::JGE_JNL,
            14 => JumpCondition::JLE_JNG,
            _ => JumpCondition::JG_JNLE,
        }
    }
}

#[derive(Debug, Clone, Copy, PartialEq, Eq)]
pub struct JumpInstruction {
    pub jump_condition: JumpCondition,
    pub signed_disp: i8,
    pub length: u8,
}

#[derive(Debug, Clone, Copy, PartialEq, Eq)]
pub struct JcxzInstruction {
    pub signed_disp: i8,
    pub length: u8,
}

#[derive(Debug, Clone, Copy, PartialEq, Eq)]
pub struct SegmentOverride {
    pub segment: SegmentRegister,
    pub length: u8,
}

/// The 24 memory-addressing forms, indexed by `mod * 8 + rm` for `mod` 0 to 2.
#[allow(non_camel_case_types)]
#[derive(Debug, Clone, Copy, PartialEq, Eq)]
pub enum MemoryMode {
    BX_SI,
    BX_DI,
    BP_SI,
    BP_DI,
    SI,
    DI,
    DISP16,
    BX,
    BX_SI_DISP8,
    BX_DI_DISP8,
    BP_SI_DISP8,
    BP_DI_DISP8,
    SI_DISP8,
    DI_DISP8,
    BP_DISP8,
    BX_DISP8,
    BX_SI_DISP16,
    BX_DI_DISP16,
    BP_SI_DISP16,
    BP_DI_DISP16,
    SI_DISP16,
    DI_DISP16,
    BP_DISP16,
    BX_DIS168,
}

/// The memory-addressing form with table index `i` (`0 <= i < 24`).
pub open spec fn memory_mode_at(i: int) -> MemoryMode
    recommends
        0 <= i < 24,
{
    if i == 0 {
        MemoryMode::BX_SI
    } else if i == 1 {
        MemoryMode::BX_DI
    } else if i == 2 {
        MemoryMode::BP_SI
    } else if i == 3 {
        MemoryMode::BP_DI
    } else if i == 4 {
        MemoryMode::SI
    } else if i == 5 {
        MemoryMode::DI
    } else if i == 6 {
        MemoryMode::DISP16
    } else if i == 7 {
        MemoryMode::BX
    } else if i == 8 {
        MemoryMode::BX_SI_DISP8
    } else if i == 9 {
        MemoryMode::BX_DI_DISP8
    } else if i == 10 {
        MemoryMode::BP_SI_DISP8
    } else if i == 11 {
        MemoryMode::BP_DI_DISP8
    } else if i == 12 {
        MemoryMode::SI_DISP8
    } else if i == 13 {
        MemoryMode::DI_DISP8
    } else if i == 14 {
        MemoryMode::BP_DISP8
    } else if i == 15 {
        MemoryMode::BX_DISP8
    } else if i == 16 {
        MemoryMode::BX_SI_DISP16
    } else if i == 17 {
        MemoryMode::BX_DI_DISP16
    } else if i == 18 {
        MemoryMode::BP_SI_DISP16
    } else if i == 19 {
        MemoryMode::BP_DI_DISP16
    } else if i == 20 {
        MemoryMode::SI_DISP16
    } else if i == 21 {
        MemoryMode::DI_DISP16
    } else if i == 22 {
        MemoryMode::BP_DISP16
    } else {
        MemoryMode::BX_DIS168
    }
}

impl MemoryMode {
    pub fn from_index(index: u8) -> (r: MemoryMode)
        requires
            index < 24,
        ensures
            r == memory_mode_at(index as int),
    {
        match index {
            0 => MemoryMode::BX_SI,
            1 => MemoryMode::BX_DI,
            2 => MemoryMode::BP_SI,
            3 => MemoryMode::BP_DI,
            4 => MemoryMode::SI,
            5 => MemoryMode::DI,
            6 => MemoryMode::DISP16,
            7 => MemoryMode::BX,
            8 => MemoryMode::BX_SI_DISP8,
            9 => MemoryMode::BX_DI_DISP8,
            10 => MemoryMode::BP_SI_DISP8,
            11 => MemoryMode::BP_DI_DISP8,
            12 => MemoryMode::SI_DISP8,
            13 => MemoryMode::DI_DISP8,
            14 => MemoryMode::BP_DISP8,
            15 => MemoryMode::BX_DISP8,
            16 => MemoryMode::BX_SI_DISP16,
            17 => MemoryMode::BX_DI_DISP16,
            18 => MemoryMode::BP_SI_DISP16,
            19 => MemoryMode::BP_DI_DISP16,
            20 => MemoryMode::SI_DISP16,
            21 => MemoryMode::DI_DISP16,
            22 => MemoryMode::BP_DISP16,
            _ => MemoryMode::BX_DIS168,
        }
    }
}

/// The r/m field of a ModR/M byte: a memory form, or a register index (0 to 7).
#[derive(Debug, Clone, Copy, PartialEq, Eq)]
pub enum RMMode {
    Mem(MemoryMode),
    Reg(u8),
}

/// How many displacement bytes follow a ModR/M byte.
#[derive(Debug, Clone, Copy, PartialEq, Eq)]
pub enum DisplacementMode {
    ZERO,
    BYTE,
    WORD,
}

#[derive(Debug, Clone, Copy, PartialEq, Eq)]
pub struct ModRM {
    pub displacement_mode: DisplacementMode,
    pub reg_part: u8,
    pub rm_mode: RMMode,
}

/// Conditions of the loop instructions, in opcode order from 0xE0.
#[allow(non_camel_case_types)]
#[derive(Debug, Clone, Copy, PartialEq, Eq)]
pub enum LoopCondition {
    NZERO_NEQUAL,
    ZERO_EQUAL,
    DIRECT,
}

/// The loop condition of opcode `0xE0 + i` (`0 <= i < 3`).
pub open spec fn loop_condition_at(i: int) -> LoopCondition
    recommends
        0 <= i < 3,
{
    if i == 0 {
        LoopCondition::NZERO_NEQUAL
    } else if i == 1 {
        LoopCondition::ZERO_EQUAL
    } else {
        LoopCondition::DIRECT
    }
}

impl LoopCondition {
    pub fn from_index(index: u8) -> (r: LoopCondition)
        requires
            index < 3,
        ensures
            r == loop_condition_at(index as int),
    {
        match index {
            0 => LoopCondition::NZERO_NEQUAL,
            1 => LoopCondition::ZERO_EQUAL,
            _ => LoopCondition::DIRECT,
        }
    }
}

#[derive(Debug, Clone, Copy, PartialEq, Eq)]
pub struct LoopInstruction {
    pub loop_condition: LoopCondition,
    pub disp: i8,
    pub length: u8,
}

#[derive(Debug, Clone, Copy, PartialEq, Eq)]
pub struct LoadInstructionData {
    pub register: Register,
    pub displacement: Displacement,
    pub decoded_mem_mode: DecodedRMMode,
    pub length: u8,
}

#[allow(clippy::upper_case_acronyms)]
#[derive(Debug, Clone, Copy, PartialEq, Eq)]
pub enum LoadInstruction {
    LDS(LoadInstructionData),
    LES(LoadInstructionData),
    LEA(LoadInstructionData),
}

#[derive(Debug, Clone, Copy, PartialEq, Eq)]
pub enum Instruction {
    Mov(MovInstruction),
    Nop(FillerInstruction),
    Hlt(FillerInstruction),
    Lock(FillerInstruction),
    Cbw(FillerInstruction),
    Cwd(FillerInstruction),
    Aaa(FillerInstruction),
    Aad(AAMDBase),
    Aam(AAMDBase),
    Aas(FillerInstruction),
    Daa(FillerInstruction),
    Das(FillerInstruction),
    Clc(FillerInstruction),
    Cld(FillerInstruction),
    Cli(FillerInstruction),
    Stc(FillerInstruction),
    Std(FillerInstruction),
    Sti(FillerInstruction),
    Cmc(FillerInstruction),
    Sahf(FillerInstruction),
    Lahf(FillerInstruction),
    Pushf(FillerInstruction),
    Popf(FillerInstruction),
    Iret(FillerInstruction),
    Wait(FillerInstruction),
    Xlat(FillerInstruction),
    Ret(RetInstruction),
    Int(IntInstruction),
    Out(OutInstruction),
    In(InInstruction),
    Rep(RepInstruction),
    Jcond(JumpInstruction),
    Jcxz(JcxzInstruction),
    Seg(SegmentOverride),
    Loop(LoopInstruction),
    LoadPointer(LoadInstruction),
}

impl MovInstruction {
    pub open spec fn len(self) -> u8 {
        match self {
            MovInstruction::ImmToReg(m) => m.length,
            MovInstruction::MemToAcc(m) => m.length,
            MovInstruction::MemToReg(m) => m.length,
            MovInstruction::RegToRM(m) => m.length,
            MovInstruction::SregToRM(m) => m.length,
            MovInstruction::RMToSreg(m) => m.length,
            MovInstruction::ImmToRM(m) => m.length,
        }
    }
}

impl Instruction {
    /// Encoded length in bytes; a repeat prefix is one byte.
    pub open spec fn len(self) -> u8 {
        match self {
            Instruction::Mov(m) => m.len(),
            Instruction::Nop(f) | Instruction::Hlt(f) | Instruction::Lock(f) | Instruction::Cbw(f)
            | Instruction::Cwd(f) | Instruction::Aaa(f) | Instruction::Aas(f) | Instruction::Daa(f)
            | Instruction::Das(f) | Instruction::Clc(f) | Instruction::Cld(f) | Instruction::Cli(f)
            | Instruction::Stc(f) | Instruction::Std(f) | Instruction::Sti(f) | Instruction::Cmc(f)
            | Instruction::Sahf(f) | Instruction::Lahf(f) | Instruction::Pushf(f)
            | Instruction::Popf(f) | Instruction::Iret(f) | Instruction::Wait(f)
            | Instruction::Xlat(f) => f.length,
            Instruction::Aad(b) | Instruction::Aam(b) => b.length,
            Instruction::Ret(RetInstruction::Ret(r)) => r.length,
            Instruction::Ret(RetInstruction::RetAdd(r)) => r.length,
            Instruction::Int(IntInstruction::Int3(f)) => f.length,
            Instruction::Int(IntInstruction::Into(f)) => f.length,
            Instruction::Int(IntInstruction::IntImm8(i)) => i.length,
            Instruction::Out(OutInstruction::Fixed(o)) => o.length,
            Instruction::Out(OutInstruction::Variable(o)) => o.length,
            Instruction::In(InInstruction::Fixed(i)) => i.length,
            Instruction::In(InInstruction::Variable(i)) => i.length,
            Instruction::Rep(_) => 1,
            Instruction::Jcond(j) => j.length,
            Instruction::Jcxz(j) => j.length,
            Instruction::Seg(s) => s.length,
            Instruction::Loop(l) => l.length,
            Instruction::LoadPointer(LoadInstruction::LDS(d)) => d.length,
            Instruction::LoadPointer(LoadInstruction::LES(d)) => d.length,
            Instruction::LoadPointer(LoadInstruction::LEA(d)) => d.length,
        }
    }

    /// Encoded length in bytes.
    pub fn length(&self) -> (r: u8)
        ensures
            r == self.len(),
    {
        match self {
            Instruction::Mov(m) => match m {
                MovInstruction::ImmToReg(x) => x.length,
                MovInstruction::MemToAcc(x) => x.length,
                MovInstruction::MemToReg(x) => x.length,
                MovInstruction::RegToRM(x) => x.length,
                MovInstruction::SregToRM(x) => x.length,
                MovInstruction::RMToSreg(x) => x.length,
                MovInstruction::ImmToRM(x) => x.length,
            },
            Instruction::Nop(f) | Instruction::Hlt(f) | Instruction::Lock(f) | Instruction::Cbw(f)
            | Instruction::Cwd(f) | Instruction::Aaa(f) | Instruction::Aas(f) | Instruction::Daa(f)
            | Instruction::Das(f) | Instruction::Clc(f) | Instruction::Cld(f) | Instruction::Cli(f)
            | Instruction::Stc(f) | Instruction::Std(f) | Instruction::Sti(f) | Instruction::Cmc(f)
            | Instruction::Sahf(f) | Instruction::Lahf(f) | Instruction::Pushf(f)
            | Instruction::Popf(f) | Instruction::Iret(f) | Instruction::Wait(f)
            | Instruction::Xlat(f) => f.length,
            Instruction::Aad(b) | Instruction::Aam(b) => b.length,
            Instruction::Ret(RetInstruction::Ret(r)) => r.length,
            Instruction::Ret(RetInstruction::RetAdd(r)) => r.length,
            Instruction::Int(IntInstruction::Int3(f)) => f.length,
            Instruction::Int(IntInstruction::Into(f)) => f.length,
            Instruction::Int(IntInstruction::IntImm8(i)) => i.length,
            Instruction::Out(OutInstruction::Fixed(o)) => o.length,
            Instruction::Out(OutInstruction::Variable(o)) => o.length,
            Instruction::In(InInstruction::Fixed(i)) => i.length,
            Instruction::In(InInstruction::Variable(i)) => i.length,
            Instruction::Rep(_) => 1,
            Instruction::Jcond(j) => j.length,
            Instruction::Jcxz(j) => j.length,
            Instruction::Seg(s) => s.length,
            Instruction::Loop(l) => l.length,
            Instruction::LoadPointer(LoadInstruction::LDS(d)) => d.length,
            Instruction::LoadPointer(LoadInstruction::LES(d)) => d.length,
            Instruction::LoadPointer(LoadInstruction::LEA(d)) => d.length,
        }
    }
}

} // verus!
