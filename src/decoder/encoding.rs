//! The byte encoding of each instruction the decoder knows, and the law that
//! decoding those bytes gives the instruction back.
use vstd::prelude::*;

use crate::cpu::{byte_at, high_byte, lemma_word_bytes, low_byte, physical, word_at, MEMORY_SIZE};
use crate::decoder::utils::{displacement_at, displacement_size, gpr, modrm_of, rm_operand};
use crate::decoder::load::load_pointer_spec;
use crate::decoder::mov::mov_spec;
use crate::decoder::{decode_spec, DecodeError};
use crate::instruction::{
    memory_mode_at, register_at, segment_register_at, DecodedRMMode, Displacement, Immediate,
    InInstruction, Instruction, IntInstruction, JumpCondition, LoadInstruction,
    LoadInstructionData, LoopCondition, MemoryAddress, MemoryMode, MovImmToRM, MovImmToReg,
    MovInstruction, MovMemToAcc, MovMemToReg, MovRegToRM, MovSregToFromRM, OutInstruction,
    Register, Registers, RepInstruction, RetInstruction, SegmentRegister,
};

verus! {

/// Encoding index of a general-purpose register (the inverse of `register_at`).
pub open spec fn register_index(r: Register) -> int {
    match r {
        Register::AL => 0,
        Register::CL => 1,
        Register::DL => 2,
        Register::BL => 3,
        Register::AH => 4,
        Register::CH => 5,
        Register::DH => 6,
        Register::BH => 7,
        Register::AX => 8,
        Register::CX => 9,
        Register::DX => 10,
        Register::BX => 11,
        Register::SP => 12,
        Register::BP => 13,
        Register::SI => 14,
        Register::DI => 15,
    }
}

pub open spec fn segment_index(s: SegmentRegister) -> int {
    match s {
        SegmentRegister::ES => 0,
        SegmentRegister::CS => 1,
        SegmentRegister::SS => 2,
        SegmentRegister::DS => 3,
    }
}

pub open spec fn memory_mode_index(m: MemoryMode) -> int {
    match m {
        MemoryMode::BX_SI => 0,
        MemoryMode::BX_DI => 1,
        MemoryMode::BP_SI => 2,
        MemoryMode::BP_DI => 3,
        MemoryMode::SI => 4,
        MemoryMode::DI => 5,
        MemoryMode::DISP16 => 6,
        MemoryMode::BX => 7,
        MemoryMode::BX_SI_DISP8 => 8,
        MemoryMode::BX_DI_DISP8 => 9,
        MemoryMode::BP_SI_DISP8 => 10,
        MemoryMode::BP_DI_DISP8 => 11,
        MemoryMode::SI_DISP8 => 12,
        MemoryMode::DI_DISP8 => 13,
        MemoryMode::BP_DISP8 => 14,
        MemoryMode::BX_DISP8 => 15,
        MemoryMode::BX_SI_DISP16 => 16,
        MemoryMode::BX_DI_DISP16 => 17,
        MemoryMode::BP_SI_DISP16 => 18,
        MemoryMode::BP_DI_DISP16 => 19,
        MemoryMode::SI_DISP16 => 20,
        MemoryMode::DI_DISP16 => 21,
        MemoryMode::BP_DISP16 => 22,
        MemoryMode::BX_DIS168 => 23,
    }
}

pub open spec fn jump_condition_index(c: JumpCondition) -> int {
    match c {
        JumpCondition::JO => 0,
        JumpCondition::JNO => 1,
        JumpCondition::JB_JC_JNAE => 2,
        JumpCondition::JAE_JNB_JNC => 3,
        JumpCondition::JE_JZ => 4,
        JumpCondition::JNE_JNZ => 5,
        JumpCondition::JBE_JNA => 6,
        JumpCondition::JA_JNBE => 7,
        JumpCondition::JS => 8,
        JumpCondition::JNS => 9,
        JumpCondition::JP_JPE => 10,
        JumpCondition::JNP_JPO => 11,
        JumpCondition::JL_JNGE => 12,
        JumpCondition::JGE_JNL => 13,
        JumpCondition::JLE_JNG => 14,
        JumpCondition::JG_JNLE => 15,
    }
}

pub open spec fn loop_condition_index(c: LoopCondition) -> int {
    match c {
        LoopCondition::NZERO_NEQUAL => 0,
        LoopCondition::ZERO_EQUAL => 1,
        LoopCondition::DIRECT => 2,
    }
}

/// A word as two little-endian bytes.
pub open spec fn le_bytes(w: u16) -> Seq<u8> {
    seq![low_byte(w), high_byte(w)]
}

/// The bytes of a displacement.
pub open spec fn displacement_bytes(d: Displacement) -> Seq<u8> {
    match d {
        Displacement::Zero(_) => seq![],
        Displacement::Byte(b) => seq![b as u8],
        Displacement::Word(w) => le_bytes(w as u16),
    }
}

/// The bytes of an immediate.
pub open spec fn immediate_bytes(imm: Immediate) -> Seq<u8> {
    match imm {
        Immediate::Byte(b) => seq![b],
        Immediate::Word(w) => le_bytes(w),
    }
}

/// Whether register `r` is one of the word registers (`wide`) or one of the byte registers.
pub open spec fn has_width(r: Register, wide: bool) -> bool {
    if wide {
        register_index(r) >= 8
    } else {
        register_index(r) < 8
    }
}

/// Whether an r/m operand of the given width goes with displacement `d`: a
/// register takes none, a memory form takes the one its table row names.
pub open spec fn operand_fits(rm: DecodedRMMode, d: Displacement, wide: bool) -> bool {
    match rm {
        DecodedRMMode::Reg(r) => has_width(r, wide) && d == Displacement::Zero(0),
        DecodedRMMode::Mem(m) => {
            let i = memory_mode_index(m);
            if i == 6 || i >= 16 {
                d is Word
            } else if i < 8 {
                d == Displacement::Zero(0)
            } else {
                d is Byte
            }
        },
    }
}

/// The ModR/M byte for r/m operand `rm` and reg field `reg`.
pub open spec fn modrm_byte(rm: DecodedRMMode, reg: int) -> u8 {
    match rm {
        DecodedRMMode::Reg(r) => (0xC0 + reg * 8 + register_index(r) % 8) as u8,
        DecodedRMMode::Mem(m) => {
            let i = memory_mode_index(m);
            ((i / 8) * 64 + reg * 8 + i % 8) as u8
        },
    }
}

/// ModR/M byte and displacement.
pub open spec fn operand_bytes(rm: DecodedRMMode, d: Displacement, reg: int) -> Seq<u8> {
    seq![modrm_byte(rm, reg)] + displacement_bytes(d)
}

/// Offset in segment `ds` of physical address `a`.
pub open spec fn offset_in(ds: u16, a: u32) -> u16 {
    ((a - ds * 16) % (MEMORY_SIZE as int)) as u16
}

/// Whether a MOV can be encoded, with `ds` the data segment its direct
/// addresses are relative to: widths agree, lengths are the encoded lengths,
/// and a direct address lies within 64 KiB above the start of `ds`.
pub open spec fn mov_encodable(m: MovInstruction, ds: u16) -> bool {
    match m {
        MovInstruction::ImmToReg(x) => match x.imm {
            Immediate::Byte(_) => has_width(x.dest, false) && x.length == 2,
            Immediate::Word(_) => has_width(x.dest, true) && x.length == 3,
        },
        MovInstruction::MemToAcc(x) => {
            let (wide, a) = match x.mem_addr {
                MemoryAddress::Byte(a) => (false, a),
                MemoryAddress::Word(a) => (true, a),
            };
            &&& x.dest == (if wide {
                Register::AX
            } else {
                Register::AL
            })
            &&& a < MEMORY_SIZE
            &&& (a - ds * 16) % (MEMORY_SIZE as int) < 0x1_0000
            &&& x.length == 3
        },
        MovInstruction::MemToReg(x) => {
            &&& x.decdode_reg matches Registers::Gpr(r) && has_width(r, x.is_16bit)
            &&& operand_fits(x.decoded_rm, x.displacement, x.is_16bit)
            &&& x.length == 2 + displacement_bytes(x.displacement).len()
        },
        MovInstruction::RegToRM(x) => {
            &&& x.decdode_reg matches Registers::Gpr(r) && has_width(r, x.is_16bit)
            &&& operand_fits(x.decoded_rm, x.displacement, x.is_16bit)
            &&& x.is_rm_a_reg == (x.decoded_rm is Reg)
            &&& x.length == 2 + displacement_bytes(x.displacement).len()
        },
        MovInstruction::SregToRM(x) => x.to_rm && sreg_move_encodable(x),
        MovInstruction::RMToSreg(x) => !x.to_rm && sreg_move_encodable(x),
        MovInstruction::ImmToRM(x) => {
            &&& operand_fits(x.decoded_rm, x.displacement, x.is_16bit)
            &&& x.is_rm_a_reg == (x.decoded_rm is Reg)
            &&& (x.imm is Word) == x.is_16bit
            &&& x.length == 2 + displacement_bytes(x.displacement).len() + immediate_bytes(
                x.imm,
            ).len()
        },
    }
}

pub open spec fn sreg_move_encodable(x: MovSregToFromRM) -> bool {
    &&& x.decdode_reg is Seg
    &&& operand_fits(x.decoded_rm, x.displacement, true)
    &&& x.is_rm_a_reg == (x.decoded_rm is Reg)
    &&& x.length == 2 + displacement_bytes(x.displacement).len()
}

/// The bytes of a MOV.
pub open spec fn mov_bytes(m: MovInstruction, ds: u16) -> Seq<u8> {
    match m {
        MovInstruction::ImmToReg(x) => seq![(0xB0 + register_index(x.dest)) as u8]
            + immediate_bytes(x.imm),
        MovInstruction::MemToAcc(x) => {
            let (wide, a) = match x.mem_addr {
                MemoryAddress::Byte(a) => (false, a),
                MemoryAddress::Word(a) => (true, a),
            };
            let op = 0xA0 + (if x.to_acc {
                0int
            } else {
                2int
            }) + (if wide {
                1int
            } else {
                0int
            });
            seq![op as u8] + le_bytes(offset_in(ds, a))
        },
        MovInstruction::MemToReg(x) => {
            let reg = match x.decdode_reg {
                Registers::Gpr(r) => register_index(r) % 8,
                Registers::Seg(s) => segment_index(s),
            };
            seq![
                if x.is_16bit {
                    0x8Bu8
                } else {
                    0x8Au8
                },
            ] + operand_bytes(x.decoded_rm, x.displacement, reg)
        },
        MovInstruction::RegToRM(x) => {
            let reg = match x.decdode_reg {
                Registers::Gpr(r) => register_index(r) % 8,
                Registers::Seg(s) => segment_index(s),
            };
            seq![
                if x.is_16bit {
                    0x89u8
                } else {
                    0x88u8
                },
            ] + operand_bytes(x.decoded_rm, x.displacement, reg)
        },
        MovInstruction::SregToRM(x) => seq![0x8Cu8] + sreg_operand_bytes(x),
        MovInstruction::RMToSreg(x) => seq![0x8Eu8] + sreg_operand_bytes(x),
        MovInstruction::ImmToRM(x) => seq![
            if x.is_16bit {
                0xC7u8
            } else {
                0xC6u8
            },
        ] + operand_bytes(x.decoded_rm, x.displacement, 0) + immediate_bytes(x.imm),
    }
}

pub open spec fn sreg_operand_bytes(x: MovSregToFromRM) -> Seq<u8> {
    let reg = match x.decdode_reg {
        Registers::Seg(s) => segment_index(s),
        Registers::Gpr(r) => register_index(r) % 8,
    };
    operand_bytes(x.decoded_rm, x.displacement, reg)
}

/// Whether a pointer load can be encoded: a word register, a memory operand
/// with its displacement, and the encoded length.
pub open spec fn load_encodable(d: LoadInstructionData) -> bool {
    &&& has_width(d.register, true)
    &&& d.decoded_mem_mode is Mem
    &&& operand_fits(d.decoded_mem_mode, d.displacement, true)
    &&& d.length == 2 + displacement_bytes(d.displacement).len()
}

pub open spec fn load_bytes(op: u8, d: LoadInstructionData) -> Seq<u8> {
    seq![op] + operand_bytes(d.decoded_mem_mode, d.displacement, register_index(d.register) - 8)
}

/// Whether `ins` has an encoding that the decoder reads back as `ins`, with
/// `ds` the data segment: every length field holds the encoded length, and the
/// operands agree with each other (see `mov_encodable`, `load_encodable`).
pub open spec fn encodable(ins: Instruction, ds: u16) -> bool {
    match ins {
        Instruction::Mov(m) => mov_encodable(m, ds),
        Instruction::Aad(b) | Instruction::Aam(b) => b.length == 2,
        Instruction::Ret(RetInstruction::Ret(r)) => r.length == 1,
        Instruction::Ret(RetInstruction::RetAdd(r)) => r.length == 3,
        Instruction::Int(IntInstruction::IntImm8(i)) => i.length == 2,
        Instruction::Out(OutInstruction::Fixed(o)) => o.length == 2,
        Instruction::In(InInstruction::Fixed(i)) => i.length == 2,
        Instruction::Jcond(j) => j.length == 2,
        Instruction::Jcxz(j) => j.length == 2,
        Instruction::Loop(l) => l.length == 2,
        Instruction::LoadPointer(LoadInstruction::LDS(d)) => load_encodable(d),
        Instruction::LoadPointer(LoadInstruction::LES(d)) => load_encodable(d),
        Instruction::LoadPointer(LoadInstruction::LEA(d)) => load_encodable(d),
        _ => ins.len() == 1,
    }
}

/// The bytes of `ins`, with `ds` the data segment its direct addresses are relative to.
pub open spec fn encode(ins: Instruction, ds: u16) -> Seq<u8> {
    match ins {
        Instruction::Mov(m) => mov_bytes(m, ds),
        Instruction::Nop(_) => seq![0x90u8],
        Instruction::Hlt(_) => seq![0xF4u8],
        Instruction::Lock(_) => seq![0xF0u8],
        Instruction::Cbw(_) => seq![0x98u8],
        Instruction::Cwd(_) => seq![0x99u8],
        Instruction::Aaa(_) => seq![0x37u8],
        Instruction::Aad(b) => seq![0xD5u8, b.base],
        Instruction::Aam(b) => seq![0xD4u8, b.base],
        Instruction::Aas(_) => seq![0x3Fu8],
        Instruction::Daa(_) => seq![0x27u8],
        Instruction::Das(_) => seq![0x2Fu8],
        Instruction::Clc(_) => seq![0xF8u8],
        Instruction::Cld(_) => seq![0xFCu8],
        Instruction::Cli(_) => seq![0xFAu8],
        Instruction::Stc(_) => seq![0xF9u8],
        Instruction::Std(_) => seq![0xFDu8],
        Instruction::Sti(_) => seq![0xFBu8],
        Instruction::Cmc(_) => seq![0xF5u8],
        Instruction::Sahf(_) => seq![0x9Eu8],
        Instruction::Lahf(_) => seq![0x9Fu8],
        Instruction::Pushf(_) => seq![0x9Cu8],
        Instruction::Popf(_) => seq![0x9Du8],
        Instruction::Iret(_) => seq![0xCFu8],
        Instruction::Wait(_) => seq![0x9Bu8],
        Instruction::Xlat(_) => seq![0xD7u8],
        Instruction::Ret(RetInstruction::Ret(r)) => seq![
            if r.is_inter {
                0xCBu8
            } else {
                0xC3u8
            },
        ],
        Instruction::Ret(RetInstruction::RetAdd(r)) => seq![
            if r.is_inter {
                0xCAu8
            } else {
                0xC2u8
            },
        ] + le_bytes(r.data),
        Instruction::Int(IntInstruction::Int3(_)) => seq![0xCCu8],
        Instruction::Int(IntInstruction::IntImm8(i)) => seq![0xCDu8, i.int_vector],
        Instruction::Int(IntInstruction::Into(_)) => seq![0xCEu8],
        Instruction::Out(OutInstruction::Fixed(o)) => seq![
            if o.is_ax {
                0xE7u8
            } else {
                0xE6u8
            },
            o.port_number,
        ],
        Instruction::Out(OutInstruction::Variable(o)) => seq![
            if o.is_ax {
                0xEFu8
            } else {
                0xEEu8
            },
        ],
        Instruction::In(InInstruction::Fixed(i)) => seq![
            if i.is_ax {
                0xE5u8
            } else {
                0xE4u8
            },
            i.port_number,
        ],
        Instruction::In(InInstruction::Variable(i)) => seq![
            if i.is_ax {
                0xEDu8
            } else {
                0xECu8
            },
        ],
        Instruction::Rep(RepInstruction::Repz) => seq![0xF3u8],
        Instruction::Rep(RepInstruction::Repnz) => seq![0xF2u8],
        Instruction::Jcond(j) => seq![
            (0x70 + jump_condition_index(j.jump_condition)) as u8,
            j.signed_disp as u8,
        ],
        Instruction::Jcxz(j) => seq![0xE3u8, j.signed_disp as u8],
        Instruction::Seg(s) => seq![(0x26 + 8 * segment_index(s.segment)) as u8],
        Instruction::Loop(l) => seq![(0xE0 + loop_condition_index(l.loop_condition)) as u8, l.disp as u8],
        Instruction::LoadPointer(LoadInstruction::LDS(d)) => load_bytes(0xC5, d),
        Instruction::LoadPointer(LoadInstruction::LES(d)) => load_bytes(0xC4, d),
        Instruction::LoadPointer(LoadInstruction::LEA(d)) => load_bytes(0x8D, d),
    }
}

/// Whether `mem` holds `bytes` from physical address `addr` on.
pub open spec fn holds_at(mem: Seq<u8>, addr: u32, bytes: Seq<u8>) -> bool {
    forall|k: int| 0 <= k < bytes.len() ==> #[trigger] byte_at(mem, addr + k) == bytes[k]
}

proof fn lemma_register_index(r: Register)
    ensures
        0 <= register_index(r) < 16,
        register_at(register_index(r)) == r,
{
}

proof fn lemma_memory_mode_index(m: MemoryMode)
    ensures
        0 <= memory_mode_index(m) < 24,
        memory_mode_at(memory_mode_index(m)) == m,
{
}

proof fn lemma_signed_casts(b: i8, w: i16)
    ensures
        (b as u8) as i8 == b,
        (w as u16) as i16 == w,
{
    assert((b as u8) as i8 == b) by (bit_vector);
    assert((w as u16) as i16 == w) by (bit_vector);
}

proof fn lemma_modrm_fields(md: int, reg: int, rm: int)
    requires
        0 <= md < 4,
        0 <= reg < 8,
        0 <= rm < 8,
    ensures
        ({
            let b = (md * 64 + reg * 8 + rm) as u8;
            b / 64 == md && (b / 8) % 8 == reg && b % 8 == rm
        }),
{
    let v = md * 64 + reg * 8 + rm;
    assert(0 <= v < 256);
    assert(v / 64 == md);
    assert(v / 8 == md * 8 + reg);
    assert((v / 8) % 8 == reg);
    assert(v % 8 == rm);
}

/// The ModR/M byte and displacement that `operand_bytes` writes decode back
/// to the operand, the reg field and the displacement.
proof fn lemma_operand_round_trip(
    mem: Seq<u8>,
    addr: u32,
    rm: DecodedRMMode,
    d: Displacement,
    reg: int,
    wide: bool,
)
    requires
        operand_fits(rm, d, wide),
        0 <= reg < 8,
        byte_at(mem, addr + 1) == modrm_byte(rm, reg),
        forall|k: int|
            0 <= k < displacement_bytes(d).len() ==> byte_at(mem, addr + 2 + k)
                == displacement_bytes(d)[k],
    ensures
        ({
            let m = modrm_of(byte_at(mem, addr + 1));
            &&& m.reg_part == reg
            &&& rm_operand(m, wide) == rm
            &&& (m.rm_mode is Reg) == (rm is Reg)
            &&& displacement_size(m.displacement_mode) == displacement_bytes(d).len()
            &&& displacement_at(mem, addr as int, m.displacement_mode) == d
        }),
{
    let b = byte_at(mem, addr + 1);
    let m = modrm_of(b);
    match rm {
        DecodedRMMode::Reg(r) => {
            lemma_register_index(r);
            let i = register_index(r);
            lemma_modrm_fields(3, reg, i % 8);
            assert(gpr(wide, i % 8) == r);
        },
        DecodedRMMode::Mem(x) => {
            lemma_memory_mode_index(x);
            let i = memory_mode_index(x);
            lemma_modrm_fields(i / 8, reg, i % 8);
            assert((i / 8) * 8 + i % 8 == i);
            match d {
                Displacement::Zero(_) => {},
                Displacement::Byte(v) => {
                    lemma_signed_casts(v, 0);
                    assert(byte_at(mem, addr + 2 + 0) == displacement_bytes(d)[0]);
                },
                Displacement::Word(w) => {
                    lemma_signed_casts(0, w);
                    lemma_word_bytes(w as u16, 0, 0);
                    assert(byte_at(mem, addr + 2 + 0) == displacement_bytes(d)[0]);
                    assert(byte_at(mem, addr + 2 + 1) == displacement_bytes(d)[1]);
                },
            }
        },
    }
}

proof fn lemma_physical_offset(ds: u16, a: u32)
    requires
        a < MEMORY_SIZE,
        (a - ds * 16) % (MEMORY_SIZE as int) < 0x1_0000,
    ensures
        physical(ds, offset_in(ds, a)) == a,
{
    let m = MEMORY_SIZE as int;
    let off = (a - ds * 16) % m;
    assert(offset_in(ds, a) == off);
    let q = (a - ds * 16) / m;
    assert(a - ds * 16 == q * m + off);
    assert(ds * 16 + off == a - q * m);
    assert((a - q * m) % m == a) by {
        vstd::arithmetic::div_mod::lemma_mod_multiples_vanish(-q, a as int, m);
        vstd::arithmetic::div_mod::lemma_small_mod(a as nat, m as nat);
    }
}

/// The bytes at `addr + start` on are `bytes`, when `mem` holds `enc` at
/// `addr` and `bytes` stands in `enc` from `start` on.
proof fn lemma_holds_within(mem: Seq<u8>, addr: u32, enc: Seq<u8>, start: int, bytes: Seq<u8>)
    requires
        holds_at(mem, addr, enc),
        0 <= start,
        start + bytes.len() <= enc.len(),
        forall|k: int| 0 <= k < bytes.len() ==> enc[start + k] == bytes[k],
    ensures
        forall|k: int| 0 <= k < bytes.len() ==> byte_at(mem, addr + start + k) == bytes[k],
{
    assert forall|k: int| 0 <= k < bytes.len() implies byte_at(mem, addr + start + k)
        == bytes[k] by {
        assert(byte_at(mem, addr + (start + k)) == enc[start + k]);
    }
}

proof fn lemma_immediate_round_trip(mem: Seq<u8>, at: int, imm: Immediate)
    requires
        forall|k: int|
            0 <= k < immediate_bytes(imm).len() ==> byte_at(mem, at + k)
                == immediate_bytes(imm)[k],
    ensures
        imm matches Immediate::Byte(b) ==> byte_at(mem, at) == b,
        imm matches Immediate::Word(w) ==> word_at(mem, at) == w,
{
    match imm {
        Immediate::Byte(b) => {
            assert(byte_at(mem, at + 0) == immediate_bytes(imm)[0]);
        },
        Immediate::Word(w) => {
            assert(byte_at(mem, at + 0) == immediate_bytes(imm)[0]);
            assert(byte_at(mem, at + 1) == immediate_bytes(imm)[1]);
            lemma_word_bytes(w, 0, 0);
        },
    }
}

proof fn lemma_mov_opcode(mem: Seq<u8>, ds: u16, addr: u32)
    requires
        mov_spec(mem, ds, addr) is Ok,
    ensures
        decode_spec(mem, ds, addr) == mov_spec(mem, ds, addr),
{
}

proof fn lemma_mov_operand_form(
    mem: Seq<u8>,
    addr: u32,
    enc: Seq<u8>,
    rm: DecodedRMMode,
    d: Displacement,
    reg: int,
    wide: bool,
)
    requires
        holds_at(mem, addr, enc),
        enc.len() >= 2 + displacement_bytes(d).len(),
        enc[1] == modrm_byte(rm, reg),
        forall|k: int| 0 <= k < displacement_bytes(d).len() ==> enc[2 + k] == displacement_bytes(d)[k],
        operand_fits(rm, d, wide),
        0 <= reg < 8,
    ensures
        ({
            let m = modrm_of(byte_at(mem, addr + 1));
            &&& m.reg_part == reg
            &&& rm_operand(m, wide) == rm
            &&& (m.rm_mode is Reg) == (rm is Reg)
            &&& displacement_size(m.displacement_mode) == displacement_bytes(d).len()
            &&& displacement_at(mem, addr as int, m.displacement_mode) == d
        }),
{
    assert(byte_at(mem, addr + 1) == enc[1]);
    lemma_holds_within(mem, addr, enc, 2, displacement_bytes(d));
    lemma_operand_round_trip(mem, addr, rm, d, reg, wide);
}

#[verifier::spinoff_prover]
proof fn lemma_mov_imm_to_reg(mem: Seq<u8>, ds: u16, addr: u32, x: MovImmToReg)
    requires
        mov_encodable(MovInstruction::ImmToReg(x), ds),
        holds_at(mem, addr, mov_bytes(MovInstruction::ImmToReg(x), ds)),
    ensures
        mov_spec(mem, ds, addr) == Ok::<Instruction, DecodeError>(
            Instruction::Mov(MovInstruction::ImmToReg(x)),
        ),
        mov_bytes(MovInstruction::ImmToReg(x), ds).len() == MovInstruction::ImmToReg(x).len(),
{
    let enc = mov_bytes(MovInstruction::ImmToReg(x), ds);
    assert(byte_at(mem, addr + 0) == enc[0]);
    lemma_register_index(x.dest);
    lemma_holds_within(mem, addr, enc, 1, immediate_bytes(x.imm));
    lemma_immediate_round_trip(mem, addr + 1, x.imm);
}

#[verifier::spinoff_prover]
proof fn lemma_mov_mem_to_acc(mem: Seq<u8>, ds: u16, addr: u32, x: MovMemToAcc)
    requires
        mov_encodable(MovInstruction::MemToAcc(x), ds),
        holds_at(mem, addr, mov_bytes(MovInstruction::MemToAcc(x), ds)),
    ensures
        mov_spec(mem, ds, addr) == Ok::<Instruction, DecodeError>(
            Instruction::Mov(MovInstruction::MemToAcc(x)),
        ),
        mov_bytes(MovInstruction::MemToAcc(x), ds).len() == MovInstruction::MemToAcc(x).len(),
{
    let enc = mov_bytes(MovInstruction::MemToAcc(x), ds);
    assert(byte_at(mem, addr + 0) == enc[0]);
    let a = match x.mem_addr {
        MemoryAddress::Byte(a) => a,
        MemoryAddress::Word(a) => a,
    };
    lemma_physical_offset(ds, a);
    let off = offset_in(ds, a);
    assert(byte_at(mem, addr + 1) == enc[1]);
    assert(byte_at(mem, addr + 2) == enc[2]);
    lemma_word_bytes(off, 0, 0);
    assert(word_at(mem, addr + 1) == off);
}

#[verifier::spinoff_prover]
proof fn lemma_mov_mem_to_reg(mem: Seq<u8>, ds: u16, addr: u32, x: MovMemToReg)
    requires
        mov_encodable(MovInstruction::MemToReg(x), ds),
        holds_at(mem, addr, mov_bytes(MovInstruction::MemToReg(x), ds)),
    ensures
        mov_spec(mem, ds, addr) == Ok::<Instruction, DecodeError>(
            Instruction::Mov(MovInstruction::MemToReg(x)),
        ),
        mov_bytes(MovInstruction::MemToReg(x), ds).len() == MovInstruction::MemToReg(x).len(),
{
    let enc = mov_bytes(MovInstruction::MemToReg(x), ds);
    assert(byte_at(mem, addr + 0) == enc[0]);
    let r = x.decdode_reg->Gpr_0;
    lemma_register_index(r);
    let reg = register_index(r) % 8;
    lemma_mov_operand_form(mem, addr, enc, x.decoded_rm, x.displacement, reg, x.is_16bit);
    assert(gpr(x.is_16bit, reg) == r);
}

#[verifier::spinoff_prover]
proof fn lemma_mov_reg_to_r_m(mem: Seq<u8>, ds: u16, addr: u32, x: MovRegToRM)
    requires
        mov_encodable(MovInstruction::RegToRM(x), ds),
        holds_at(mem, addr, mov_bytes(MovInstruction::RegToRM(x), ds)),
    ensures
        mov_spec(mem, ds, addr) == Ok::<Instruction, DecodeError>(
            Instruction::Mov(MovInstruction::RegToRM(x)),
        ),
        mov_bytes(MovInstruction::RegToRM(x), ds).len() == MovInstruction::RegToRM(x).len(),
{
    let enc = mov_bytes(MovInstruction::RegToRM(x), ds);
    assert(byte_at(mem, addr + 0) == enc[0]);
    let r = x.decdode_reg->Gpr_0;
    lemma_register_index(r);
    let reg = register_index(r) % 8;
    lemma_mov_operand_form(mem, addr, enc, x.decoded_rm, x.displacement, reg, x.is_16bit);
    assert(gpr(x.is_16bit, reg) == r);
}

#[verifier::spinoff_prover]
proof fn lemma_mov_sreg_to_r_m(mem: Seq<u8>, ds: u16, addr: u32, x: MovSregToFromRM)
    requires
        mov_encodable(MovInstruction::SregToRM(x), ds),
        holds_at(mem, addr, mov_bytes(MovInstruction::SregToRM(x), ds)),
    ensures
        mov_spec(mem, ds, addr) == Ok::<Instruction, DecodeError>(
            Instruction::Mov(MovInstruction::SregToRM(x)),
        ),
        mov_bytes(MovInstruction::SregToRM(x), ds).len() == MovInstruction::SregToRM(x).len(),
{
    let enc = mov_bytes(MovInstruction::SregToRM(x), ds);
    assert(byte_at(mem, addr + 0) == enc[0]);
    let s = x.decdode_reg->Seg_0;
    lemma_mov_operand_form(mem, addr, enc, x.decoded_rm, x.displacement, segment_index(s), true);
    assert(segment_register_at(segment_index(s)) == Some(s));
}

#[verifier::spinoff_prover]
proof fn lemma_mov_r_m_to_sreg(mem: Seq<u8>, ds: u16, addr: u32, x: MovSregToFromRM)
    requires
        mov_encodable(MovInstruction::RMToSreg(x), ds),
        holds_at(mem, addr, mov_bytes(MovInstruction::RMToSreg(x), ds)),
    ensures
        mov_spec(mem, ds, addr) == Ok::<Instruction, DecodeError>(
            Instruction::Mov(MovInstruction::RMToSreg(x)),
        ),
        mov_bytes(MovInstruction::RMToSreg(x), ds).len() == MovInstruction::RMToSreg(x).len(),
{
    let enc = mov_bytes(MovInstruction::RMToSreg(x), ds);
    assert(byte_at(mem, addr + 0) == enc[0]);
    let s = x.decdode_reg->Seg_0;
    lemma_mov_operand_form(mem, addr, enc, x.decoded_rm, x.displacement, segment_index(s), true);
    assert(segment_register_at(segment_index(s)) == Some(s));
}

#[verifier::spinoff_prover]
proof fn lemma_mov_imm_to_r_m(mem: Seq<u8>, ds: u16, addr: u32, x: MovImmToRM)
    requires
        mov_encodable(MovInstruction::ImmToRM(x), ds),
        holds_at(mem, addr, mov_bytes(MovInstruction::ImmToRM(x), ds)),
    ensures
        mov_spec(mem, ds, addr) == Ok::<Instruction, DecodeError>(
            Instruction::Mov(MovInstruction::ImmToRM(x)),
        ),
        mov_bytes(MovInstruction::ImmToRM(x), ds).len() == MovInstruction::ImmToRM(x).len(),
{
    let enc = mov_bytes(MovInstruction::ImmToRM(x), ds);
    assert(byte_at(mem, addr + 0) == enc[0]);
    let dlen = displacement_bytes(x.displacement).len() as int;
    lemma_mov_operand_form(mem, addr, enc, x.decoded_rm, x.displacement, 0, x.is_16bit);
    lemma_holds_within(mem, addr, enc, 2 + dlen, immediate_bytes(x.imm));
    lemma_immediate_round_trip(mem, addr + 2 + dlen, x.imm);
}

proof fn lemma_mov_round_trip(mem: Seq<u8>, ds: u16, addr: u32, m: MovInstruction)
    requires
        mov_encodable(m, ds),
        holds_at(mem, addr, mov_bytes(m, ds)),
    ensures
        mov_spec(mem, ds, addr) == Ok::<Instruction, DecodeError>(Instruction::Mov(m)),
        mov_bytes(m, ds).len() == m.len(),
{
    match m {
        MovInstruction::ImmToReg(x) => lemma_mov_imm_to_reg(mem, ds, addr, x),
        MovInstruction::MemToAcc(x) => lemma_mov_mem_to_acc(mem, ds, addr, x),
        MovInstruction::MemToReg(x) => lemma_mov_mem_to_reg(mem, ds, addr, x),
        MovInstruction::RegToRM(x) => lemma_mov_reg_to_r_m(mem, ds, addr, x),
        MovInstruction::SregToRM(x) => lemma_mov_sreg_to_r_m(mem, ds, addr, x),
        MovInstruction::RMToSreg(x) => lemma_mov_r_m_to_sreg(mem, ds, addr, x),
        MovInstruction::ImmToRM(x) => lemma_mov_imm_to_r_m(mem, ds, addr, x),
    }
}

proof fn lemma_load_opcode(mem: Seq<u8>, ds: u16, addr: u32)
    requires
        load_pointer_spec(mem, addr) is Ok,
    ensures
        decode_spec(mem, ds, addr) == load_pointer_spec(mem, addr),
{
}

#[verifier::spinoff_prover]
proof fn lemma_load_round_trip(mem: Seq<u8>, addr: u32, op: u8, d: LoadInstructionData)
    requires
        op == 0xC4 || op == 0xC5 || op == 0x8D,
        load_encodable(d),
        holds_at(mem, addr, load_bytes(op, d)),
    ensures
        load_pointer_spec(mem, addr) == Ok::<Instruction, DecodeError>(
            Instruction::LoadPointer(
                if op == 0x8D {
                    LoadInstruction::LEA(d)
                } else if op == 0xC5 {
                    LoadInstruction::LDS(d)
                } else {
                    LoadInstruction::LES(d)
                },
            ),
        ),
        load_bytes(op, d).len() == d.length,
{
    let enc = load_bytes(op, d);
    assert(byte_at(mem, addr + 0) == enc[0]);
    lemma_register_index(d.register);
    let reg = register_index(d.register) - 8;
    lemma_mov_operand_form(mem, addr, enc, d.decoded_mem_mode, d.displacement, reg, true);
    assert(gpr(true, reg) == d.register);
}

#[verifier::spinoff_prover]
proof fn lemma_short_round_trip(mem: Seq<u8>, ds: u16, addr: u32, ins: Instruction)
    requires
        !(ins is Mov),
        !(ins is LoadPointer),
        encodable(ins, ds),
        holds_at(mem, addr, encode(ins, ds)),
    ensures
        decode_spec(mem, ds, addr) == Ok::<Instruction, DecodeError>(ins),
        encode(ins, ds).len() == ins.len(),
{
    let enc = encode(ins, ds);
    assert(byte_at(mem, addr + 0) == enc[0]);
    if enc.len() > 1 {
        assert(byte_at(mem, addr + 1) == enc[1]);
    }
    if enc.len() > 2 {
        assert(byte_at(mem, addr + 2) == enc[2]);
    }
    match ins {
        Instruction::Ret(RetInstruction::RetAdd(r)) => {
            lemma_word_bytes(r.data, 0, 0);
        },
        Instruction::Jcond(j) => {
            lemma_signed_casts(j.signed_disp, 0);
        },
        Instruction::Jcxz(j) => {
            lemma_signed_casts(j.signed_disp, 0);
        },
        Instruction::Loop(l) => {
            lemma_signed_casts(l.disp, 0);
        },
        _ => {},
    }
}

/// Decoding the bytes of an encodable instruction gives back that
/// instruction, and its length is the number of bytes it was encoded in.
pub proof fn lemma_decode_encoded(mem: Seq<u8>, ds: u16, addr: u32, ins: Instruction)
    requires
        encodable(ins, ds),
        holds_at(mem, addr, encode(ins, ds)),
    ensures
        decode_spec(mem, ds, addr) == Ok::<Instruction, DecodeError>(ins),
        encode(ins, ds).len() == ins.len(),
{
    match ins {
        Instruction::Mov(m) => {
            lemma_mov_round_trip(mem, ds, addr, m);
            lemma_mov_opcode(mem, ds, addr);
        },
        Instruction::LoadPointer(LoadInstruction::LDS(d)) => {
            lemma_load_round_trip(mem, addr, 0xC5, d);
            lemma_load_opcode(mem, ds, addr);
        },
        Instruction::LoadPointer(LoadInstruction::LES(d)) => {
            lemma_load_round_trip(mem, addr, 0xC4, d);
            lemma_load_opcode(mem, ds, addr);
        },
        Instruction::LoadPointer(LoadInstruction::LEA(d)) => {
            lemma_load_round_trip(mem, addr, 0x8D, d);
            lemma_load_opcode(mem, ds, addr);
        },
        _ => {
            lemma_short_round_trip(mem, ds, addr, ins);
        },
    }
}

} // verus!
