//! The ModR/M byte and the operands it introduces.
use vstd::prelude::*;

use crate::cpu::{byte_at, word_at, Cpu, MEMORY_SIZE};
use crate::decoder::{fetch, fetch_word};
use crate::instruction::{
    memory_mode_at, register_at, DecodedRMMode, Displacement, DisplacementMode, MemoryMode, ModRM,
    RMMode, Register,
};

verus! {

/// What a ModR/M byte says: its fields are `mod = b / 64`, `reg = (b / 8) % 8`
/// and `rm = b % 8`. `mod == 3` names a register; otherwise the memory form at
/// table index `mod * 8 + rm`, with 0, 1 or 2 displacement bytes for `mod`
/// 0, 1 and 2, except that `mod == 0, rm == 6` is a bare 16-bit address.
pub open spec fn modrm_of(b: u8) -> ModRM {
    let md = b / 64;
    let reg = ((b / 8) % 8) as u8;
    let rm = b % 8;
    if md == 3 {
        ModRM { displacement_mode: DisplacementMode::ZERO, reg_part: reg, rm_mode: RMMode::Reg(rm) }
    } else if md == 0 && rm == 6 {
        ModRM {
            displacement_mode: DisplacementMode::WORD,
            reg_part: reg,
            rm_mode: RMMode::Mem(MemoryMode::DISP16),
        }
    } else {
        ModRM {
            displacement_mode: if md == 0 {
                DisplacementMode::ZERO
            } else if md == 1 {
                DisplacementMode::BYTE
            } else {
                DisplacementMode::WORD
            },
            reg_part: reg,
            rm_mode: RMMode::Mem(memory_mode_at(md * 8 + rm)),
        }
    }
}

/// Splits a ModR/M byte into its register field, displacement class and r/m operand.
pub fn decode_modrm_byte(modrm: u8) -> (r: ModRM)
    ensures
        r == modrm_of(modrm),
        r.reg_part < 8,
        r.rm_mode matches RMMode::Reg(v) ==> v < 8,
{
    let mod_bits: u8 = (modrm >> 6) & 0b11;
    let reg_bits: u8 = (modrm >> 3) & 0b111;
    let rm_bits: u8 = modrm & 0b111;
    assert(mod_bits == modrm / 64 && reg_bits == (modrm / 8) % 8 && rm_bits == modrm % 8)
        by (bit_vector)
        requires
            mod_bits == (modrm >> 6) & 0b11,
            reg_bits == (modrm >> 3) & 0b111,
            rm_bits == modrm & 0b111,
    ;
    if mod_bits == 0b11 {
        ModRM { displacement_mode: DisplacementMode::ZERO, reg_part: reg_bits, rm_mode: RMMode::Reg(rm_bits) }
    } else if mod_bits == 0b00 && rm_bits == 0b110 {
        ModRM {
            displacement_mode: DisplacementMode::WORD,
            reg_part: reg_bits,
            rm_mode: RMMode::Mem(MemoryMode::DISP16),
        }
    } else {
        let disp_mode = if mod_bits == 0b00 {
            DisplacementMode::ZERO
        } else if mod_bits == 0b01 {
            DisplacementMode::BYTE
        } else {
            DisplacementMode::WORD
        };
        ModRM {
            displacement_mode: disp_mode,
            reg_part: reg_bits,
            rm_mode: RMMode::Mem(MemoryMode::from_index(mod_bits * 8 + rm_bits)),
        }
    }
}

/// Number of displacement bytes of a displacement class.
pub open spec fn displacement_size(m: DisplacementMode) -> int {
    match m {
        DisplacementMode::ZERO => 0,
        DisplacementMode::BYTE => 1,
        DisplacementMode::WORD => 2,
    }
}

/// The displacement that follows the ModR/M byte of the instruction at `addr`.
pub open spec fn displacement_at(mem: Seq<u8>, addr: int, m: DisplacementMode) -> Displacement {
    match m {
        DisplacementMode::ZERO => Displacement::Zero(0),
        DisplacementMode::BYTE => Displacement::Byte(byte_at(mem, addr + 2) as i8),
        DisplacementMode::WORD => Displacement::Word(word_at(mem, addr + 2) as i16),
    }
}

/// The general-purpose register with index `i` among the word registers
/// (`wide`) or the byte registers.
pub open spec fn gpr(wide: bool, i: int) -> Register {
    register_at(if wide { i + 8 } else { i })
}

/// The r/m operand of `m` for an access of the given width.
pub open spec fn rm_operand(m: ModRM, wide: bool) -> DecodedRMMode {
    match m.rm_mode {
        RMMode::Reg(v) => DecodedRMMode::Reg(gpr(wide, v as int)),
        RMMode::Mem(x) => DecodedRMMode::Mem(x),
    }
}

/// The displacement after the ModR/M byte of the instruction at `addr`, and
/// the instruction's length up to its end (opcode, ModR/M and displacement).
pub(crate) fn read_displacement(cpu: &Cpu, addr: u32, mode: DisplacementMode) -> (r: (
    Displacement,
    u8,
))
    requires
        cpu.wf(),
        addr < MEMORY_SIZE,
    ensures
        r.0 == displacement_at(cpu.memory@, addr as int, mode),
        r.1 == 2 + displacement_size(mode),
{
    match mode {
        DisplacementMode::BYTE => (Displacement::Byte(fetch(cpu, addr, 2) as i8), 3),
        DisplacementMode::WORD => (Displacement::Word(fetch_word(cpu, addr, 2) as i16), 4),
        DisplacementMode::ZERO => (Displacement::Zero(0), 2),
    }
}

/// The general-purpose register with index `i` among the word or byte registers.
pub(crate) fn gpr_of(wide: bool, i: u8) -> (r: Register)
    requires
        i < 8,
    ensures
        r == gpr(wide, i as int),
{
    if wide {
        Register::from_index(i + 8)
    } else {
        Register::from_index(i)
    }
}

/// The r/m operand of `m` for an access of the given width.
pub(crate) fn rm_operand_of(m: ModRM, wide: bool) -> (r: DecodedRMMode)
    requires
        m.rm_mode matches RMMode::Reg(v) ==> v < 8,
    ensures
        r == rm_operand(m, wide),
{
    match m.rm_mode {
        RMMode::Reg(v) => DecodedRMMode::Reg(gpr_of(wide, v)),
        RMMode::Mem(x) => DecodedRMMode::Mem(x),
    }
}

} // verus!
