//! The decode driver: one fetch at a physical address, dispatched on the
//! opcode byte to the decoder of its instruction family.
pub mod ascii_decimal;
pub mod convert;
pub mod encoding;
pub mod flags;
pub mod in_out;
pub mod interrupt;
pub mod jump;
pub mod load;
pub mod loop_set;
pub mod mov;
pub mod nop;
pub mod prefix;
pub mod stack;
pub mod subroutine;
pub mod utils;
pub mod xlat;

use vstd::prelude::*;

use crate::cpu::{byte_at, word_at, Cpu, Registers, MEMORY_SIZE};
use crate::decoder::ascii_decimal::{
    base_of, decode_aaa, decode_aad, decode_aam, decode_aas, decode_daa, decode_das,
};
use crate::decoder::convert::{decode_cbw, decode_cwd};
use crate::decoder::flags::{
    clear_flags_spec, decode_clear_flags, decode_cmc, decode_lahf, decode_sahf,
    decode_store_flags, store_flags_spec,
};
use crate::decoder::in_out::{decode_in, decode_out, in_spec, out_spec};
use crate::decoder::interrupt::{decode_int, decode_iret, int_spec};
use crate::decoder::jump::{decode_jcond, decode_jcxz, jcond_spec, jcxz_of};
use crate::decoder::load::{decode_load_pointer, load_pointer_spec};
use crate::decoder::loop_set::{decode_loop_set, loop_spec};
use crate::decoder::mov::{decode_mov, mov_spec};
use crate::decoder::nop::{decode_hlt, decode_nop, decode_wait};
use crate::decoder::prefix::{
    decode_lock, decode_rep, decode_seg_override, rep_spec, seg_override_spec,
};
use crate::decoder::stack::{decode_popf, decode_pushf};
use crate::decoder::subroutine::{decode_ret, ret_spec};
use crate::decoder::xlat::decode_xlat;
use crate::instruction::{FillerInstruction, Instruction};

verus! {

/// Why a decode failed. Every variant carries the fetch address and the opcode byte.
#[derive(Debug, Clone, Copy, PartialEq, Eq)]
pub enum DecodeError {
    /// No instruction family starts with this byte.
    UnknownOpcode { address: u32, opcode: u8 },
    /// The byte was handed to a family decoder that has no form for it.
    UnknownSubForm { address: u32, opcode: u8 },
    /// The ModR/M byte names an operand that this instruction cannot take.
    InvalidOperand { address: u32, opcode: u8, modrm: u8 },
}

/// The registers after a decode that returned `r`: on success the instruction
/// pointer has moved on by the instruction's length (modulo 2^16); on failure
/// nothing has changed.
pub open spec fn after_decode(regs: Registers, r: Result<Instruction, DecodeError>) -> Registers {
    match r {
        Ok(ins) => Registers { ip: ((regs.ip + ins.len()) % 0x1_0000) as u16, ..regs },
        Err(_) => regs,
    }
}

/// `new` is `old` after a decode that returned `r`: memory is untouched and
/// only the instruction pointer may have moved.
pub open spec fn decoded(old: Cpu, new: Cpu, r: Result<Instruction, DecodeError>) -> bool {
    &&& new.wf()
    &&& new.memory@ == old.memory@
    &&& new.regs == after_decode(old.regs, r)
}

/// The failure of a family decoder handed a byte it has no form for.
pub open spec fn unknown_sub_form(mem: Seq<u8>, addr: u32) -> Result<Instruction, DecodeError> {
    Err(DecodeError::UnknownSubForm { address: addr, opcode: byte_at(mem, addr as int) })
}

/// Decoding of a one-form family: `ins` when the byte at `addr` is `opcode`.
pub open spec fn single(mem: Seq<u8>, addr: u32, opcode: u8, ins: Instruction) -> Result<
    Instruction,
    DecodeError,
> {
    if byte_at(mem, addr as int) == opcode {
        Ok(ins)
    } else {
        unknown_sub_form(mem, addr)
    }
}

/// The byte `k` places after `addr`.
pub(crate) fn fetch(cpu: &Cpu, addr: u32, k: u32) -> (r: u8)
    requires
        cpu.wf(),
        addr < MEMORY_SIZE,
        k < 8,
    ensures
        r == byte_at(cpu.memory@, addr + k),
{
    let s = addr + k;
    let a = if s >= MEMORY_SIZE {
        s - MEMORY_SIZE
    } else {
        s
    };
    cpu.read_byte(a)
}

/// The little-endian word `k` places after `addr`.
pub(crate) fn fetch_word(cpu: &Cpu, addr: u32, k: u32) -> (r: u16)
    requires
        cpu.wf(),
        addr < MEMORY_SIZE,
        k < 8,
    ensures
        r == word_at(cpu.memory@, addr + k),
{
    let s = addr + k;
    let a = if s >= MEMORY_SIZE {
        s - MEMORY_SIZE
    } else {
        s
    };
    cpu.read_word(a)
}

/// Moves the instruction pointer past `ins` and hands it back.
pub(crate) fn finish(cpu: &mut Cpu, ins: Instruction) -> (r: Result<Instruction, DecodeError>)
    requires
        old(cpu).wf(),
    ensures
        r == Ok::<Instruction, DecodeError>(ins),
        decoded(*old(cpu), *final(cpu), r),
{
    let len = ins.length();
    cpu.regs.ip = cpu.regs.ip.wrapping_add(len as u16);
    Ok(ins)
}

/// Decodes a one-form family whose only opcode is `opcode`.
pub(crate) fn decode_single(cpu: &mut Cpu, addr: &u32, opcode: u8, ins: Instruction) -> (r: Result<
    Instruction,
    DecodeError,
>)
    requires
        old(cpu).wf(),
        *addr < MEMORY_SIZE,
    ensures
        r == single(old(cpu).memory@, *addr, opcode, ins),
        decoded(*old(cpu), *final(cpu), r),
{
    let op = fetch(cpu, *addr, 0);
    if op == opcode {
        finish(cpu, ins)
    } else {
        Err(DecodeError::UnknownSubForm { address: *addr, opcode: op })
    }
}

/// The instruction at physical address `addr`, read from `mem` with `ds` as
/// the data segment, or why there is none. The first byte picks the family.
pub open spec fn decode_spec(mem: Seq<u8>, ds: u16, addr: u32) -> Result<Instruction, DecodeError> {
    let op = byte_at(mem, addr as int);
    let one = FillerInstruction { length: 1 };
    if (0xB0 <= op <= 0xBF) || (0xA0 <= op <= 0xA3) || (0x88 <= op <= 0x8C) || op == 0x8E
        || op == 0xC6 || op == 0xC7 {
        mov_spec(mem, ds, addr)
    } else if op == 0xC4 || op == 0xC5 || op == 0x8D {
        load_pointer_spec(mem, addr)
    } else if op == 0x26 || op == 0x2E || op == 0x36 || op == 0x3E {
        seg_override_spec(mem, addr)
    } else if op == 0xE4 || op == 0xE5 || op == 0xEC || op == 0xED {
        in_spec(mem, addr)
    } else if op == 0xE6 || op == 0xE7 || op == 0xEE || op == 0xEF {
        out_spec(mem, addr)
    } else if op == 0xC2 || op == 0xC3 || op == 0xCA || op == 0xCB {
        ret_spec(mem, addr)
    } else if op == 0xF8 || op == 0xFA || op == 0xFC {
        clear_flags_spec(mem, addr)
    } else if op == 0xF9 || op == 0xFB || op == 0xFD {
        store_flags_spec(mem, addr)
    } else if 0xE0 <= op <= 0xE2 {
        loop_spec(mem, addr)
    } else if 0xCC <= op <= 0xCE {
        int_spec(mem, addr)
    } else if 0x70 <= op <= 0x7F {
        jcond_spec(mem, addr)
    } else if op == 0xF2 || op == 0xF3 {
        rep_spec(mem, addr)
    } else if op == 0xE3 {
        Ok(jcxz_of(mem, addr))
    } else if op == 0xD4 {
        Ok(Instruction::Aam(base_of(mem, addr)))
    } else if op == 0xD5 {
        Ok(Instruction::Aad(base_of(mem, addr)))
    } else if op == 0xF4 {
        Ok(Instruction::Hlt(one))
    } else if op == 0x90 {
        Ok(Instruction::Nop(one))
    } else if op == 0x98 {
        Ok(Instruction::Cbw(one))
    } else if op == 0x99 {
        Ok(Instruction::Cwd(one))
    } else if op == 0x37 {
        Ok(Instruction::Aaa(one))
    } else if op == 0x3F {
        Ok(Instruction::Aas(one))
    } else if op == 0x27 {
        Ok(Instruction::Daa(one))
    } else if op == 0x2F {
        Ok(Instruction::Das(one))
    } else if op == 0xF5 {
        Ok(Instruction::Cmc(one))
    } else if op == 0xCF {
        Ok(Instruction::Iret(one))
    } else if op == 0x9E {
        Ok(Instruction::Sahf(one))
    } else if op == 0x9F {
        Ok(Instruction::Lahf(one))
    } else if op == 0xF0 {
        Ok(Instruction::Lock(one))
    } else if op == 0x9B {
        Ok(Instruction::Wait(one))
    } else if op == 0x9C {
        Ok(Instruction::Pushf(one))
    } else if op == 0x9D {
        Ok(Instruction::Popf(one))
    } else if op == 0xD7 {
        Ok(Instruction::Xlat(one))
    } else {
        Err(DecodeError::UnknownOpcode { address: addr, opcode: op })
    }
}

/// Every instruction the decoder produces is between one and six bytes long.
pub proof fn lemma_decoded_length(mem: Seq<u8>, ds: u16, addr: u32)
    ensures
        decode_spec(mem, ds, addr) matches Ok(ins) ==> 1 <= ins.len() <= 6,
{
}

/// Decodes the instruction at physical address `addr`. On success the
/// instruction pointer moves on by the instruction's length; on failure
/// nothing changes. Memory is never written.
pub fn decode(cpu: &mut Cpu, addr: &u32) -> (r: Result<Instruction, DecodeError>)
    requires
        old(cpu).wf(),
        *addr < MEMORY_SIZE,
    ensures
        r == decode_spec(old(cpu).memory@, old(cpu).regs.ds, *addr),
        decoded(*old(cpu), *final(cpu), r),
{
    let op = fetch(cpu, *addr, 0);
    if (0xB0 <= op && op <= 0xBF) || (0xA0 <= op && op <= 0xA3) || (0x88 <= op && op <= 0x8C)
        || op == 0x8E || op == 0xC6 || op == 0xC7 {
        decode_mov(cpu, addr)
    } else if op == 0xC4 || op == 0xC5 || op == 0x8D {
        decode_load_pointer(cpu, addr)
    } else if op == 0x26 || op == 0x2E || op == 0x36 || op == 0x3E {
        decode_seg_override(cpu, addr)
    } else if op == 0xE4 || op == 0xE5 || op == 0xEC || op == 0xED {
        decode_in(cpu, addr)
    } else if op == 0xE6 || op == 0xE7 || op == 0xEE || op == 0xEF {
        decode_out(cpu, addr)
    } else if op == 0xC2 || op == 0xC3 || op == 0xCA || op == 0xCB {
        decode_ret(cpu, addr)
    } else if op == 0xF8 || op == 0xFA || op == 0xFC {
        decode_clear_flags(cpu, addr)
    } else if op == 0xF9 || op == 0xFB || op == 0xFD {
        decode_store_flags(cpu, addr)
    } else if 0xE0 <= op && op <= 0xE2 {
        decode_loop_set(cpu, addr)
    } else if 0xCC <= op && op <= 0xCE {
        decode_int(cpu, addr)
    } else if 0x70 <= op && op <= 0x7F {
        decode_jcond(cpu, addr)
    } else if op == 0xF2 || op == 0xF3 {
        decode_rep(cpu, addr)
    } else if op == 0xE3 {
        decode_jcxz(cpu, addr)
    } else if op == 0xD4 {
        decode_aam(cpu, addr)
    } else if op == 0xD5 {
        decode_aad(cpu, addr)
    } else if op == 0xF4 {
        decode_hlt(cpu, addr)
    } else if op == 0x90 {
        decode_nop(cpu, addr)
    } else if op == 0x98 {
        decode_cbw(cpu, addr)
    } else if op == 0x99 {
        decode_cwd(cpu, addr)
    } else if op == 0x37 {
        decode_aaa(cpu, addr)
    } else if op == 0x3F {
        decode_aas(cpu, addr)
    } else if op == 0x27 {
        decode_daa(cpu, addr)
    } else if op == 0x2F {
        decode_das(cpu, addr)
    } else if op == 0xF5 {
        decode_cmc(cpu, addr)
    } else if op == 0xCF {
        decode_iret(cpu, addr)
    } else if op == 0x9E {
        decode_sahf(cpu, addr)
    } else if op == 0x9F {
        decode_lahf(cpu, addr)
    } else if op == 0xF0 {
        decode_lock(cpu, addr)
    } else if op == 0x9B {
        decode_wait(cpu, addr)
    } else if op == 0x9C {
        decode_pushf(cpu, addr)
    } else if op == 0x9D {
        decode_popf(cpu, addr)
    } else if op == 0xD7 {
        decode_xlat(cpu, addr)
    } else {
        Err(DecodeError::UnknownOpcode { address: *addr, opcode: op })
    }
}

} // verus!
