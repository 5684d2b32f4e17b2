use vstd::prelude::*;

use crate::decoder::{decode, decode_spec, decoded, DecodeError};
use crate::instruction::Instruction;


verus! {

/// Number of bytes in the physical address space (20 address lines).
pub const MEMORY_SIZE: u32 = 0x10_0000;

/// Value the stack pointer holds after reset.
pub const RESET_STACK_POINTER: u16 = 0xFFFE;

/// Segment a program is loaded at when the caller names none.
pub const DEFAULT_LOAD_SEGMENT: u16 = 0x1000;

/// Offset a program is loaded at when the caller names none.
pub const DEFAULT_LOAD_OFFSET: u16 = 0x0100;

/// Low byte of a 16-bit word.
pub open spec fn low_byte(w: u16) -> u8 {
    (w % 256) as u8
}

/// High byte of a 16-bit word.
pub open spec fn high_byte(w: u16) -> u8 {
    (w / 256) as u8
}

/// The 16-bit word whose high byte is `hi` and whose low byte is `lo`.
pub open spec fn word_of(hi: u8, lo: u8) -> u16 {
    (hi * 256 + lo) as u16
}

/// Physical address of `segment:offset`: `segment * 16 + offset`, wrapped to 20 bits.
pub open spec fn physical(segment: u16, offset: u16) -> u32 {
    ((segment * 16 + offset) % 0x10_0000) as u32
}

/// The byte at physical address `a`, where addresses wrap at the top of the address space.
pub open spec fn byte_at(mem: Seq<u8>, a: int) -> u8 {
    mem[a % (MEMORY_SIZE as int)]
}

/// The little-endian word at physical address `a` (its high byte wraps like `byte_at`).
pub open spec fn word_at(mem: Seq<u8>, a: int) -> u16 {
    word_of(byte_at(mem, a + 1), byte_at(mem, a))
}

/// `mem` after storing `v` little-endian at `a`, the high byte wrapping at the top.
pub open spec fn with_word(mem: Seq<u8>, a: int, v: u16) -> Seq<u8> {
    mem.update(a, low_byte(v)).update((a + 1) % (MEMORY_SIZE as int), high_byte(v))
}

/// Stack pointer after a word is pushed (two lower, modulo 2^16).
pub open spec fn sp_below(sp: u16) -> u16 {
    ((sp + 0x1_0000 - 2) % 0x1_0000) as u16
}

/// Stack pointer after a word is popped (two higher, modulo 2^16).
pub open spec fn sp_above(sp: u16) -> u16 {
    ((sp + 2) % 0x1_0000) as u16
}

/// Registers and memory after pushing `v`.
pub open spec fn after_push(regs: Registers, mem: Seq<u8>, v: u16) -> (Registers, Seq<u8>) {
    let sp = sp_below(regs.sp);
    (Registers { sp, ..regs }, with_word(mem, physical(regs.ss, sp) as int, v))
}

/// The word popped, and the registers after the pop.
pub open spec fn after_pop(regs: Registers, mem: Seq<u8>) -> (u16, Registers) {
    (word_at(mem, physical(regs.ss, regs.sp) as int), Registers { sp: sp_above(regs.sp), ..regs })
}

/// Segment used by a load when the caller may leave it out.
pub open spec fn load_segment(segment: Option<u16>) -> u16 {
    match segment {
        Some(s) => s,
        None => DEFAULT_LOAD_SEGMENT,
    }
}

/// Offset used by a load when the caller may leave it out.
pub open spec fn load_offset(offset: Option<u16>) -> u16 {
    match offset {
        Some(o) => o,
        None => DEFAULT_LOAD_OFFSET,
    }
}

/// The byte at physical address `a` after `program` was copied to `base` onward
/// (wrapping at the top of the address space) over `mem`.
pub open spec fn loaded_byte(mem: Seq<u8>, program: Seq<u8>, base: int, a: int) -> u8 {
    let k = (a + MEMORY_SIZE - base) % (MEMORY_SIZE as int);
    if k < program.len() {
        program[k]
    } else {
        mem[a]
    }
}

proof fn lemma_byte_split(w: u16, hi: u8, lo: u8)
    ensures
        (w & 0xFF00) | (lo as u16) == word_of(high_byte(w), lo),
        (w & 0x00FF) | ((hi as u16) << 8) == word_of(hi, low_byte(w)),
        ((hi as u16) << 8) | (lo as u16) == word_of(hi, lo),
        w as u8 == low_byte(w),
        (w >> 8) as u8 == high_byte(w),
{
    assert((w & 0xFF00) | (lo as u16) == ((w / 256) * 256 + lo) as u16) by (bit_vector);
    assert((w & 0x00FF) | ((hi as u16) << 8) == (hi * 256 + (w % 256)) as u16) by (bit_vector);
    assert(((hi as u16) << 8) | (lo as u16) == (hi * 256 + lo) as u16) by (bit_vector);
    assert(w as u8 == (w % 256) as u8) by (bit_vector);
    assert((w >> 8) as u8 == (w / 256) as u8) by (bit_vector);
}

/// A word rebuilt from its two bytes is the word itself, and the bytes of a
/// word built from two bytes are those bytes.
pub proof fn lemma_word_bytes(w: u16, hi: u8, lo: u8)
    ensures
        word_of(high_byte(w), low_byte(w)) == w,
        high_byte(word_of(hi, lo)) == hi,
        low_byte(word_of(hi, lo)) == lo,
{
}

/// The nine condition flags of the 8086, each at its hardware bit position.
#[derive(Debug, Clone, Copy, PartialEq, Eq)]
pub enum Flag {
    Carry,
    Parity,
    AuxiliaryCarry,
    Zero,
    Sign,
    Trap,
    Interrupt,
    Direction,
    Overflow,
}

/// Bit position of a flag in the flags word.
pub open spec fn flag_position(f: Flag) -> u16 {
    match f {
        Flag::Carry => 0,
        Flag::Parity => 2,
        Flag::AuxiliaryCarry => 4,
        Flag::Zero => 6,
        Flag::Sign => 7,
        Flag::Trap => 8,
        Flag::Interrupt => 9,
        Flag::Direction => 10,
        Flag::Overflow => 11,
    }
}

impl Flag {
    /// The flag's bit in the flags word.
    pub fn mask(self) -> (r: u16)
        ensures
            r == 1u16 << flag_position(self),
    {
        let r: u16 = match self {
            Flag::Carry => 0x0001,
            Flag::Parity => 0x0004,
            Flag::AuxiliaryCarry => 0x0010,
            Flag::Zero => 0x0040,
            Flag::Sign => 0x0080,
            Flag::Trap => 0x0100,
            Flag::Interrupt => 0x0200,
            Flag::Direction => 0x0400,
            Flag::Overflow => 0x0800,
        };
        assert(r == 1u16 << flag_position(self)) by {
            assert(1u16 << 0u16 == 0x0001u16) by (bit_vector);
            assert(1u16 << 2u16 == 0x0004u16) by (bit_vector);
            assert(1u16 << 4u16 == 0x0010u16) by (bit_vector);
            assert(1u16 << 6u16 == 0x0040u16) by (bit_vector);
            assert(1u16 << 7u16 == 0x0080u16) by (bit_vector);
            assert(1u16 << 8u16 == 0x0100u16) by (bit_vector);
            assert(1u16 << 9u16 == 0x0200u16) by (bit_vector);
            assert(1u16 << 10u16 == 0x0400u16) by (bit_vector);
            assert(1u16 << 11u16 == 0x0800u16) by (bit_vector);
        }
        r
    }
}

proof fn lemma_bit_update(x: u16, i: u16, j: u16)
    requires
        i < 16,
        j < 16,
    ensures
        ((x | (1u16 << i)) & (1u16 << j) != 0) == (i == j || x & (1u16 << j) != 0),
        ((x & !(1u16 << i)) & (1u16 << j) != 0) == (i != j && x & (1u16 << j) != 0),
        (x | (1u16 << i)) & !(1u16 << i) == x & !(1u16 << i),
        (x & !(1u16 << i)) & !(1u16 << i) == x & !(1u16 << i),
{
    assert(((x | (1u16 << i)) & (1u16 << j) != 0) == (i == j || x & (1u16 << j) != 0))
        by (bit_vector)
        requires
            i < 16,
            j < 16,
    ;
    assert(((x & !(1u16 << i)) & (1u16 << j) != 0) == (i != j && x & (1u16 << j) != 0))
        by (bit_vector)
        requires
            i < 16,
            j < 16,
    ;
    assert((x | (1u16 << i)) & !(1u16 << i) == x & !(1u16 << i)) by (bit_vector);
    assert((x & !(1u16 << i)) & !(1u16 << i) == x & !(1u16 << i)) by (bit_vector);
}

/// The flags register, kept as the 16-bit word that flag loads and stores move.
/// Bits that name no flag are carried along and never interpreted.
#[derive(Debug, Clone, Copy, PartialEq, Eq)]
pub struct Flags {
    pub bits: u16,
}

impl Flags {
    /// Whether flag `f` is set.
    pub open spec fn has(self, f: Flag) -> bool {
        self.bits & (1u16 << flag_position(f)) != 0
    }

    /// The flags word with every bit clear.
    pub fn empty() -> (r: Flags)
        ensures
            r.bits == 0,
            forall|f: Flag| !r.has(f),
    {
        assert forall|f: Flag| !(Flags { bits: 0 }).has(f) by {
            let p = flag_position(f);
            assert(0u16 & (1u16 << p) == 0) by (bit_vector);
        }
        Flags { bits: 0 }
    }

    /// A flags register holding `word` as it is.
    pub fn from_bits(word: u16) -> (r: Flags)
        ensures
            r.bits == word,
    {
        Flags { bits: word }
    }

    /// The flags register as a 16-bit word.
    pub fn bits(&self) -> (r: u16)
        ensures
            r == self.bits,
    {
        self.bits
    }

    /// Whether flag `f` is set.
    pub fn contains(&self, f: Flag) -> (r: bool)
        ensures
            r == self.has(f),
    {
        self.bits & f.mask() != 0
    }

    /// Sets flag `f` to `value`; every other bit of the word stays as it was.
    pub fn set(&mut self, f: Flag, value: bool)
        ensures
            final(self).has(f) == value,
            forall|g: Flag| g != f ==> final(self).has(g) == old(self).has(g),
            final(self).bits & !(1u16 << flag_position(f)) == old(self).bits & !(1u16
                << flag_position(f)),
    {
        let m = f.mask();
        let x = self.bits;
        if value {
            self.bits = x | m;
        } else {
            self.bits = x & !m;
        }
        proof {
            lemma_bit_update(x, flag_position(f), flag_position(f));
            assert forall|g: Flag| g != f implies self.has(g) == old(self).has(g) by {
                lemma_bit_update(x, flag_position(f), flag_position(g));
            }
        }
    }
}

/// The 8086 register file.
#[derive(Debug, Clone, Copy)]
pub struct Registers {
    pub ax: u16,
    pub bx: u16,
    pub cx: u16,
    pub dx: u16,
    pub cs: u16,
    pub ds: u16,
    pub es: u16,
    pub ss: u16,
    pub sp: u16,
    pub bp: u16,
    pub si: u16,
    pub di: u16,
    pub ip: u16,
    pub flags: Flags,
}

impl Registers {
    pub fn al(&self) -> (r: u8)
        ensures
            r == low_byte(self.ax),
    {
        proof { lemma_byte_split(self.ax, 0, 0); }
        self.ax as u8
    }

    pub fn ah(&self) -> (r: u8)
        ensures
            r == high_byte(self.ax),
    {
        proof { lemma_byte_split(self.ax, 0, 0); }
        (self.ax >> 8) as u8
    }

    pub fn bl(&self) -> (r: u8)
        ensures
            r == low_byte(self.bx),
    {
        proof { lemma_byte_split(self.bx, 0, 0); }
        self.bx as u8
    }

    pub fn bh(&self) -> (r: u8)
        ensures
            r == high_byte(self.bx),
    {
        proof { lemma_byte_split(self.bx, 0, 0); }
        (self.bx >> 8) as u8
    }

    pub fn cl(&self) -> (r: u8)
        ensures
            r == low_byte(self.cx),
    {
        proof { lemma_byte_split(self.cx, 0, 0); }
        self.cx as u8
    }

    pub fn ch(&self) -> (r: u8)
        ensures
            r == high_byte(self.cx),
    {
        proof { lemma_byte_split(self.cx, 0, 0); }
        (self.cx >> 8) as u8
    }

    pub fn dl(&self) -> (r: u8)
        ensures
            r == low_byte(self.dx),
    {
        proof { lemma_byte_split(self.dx, 0, 0); }
        self.dx as u8
    }

    pub fn dh(&self) -> (r: u8)
        ensures
            r == high_byte(self.dx),
    {
        proof { lemma_byte_split(self.dx, 0, 0); }
        (self.dx >> 8) as u8
    }

    pub fn set_al(&mut self, value: u8)
        ensures
            low_byte(final(self).ax) == value,
            high_byte(final(self).ax) == high_byte(old(self).ax),
            *final(self) == (Registers { ax: final(self).ax, ..*old(self) }),
    {
        proof { lemma_byte_split(self.ax, 0, value); }
        self.ax = (self.ax & 0xFF00) | (value as u16);
    }

    pub fn set_bl(&mut self, value: u8)
        ensures
            low_byte(final(self).bx) == value,
            high_byte(final(self).bx) == high_byte(old(self).bx),
            *final(self) == (Registers { bx: final(self).bx, ..*old(self) }),
    {
        proof { lemma_byte_split(self.bx, 0, value); }
        self.bx = (self.bx & 0xFF00) | (value as u16);
    }

    pub fn set_cl(&mut self, value: u8)
        ensures
            low_byte(final(self).cx) == value,
            high_byte(final(self).cx) == high_byte(old(self).cx),
            *final(self) == (Registers { cx: final(self).cx, ..*old(self) }),
    {
        proof { lemma_byte_split(self.cx, 0, value); }
        self.cx = (self.cx & 0xFF00) | (value as u16);
    }

    pub fn set_dl(&mut self, value: u8)
        ensures
            low_byte(final(self).dx) == value,
            high_byte(final(self).dx) == high_byte(old(self).dx),
            *final(self) == (Registers { dx: final(self).dx, ..*old(self) }),
    {
        proof { lemma_byte_split(self.dx, 0, value); }
        self.dx = (self.dx & 0xFF00) | (value as u16);
    }

    pub fn set_ah(&mut self, value: u8)
        ensures
            high_byte(final(self).ax) == value,
            low_byte(final(self).ax) == low_byte(old(self).ax),
            *final(self) == (Registers { ax: final(self).ax, ..*old(self) }),
    {
        proof { lemma_byte_split(self.ax, value, 0); }
        self.ax = (self.ax & 0x00FF) | ((value as u16) << 8);
    }

    pub fn set_bh(&mut self, value: u8)
        ensures
            high_byte(final(self).bx) == value,
            low_byte(final(self).bx) == low_byte(old(self).bx),
            *final(self) == (Registers { bx: final(self).bx, ..*old(self) }),
    {
        proof { lemma_byte_split(self.bx, value, 0); }
        self.bx = (self.bx & 0x00FF) | ((value as u16) << 8);
    }

    pub fn set_ch(&mut self, value: u8)
        ensures
            high_byte(final(self).cx) == value,
            low_byte(final(self).cx) == low_byte(old(self).cx),
            *final(self) == (Registers { cx: final(self).cx, ..*old(self) }),
    {
        proof { lemma_byte_split(self.cx, value, 0); }
        self.cx = (self.cx & 0x00FF) | ((value as u16) << 8);
    }

    pub fn set_dh(&mut self, value: u8)
        ensures
            high_byte(final(self).dx) == value,
            low_byte(final(self).dx) == low_byte(old(self).dx),
            *final(self) == (Registers { dx: final(self).dx, ..*old(self) }),
    {
        proof { lemma_byte_split(self.dx, value, 0); }
        self.dx = (self.dx & 0x00FF) | ((value as u16) << 8);
    }
}

/// An 8086: its registers and its 1 MiB of memory.
pub struct Cpu {
    pub regs: Registers,
    pub memory: Vec<u8>,
}

/// Physical address one above `a`, wrapping at the top of the address space.
fn next_address(a: u32) -> (r: u32)
    requires
        a < MEMORY_SIZE,
    ensures
        r == (a + 1) % (MEMORY_SIZE as int),
        r < MEMORY_SIZE,
{
    if a + 1 == MEMORY_SIZE {
        0
    } else {
        a + 1
    }
}

impl Cpu {
    /// The memory holds the whole physical address space.
    pub open spec fn wf(&self) -> bool {
        self.memory@.len() == MEMORY_SIZE
    }

    /// A CPU after reset: every register zero except the stack pointer, memory zeroed.
    pub fn new() -> (r: Cpu)
        ensures
            r.wf(),
            forall|a: int| 0 <= a < MEMORY_SIZE ==> r.memory@[a] == 0,
            r.regs == (Registers {
                ax: 0,
                bx: 0,
                cx: 0,
                dx: 0,
                cs: 0,
                ds: 0,
                es: 0,
                ss: 0,
                sp: RESET_STACK_POINTER,
                bp: 0,
                si: 0,
                di: 0,
                ip: 0,
                flags: Flags { bits: 0 },
            }),
    {
        Cpu {
            regs: Registers {
                ax: 0,
                bx: 0,
                cx: 0,
                dx: 0,
                cs: 0,
                ds: 0,
                es: 0,
                ss: 0,
                sp: RESET_STACK_POINTER,
                bp: 0,
                si: 0,
                di: 0,
                ip: 0,
                flags: Flags::empty(),
            },
            memory: vec![0u8; MEMORY_SIZE as usize],
        }
    }

    /// Copies `program` into memory at `segment:offset` (by default
    /// 0x1000:0x0100), wrapping at the top of the address space, and points
    /// CS:IP at it, with DS, ES and SS set to the same segment.
    pub fn load_com(&mut self, program: &[u8], segment: Option<u16>, offset: Option<u16>)
        requires
            old(self).wf(),
            program@.len() <= MEMORY_SIZE,
        ensures
            final(self).wf(),
            forall|a: int|
                0 <= a < MEMORY_SIZE ==> #[trigger] final(self).memory@[a] == loaded_byte(
                    old(self).memory@,
                    program@,
                    physical(load_segment(segment), load_offset(offset)) as int,
                    a,
                ),
            final(self).regs == (Registers {
                ip: load_offset(offset),
                cs: load_segment(segment),
                ds: load_segment(segment),
                es: load_segment(segment),
                ss: load_segment(segment),
                ..old(self).regs
            }),
    {
        let seg = match segment {
            Some(s) => s,
            None => DEFAULT_LOAD_SEGMENT,
        };
        let oft = match offset {
            Some(o) => o,
            None => DEFAULT_LOAD_OFFSET,
        };
        let base = Cpu::get_physical_address(seg, oft);
        let ghost mem0 = self.memory@;
        let mut a: u32 = base;
        let mut i: usize = 0;
        while i < program.len()
            invariant
                self.wf(),
                self.regs == old(self).regs,
                mem0 == old(self).memory@,
                program@.len() <= MEMORY_SIZE,
                base < MEMORY_SIZE,
                0 <= i <= program@.len(),
                a < MEMORY_SIZE,
                a == (base + i) % (MEMORY_SIZE as int),
                forall|x: int|
                    0 <= x < MEMORY_SIZE ==> #[trigger] self.memory@[x] == loaded_byte(
                        mem0,
                        program@.subrange(0, i as int),
                        base as int,
                        x,
                    ),
            decreases program@.len() - i,
        {
            let ghost before = self.memory@;
            self.memory.set(a as usize, program[i]);
            proof {
                assert forall|x: int| 0 <= x < MEMORY_SIZE implies #[trigger] self.memory@[x]
                    == loaded_byte(mem0, program@.subrange(0, i + 1), base as int, x) by {
                    let k = (x + MEMORY_SIZE - base) % (MEMORY_SIZE as int);
                    if x == a {
                        assert(k == i);
                    } else {
                        assert(k != i);
                        assert(before[x] == loaded_byte(
                            mem0,
                            program@.subrange(0, i as int),
                            base as int,
                            x,
                        ));
                    }
                }
            }
            a = next_address(a);
            i = i + 1;
        }
        assert(program@.subrange(0, i as int) =~= program@);
        self.regs.ip = oft;
        self.regs.cs = seg;
        self.regs.ds = seg;
        self.regs.es = seg;
        self.regs.ss = seg;
    }

    /// Decodes the instruction at CS:IP and moves IP past it.
    pub fn step(&mut self) -> (r: Result<Instruction, DecodeError>)
        requires
            old(self).wf(),
        ensures
            r == decode_spec(
                old(self).memory@,
                old(self).regs.ds,
                physical(old(self).regs.cs, old(self).regs.ip),
            ),
            decoded(*old(self), *final(self), r),
    {
        let addr = Cpu::get_physical_address(self.regs.cs, self.regs.ip);
        decode(self, &addr)
    }

    /// Physical address of `segment:offset`, wrapped to 20 bits.
    pub fn get_physical_address(segment: u16, offset: u16) -> (r: u32)
        ensures
            r == physical(segment, offset),
            r < MEMORY_SIZE,
    {
        assert((segment as u32) << 4 == segment * 16) by (bit_vector);
        let sum: u32 = ((segment as u32) << 4) + (offset as u32);
        let r = sum & 0xF_FFFF;
        assert(r == physical(segment, offset)) by (bit_vector)
            requires
                sum == ((segment as u32) << 4) + (offset as u32),
                r == sum & 0xF_FFFF,
        ;
        r
    }

    /// The byte at physical address `addr`, which must lie below `MEMORY_SIZE`.
    pub fn read_byte(&self, addr: u32) -> (r: u8)
        requires
            self.wf(),
            addr < MEMORY_SIZE,
        ensures
            r == self.memory@[addr as int],
    {
        self.memory[addr as usize]
    }

    /// The little-endian word at `addr`; at the last address its high byte comes from address 0.
    pub fn read_word(&self, addr: u32) -> (r: u16)
        requires
            self.wf(),
            addr < MEMORY_SIZE,
        ensures
            r == word_at(self.memory@, addr as int),
    {
        let low = self.read_byte(addr);
        let high = self.read_byte(next_address(addr));
        proof { lemma_byte_split(0, high, low); }
        ((high as u16) << 8) | (low as u16)
    }

    /// Stores `val` at physical address `addr`, which must lie below `MEMORY_SIZE`.
    pub fn write_byte(&mut self, addr: u32, val: u8)
        requires
            old(self).wf(),
            addr < MEMORY_SIZE,
        ensures
            final(self).wf(),
            final(self).memory@ == old(self).memory@.update(addr as int, val),
            final(self).regs == old(self).regs,
    {
        self.memory.set(addr as usize, val);
    }

    /// Stores `val` little-endian at `addr`; at the last address the high byte goes to address 0.
    pub fn write_word(&mut self, addr: u32, val: u16)
        requires
            old(self).wf(),
            addr < MEMORY_SIZE,
        ensures
            final(self).wf(),
            final(self).memory@ == with_word(old(self).memory@, addr as int, val),
            final(self).regs == old(self).regs,
    {
        proof { lemma_byte_split(val, 0, 0); }
        self.write_byte(addr, val as u8);
        self.write_byte(next_address(addr), (val >> 8) as u8);
    }

    /// Lowers the stack pointer by two and stores `val` at the new top of the stack.
    pub fn push(&mut self, val: u16)
        requires
            old(self).wf(),
        ensures
            final(self).wf(),
            (final(self).regs, final(self).memory@) == after_push(
                old(self).regs,
                old(self).memory@,
                val,
            ),
    {
        self.regs.sp = self.regs.sp.wrapping_sub(2);
        let addr = Cpu::get_physical_address(self.regs.ss, self.regs.sp);
        self.write_word(addr, val);
    }

    /// Reads the word at the top of the stack and raises the stack pointer by two.
    pub fn pop(&mut self) -> (r: u16)
        requires
            old(self).wf(),
        ensures
            final(self).wf(),
            final(self).memory@ == old(self).memory@,
            (r, final(self).regs) == after_pop(old(self).regs, old(self).memory@),
    {
        let addr = Cpu::get_physical_address(self.regs.ss, self.regs.sp);
        let val = self.read_word(addr);
        self.regs.sp = self.regs.sp.wrapping_add(2);
        val
    }
}

/// Pushing a word and popping it again gives back that word and the stack
/// pointer from before the push.
pub proof fn lemma_push_pop_round_trip(regs: Registers, mem: Seq<u8>, v: u16)
    requires
        mem.len() == MEMORY_SIZE,
    ensures
        ({
            let (pushed_regs, pushed_mem) = after_push(regs, mem, v);
            let (popped, popped_regs) = after_pop(pushed_regs, pushed_mem);
            popped == v && popped_regs == regs
        }),
{
    let (r1, m1) = after_push(regs, mem, v);
    let a = physical(regs.ss, r1.sp) as int;
    assert(a != (a + 1) % (MEMORY_SIZE as int));
    assert(byte_at(m1, a) == low_byte(v));
    assert(byte_at(m1, a + 1) == high_byte(v));
    lemma_word_bytes(v, 0, 0);
}

} // verus!
