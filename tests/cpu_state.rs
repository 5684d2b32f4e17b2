use emu8086::cpu::{Cpu, Flag, Flags, Registers, MEMORY_SIZE};

fn zero_registers() -> Registers {
    Cpu::new().regs
}

#[test]
fn new_cpu_is_reset() {
    let cpu = Cpu::new();
    assert_eq!(cpu.regs.sp, 0xFFFE);
    assert_eq!(cpu.regs.ip, 0);
    assert_eq!(cpu.regs.ax, 0);
    assert_eq!(cpu.regs.cs, 0);
    assert_eq!(cpu.memory.len(), MEMORY_SIZE as usize);
    assert_eq!(cpu.read_byte(0), 0);
    assert_eq!(cpu.read_byte(MEMORY_SIZE - 1), 0);
}

#[test]
fn physical_address_shifts_segment() {
    assert_eq!(Cpu::get_physical_address(0x1000, 0x0100), 0x10100);
    assert_eq!(Cpu::get_physical_address(0x0000, 0x0000), 0);
    assert_eq!(Cpu::get_physical_address(0x1234, 0x5678), 0x179B8);
}

#[test]
fn physical_address_wraps_at_one_mebibyte() {
    assert_eq!(Cpu::get_physical_address(0xFFFF, 0x0010), 0x00000);
    assert_eq!(Cpu::get_physical_address(0xFFFF, 0xFFFF), 0x0FFEF);
    assert_eq!(Cpu::get_physical_address(0xF000, 0xFFFF), 0xFFFFF);
}

#[test]
fn physical_address_aliases() {
    assert_eq!(
        Cpu::get_physical_address(0x1000, 0x0010),
        Cpu::get_physical_address(0x1001, 0x0000)
    );
}

#[test]
fn low_halves_keep_high_halves() {
    let mut r = zero_registers();
    r.ax = 0xABCD;
    r.bx = 0x1234;
    r.cx = 0x5678;
    r.dx = 0x9ABC;
    r.set_al(0x11);
    r.set_bl(0x22);
    r.set_cl(0x33);
    r.set_dl(0x44);
    assert_eq!((r.al(), r.ah()), (0x11, 0xAB));
    assert_eq!((r.bl(), r.bh()), (0x22, 0x12));
    assert_eq!((r.cl(), r.ch()), (0x33, 0x56));
    assert_eq!((r.dl(), r.dh()), (0x44, 0x9A));
    assert_eq!(r.ax, 0xAB11);
}

#[test]
fn high_halves_keep_low_halves() {
    let mut r = zero_registers();
    r.ax = 0xABCD;
    r.bx = 0x1234;
    r.cx = 0x5678;
    r.dx = 0x9ABC;
    r.set_ah(0x11);
    r.set_bh(0x22);
    r.set_ch(0x33);
    r.set_dh(0x44);
    assert_eq!((r.ah(), r.al()), (0x11, 0xCD));
    assert_eq!((r.bh(), r.bl()), (0x22, 0x34));
    assert_eq!((r.ch(), r.cl()), (0x33, 0x78));
    assert_eq!((r.dh(), r.dl()), (0x44, 0xBC));
    assert_eq!(r.dx, 0x44BC);
}

#[test]
fn half_setters_leave_other_registers() {
    let mut r = zero_registers();
    r.bx = 0x1234;
    r.set_al(0xFF);
    r.set_ah(0xEE);
    assert_eq!(r.ax, 0xEEFF);
    assert_eq!(r.bx, 0x1234);
    assert_eq!(r.sp, 0xFFFE);
}

#[test]
fn word_access_is_little_endian() {
    let mut cpu = Cpu::new();
    cpu.write_word(0x200, 0xBEEF);
    assert_eq!(cpu.read_byte(0x200), 0xEF);
    assert_eq!(cpu.read_byte(0x201), 0xBE);
    assert_eq!(cpu.read_word(0x200), 0xBEEF);
    cpu.write_byte(0x201, 0x12);
    assert_eq!(cpu.read_word(0x200), 0x12EF);
}

#[test]
fn word_access_wraps_at_top() {
    let mut cpu = Cpu::new();
    cpu.write_word(MEMORY_SIZE - 1, 0x1234);
    assert_eq!(cpu.read_byte(MEMORY_SIZE - 1), 0x34);
    assert_eq!(cpu.read_byte(0), 0x12);
    assert_eq!(cpu.read_word(MEMORY_SIZE - 1), 0x1234);
}

#[test]
fn push_then_pop_round_trip() {
    let mut cpu = Cpu::new();
    cpu.regs.ss = 0x2000;
    let sp = cpu.regs.sp;
    cpu.push(0xCAFE);
    assert_eq!(cpu.regs.sp, sp - 2);
    assert_eq!(cpu.read_word(Cpu::get_physical_address(0x2000, sp - 2)), 0xCAFE);
    assert_eq!(cpu.pop(), 0xCAFE);
    assert_eq!(cpu.regs.sp, sp);
}

#[test]
fn push_pop_is_last_in_first_out() {
    let mut cpu = Cpu::new();
    cpu.push(1);
    cpu.push(2);
    assert_eq!(cpu.pop(), 2);
    assert_eq!(cpu.pop(), 1);
    assert_eq!(cpu.regs.sp, 0xFFFE);
}

#[test]
fn stack_pointer_wraps() {
    let mut cpu = Cpu::new();
    cpu.regs.sp = 0x0000;
    cpu.push(0x4242);
    assert_eq!(cpu.regs.sp, 0xFFFE);
    assert_eq!(cpu.pop(), 0x4242);
    assert_eq!(cpu.regs.sp, 0x0000);
    cpu.regs.sp = 0x0001;
    cpu.push(0x1111);
    assert_eq!(cpu.regs.sp, 0xFFFF);
    assert_eq!(cpu.pop(), 0x1111);
    assert_eq!(cpu.regs.sp, 0x0001);
}

#[test]
fn load_com_uses_default_load_point() {
    let mut cpu = Cpu::new();
    cpu.load_com(&[0xB0, 0x05, 0x90], None, None);
    assert_eq!(cpu.regs.cs, 0x1000);
    assert_eq!(cpu.regs.ds, 0x1000);
    assert_eq!(cpu.regs.es, 0x1000);
    assert_eq!(cpu.regs.ss, 0x1000);
    assert_eq!(cpu.regs.ip, 0x0100);
    assert_eq!(cpu.read_byte(0x10100), 0xB0);
    assert_eq!(cpu.read_byte(0x10101), 0x05);
    assert_eq!(cpu.read_byte(0x10102), 0x90);
    assert_eq!(cpu.read_byte(0x10103), 0x00);
    assert_eq!(cpu.regs.sp, 0xFFFE);
}

#[test]
fn load_com_at_given_address() {
    let mut cpu = Cpu::new();
    cpu.load_com(&[1, 2], Some(0x0200), Some(0x0010));
    assert_eq!(cpu.regs.cs, 0x0200);
    assert_eq!(cpu.regs.ip, 0x0010);
    assert_eq!(cpu.read_byte(0x2010), 1);
    assert_eq!(cpu.read_byte(0x2011), 2);
}

#[test]
fn load_com_wraps_at_top() {
    let mut cpu = Cpu::new();
    cpu.load_com(&[7, 8, 9], Some(0xF000), Some(0xFFFE));
    assert_eq!(cpu.read_byte(0xFFFFE), 7);
    assert_eq!(cpu.read_byte(0xFFFFF), 8);
    assert_eq!(cpu.read_byte(0x00000), 9);
}

#[test]
fn flags_set_and_clear_single_bits() {
    let mut f = Flags::empty();
    assert_eq!(f.bits(), 0);
    f.set(Flag::Carry, true);
    f.set(Flag::Zero, true);
    f.set(Flag::Overflow, true);
    assert_eq!(f.bits(), 0x0841);
    assert!(f.contains(Flag::Zero));
    assert!(!f.contains(Flag::Sign));
    f.set(Flag::Zero, false);
    assert_eq!(f.bits(), 0x0801);
    assert!(!f.contains(Flag::Zero));
    assert!(f.contains(Flag::Carry));
}

#[test]
fn flag_positions_match_hardware() {
    assert_eq!(Flag::Carry.mask(), 0x0001);
    assert_eq!(Flag::Parity.mask(), 0x0004);
    assert_eq!(Flag::AuxiliaryCarry.mask(), 0x0010);
    assert_eq!(Flag::Zero.mask(), 0x0040);
    assert_eq!(Flag::Sign.mask(), 0x0080);
    assert_eq!(Flag::Trap.mask(), 0x0100);
    assert_eq!(Flag::Interrupt.mask(), 0x0200);
    assert_eq!(Flag::Direction.mask(), 0x0400);
    assert_eq!(Flag::Overflow.mask(), 0x0800);
}

#[test]
fn flags_word_keeps_unnamed_bits() {
    let mut f = Flags::from_bits(0xF002);
    f.set(Flag::Carry, true);
    assert_eq!(f.bits(), 0xF003);
    f.set(Flag::Carry, false);
    assert_eq!(f.bits(), 0xF002);
}
