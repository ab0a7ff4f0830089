use gb_core::alu;
use gb_core::boot_rom::BootromData;
use gb_core::cartridge::RomOnlyCartridge;
use gb_core::errors::CoreError;
use gb_core::flags::Flags;
use gb_core::interrupt_handler::{InterruptHandler, InterruptLine};
use gb_core::ppu::VideoRam;
use gb_core::registers::Registers;
use gb_core::timer::Timer;

#[test]
fn timer_overflow_reloads_tma_and_requests_interrupt() {
    // TAC=0x05: enabled, divider 16. TIMA=0xFF, TMA=0xAB.
    let mut t = Timer::new();
    t.write_tac(0x05);
    t.write_tima(0xFF);
    t.write_tma(0xAB);
    let request = t.step(16);
    assert!(request);
    assert_eq!(t.read_tima(), 0xAB);
}

#[test]
fn timer_does_not_count_when_disabled() {
    let mut t = Timer::new();
    t.write_tac(0x01);
    t.write_tima(0x00);
    let request = t.step(64);
    assert!(!request);
    assert_eq!(t.read_tima(), 0);
}

#[test]
fn timer_div_counts_and_resets() {
    let mut t = Timer::new();
    t.step(255);
    t.step(1);
    assert_eq!(t.read_div(), 1);
    t.write_div();
    assert_eq!(t.read_div(), 0);
}

#[test]
fn ie_high_bits_read_as_one() {
    let mut h = InterruptHandler::new();
    h.set_enabled_interrupts_flag(0xFF);
    let ie = h.get_enabled_interrupts_flag();
    assert_eq!(ie & 0xE0, 0xE0);
    assert_eq!(ie, 0xFF);
    h.set_enabled_interrupts_flag(0x00);
    assert_eq!(h.get_enabled_interrupts_flag(), 0xE0);
}

#[test]
fn interrupt_priority_is_lowest_bit_first() {
    let mut h = InterruptHandler::new();
    h.set_enabled_interrupts_flag(0x1F);
    h.set_interrupt_flag(0x14);
    assert_eq!(h.highest_priority(), Some(InterruptLine::Timer));
    h.acknowledge(InterruptLine::Timer);
    assert_eq!(h.highest_priority(), Some(InterruptLine::Joypad));
    h.acknowledge(InterruptLine::Joypad);
    assert_eq!(h.highest_priority(), None);
}

#[test]
fn flags_pack_into_high_nibble() {
    let f = Flags { zero: true, negative: false, half_carry: true, carry: true };
    assert_eq!(f.read_value(), 0xB0);
    let mut g = Flags::new();
    g.set_value(0x5F);
    assert!(!g.zero);
    assert!(g.negative);
    assert!(!g.half_carry);
    assert!(g.carry);
}

#[test]
fn af_write_masks_low_nibble() {
    let mut r = Registers::default();
    r.set_af(0x1234);
    assert_eq!(r.get_af(), 0x1230);
    r.set_af(0xFFFF);
    assert_eq!(r.get_af(), 0xFFF0);
}

#[test]
fn register_pairs_concatenate_big_endian() {
    let mut r = Registers::default();
    r.set_bc(0x1234);
    assert_eq!(r.b, 0x12);
    assert_eq!(r.c, 0x34);
    assert_eq!(r.get_bc(), 0x1234);
    r.set_hl(0xBEEF);
    assert_eq!(r.get_hl(), 0xBEEF);
}

#[test]
fn alu_add_flag_rules() {
    let (r, f) = alu::alu_add(0x0F, 0x01);
    assert_eq!(r, 0x10);
    assert!(f.half_carry && !f.carry && !f.zero && !f.negative);
    let (r2, f2) = alu::alu_add(0xFF, 0x01);
    assert_eq!(r2, 0x00);
    assert!(f2.zero && f2.carry && f2.half_carry);
}

#[test]
fn alu_sub_flag_rules() {
    let (r, f) = alu::alu_sub(0x10, 0x20);
    assert_eq!(r, 0xF0);
    assert!(f.carry && f.negative && !f.zero);
    let (_, f2) = alu::alu_sub(0x10, 0x01);
    assert!(f2.half_carry);
}

#[test]
fn alu_add_sp_signed_minus_one_flags() {
    let (r, f) = alu::alu_add_sp(0x0005, 0xFF);
    assert_eq!(r, 0x0004);
    assert!(f.half_carry && f.carry && !f.zero && !f.negative);
    let (r2, _) = alu::alu_add_sp(0x0000, 0xFF);
    assert_eq!(r2, 0xFFFF);
}

#[test]
fn alu_daa_bcd_cases() {
    let clear = Flags { zero: false, negative: false, half_carry: false, carry: false };
    let (r, f) = alu::alu_daa(0x9A, clear);
    assert_eq!(r, 0x00);
    assert!(f.carry && f.zero);
    let (r2, f2) = alu::alu_daa(0x0A, clear);
    assert_eq!(r2, 0x10);
    assert!(!f2.carry);
}

#[test]
fn alu_rotations_move_carry() {
    let (r, c) = alu::alu_rlc(0x80);
    assert_eq!(r, 0x01);
    assert!(c);
    let (r2, c2) = alu::alu_rr(0x01, true);
    assert_eq!(r2, 0x80);
    assert!(c2);
    let (r3, f3) = alu::alu_swap(0xAB);
    assert_eq!(r3, 0xBA);
    assert!(!f3.zero);
}

#[test]
fn tile_memory_write_read_roundtrip() {
    let mut vr = VideoRam::new();
    for (addr, v) in [(0x8000u16, 0x5Au8), (0x8001, 0xFF), (0x97FF, 0x01)] {
        vr.write_tile_byte(addr, v);
        assert_eq!(vr.read_tile_byte(addr), v);
    }
}

#[test]
fn short_rom_is_rejected() {
    assert_eq!(RomOnlyCartridge::new(vec![0u8; 0x150]).err(), Some(CoreError::InvalidRom));
    assert!(RomOnlyCartridge::new(vec![0u8; 0x8000]).is_ok());
}

#[test]
fn wrong_sized_boot_rom_is_rejected() {
    assert_eq!(BootromData::from_bytes(vec![0u8; 0xFF]).err(), Some(CoreError::InvalidBootRom));
    assert_eq!(BootromData::from_bytes(vec![0u8; 0x101]).err(), Some(CoreError::InvalidBootRom));
    assert!(BootromData::from_bytes(vec![0u8; 0x100]).is_ok());
}

#[test]
fn tile_map_write_read_roundtrip() {
    let mut vr = VideoRam::new();
    vr.write_tile_map_byte(0x9800, 0x42);
    assert_eq!(vr.read_tile_map_byte(0x9800), 0x42);
    vr.write_tile_map_byte(0x9FFF, 0x24);
    assert_eq!(vr.read_tile_map_byte(0x9FFF), 0x24);
    assert_eq!(vr.read_tile_map_byte(0x9800), 0x42);
}
