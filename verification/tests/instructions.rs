use gb_core::boot_rom::Bootrom;
use gb_core::cartridge::RomOnlyCartridge;
use gb_core::color_palette::Color;
use gb_core::gameboy::GameBoy;
use gb_core::input::{Button, Controller};
use gb_core::screen::Screen;
use gb_core::sound::AudioPlayer;

struct NullScreen;

impl Screen for NullScreen {
    fn turn_on(&mut self) {}
    fn turn_off(&mut self) {}
    fn set_pixel(&mut self, _x: u8, _y: u8, _color: Color) {}
    fn draw(&mut self) {}
    fn frame_rate(&self) -> u8 {
        60
    }
}

struct NullController;

impl Controller for NullController {
    fn is_pressed(&self, _button: Button) -> bool {
        false
    }
    fn tick(&self) {}
}

struct SilentAudio;

impl AudioPlayer for SilentAudio {
    fn play(&mut self, _left_samples: &[u16], _right_samples: &[u16]) {}
    fn samples_rate(&self) -> u32 {
        44100
    }
    fn underflowed(&self) -> bool {
        false
    }
}

fn run(program: &[u8], steps: usize) -> GameBoy<NullScreen, RomOnlyCartridge, NullController, SilentAudio> {
    let mut rom = vec![0u8; 0x8000];
    for (i, b) in program.iter().enumerate() {
        rom[0x100 + i] = *b;
    }
    let cartridge = RomOnlyCartridge::new(rom).unwrap();
    let mut gb = GameBoy::create(NullScreen, cartridge, Bootrom::new(None), SilentAudio, NullController);
    for _ in 0..steps {
        gb.tick();
    }
    gb
}

#[test]
fn ld_rr_d16_and_inc_dec_rr() {
    // LD BC,0x1234; INC BC; LD DE,0x0000; DEC DE
    let gb = run(&[0x01, 0x34, 0x12, 0x03, 0x11, 0x00, 0x00, 0x1B], 4);
    assert_eq!(gb.cpu.registers.get_bc(), 0x1235);
    assert_eq!(gb.cpu.registers.get_de(), 0xFFFF);
}

#[test]
fn ld_r_r_moves_between_registers() {
    // LD B,0x5A; LD C,B; LD A,C
    let gb = run(&[0x06, 0x5A, 0x48, 0x79], 3);
    assert_eq!(gb.cpu.registers.c, 0x5A);
    assert_eq!(gb.cpu.registers.a, 0x5A);
}

#[test]
fn indirect_hl_load_store_with_post_increment() {
    // LD HL,0xC000; LD (HL+),A with A=0x42; LD (HL),0x77; LD HL,0xC000; LD A,(HL+); LD B,(HL)
    let gb = run(
        &[
            0x3E, 0x42, 0x21, 0x00, 0xC0, 0x22, 0x36, 0x77, 0x21, 0x00, 0xC0, 0x2A, 0x46,
        ],
        7,
    );
    assert_eq!(gb.cpu.registers.a, 0x42);
    assert_eq!(gb.cpu.registers.b, 0x77);
    assert_eq!(gb.cpu.registers.get_hl(), 0xC001);
}

#[test]
fn inc_hl_memory_operand() {
    // LD HL,0xC010; LD (HL),0xFF; INC (HL): wraps to zero and sets Z, H
    let gb = run(&[0x21, 0x10, 0xC0, 0x36, 0xFF, 0x34], 3);
    assert_eq!(gb.cpu.interface.read_byte(0xC010), 0x00);
    assert!(gb.cpu.registers.flags.zero);
    assert!(gb.cpu.registers.flags.half_carry);
}

#[test]
fn jp_call_ret_roundtrip() {
    // 0x100: CALL 0x0110; 0x103: LD B,0x11 (after return)
    // 0x110: LD A,0x99; RET
    let mut program = vec![0u8; 0x20];
    program[0x00] = 0xCD;  // CALL a16
    program[0x01] = 0x10;
    program[0x02] = 0x01;
    program[0x03] = 0x06;  // LD B,d8
    program[0x04] = 0x11;
    program[0x10] = 0x3E;  // LD A,d8
    program[0x11] = 0x99;
    program[0x12] = 0xC9;  // RET
    let gb = run(&program, 4);
    assert_eq!(gb.cpu.registers.a, 0x99);
    assert_eq!(gb.cpu.registers.b, 0x11);
    assert_eq!(gb.cpu.registers.get_sp(), 0xFFFE);
}

#[test]
fn conditional_call_not_taken_costs_less() {
    // LD A,1 (clears nothing; flags untouched)... use OR A to clear carry,
    // then CALL C,a16 is not taken.
    let mut rom_prog = vec![0xB7u8, 0xDC, 0x00, 0x01];
    let mut rom = vec![0u8; 0x8000];
    for (i, b) in rom_prog.drain(..).enumerate() {
        rom[0x100 + i] = b;
    }
    let cartridge = RomOnlyCartridge::new(rom).unwrap();
    let mut gb = GameBoy::create(NullScreen, cartridge, Bootrom::new(None), SilentAudio, NullController);
    gb.tick();
    let cycles = gb.tick();
    assert_eq!(cycles, 12);
    assert_eq!(gb.cpu.registers.get_pc(), 0x0104);
}

#[test]
fn rst_jumps_to_fixed_vector() {
    // RST 0x18
    let gb = run(&[0xDF], 1);
    assert_eq!(gb.cpu.registers.get_pc(), 0x0018);
    assert_eq!(gb.cpu.interface.read_byte(0xFFFD), 0x01);
    assert_eq!(gb.cpu.interface.read_byte(0xFFFC), 0x01);
}

#[test]
fn ldh_immediate_offset_roundtrip() {
    // LD A,0x66; LDH (0x90),A; LD A,0x00; LDH A,(0x90)
    let gb = run(&[0x3E, 0x66, 0xE0, 0x90, 0x3E, 0x00, 0xF0, 0x90], 4);
    assert_eq!(gb.cpu.registers.a, 0x66);
    assert_eq!(gb.cpu.interface.read_byte(0xFF90), 0x66);
}

#[test]
fn absolute_load_store() {
    // LD A,0x21; LD (0xC123),A; LD A,0x00; LD A,(0xC123)
    let gb = run(&[0x3E, 0x21, 0xEA, 0x23, 0xC1, 0x3E, 0x00, 0xFA, 0x23, 0xC1], 4);
    assert_eq!(gb.cpu.registers.a, 0x21);
}

#[test]
fn ld_a16_sp_stores_both_bytes() {
    // LD SP,0xBEEF via LD SP,d16; LD (0xC200),SP
    let gb = run(&[0x31, 0xEF, 0xBE, 0x08, 0x00, 0xC2], 2);
    assert_eq!(gb.cpu.interface.read_byte(0xC200), 0xEF);
    assert_eq!(gb.cpu.interface.read_byte(0xC201), 0xBE);
}

#[test]
fn add_hl_rr_sets_carries() {
    // LD HL,0x8FFF; LD BC,0x7001; ADD HL,BC
    let gb = run(&[0x21, 0xFF, 0x8F, 0x01, 0x01, 0x70, 0x09], 3);
    assert_eq!(gb.cpu.registers.get_hl(), 0x0000);
    assert!(gb.cpu.registers.flags.carry);
    assert!(gb.cpu.registers.flags.half_carry);
    assert!(!gb.cpu.registers.flags.negative);
}

#[test]
fn cb_rotates_and_shifts() {
    // LD A,0x81; CB RLC A: 0x03, carry set
    let gb = run(&[0x3E, 0x81, 0xCB, 0x07], 2);
    assert_eq!(gb.cpu.registers.a, 0x03);
    assert!(gb.cpu.registers.flags.carry);
    // LD B,0x01; CB SRL B: 0x00, zero and carry set
    let gb2 = run(&[0x06, 0x01, 0xCB, 0x38], 2);
    assert_eq!(gb2.cpu.registers.b, 0x00);
    assert!(gb2.cpu.registers.flags.zero);
    assert!(gb2.cpu.registers.flags.carry);
}

#[test]
fn cb_bit_set_res() {
    // LD C,0x00; CB SET 3,C; CB BIT 3,C; CB RES 3,C
    let gb = run(&[0x0E, 0x00, 0xCB, 0xD9, 0xCB, 0x59], 3);
    assert_eq!(gb.cpu.registers.c, 0x08);
    assert!(!gb.cpu.registers.flags.zero);
    let gb2 = run(&[0x0E, 0x08, 0xCB, 0x99, 0xCB, 0x59], 3);
    assert_eq!(gb2.cpu.registers.c, 0x00);
    assert!(gb2.cpu.registers.flags.zero);
}

#[test]
fn cb_swap_on_memory_operand() {
    // LD HL,0xC050; LD (HL),0xF1; CB SWAP (HL)
    let gb = run(&[0x21, 0x50, 0xC0, 0x36, 0xF1, 0xCB, 0x36], 3);
    assert_eq!(gb.cpu.interface.read_byte(0xC050), 0x1F);
}

#[test]
fn logic_ops_set_their_flags() {
    // LD A,0xF0; AND 0x0F: zero, H set
    let gb = run(&[0x3E, 0xF0, 0xE6, 0x0F], 2);
    assert_eq!(gb.cpu.registers.a, 0);
    assert!(gb.cpu.registers.flags.zero);
    assert!(gb.cpu.registers.flags.half_carry);
    // LD A,0x0F; XOR 0xFF
    let gb2 = run(&[0x3E, 0x0F, 0xEE, 0xFF], 2);
    assert_eq!(gb2.cpu.registers.a, 0xF0);
    assert!(!gb2.cpu.registers.flags.half_carry);
}

#[test]
fn cp_compares_without_storing() {
    // LD A,0x42; CP 0x42
    let gb = run(&[0x3E, 0x42, 0xFE, 0x42], 2);
    assert_eq!(gb.cpu.registers.a, 0x42);
    assert!(gb.cpu.registers.flags.zero);
    assert!(gb.cpu.registers.flags.negative);
}

#[test]
fn jp_hl_and_ld_sp_hl() {
    // LD HL,0x0123; LD SP,HL; JP (HL)
    let gb = run(&[0x21, 0x23, 0x01, 0xF9, 0xE9], 3);
    assert_eq!(gb.cpu.registers.get_sp(), 0x0123);
    assert_eq!(gb.cpu.registers.get_pc(), 0x0123);
}

#[test]
fn ld_hl_sp_plus_offset() {
    // LD SP,0xFFF8; LD HL,SP+0x08
    let gb = run(&[0x31, 0xF8, 0xFF, 0xF8, 0x08], 2);
    assert_eq!(gb.cpu.registers.get_hl(), 0x0000);
    assert!(gb.cpu.registers.flags.carry);
    assert!(gb.cpu.registers.flags.half_carry);
    assert_eq!(gb.cpu.registers.get_sp(), 0xFFF8);
}

#[test]
fn reti_enables_interrupts_immediately() {
    // CALL-free: push a return address by hand, then RETI.
    let mut rom = vec![0u8; 0x8000];
    rom[0x100] = 0xD9;  // RETI
    let cartridge = RomOnlyCartridge::new(rom).unwrap();
    let mut gb = GameBoy::create(NullScreen, cartridge, Bootrom::new(None), SilentAudio, NullController);
    gb.cpu.push_u16(0x0200);
    gb.tick();
    assert_eq!(gb.cpu.registers.get_pc(), 0x0200);
    assert!(gb.cpu.interface.interrupt_handler.interrupt_master_enabled);
}

#[test]
fn scf_and_ccf_drive_the_carry() {
    let gb = run(&[0x37], 1);
    assert!(gb.cpu.registers.flags.carry);
    let gb2 = run(&[0x37, 0x3F], 2);
    assert!(!gb2.cpu.registers.flags.carry);
}

#[test]
fn cpl_inverts_a() {
    let gb = run(&[0x3E, 0x35, 0x2F], 2);
    assert_eq!(gb.cpu.registers.a, 0xCA);
    assert!(gb.cpu.registers.flags.negative);
    assert!(gb.cpu.registers.flags.half_carry);
}

#[test]
fn adc_and_sbc_use_the_carry() {
    // LD A,0xFF; ADD A,1 (carry out); LD A,0x00; ADC A,0: A=1
    let gb = run(&[0x3E, 0xFF, 0xC6, 0x01, 0x3E, 0x00, 0xCE, 0x00], 4);
    assert_eq!(gb.cpu.registers.a, 0x01);
    // LD A,0x00; SUB 1 (borrow); LD A,0x10; SBC A,0: A=0x0F
    let gb2 = run(&[0x3E, 0x00, 0xD6, 0x01, 0x3E, 0x10, 0xDE, 0x00], 4);
    assert_eq!(gb2.cpu.registers.a, 0x0F);
}

#[test]
fn rla_uses_and_feeds_carry() {
    // SCF; LD A,0x80; RLA: A = 0x01, carry from bit 7
    let gb = run(&[0x37, 0x3E, 0x80, 0x17], 3);
    assert_eq!(gb.cpu.registers.a, 0x01);
    assert!(gb.cpu.registers.flags.carry);
    assert!(!gb.cpu.registers.flags.zero);
}
