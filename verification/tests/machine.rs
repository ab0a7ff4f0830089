use gb_core::boot_rom::Bootrom;
use gb_core::cartridge::RomOnlyCartridge;
use gb_core::color_palette::Color;
use gb_core::gameboy::GameBoy;
use gb_core::input::{Button, Controller};
use gb_core::screen::Screen;
use gb_core::sound::AudioPlayer;

struct NullScreen;

impl Screen for NullScreen {
    fn turn_on(&mut self) {}
    fn turn_off(&mut self) {}
    fn set_pixel(&mut self, _x: u8, _y: u8, _color: Color) {}
    fn draw(&mut self) {}
    fn frame_rate(&self) -> u8 {
        60
    }
}

struct NullController;

impl Controller for NullController {
    fn is_pressed(&self, _button: Button) -> bool {
        false
    }
    fn tick(&self) {}
}

struct SilentAudio;

impl AudioPlayer for SilentAudio {
    fn play(&mut self, _left_samples: &[u16], _right_samples: &[u16]) {}
    fn samples_rate(&self) -> u32 {
        44100
    }
    fn underflowed(&self) -> bool {
        false
    }
}

fn machine_with_program(
    program: &[u8],
) -> GameBoy<NullScreen, RomOnlyCartridge, NullController, SilentAudio> {
    let mut rom = vec![0u8; 0x8000];
    for (i, b) in program.iter().enumerate() {
        rom[0x100 + i] = *b;
    }
    let cartridge = RomOnlyCartridge::new(rom).unwrap();
    GameBoy::create(NullScreen, cartridge, Bootrom::new(None), SilentAudio, NullController)
}

#[test]
fn cpu_only_program_ld_add_stop() {
    // LD A,0x42; LD B,0; ADD A,B; STOP
    let mut gb = machine_with_program(&[0x3E, 0x42, 0x06, 0x00, 0x80, 0x10]);
    let mut cycles: u32 = 0;
    for _ in 0..4 {
        cycles += gb.tick() as u32;
    }
    assert_eq!(gb.cpu.registers.a, 0x42);
    assert!(!gb.cpu.registers.flags.zero);
    assert!(!gb.cpu.registers.flags.negative);
    assert!(!gb.cpu.registers.flags.half_carry);
    assert!(!gb.cpu.registers.flags.carry);
    assert_eq!(cycles, 24);
}

#[test]
fn flags_after_half_carry_add() {
    // LD A,0x0F; ADD A,1
    let mut gb = machine_with_program(&[0x3E, 0x0F, 0xC6, 0x01]);
    gb.tick();
    gb.tick();
    assert_eq!(gb.cpu.registers.a, 0x10);
    assert!(!gb.cpu.registers.flags.zero);
    assert!(gb.cpu.registers.flags.half_carry);
    assert!(!gb.cpu.registers.flags.carry);
    assert!(!gb.cpu.registers.flags.negative);
}

#[test]
fn countdown_loop_terminates_with_exact_cycles() {
    // LD B,3; loop: DEC B; JR NZ,-3
    let mut gb = machine_with_program(&[0x06, 0x03, 0x05, 0x20, 0xFD]);
    let mut cycles: u32 = 0;
    for _ in 0..7 {
        cycles += gb.tick() as u32;
    }
    assert_eq!(gb.cpu.registers.b, 0);
    assert!(gb.cpu.registers.flags.zero);
    assert_eq!(cycles, 52);
}

#[test]
fn interrupt_dispatch_pushes_pc_and_jumps_to_vector() {
    let mut gb = machine_with_program(&[]);
    gb.cpu.registers.set_pc(0x1234);
    gb.cpu.registers.set_sp(0xFFFE);
    gb.cpu.interface.interrupt_handler.set_enabled_interrupts_flag(0x01);
    gb.cpu.interface.interrupt_handler.set_interrupt_flag(0x01);
    gb.cpu.interface.interrupt_handler.change_interrupt_master_enabled(true);
    let cycles = gb.cpu.step();
    assert_eq!(cycles, 20);
    assert_eq!(gb.cpu.registers.get_pc(), 0x0040);
    assert_eq!(gb.cpu.registers.get_sp(), 0xFFFC);
    assert_eq!(gb.cpu.interface.read_byte(0xFFFC), 0x34);
    assert_eq!(gb.cpu.interface.read_byte(0xFFFD), 0x12);
    assert!(!gb.cpu.interface.interrupt_handler.interrupt_master_enabled);
    assert!(!gb.cpu.interface.interrupt_handler.requested_interrupts.vblank);
}

#[test]
fn push_pop_roundtrip_on_machine() {
    let mut gb = machine_with_program(&[]);
    // a high-RAM stack and a work-RAM stack behave alike
    for sp in [0xFFFEu16, 0xC100, 0xDFF0] {
        for value in [0x0000u16, 0x0001, 0x1234, 0xABCD, 0xFFF0, 0xFFFF] {
            gb.cpu.registers.set_sp(sp);
            gb.cpu.push_u16(value);
            assert_eq!(gb.cpu.registers.get_sp(), sp.wrapping_sub(2));
            let popped = gb.cpu.pop_u16();
            assert_eq!(popped, value);
            assert_eq!(gb.cpu.registers.get_sp(), sp);
        }
    }
}

#[test]
fn add_sp_signed_minus_one() {
    // LD SP,0x0005 via set_sp; ADD SP,0xFF decrements SP by one.
    let mut gb = machine_with_program(&[0xE8, 0xFF]);
    gb.cpu.registers.set_sp(0x0005);
    gb.tick();
    assert_eq!(gb.cpu.registers.get_sp(), 0x0004);
    // H and C follow the unsigned addition of the low byte of SP.
    assert!(gb.cpu.registers.flags.half_carry);
    assert!(gb.cpu.registers.flags.carry);
    assert!(!gb.cpu.registers.flags.zero);
    assert!(!gb.cpu.registers.flags.negative);
}

#[test]
fn daa_adjusts_bcd_sum_to_zero_with_carry() {
    // LD A,0x49; ADD A,0x51 gives 0x9A with H=0, C=0; DAA yields 0x00, C=1.
    let mut gb = machine_with_program(&[0x3E, 0x49, 0xC6, 0x51, 0x27]);
    gb.tick();
    gb.tick();
    assert_eq!(gb.cpu.registers.a, 0x9A);
    assert!(!gb.cpu.registers.flags.half_carry);
    assert!(!gb.cpu.registers.flags.carry);
    gb.tick();
    assert_eq!(gb.cpu.registers.a, 0x00);
    assert!(gb.cpu.registers.flags.carry);
    assert!(gb.cpu.registers.flags.zero);
}

#[test]
fn high_page_store_through_c_register() {
    // LD C,0x85; LD A,0x77; LD (0xFF00+C),A
    let mut gb = machine_with_program(&[0x0E, 0x85, 0x3E, 0x77, 0xE2]);
    gb.tick();
    gb.tick();
    gb.tick();
    assert_eq!(gb.cpu.interface.read_byte(0xFF85), 0x77);
}

#[test]
fn every_opcode_costs_a_legal_cycle_count() {
    for op in 0..=255u8 {
        let mut gb = machine_with_program(&[op, 0x00, 0x00]);
        let cycles = gb.tick();
        assert!(cycles >= 4 && cycles <= 24 && cycles % 4 == 0, "opcode {op:#04x}");
    }
    for sub in 0..=255u8 {
        let mut gb = machine_with_program(&[0xCB, sub]);
        let cycles = gb.tick();
        assert!(
            cycles >= 4 && cycles <= 24 && cycles % 4 == 0,
            "prefixed opcode {sub:#04x}"
        );
    }
}

#[test]
fn flag_low_nibble_reads_zero_after_any_instruction() {
    // run a few flag-heavy instructions and check F through AF
    let mut gb = machine_with_program(&[0x3E, 0xFF, 0xC6, 0x01, 0x37, 0x3F, 0x27, 0x2F]);
    for _ in 0..6 {
        gb.tick();
        assert_eq!(gb.cpu.registers.get_af() & 0x000F, 0);
    }
}

#[test]
fn pop_af_masks_low_nibble() {
    // PUSH BC with BC=0x12FF; POP AF; PUSH AF; POP DE
    let mut gb = machine_with_program(&[0xC5, 0xF1, 0xF5, 0xD1]);
    gb.cpu.registers.set_sp(0xFFFE);
    gb.cpu.registers.set_bc(0x12FF);
    gb.tick();
    gb.tick();
    assert_eq!(gb.cpu.registers.get_af(), 0x12F0);
    gb.tick();
    gb.tick();
    assert_eq!(gb.cpu.registers.get_de(), 0x12F0);
}

#[test]
fn illegal_opcode_halts_and_latches_diagnostic() {
    let mut gb = machine_with_program(&[0xD3]);
    let cycles = gb.tick();
    assert_eq!(cycles, 4);
    assert!(gb.illegal_opcode());
}

#[test]
fn halt_wakes_on_pending_interrupt() {
    // HALT, then a timer interrupt request wakes the CPU.
    let mut gb = machine_with_program(&[0x76, 0x3E, 0x07]);
    gb.tick();
    let pc_halted = gb.cpu.registers.get_pc();
    gb.tick();
    // still halted: PC does not move
    assert_eq!(gb.cpu.registers.get_pc(), pc_halted);
    gb.cpu.interface.interrupt_handler.set_enabled_interrupts_flag(0x04);
    gb.cpu.interface.interrupt_handler.set_interrupt_flag(0x04);
    // IME is off, so no dispatch: the CPU simply resumes.
    gb.tick();
    assert_eq!(gb.cpu.registers.a, 0x07);
}

#[test]
fn ei_enable_is_delayed_one_instruction() {
    // EI; NOP; NOP with a pending, enabled interrupt.
    let mut gb = machine_with_program(&[0xFB, 0x00, 0x00]);
    gb.cpu.interface.interrupt_handler.set_enabled_interrupts_flag(0x01);
    gb.cpu.interface.interrupt_handler.set_interrupt_flag(0x01);
    gb.cpu.step();
    // EI executed; the following instruction still runs normally.
    let c = gb.cpu.step();
    assert_eq!(c, 4);
    // now the interrupt is taken
    let c2 = gb.cpu.step();
    assert_eq!(c2, 20);
    assert_eq!(gb.cpu.registers.get_pc(), 0x0040);
}
