use gb_core::boot_rom::{Bootrom, BootromData};
use gb_core::cartridge::RomOnlyCartridge;
use gb_core::color_palette::Color;
use gb_core::hardware::Hardware;
use gb_core::input::{Button, Controller};
use gb_core::screen::Screen;
use gb_core::sound::AudioPlayer;

struct NullScreen;

impl Screen for NullScreen {
    fn turn_on(&mut self) {}
    fn turn_off(&mut self) {}
    fn set_pixel(&mut self, _x: u8, _y: u8, _color: Color) {}
    fn draw(&mut self) {}
    fn frame_rate(&self) -> u8 {
        60
    }
}

struct NullController;

impl Controller for NullController {
    fn is_pressed(&self, _button: Button) -> bool {
        false
    }
    fn tick(&self) {}
}

struct SilentAudio;

impl AudioPlayer for SilentAudio {
    fn play(&mut self, _left_samples: &[u16], _right_samples: &[u16]) {}
    fn samples_rate(&self) -> u32 {
        44100
    }
    fn underflowed(&self) -> bool {
        false
    }
}

fn bus() -> Hardware<NullScreen, RomOnlyCartridge, NullController, SilentAudio> {
    let mut rom = vec![0u8; 0x8000];
    rom[0x0000] = 0xAA;
    rom[0x7FFF] = 0xBB;
    let cartridge = RomOnlyCartridge::new(rom).unwrap();
    Hardware::create(NullScreen, cartridge, Bootrom::new(None), SilentAudio, NullController)
}

#[test]
fn rom_reads_come_from_the_cartridge_and_writes_are_dropped() {
    let mut hw = bus();
    assert_eq!(hw.read_byte(0x0000), 0xAA);
    assert_eq!(hw.read_byte(0x7FFF), 0xBB);
    hw.write_byte(0x0000, 0x55);
    assert_eq!(hw.read_byte(0x0000), 0xAA);
}

#[test]
fn work_ram_echo_mirrors_both_banks() {
    let mut hw = bus();
    hw.write_byte(0xC000, 0x11);
    hw.write_byte(0xDDFF, 0x22);
    assert_eq!(hw.read_byte(0xE000), 0x11);
    assert_eq!(hw.read_byte(0xFDFF), 0x22);
    hw.write_byte(0xE001, 0x33);
    assert_eq!(hw.read_byte(0xC001), 0x33);
}

#[test]
fn unusable_range_reads_ff() {
    let mut hw = bus();
    hw.write_byte(0xFEA0, 0x42);
    assert_eq!(hw.read_byte(0xFEA0), 0xFF);
    assert_eq!(hw.read_byte(0xFEFF), 0xFF);
}

#[test]
fn vram_roundtrip_through_the_bus() {
    let mut hw = bus();
    hw.write_byte(0x8000, 0x3C);
    assert_eq!(hw.read_byte(0x8000), 0x3C);
    hw.write_byte(0x9800, 0x07);
    assert_eq!(hw.read_byte(0x9800), 0x07);
    hw.write_byte(0x9FFF, 0x09);
    assert_eq!(hw.read_byte(0x9FFF), 0x09);
}

#[test]
fn hram_roundtrip_through_the_bus() {
    let mut hw = bus();
    hw.write_byte(0xFF80, 0x12);
    hw.write_byte(0xFFFE, 0x34);
    assert_eq!(hw.read_byte(0xFF80), 0x12);
    assert_eq!(hw.read_byte(0xFFFE), 0x34);
}

#[test]
fn div_write_resets_the_counter() {
    let mut hw = bus();
    for _ in 0..32 {
        hw.timer.step(16);
    }
    assert_eq!(hw.read_byte(0xFF04), 2);
    hw.write_byte(0xFF04, 0x77);
    assert_eq!(hw.read_byte(0xFF04), 0);
}

#[test]
fn interrupt_registers_read_high_bits_as_one() {
    let mut hw = bus();
    hw.write_byte(0xFFFF, 0xFF);
    assert_eq!(hw.read_byte(0xFFFF), 0xFF);
    assert_eq!(hw.read_byte(0xFFFF) & 0xE0, 0xE0);
    hw.write_byte(0xFF0F, 0x00);
    assert_eq!(hw.read_byte(0xFF0F), 0xE0);
}

#[test]
fn dma_copies_a_block_into_oam() {
    let mut hw = bus();
    for i in 0..0xA0u16 {
        hw.write_byte(0xC000 + i, (0x10 + i % 0x60) as u8);
    }
    hw.write_byte(0xFF46, 0xC0);
    assert_eq!(hw.read_byte(0xFF46), 0xC0);
    for i in 0..0xA0u16 {
        assert_eq!(hw.read_byte(0xFE00 + i), (0x10 + i % 0x60) as u8, "byte {i}");
    }
}

#[test]
fn boot_rom_overlays_and_write_disables_it() {
    let mut rom = vec![0u8; 0x8000];
    rom[0x0000] = 0xAA;
    let cartridge = RomOnlyCartridge::new(rom).unwrap();
    let mut boot_data = vec![0u8; 0x100];
    boot_data[0] = 0xEE;
    let boot = Bootrom::new(Some(BootromData::from_bytes(boot_data).unwrap()));
    let mut hw = Hardware::create(NullScreen, cartridge, boot, SilentAudio, NullController);
    assert_eq!(hw.read_byte(0x0000), 0xEE);
    // an even value leaves the overlay in place
    hw.write_byte(0xFF50, 0x00);
    assert_eq!(hw.read_byte(0x0000), 0xEE);
    hw.write_byte(0xFF50, 0x01);
    assert_eq!(hw.read_byte(0x0000), 0xAA);
}

#[test]
fn ppu_registers_through_the_bus() {
    let mut hw = bus();
    hw.write_byte(0xFF42, 0x13);
    hw.write_byte(0xFF43, 0x24);
    hw.write_byte(0xFF47, 0xE4);
    hw.write_byte(0xFF4A, 0x35);
    hw.write_byte(0xFF4B, 0x46);
    assert_eq!(hw.read_byte(0xFF42), 0x13);
    assert_eq!(hw.read_byte(0xFF43), 0x24);
    assert_eq!(hw.read_byte(0xFF47), 0xE4);
    assert_eq!(hw.read_byte(0xFF4A), 0x35);
    assert_eq!(hw.read_byte(0xFF4B), 0x46);
    // LY reads the current line and a write resets it
    assert_eq!(hw.read_byte(0xFF44), 0);
    // STAT with the LCD off reads its fixed bit and mode 1
    assert_eq!(hw.read_byte(0xFF41), 0x81);
}

#[test]
fn joypad_write_clears_the_key_lines() {
    let mut hw = bus();
    // force a pressed key line, then write the select bits: the lines
    // read released until the next poll
    hw.input_controller.register.key0 = true;
    hw.write_byte(0xFF00, 0x10);
    assert_eq!(hw.read_byte(0xFF00) & 0x0F, 0x0F);
}

#[test]
fn joypad_row_select_is_active_low() {
    let mut hw = bus();
    // select neither row: the key lines read released (high)
    hw.write_byte(0xFF00, 0x30);
    assert_eq!(hw.read_byte(0xFF00), 0xFF);
    // select the button row (bit 5 low)
    hw.write_byte(0xFF00, 0x10);
    assert_eq!(hw.read_byte(0xFF00) & 0x30, 0x10);
}

#[test]
fn audio_registers_store_and_read_back() {
    let mut hw = bus();
    hw.write_byte(0xFF10, 0x80);
    hw.write_byte(0xFF26, 0x8F);
    hw.write_byte(0xFF3F, 0x5A);
    assert_eq!(hw.read_byte(0xFF10), 0x80);
    assert_eq!(hw.read_byte(0xFF26), 0x8F);
    assert_eq!(hw.read_byte(0xFF3F), 0x5A);
}
