use gb_core::color_palette::Color;
use gb_core::input::{Button, Controller};
use gb_core::ppu::{Mode, Palette, Ppu, Shade, TilePixelValue};
use gb_core::screen::Screen;
use std::cell::RefCell;
use std::rc::Rc;

#[derive(Clone)]
struct RecordingScreen {
    pixels: Rc<RefCell<Vec<(u8, u8, Color)>>>,
    frames: Rc<RefCell<u32>>,
}

impl RecordingScreen {
    fn new() -> RecordingScreen {
        RecordingScreen {
            pixels: Rc::new(RefCell::new(Vec::new())),
            frames: Rc::new(RefCell::new(0)),
        }
    }
}

impl Screen for RecordingScreen {
    fn turn_on(&mut self) {}
    fn turn_off(&mut self) {}
    fn set_pixel(&mut self, x: u8, y: u8, color: Color) {
        self.pixels.borrow_mut().push((x, y, color));
    }
    fn draw(&mut self) {
        *self.frames.borrow_mut() += 1;
    }
    fn frame_rate(&self) -> u8 {
        60
    }
}

struct NullController;

impl Controller for NullController {
    fn is_pressed(&self, _button: Button) -> bool {
        false
    }
    fn tick(&self) {}
}

#[test]
fn background_pixel_through_palette() {
    // LCDC=0x91, BGP=0xE4, tile map 0 entry 0 selects tile 1, whose first
    // row is 0xFF,0x00: pixel (0,0) has palette index 1, shade LIGHT.
    let screen = RecordingScreen::new();
    let pixels = screen.pixels.clone();
    let mut ppu = Ppu::new(screen);
    ppu.set_control(0x91);
    ppu.set_bg_palette(0xE4);
    ppu.video_ram.write_tile_map_byte(0x9800, 0x01);
    ppu.video_ram.write_tile_byte(0x8010, 0xFF);
    ppu.video_ram.write_tile_byte(0x8011, 0x00);
    ppu.draw_scan_line();
    // shade level 1 is LIGHT
    assert_eq!(ppu.line_buffer[0], 1);
    let first = pixels.borrow()[0];
    assert_eq!(first.0, 0);
    assert_eq!(first.1, 0);
    assert_eq!(first.2, Color { red: 136, green: 192, blue: 112 });
}

#[test]
fn palette_maps_index_one_to_light() {
    let p = Palette(0xE4);
    assert_eq!(p.shade(TilePixelValue::One), Shade::Light);
    assert_eq!(p.shade(TilePixelValue::Zero), Shade::Lightest);
    assert_eq!(p.shade(TilePixelValue::Three), Shade::Darkest);
}

#[test]
fn frame_takes_70224_cycles_and_one_vblank() {
    let screen = RecordingScreen::new();
    let frames = screen.frames.clone();
    let mut ppu = Ppu::new(screen);
    ppu.set_control(0x80);
    let mut vblanks: u32 = 0;
    let mut saw_153 = false;
    let mut cycles: u64 = 0;
    while cycles < 70224 {
        let irq = ppu.step(4);
        if irq.vblank {
            vblanks += 1;
        }
        if ppu.scanline == 153 {
            saw_153 = true;
        }
        cycles += 4;
    }
    assert_eq!(vblanks, 1);
    assert!(saw_153);
    assert_eq!(ppu.scanline, 0);
    assert_eq!(ppu.line_cycles, 0);
    assert_eq!(*frames.borrow(), 1);
}

#[test]
fn ly_stays_zero_with_lcd_off() {
    let mut ppu = Ppu::new(RecordingScreen::new());
    for _ in 0..5000 {
        let irq = ppu.step(16);
        assert!(!irq.vblank && !irq.stat);
    }
    assert_eq!(ppu.scanline, 0);
    assert_eq!(ppu.current_mode(), Mode::VBlank);
}

#[test]
fn oam_write_read_identity_outside_blocked_modes() {
    let mut ppu = Ppu::new(RecordingScreen::new());
    // LCD off: OAM accessible
    for reladdr in [0u8, 1, 2, 3, 156, 157, 158, 159] {
        ppu.write_oam(reladdr, 0x77);
        assert_eq!(ppu.read_oam(reladdr), 0x77);
    }
    for value in [0u8, 0x10, 0x8F, 0xFF] {
        ppu.write_oam(4, value);
        assert_eq!(ppu.read_oam(4), value);
    }
}

#[test]
fn oam_blocked_during_oam_scan() {
    let mut ppu = Ppu::new(RecordingScreen::new());
    ppu.write_oam(0, 0x55);
    ppu.set_control(0x80);
    // line start: mode 2, reads blocked
    assert_eq!(ppu.current_mode(), Mode::AccessOam);
    assert_eq!(ppu.read_oam(0), 0xFF);
    ppu.write_oam(0, 0x99);
    ppu.step(80);
    assert_eq!(ppu.current_mode(), Mode::AccessVram);
    assert_eq!(ppu.read_oam(0), 0xFF);
    ppu.step(172);
    assert_eq!(ppu.current_mode(), Mode::HBlank);
    // the blocked write was dropped
    assert_eq!(ppu.read_oam(0), 0x55);
}

#[test]
fn stat_reports_mode_and_coincidence() {
    let mut ppu = Ppu::new(RecordingScreen::new());
    // LCD off: fixed bit 7 with the mode field reporting VBlank
    assert_eq!(ppu.get_stat(), 0x81);
    ppu.set_control(0x80);
    ppu.set_compare_line(0);
    // mode 2 at line start, LY==LYC
    assert_eq!(ppu.get_stat(), 0x80 | 0x04 | 0x02);
    ppu.set_stat(0xFF);
    assert_eq!(ppu.get_stat(), 0x80 | 0x78 | 0x04 | 0x02);
}

#[test]
fn sprite_pixel_over_background() {
    let screen = RecordingScreen::new();
    let mut ppu = Ppu::new(screen);
    // background stays at tile 0 (all zero); sprite 0 at top-left uses
    // tile 2 whose first row is opaque index 3. OAM is written while the
    // LCD is still off, so the writes are not mode-blocked.
    ppu.video_ram.write_tile_byte(0x8020, 0xFF);
    ppu.video_ram.write_tile_byte(0x8021, 0xFF);
    ppu.write_oam(0, 16);  // y byte: top line
    ppu.write_oam(1, 8);  // x byte: left column
    ppu.write_oam(2, 2);  // tile
    ppu.write_oam(3, 0);  // flags
    // LCD on, BG on, OBJ on, unsigned tiles
    ppu.set_control(0x93);
    ppu.set_bg_palette(0xE4);
    ppu.set_obj_palette0(0xE4);
    ppu.draw_scan_line();
    // index 3 through palette 0xE4 is level 3
    assert_eq!(ppu.line_buffer[0], 3);
    assert_eq!(ppu.line_buffer[7], 3);
    // past the sprite the background shows level 0
    assert_eq!(ppu.line_buffer[8], 0);
}

#[test]
fn sprite_with_priority_hides_behind_opaque_background() {
    let mut ppu = Ppu::new(RecordingScreen::new());
    // background tile 1 is opaque (index 1) over the first eight columns;
    // the sprite carries the background-priority flag and must lose there
    // but win over the transparent background that follows.
    ppu.video_ram.write_tile_map_byte(0x9800, 0x01);
    ppu.video_ram.write_tile_byte(0x8010, 0xFF);
    ppu.video_ram.write_tile_byte(0x8011, 0x00);
    ppu.video_ram.write_tile_byte(0x8020, 0xFF);
    ppu.video_ram.write_tile_byte(0x8021, 0xFF);
    ppu.write_oam(0, 16);  // y: top line
    ppu.write_oam(1, 12);  // x: columns 4..12
    ppu.write_oam(2, 2);  // tile with opaque index 3
    ppu.write_oam(3, 0x80);  // behind-background priority
    ppu.set_control(0x93);
    ppu.set_bg_palette(0xE4);
    ppu.set_obj_palette0(0xE4);
    ppu.draw_scan_line();
    // over the opaque background the sprite is hidden: level stays 1
    assert_eq!(ppu.line_buffer[4], 1);
    assert_eq!(ppu.line_buffer[7], 1);
    // past the tile the background is transparent and the sprite shows
    assert_eq!(ppu.line_buffer[8], 3);
    assert_eq!(ppu.line_buffer[11], 3);
    // and past the sprite nothing is drawn over the background
    assert_eq!(ppu.line_buffer[12], 0);
    // the opacity mask recorded exactly the opaque background columns
    assert!(ppu.background_mask.contains(0));
    assert!(ppu.background_mask.contains(7));
    assert!(!ppu.background_mask.contains(8));
}

#[test]
fn window_overrides_background() {
    let mut ppu = Ppu::new(RecordingScreen::new());
    // LCD, BG and window on; window map 1, unsigned tiles
    ppu.set_control(0xF1);
    ppu.set_bg_palette(0xE4);
    ppu.set_window_x(7);
    ppu.set_window_y(0);
    // window map entry 0 selects tile 1 with an opaque first row
    ppu.video_ram.write_tile_map_byte(0x9C00, 0x01);
    ppu.video_ram.write_tile_byte(0x8010, 0xFF);
    ppu.video_ram.write_tile_byte(0x8011, 0x00);
    ppu.draw_scan_line();
    assert_eq!(ppu.line_buffer[0], 1);
}
