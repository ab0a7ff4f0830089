use crate::alu::{bit_of, bit_mask, spec_bit, spec_bit_mask};
use crate::bitmask::{mask_view, LineMask};
use crate::color_palette::{Color, ColorPalette};
use crate::screen::Screen;
use vstd::prelude::*;

verus! {

/// A gray shade as the screen shows it, lightest first.
#[derive(Clone, Copy, Debug, PartialEq, Eq, Structural)]
pub enum Shade {
    Lightest,
    Light,
    Dark,
    Darkest,
}

impl Shade {
    /// The shade for a 2-bit gray level.
    pub open spec fn spec_from_level(v: u8) -> Shade {
        if v % 4 == 0 {
            Shade::Lightest
        } else if v % 4 == 1 {
            Shade::Light
        } else if v % 4 == 2 {
            Shade::Dark
        } else {
            Shade::Darkest
        }
    }

    pub fn from_level(v: u8) -> (r: Shade)
        ensures
            r == Shade::spec_from_level(v),
    {
        if v % 4 == 0 {
            Shade::Lightest
        } else if v % 4 == 1 {
            Shade::Light
        } else if v % 4 == 2 {
            Shade::Dark
        } else {
            Shade::Darkest
        }
    }

    pub open spec fn spec_level(self) -> u8 {
        match self {
            Shade::Lightest => 0,
            Shade::Light => 1,
            Shade::Dark => 2,
            Shade::Darkest => 3,
        }
    }

    pub fn level(self) -> (r: u8)
        ensures
            r == self.spec_level(),
    {
        match self {
            Shade::Lightest => 0,
            Shade::Light => 1,
            Shade::Dark => 2,
            Shade::Darkest => 3,
        }
    }
}

/// A 2-bit tile pixel value before palette mapping.
#[derive(Clone, Copy, Debug, PartialEq, Eq, Structural)]
pub enum TilePixelValue {
    Zero,
    One,
    Two,
    Three,
}

impl TilePixelValue {
    pub open spec fn spec_value(self) -> u8 {
        match self {
            TilePixelValue::Zero => 0,
            TilePixelValue::One => 1,
            TilePixelValue::Two => 2,
            TilePixelValue::Three => 3,
        }
    }

    pub fn value(self) -> (r: u8)
        ensures
            r == self.spec_value(),
    {
        match self {
            TilePixelValue::Zero => 0,
            TilePixelValue::One => 1,
            TilePixelValue::Two => 2,
            TilePixelValue::Three => 3,
        }
    }

    pub open spec fn spec_from_value(v: u8) -> TilePixelValue {
        if v % 4 == 0 {
            TilePixelValue::Zero
        } else if v % 4 == 1 {
            TilePixelValue::One
        } else if v % 4 == 2 {
            TilePixelValue::Two
        } else {
            TilePixelValue::Three
        }
    }

    pub fn from_value(v: u8) -> (r: TilePixelValue)
        ensures
            r == TilePixelValue::spec_from_value(v),
    {
        if v % 4 == 0 {
            TilePixelValue::Zero
        } else if v % 4 == 1 {
            TilePixelValue::One
        } else if v % 4 == 2 {
            TilePixelValue::Two
        } else {
            TilePixelValue::Three
        }
    }
}

/// A palette byte packing four 2-bit shade levels, entry 0 in the low bits.
#[derive(Clone, Copy, Debug, PartialEq, Eq, Structural)]
pub struct Palette(pub u8);

/// The 2-bit level a palette assigns to a 2-bit pixel value.
pub open spec fn spec_palette_level(palette: u8, input: u8) -> u8 {
    (palette / spec_bit_mask(((input % 4) * 2) as u8)) % 4
}

impl Palette {
    /// Map a tile pixel value through the palette to its shade.
    pub fn shade(&self, input: TilePixelValue) -> (r: Shade)
        ensures
            r == Shade::spec_from_level(spec_palette_level(self.0, input.spec_value())),
    {
        let level = self.0 / bit_mask(input.value() * 2) % 4;
        Shade::from_level(level)
    }
}

/// One pixel of a tile row: its low bit in `lo`, its high bit in `hi`,
/// column 0 at the leftmost, highest bit.
pub open spec fn spec_pixel_from_bytes(lo: u8, hi: u8, col: int) -> u8 {
    (spec_bit(lo, (7 - col) as u8) + 2 * spec_bit(hi, (7 - col) as u8)) as u8
}

/// Pixel `col` of row `row` of tile `tile` in raw tile memory: two
/// interleaved bytes per row, sixteen bytes per tile.
pub open spec fn spec_tile_pixel(tiles: Seq<u8>, tile: int, row: int, col: int) -> u8 {
    spec_pixel_from_bytes(tiles[tile * 16 + 2 * row], tiles[tile * 16 + 2 * row + 1], col)
}

/// The tile a map entry selects: in unsigned mode the raw byte indexes from
/// the low tile block, in signed mode it offsets around tile 256.
pub open spec fn spec_tile_number(unsigned_mode: bool, raw: u8) -> int {
    if unsigned_mode {
        raw as int
    } else if raw < 128 {
        256 + raw
    } else {
        raw as int
    }
}

/// One 8x8 tile, copied out of tile memory as its sixteen raw bytes.
pub struct Tile {
    pub bytes: Vec<u8>,
}

impl Tile {
    pub open spec fn view(&self) -> Seq<u8> {
        self.bytes@
    }

    pub open spec fn wf(&self) -> bool {
        self.bytes@.len() == 16
    }

    pub fn new() -> (r: Tile)
        ensures
            r.wf(),
            forall|i: int| 0 <= i < 16 ==> r@[i] == 0u8,
    {
        let mut bytes: Vec<u8> = Vec::new();
        let mut i: usize = 0;
        while i < 16
            invariant
                i <= 16,
                bytes@.len() == i,
                forall|j: int| 0 <= j < i ==> bytes@[j] == 0u8,
            decreases 16 - i,
        {
            bytes.push(0);
            i = i + 1;
        }
        Tile { bytes }
    }

    /// The 2-bit pixel value at column `x % 8` of row `y % 8`.
    pub fn pixel_at(&self, x: u8, y: u8) -> (r: u8)
        requires
            self.wf(),
        ensures
            r == spec_tile_pixel(self@, 0, (y % 8) as int, (x % 8) as int),
            r < 4,
    {
        let row = (y % 8) as usize;
        let col = x % 8;
        let lo = self.bytes[2 * row];
        let hi = self.bytes[2 * row + 1];
        bit_of(lo, 7 - col) + 2 * bit_of(hi, 7 - col)
    }

    /// The shade at column `x % 8` of row `y % 8` under the palette.
    pub fn shade_at(&self, x: u8, y: u8, palette: &Palette) -> (r: Shade)
        requires
            self.wf(),
        ensures
            r == Shade::spec_from_level(
                spec_palette_level(
                    palette.0,
                    spec_tile_pixel(self@, 0, (y % 8) as int, (x % 8) as int),
                ),
            ),
    {
        let pix = self.pixel_at(x, y);
        palette.shade(TilePixelValue::from_value(pix))
    }
}

/// Raw video memory: 384 tiles of sixteen bytes and the two 32x32 tile
/// maps.
pub struct VideoRam {
    pub tiles: Vec<u8>,
    pub tile_map0: Vec<u8>,
    pub tile_map1: Vec<u8>,
}

impl VideoRam {
    pub open spec fn wf(&self) -> bool {
        &&& self.tiles@.len() == 0x1800
        &&& self.tile_map0@.len() == 0x400
        &&& self.tile_map1@.len() == 0x400
    }

    pub fn new() -> (r: VideoRam)
        ensures
            r.wf(),
            forall|i: int| 0 <= i < 0x1800 ==> r.tiles@[i] == 0u8,
            forall|i: int| 0 <= i < 0x400 ==> r.tile_map0@[i] == 0u8 && r.tile_map1@[i] == 0u8,
    {
        VideoRam {
            tiles: crate::util::zero_vec(0x1800),
            tile_map0: crate::util::zero_vec(0x400),
            tile_map1: crate::util::zero_vec(0x400),
        }
    }

    /// Read a tile map byte; addresses 0x9800 to 0x9BFF select map 0 and
    /// 0x9C00 to 0x9FFF map 1.
    pub fn read_tile_map_byte(&self, address: u16) -> (r: u8)
        requires
            self.wf(),
            0x9800 <= address < 0xA000,
        ensures
            address < 0x9C00 ==> r == self.tile_map0@[address - 0x9800],
            address >= 0x9C00 ==> r == self.tile_map1@[address - 0x9C00],
    {
        if address < 0x9C00 {
            self.tile_map0[(address - 0x9800) as usize]
        } else {
            self.tile_map1[(address - 0x9C00) as usize]
        }
    }

    pub fn write_tile_map_byte(&mut self, address: u16, value: u8)
        requires
            old(self).wf(),
            0x9800 <= address < 0xA000,
        ensures
            final(self).wf(),
            final(self).tiles@ == old(self).tiles@,
            address < 0x9C00 ==> final(self).tile_map0@ == old(self).tile_map0@.update(
                address - 0x9800,
                value,
            ) && final(self).tile_map1@ == old(self).tile_map1@,
            address >= 0x9C00 ==> final(self).tile_map1@ == old(self).tile_map1@.update(
                address - 0x9C00,
                value,
            ) && final(self).tile_map0@ == old(self).tile_map0@,
    {
        if address < 0x9C00 {
            self.tile_map0[(address - 0x9800) as usize] = value;
        } else {
            self.tile_map1[(address - 0x9C00) as usize] = value;
        }
    }

    /// Read a raw byte of tile memory at 0x8000 to 0x97FF.
    pub fn read_tile_byte(&self, address: u16) -> (r: u8)
        requires
            self.wf(),
            0x8000 <= address < 0x9800,
        ensures
            r == self.tiles@[address - 0x8000],
    {
        self.tiles[(address - 0x8000) as usize]
    }

    pub fn write_tile_byte(&mut self, address: u16, value: u8)
        requires
            old(self).wf(),
            0x8000 <= address < 0x9800,
        ensures
            final(self).wf(),
            final(self).tiles@ == old(self).tiles@.update(address - 0x8000, value),
            final(self).tile_map0@ == old(self).tile_map0@,
            final(self).tile_map1@ == old(self).tile_map1@,
    {
        self.tiles[(address - 0x8000) as usize] = value;
    }

    /// Write anywhere in video memory, 0x8000 to 0x9FFF.
    pub fn set_byte(&mut self, address: u16, value: u8)
        requires
            old(self).wf(),
            0x8000 <= address < 0xA000,
        ensures
            final(self).wf(),
            address < 0x9800 ==> final(self).tiles@ == old(self).tiles@.update(
                address - 0x8000,
                value,
            ) && final(self).tile_map0@ == old(self).tile_map0@ && final(self).tile_map1@ == old(
                self,
            ).tile_map1@,
            0x9800 <= address < 0x9C00 ==> final(self).tile_map0@ == old(
                self,
            ).tile_map0@.update(address - 0x9800, value) && final(self).tiles@ == old(self).tiles@
                && final(self).tile_map1@ == old(self).tile_map1@,
            address >= 0x9C00 ==> final(self).tile_map1@ == old(self).tile_map1@.update(
                address - 0x9C00,
                value,
            ) && final(self).tiles@ == old(self).tiles@ && final(self).tile_map0@ == old(
                self,
            ).tile_map0@,
    {
        if address < 0x9800 {
            self.write_tile_byte(address, value);
        } else {
            self.write_tile_map_byte(address, value);
        }
    }

    /// Read anywhere in video memory, 0x8000 to 0x9FFF.
    pub fn get_byte(&self, address: u16) -> (r: u8)
        requires
            self.wf(),
            0x8000 <= address < 0xA000,
        ensures
            address < 0x9800 ==> r == self.tiles@[address - 0x8000],
            0x9800 <= address < 0x9C00 ==> r == self.tile_map0@[address - 0x9800],
            address >= 0x9C00 ==> r == self.tile_map1@[address - 0x9C00],
    {
        if address < 0x9800 {
            self.read_tile_byte(address)
        } else {
            self.read_tile_map_byte(address)
        }
    }

    /// The tile map entry at column `tx`, row `ty` of the chosen map.
    pub open spec fn spec_map_entry(&self, map1: bool, tx: int, ty: int) -> u8 {
        if map1 {
            self.tile_map1@[ty * 32 + tx]
        } else {
            self.tile_map0@[ty * 32 + tx]
        }
    }

    pub fn map_entry(&self, map1: bool, tx: u8, ty: u8) -> (r: u8)
        requires
            self.wf(),
            tx < 32,
            ty < 32,
        ensures
            r == self.spec_map_entry(map1, tx as int, ty as int),
    {
        let idx = (ty as usize) * 32 + (tx as usize);
        if map1 {
            self.tile_map1[idx]
        } else {
            self.tile_map0[idx]
        }
    }

    /// Copy one tile out of tile memory.
    pub fn tile_copy(&self, tile_number: usize) -> (r: Tile)
        requires
            self.wf(),
            tile_number < 384,
        ensures
            r.wf(),
            r@ == self.tiles@.subrange(tile_number * 16, tile_number * 16 + 16),
    {
        let mut bytes: Vec<u8> = Vec::new();
        let mut i: usize = 0;
        while i < 16
            invariant
                self.wf(),
                tile_number < 384,
                i <= 16,
                bytes@.len() == i,
                forall|j: int| 0 <= j < i ==> bytes@[j] == self.tiles@[tile_number * 16 + j],
            decreases 16 - i,
        {
            bytes.push(self.tiles[tile_number * 16 + i]);
            i = i + 1;
        }
        proof {
            assert(bytes@ =~= self.tiles@.subrange(
                tile_number * 16,
                tile_number * 16 + 16,
            ));
        }
        Tile { bytes }
    }
}

/// One sprite descriptor. The stored x and y are already adjusted by the
/// hardware offsets: `y` is the top scanline the sprite covers and `x` its
/// leftmost column.
#[derive(Clone, Copy, Debug, PartialEq, Eq, Structural)]
pub struct Sprite {
    pub sprite_num: u8,
    pub x: u8,
    pub y: u8,
    pub tile_number: u8,
    pub flags: u8,
}

impl Sprite {
    pub fn new(sprite_num: u8) -> (r: Sprite)
        ensures
            r == (Sprite { sprite_num, x: 0, y: 0, tile_number: 0, flags: 0 }),
    {
        Sprite { sprite_num, x: 0, y: 0, tile_number: 0, flags: 0 }
    }

    /// OBP1 is selected by flag bit 4.
    pub open spec fn spec_uses_palette1(self) -> bool {
        spec_bit(self.flags, 4) == 1
    }

    /// Horizontal flip, flag bit 5.
    pub open spec fn spec_flip_x(self) -> bool {
        spec_bit(self.flags, 5) == 1
    }

    /// Vertical flip, flag bit 6.
    pub open spec fn spec_flip_y(self) -> bool {
        spec_bit(self.flags, 6) == 1
    }

    /// Background priority, flag bit 7: the sprite hides behind opaque
    /// background pixels.
    pub open spec fn spec_behind_background(self) -> bool {
        spec_bit(self.flags, 7) == 1
    }

    /// Whether the sprite covers scanline `ly` at sprite height `height`.
    pub open spec fn spec_on_scanline(self, ly: u8, height: int) -> bool {
        self.y <= ly < self.y + height
    }

    pub fn is_on_scan_line(&self, ly: u8, large: bool) -> (r: bool)
        ensures
            r == self.spec_on_scanline(
                ly,
                if large {
                    16int
                } else {
                    8int
                },
            ),
    {
        let height: u16 = if large {
            16
        } else {
            8
        };
        self.y <= ly && (ly as u16) < self.y as u16 + height
    }
}

/// The four scanline modes.
#[derive(Clone, Copy, Debug, PartialEq, Eq, Structural)]
pub enum Mode {
    AccessOam,
    AccessVram,
    HBlank,
    VBlank,
}

impl Mode {
    /// The mode number the STAT register reports.
    pub open spec fn spec_bits(self) -> u8 {
        match self {
            Mode::AccessOam => 2,
            Mode::AccessVram => 3,
            Mode::HBlank => 0,
            Mode::VBlank => 1,
        }
    }

    pub fn bits(self) -> (r: u8)
        ensures
            r == self.spec_bits(),
    {
        match self {
            Mode::AccessOam => 2,
            Mode::AccessVram => 3,
            Mode::HBlank => 0,
            Mode::VBlank => 1,
        }
    }

    /// The T-cycles the mode occupies of each line: 80 for the OAM scan,
    /// 172 for pixel transfer, 204 of HBlank (456 per line), and 456 per
    /// VBlank line.
    pub open spec fn spec_minimum_cycles(self) -> u16 {
        match self {
            Mode::AccessOam => 80,
            Mode::AccessVram => 172,
            Mode::HBlank => 204,
            Mode::VBlank => 456,
        }
    }

    pub fn minimum_cycles(self) -> (r: u16)
        ensures
            r == self.spec_minimum_cycles(),
    {
        match self {
            Mode::AccessOam => 80,
            Mode::AccessVram => 172,
            Mode::HBlank => 204,
            Mode::VBlank => 456,
        }
    }
}

/// The interrupt lines one PPU step may pull.
#[derive(Clone, Copy, Debug, PartialEq, Eq, Structural)]
pub struct PpuIrq {
    pub vblank: bool,
    pub stat: bool,
}

impl PpuIrq {
    pub open spec fn spec_none() -> PpuIrq {
        PpuIrq { vblank: false, stat: false }
    }
}

/// The picture processing unit: a scanline state machine over raw video
/// memory, the sprite table and the palette registers, pushing pixels into
/// the host screen.
///
/// Timing is the fixed 80/172/204 split of each 456-cycle line; the small
/// SCX-dependent adjustment of the pixel-transfer window is not modeled.
/// The STAT coincidence bit is derived live from LY and LYC rather than
/// stored.
pub struct Ppu<T: Screen> {
    pub screen: T,
    pub color_palette: ColorPalette,
    pub background_palette: Palette,
    pub obj_palette0: Palette,
    pub obj_palette1: Palette,
    /// The current line LY, 0 to 153.
    pub scanline: u8,
    /// T-cycles consumed within the current line, 0 to 455.
    pub line_cycles: u16,
    /// The LCDC control byte.
    pub control: u8,
    /// The writable STAT interrupt-source bits, bits 3 to 6.
    pub stat: u8,
    /// The compare line LYC.
    pub compare_line: u8,
    pub scroll_x: u8,
    pub scroll_y: u8,
    pub window_x: u8,
    pub window_y: u8,
    pub video_ram: VideoRam,
    pub sprites: Vec<Sprite>,
    /// Which x positions of the current line hold an opaque background
    /// pixel; sprites with background priority hide behind them.
    pub background_mask: LineMask,
    /// The shade levels of the line rendered last, 160 entries.
    pub line_buffer: Vec<u8>,
}

impl<T: Screen> Ppu<T> {
    pub open spec fn wf(&self) -> bool {
        &&& self.video_ram.wf()
        &&& self.sprites@.len() == 40
        &&& self.line_buffer@.len() == 160
        &&& self.scanline < 154
        &&& self.line_cycles < 456
        &&& self.stat < 128
        &&& self.stat % 8 == 0
        &&& forall|i: nat| mask_view(self.background_mask).contains(i) ==> i < 160
    }

    pub open spec fn spec_lcd_on(&self) -> bool {
        spec_bit(self.control, 7) == 1
    }

    pub open spec fn spec_bg_on(&self) -> bool {
        spec_bit(self.control, 0) == 1
    }

    pub open spec fn spec_obj_on(&self) -> bool {
        spec_bit(self.control, 1) == 1
    }

    pub open spec fn spec_large_sprites(&self) -> bool {
        spec_bit(self.control, 2) == 1
    }

    pub open spec fn spec_sprite_height(&self) -> int {
        if self.spec_large_sprites() {
            16
        } else {
            8
        }
    }

    pub open spec fn spec_bg_map1(&self) -> bool {
        spec_bit(self.control, 3) == 1
    }

    pub open spec fn spec_unsigned_tiles(&self) -> bool {
        spec_bit(self.control, 4) == 1
    }

    pub open spec fn spec_window_on(&self) -> bool {
        spec_bit(self.control, 5) == 1
    }

    pub open spec fn spec_window_map1(&self) -> bool {
        spec_bit(self.control, 6) == 1
    }

    /// The mode the PPU is in, derived from the line position; with the
    /// LCD off it reports VBlank.
    pub open spec fn spec_mode(&self) -> Mode {
        if !self.spec_lcd_on() {
            Mode::VBlank
        } else if self.scanline >= 144 {
            Mode::VBlank
        } else if self.line_cycles < 80 {
            Mode::AccessOam
        } else if self.line_cycles < 252 {
            Mode::AccessVram
        } else {
            Mode::HBlank
        }
    }

    pub fn current_mode(&self) -> (r: Mode)
        ensures
            r == self.spec_mode(),
    {
        if self.control / 128 % 2 == 0 {
            Mode::VBlank
        } else if self.scanline >= 144 {
            Mode::VBlank
        } else if self.line_cycles < 80 {
            Mode::AccessOam
        } else if self.line_cycles < 252 {
            Mode::AccessVram
        } else {
            Mode::HBlank
        }
    }

    /// The position within the 70,224-cycle frame.
    pub open spec fn spec_frame_pos(&self) -> int {
        self.scanline * 456 + self.line_cycles
    }

    pub fn new(screen: T) -> (r: Ppu<T>)
        ensures
            r.wf(),
            r.scanline == 0,
            r.line_cycles == 0,
            r.control == 0,
            r.stat == 0,
            r.compare_line == 0,
            r.scroll_x == 0,
            r.scroll_y == 0,
            r.window_x == 0,
            r.window_y == 0,
            r.background_palette == (Palette(0)),
            r.obj_palette0 == (Palette(0)),
            r.obj_palette1 == (Palette(0)),
            r.color_palette == ColorPalette::spec_original_green(),
    {
        let mut sprites: Vec<Sprite> = Vec::new();
        let mut i: u8 = 0;
        while i < 40
            invariant
                i <= 40,
                sprites@.len() == i,
            decreases 40 - i,
        {
            sprites.push(Sprite::new(i));
            i = i + 1;
        }
        Ppu {
            screen,
            color_palette: ColorPalette::original_green(),
            background_palette: Palette(0),
            obj_palette0: Palette(0),
            obj_palette1: Palette(0),
            scanline: 0,
            line_cycles: 0,
            control: 0,
            stat: 0,
            compare_line: 0,
            scroll_x: 0,
            scroll_y: 0,
            window_x: 0,
            window_y: 0,
            video_ram: VideoRam::new(),
            sprites,
            background_mask: LineMask::new(),
            line_buffer: crate::util::zero_vec(160),
        }
    }

    /// Restore the post-boot register values.
    pub fn reset(&mut self)
        requires
            old(self).wf(),
        ensures
            final(self).wf(),
            *final(self) == (Ppu {
                control: 0x91u8,
                scroll_x: 0u8,
                scroll_y: 0u8,
                compare_line: 0u8,
                background_palette: (Palette(0xFC)),
                obj_palette0: (Palette(0xFF)),
                obj_palette1: (Palette(0xFF)),
                window_x: 0u8,
                window_y: 0u8,
                ..*old(self)
            }),
    {
        self.control = 0x91;
        self.scroll_y = 0x00;
        self.scroll_x = 0x00;
        self.compare_line = 0x00;
        self.background_palette = Palette(0xFC);
        self.obj_palette0 = Palette(0xFF);
        self.obj_palette1 = Palette(0xFF);
        self.window_x = 0x00;
        self.window_y = 0x00;
    }

    pub fn get_control(&self) -> (r: u8)
        ensures
            r == self.control,
    {
        self.control
    }

    /// How a write of `value` to LCDC relates the old PPU state to the
    /// new: only the control byte moves, except that turning the LCD off
    /// parks the PPU at the top of the frame.
    pub open spec fn spec_set_control_rel(pre: Ppu<T>, value: u8, post: Ppu<T>) -> bool {
        let turned_off = pre.spec_lcd_on() && spec_bit(value, 7) == 0;
        &&& post.control == value
        &&& (turned_off ==> post.scanline == 0 && post.line_cycles == 0)
        &&& (!turned_off ==> post.scanline == pre.scanline && post.line_cycles == pre.line_cycles)
        &&& post.stat == pre.stat
        &&& post.compare_line == pre.compare_line
        &&& post.scroll_x == pre.scroll_x
        &&& post.scroll_y == pre.scroll_y
        &&& post.window_x == pre.window_x
        &&& post.window_y == pre.window_y
        &&& post.background_palette == pre.background_palette
        &&& post.obj_palette0 == pre.obj_palette0
        &&& post.obj_palette1 == pre.obj_palette1
        &&& post.video_ram == pre.video_ram
        &&& post.sprites@ == pre.sprites@
        &&& post.background_mask == pre.background_mask
        &&& post.line_buffer@ == pre.line_buffer@
        &&& post.color_palette == pre.color_palette
    }

    /// Write LCDC. Turning the LCD off parks the PPU at the top of the
    /// frame and blanks the screen; turning it on wakes the host screen.
    pub fn set_control(&mut self, value: u8)
        requires
            old(self).wf(),
        ensures
            final(self).wf(),
            Ppu::spec_set_control_rel(*old(self), value, *final(self)),
    {
        let was_on = self.control / 128 % 2 == 1;
        let now_on = value / 128 % 2 == 1;
        if was_on && !now_on {
            self.scanline = 0;
            self.line_cycles = 0;
            self.draw_blank_screen();
        }
        if now_on && !was_on {
            self.screen.turn_on();
        }
        self.control = value;
    }

    /// Write STAT: only the four interrupt-source bits are writable; the
    /// mode and coincidence bits are derived.
    pub fn set_stat(&mut self, value: u8)
        requires
            old(self).wf(),
        ensures
            final(self).wf(),
            *final(self) == (Ppu { stat: final(self).stat, ..*old(self) }),
            final(self).stat == (value / 8 % 16) * 8,
    {
        self.stat = (value / 8 % 16) * 8;
    }

    /// The byte STAT reads as: bit 7 always set; with the LCD off the
    /// mode field reports VBlank (mode 1); with it on, the mode bits, the
    /// live LY = LYC coincidence bit and the stored source bits.
    pub open spec fn spec_stat_read(&self) -> u8 {
        if !self.spec_lcd_on() {
            0x81
        } else {
            (0x80 + self.stat + self.spec_mode().spec_bits() + (
            if self.scanline == self.compare_line {
                4int
            } else {
                0int
            })) as u8
        }
    }

    /// Read STAT: bit 7 always set, the mode field reporting VBlank while
    /// the LCD is off; with it on, the mode bits, the live LY = LYC
    /// coincidence bit and the stored source bits.
    pub fn get_stat(&self) -> (r: u8)
        requires
            self.wf(),
        ensures
            r == self.spec_stat_read(),
    {
        if self.control / 128 % 2 == 0 {
            0x81
        } else {
            let coincidence: u8 = if self.scanline == self.compare_line {
                4
            } else {
                0
            };
            0x80 + self.stat + self.current_mode().bits() + coincidence
        }
    }

    pub fn get_scroll_y(&self) -> (r: u8)
        ensures
            r == self.scroll_y,
    {
        self.scroll_y
    }

    pub fn get_scroll_x(&self) -> (r: u8)
        ensures
            r == self.scroll_x,
    {
        self.scroll_x
    }

    pub fn set_scroll_y(&mut self, value: u8)
        ensures
            *final(self) == (Ppu { scroll_y: value, ..*old(self) }),
    {
        self.scroll_y = value;
    }

    pub fn set_scroll_x(&mut self, value: u8)
        ensures
            *final(self) == (Ppu { scroll_x: value, ..*old(self) }),
    {
        self.scroll_x = value;
    }

    /// A write to the LY register resets the current line.
    pub fn reset_current_line(&mut self)
        ensures
            *final(self) == (Ppu { scanline: 0u8, ..*old(self) }),
    {
        self.scanline = 0;
    }

    pub fn get_current_line(&self) -> (r: u8)
        ensures
            r == self.scanline,
    {
        self.scanline
    }

    pub fn set_compare_line(&mut self, value: u8)
        ensures
            *final(self) == (Ppu { compare_line: value, ..*old(self) }),
    {
        self.compare_line = value;
    }

    pub fn get_compare_line(&self) -> (r: u8)
        ensures
            r == self.compare_line,
    {
        self.compare_line
    }

    pub fn get_obj_palette0(&self) -> (r: u8)
        ensures
            r == self.obj_palette0.0,
    {
        self.obj_palette0.0
    }

    pub fn get_obj_palette1(&self) -> (r: u8)
        ensures
            r == self.obj_palette1.0,
    {
        self.obj_palette1.0
    }

    pub fn set_obj_palette0(&mut self, value: u8)
        ensures
            *final(self) == (Ppu { obj_palette0: (Palette(value)), ..*old(self) }),
    {
        self.obj_palette0 = Palette(value);
    }

    pub fn set_obj_palette1(&mut self, value: u8)
        ensures
            *final(self) == (Ppu { obj_palette1: (Palette(value)), ..*old(self) }),
    {
        self.obj_palette1 = Palette(value);
    }

    pub fn get_window_x(&self) -> (r: u8)
        ensures
            r == self.window_x,
    {
        self.window_x
    }

    pub fn get_window_y(&self) -> (r: u8)
        ensures
            r == self.window_y,
    {
        self.window_y
    }

    pub fn set_window_x(&mut self, value: u8)
        ensures
            *final(self) == (Ppu { window_x: value, ..*old(self) }),
    {
        self.window_x = value;
    }

    pub fn set_window_y(&mut self, value: u8)
        ensures
            *final(self) == (Ppu { window_y: value, ..*old(self) }),
    {
        self.window_y = value;
    }

    pub fn get_bg_palette(&self) -> (r: u8)
        ensures
            r == self.background_palette.0,
    {
        self.background_palette.0
    }

    pub fn set_bg_palette(&mut self, value: u8)
        ensures
            *final(self) == (Ppu { background_palette: (Palette(value)), ..*old(self) }),
    {
        self.background_palette = Palette(value);
    }

    pub fn get_memory(&self) -> (r: &VideoRam)
        ensures
            r == &self.video_ram,
    {
        &self.video_ram
    }

    pub fn get_memory_as_mut(&mut self) -> (r: &mut VideoRam)
        ensures
            *r == old(self).video_ram,
            *final(self) == (Ppu { video_ram: *final(r), ..*old(self) }),
    {
        &mut self.video_ram
    }

    /// Read video memory through the bus, 0x8000 to 0x9FFF.
    pub fn read_memory(&self, address: u16) -> (r: Option<u8>)
        requires
            self.wf(),
        ensures
            0x8000 <= address < 0xA000 ==> (r matches Some(v) && v == (
            if address < 0x9800 {
                self.video_ram.tiles@[address - 0x8000]
            } else if address < 0x9C00 {
                self.video_ram.tile_map0@[address - 0x9800]
            } else {
                self.video_ram.tile_map1@[address - 0x9C00]
            })),
            !(0x8000 <= address < 0xA000) ==> r is None,
    {
        if 0x8000 <= address && address < 0xA000 {
            Some(self.video_ram.get_byte(address))
        } else {
            None
        }
    }

    /// The sprite descriptor byte a raw OAM write stores: the hardware
    /// offsets are applied as the bytes land in the table.
    pub open spec fn spec_oam_write(sprites: Seq<Sprite>, reladdr: u8, value: u8) -> Seq<Sprite> {
        let i = reladdr as int / 4;
        let s = sprites[i];
        let updated = if reladdr % 4 == 0 {
            Sprite { y: ((value + 240) % 256) as u8, ..s }
        } else if reladdr % 4 == 1 {
            Sprite { x: ((value + 248) % 256) as u8, ..s }
        } else if reladdr % 4 == 2 {
            Sprite { tile_number: value, ..s }
        } else {
            Sprite { flags: value, ..s }
        };
        sprites.update(i, updated)
    }

    /// Write an OAM byte from outside. During the OAM scan and pixel
    /// transfer the write is dropped.
    pub fn write_oam(&mut self, reladdr: u8, value: u8)
        requires
            old(self).wf(),
            reladdr < 160,
        ensures
            final(self).wf(),
            ({
                let blocked = old(self).spec_mode() == Mode::AccessOam || old(self).spec_mode()
                    == Mode::AccessVram;
                &&& (blocked ==> *final(self) == *old(self))
                &&& (!blocked ==> *final(self) == (Ppu {
                    sprites: final(self).sprites,
                    ..*old(self)
                }) && final(self).sprites@ == Ppu::<T>::spec_oam_write(
                    old(self).sprites@,
                    reladdr,
                    value,
                ))
            }),
    {
        let mode = self.current_mode();
        if mode == Mode::AccessVram || mode == Mode::AccessOam {
            return ;
        }
        self.write_oam_raw(reladdr, value);
    }

    /// Write an OAM byte unconditionally, as the DMA copy does.
    pub fn write_oam_raw(&mut self, reladdr: u8, value: u8)
        requires
            old(self).wf(),
            reladdr < 160,
        ensures
            final(self).wf(),
            *final(self) == (Ppu { sprites: final(self).sprites, ..*old(self) }),
            final(self).sprites@ == Ppu::<T>::spec_oam_write(old(self).sprites@, reladdr, value),
    {
        let i = (reladdr / 4) as usize;
        let mut s = self.sprites[i];
        if reladdr % 4 == 0 {
            s.y = if value >= 16 {
                value - 16
            } else {
                value + 240
            };
        } else if reladdr % 4 == 1 {
            s.x = if value >= 8 {
                value - 8
            } else {
                value + 248
            };
        } else if reladdr % 4 == 2 {
            s.tile_number = value;
        } else {
            s.flags = value;
        }
        self.sprites[i] = s;
    }

    /// The byte a raw OAM read returns, undoing the stored offsets.
    pub open spec fn spec_oam_read(sprites: Seq<Sprite>, reladdr: u8) -> u8 {
        let s = sprites[reladdr as int / 4];
        if reladdr % 4 == 0 {
            ((s.y + 16) % 256) as u8
        } else if reladdr % 4 == 1 {
            ((s.x + 8) % 256) as u8
        } else if reladdr % 4 == 2 {
            s.tile_number
        } else {
            s.flags
        }
    }

    /// Read an OAM byte from outside. During the OAM scan and pixel
    /// transfer it reads as 0xFF.
    pub fn read_oam(&self, reladdr: u8) -> (r: u8)
        requires
            self.wf(),
            reladdr < 160,
        ensures
            ({
                let blocked = self.spec_mode() == Mode::AccessOam || self.spec_mode()
                    == Mode::AccessVram;
                &&& (blocked ==> r == 0xFF)
                &&& (!blocked ==> r == Ppu::<T>::spec_oam_read(self.sprites@, reladdr))
            }),
    {
        let mode = self.current_mode();
        if mode == Mode::AccessVram || mode == Mode::AccessOam {
            return 0xFF;
        }
        let s = self.sprites[(reladdr / 4) as usize];
        if reladdr % 4 == 0 {
            if s.y <= 239 {
                s.y + 16
            } else {
                s.y - 240
            }
        } else if reladdr % 4 == 1 {
            if s.x <= 247 {
                s.x + 8
            } else {
                s.x - 248
            }
        } else if reladdr % 4 == 2 {
            s.tile_number
        } else {
            s.flags
        }
    }

    /// Whether the window overrides the background at column `x` of the
    /// current line.
    pub open spec fn spec_uses_window(self, x: int) -> bool {
        self.spec_window_on() && self.scanline >= self.window_y && x + 7 >= self.window_x
    }

    /// The 2-bit background pixel value fetched through the background
    /// map and scroll registers at column `x` of the current line.
    pub open spec fn spec_plain_bg_index(self, x: int) -> u8 {
        let py = (self.scanline + self.scroll_y) % 256;
        let px = (x + self.scroll_x) % 256;
        let raw = self.video_ram.spec_map_entry(self.spec_bg_map1(), px / 8, py / 8);
        spec_tile_pixel(
            self.video_ram.tiles@,
            spec_tile_number(self.spec_unsigned_tiles(), raw),
            py % 8,
            px % 8,
        )
    }

    /// The 2-bit window pixel value at column `x` of the current line;
    /// meaningful where the window covers `x`.
    pub open spec fn spec_window_index(self, x: int) -> u8 {
        let wy = self.scanline - self.window_y;
        let wx = x + 7 - self.window_x;
        let raw = self.video_ram.spec_map_entry(self.spec_window_map1(), wx / 8, wy / 8);
        spec_tile_pixel(
            self.video_ram.tiles@,
            spec_tile_number(self.spec_unsigned_tiles(), raw),
            wy % 8,
            wx % 8,
        )
    }

    /// The 2-bit pixel value of the background layer at column `x`: the
    /// window where it covers, the scrolled background elsewhere.
    pub open spec fn spec_bg_index(self, x: int) -> u8 {
        if self.spec_uses_window(x) {
            self.spec_window_index(x)
        } else {
            self.spec_plain_bg_index(x)
        }
    }

    /// The shade level the background layer shows at column `x`.
    pub open spec fn spec_bg_level(self, x: int) -> u8 {
        spec_palette_level(self.background_palette.0, self.spec_bg_index(x))
    }

    /// Whether some sprite on the current line covers column `x`.
    pub open spec fn spec_sprite_covers(self, x: int) -> bool {
        exists|i: int|
            0 <= i < 40 && (#[trigger] self.sprites@[i]).spec_on_scanline(
                self.scanline,
                self.spec_sprite_height(),
            ) && self.sprites@[i].x <= x < self.sprites@[i].x + 8
    }

    /// The tile under pixel column `x`, row `y` of the chosen map, after
    /// the addressing mode of LCDC bit 4 is applied.
    pub fn tile_at(&self, x: u8, y: u8, window: bool) -> (r: Tile)
        requires
            self.wf(),
        ensures
            r.wf(),
            ({
                let raw = self.video_ram.spec_map_entry(
                    if window {
                        self.spec_window_map1()
                    } else {
                        self.spec_bg_map1()
                    },
                    x as int / 8,
                    y as int / 8,
                );
                let tn = spec_tile_number(self.spec_unsigned_tiles(), raw);
                r@ == self.video_ram.tiles@.subrange(tn * 16, tn * 16 + 16)
            }),
    {
        let map1 = if window {
            self.control / 64 % 2 == 1
        } else {
            self.control / 8 % 2 == 1
        };
        let raw = self.video_ram.map_entry(map1, x / 8, y / 8);
        let tn: usize = if self.control / 16 % 2 == 1 {
            raw as usize
        } else if raw < 128 {
            256 + raw as usize
        } else {
            raw as usize
        };
        self.video_ram.tile_copy(tn)
    }

    /// Render the scrolled background pixel at column `x` into the line
    /// buffer, the opacity mask and the screen.
    pub fn draw_background_pixel(&mut self, x: u8)
        requires
            old(self).wf(),
            x < 160,
        ensures
            final(self).wf(),
            *final(self) == (Ppu {
                background_mask: final(self).background_mask,
                line_buffer: final(self).line_buffer,
                screen: final(self).screen,
                ..*old(self)
            }),
            final(self).line_buffer@ == old(self).line_buffer@.update(
                x as int,
                spec_palette_level(
                    old(self).background_palette.0,
                    old(self).spec_plain_bg_index(x as int),
                ),
            ),
            mask_view(final(self).background_mask).contains(x as nat) <==> old(
                self,
            ).spec_plain_bg_index(x as int) != 0,
            forall|i: nat|
                i != x as nat ==> (mask_view(final(self).background_mask).contains(i)
                    <==> mask_view(old(self).background_mask).contains(i)),
    {
        let py = ((self.scanline as u16 + self.scroll_y as u16) % 256) as u8;
        let px = ((x as u16 + self.scroll_x as u16) % 256) as u8;
        let tile = self.tile_at(px, py, false);
        let idx = tile.pixel_at(px, py);
        self.put_bg_pixel(x, idx);
    }

    /// Render the window pixel at column `x` into the line buffer, the
    /// opacity mask and the screen.
    pub fn draw_background_window_pixel(&mut self, x: u8)
        requires
            old(self).wf(),
            x < 160,
            old(self).scanline >= old(self).window_y,
            x + 7 >= old(self).window_x,
        ensures
            final(self).wf(),
            *final(self) == (Ppu {
                background_mask: final(self).background_mask,
                line_buffer: final(self).line_buffer,
                screen: final(self).screen,
                ..*old(self)
            }),
            final(self).line_buffer@ == old(self).line_buffer@.update(
                x as int,
                spec_palette_level(
                    old(self).background_palette.0,
                    old(self).spec_window_index(x as int),
                ),
            ),
            mask_view(final(self).background_mask).contains(x as nat) <==> old(
                self,
            ).spec_window_index(x as int) != 0,
            forall|i: nat|
                i != x as nat ==> (mask_view(final(self).background_mask).contains(i)
                    <==> mask_view(old(self).background_mask).contains(i)),
    {
        let wy = self.scanline - self.window_y;
        let wx = x + 7 - self.window_x;
        let tile = self.tile_at(wx, wy, true);
        let idx = tile.pixel_at(wx, wy);
        self.put_bg_pixel(x, idx);
    }

    /// Store one background-layer pixel value: the palette-mapped level
    /// into the line buffer and the screen, the raw opacity into the mask.
    fn put_bg_pixel(&mut self, x: u8, idx: u8)
        requires
            old(self).wf(),
            x < 160,
            idx < 4,
        ensures
            final(self).wf(),
            *final(self) == (Ppu {
                background_mask: final(self).background_mask,
                line_buffer: final(self).line_buffer,
                screen: final(self).screen,
                ..*old(self)
            }),
            final(self).line_buffer@ == old(self).line_buffer@.update(
                x as int,
                spec_palette_level(old(self).background_palette.0, idx),
            ),
            mask_view(final(self).background_mask).contains(x as nat) <==> idx != 0,
            forall|i: nat|
                i != x as nat ==> (mask_view(final(self).background_mask).contains(i)
                    <==> mask_view(old(self).background_mask).contains(i)),
    {
        let shade = self.background_palette.shade(TilePixelValue::from_value(idx));
        let color = self.color_palette.background(shade);
        if idx != 0 {
            self.background_mask.insert(x as usize);
        } else {
            self.background_mask.remove(x as usize);
        }
        let level = shade.level();
        self.line_buffer[x as usize] = level;
        let y = self.scanline;
        self.screen.set_pixel(x, y, color);
    }

    /// Blank the whole host screen to the lightest shade.
    pub fn draw_blank_screen(&mut self)
        ensures
            *final(self) == (Ppu { screen: final(self).screen, ..*old(self) }),
    {
        let color = self.color_palette.background(Shade::Lightest);
        let mut y: u8 = 0;
        while y < 144
            invariant
                *self == (Ppu { screen: self.screen, ..*old(self) }),
            decreases 144 - y,
        {
            let mut x: u8 = 0;
            while x < 160
                invariant
                    *self == (Ppu { screen: self.screen, ..*old(self) }),
                decreases 160 - x,
            {
                self.screen.set_pixel(x, y, color);
                x = x + 1;
            }
            y = y + 1;
        }
    }

    /// Render the current scanline: the background layer (window over
    /// scrolled background) exactly as the specification functions say,
    /// then the sprites over it.
    pub fn draw_scan_line(&mut self)
        requires
            old(self).wf(),
            old(self).scanline < 144,
        ensures
            final(self).wf(),
            *final(self) == (Ppu {
                background_mask: final(self).background_mask,
                line_buffer: final(self).line_buffer,
                screen: final(self).screen,
                ..*old(self)
            }),
            forall|x: int|
                #![trigger final(self).line_buffer@[x]]
                0 <= x < 160 && (!old(self).spec_obj_on() || !old(self).spec_sprite_covers(x))
                    ==> final(self).line_buffer@[x] == (if old(self).spec_bg_on() {
                    old(self).spec_bg_level(x)
                } else {
                    0u8
                }),
            forall|i: nat|
                #![trigger mask_view(final(self).background_mask).contains(i)]
                i < 160 ==> (mask_view(final(self).background_mask).contains(i) <==> (old(
                    self,
                ).spec_bg_on() && old(self).spec_bg_index(i as int) != 0)),
            forall|i: nat|
                i >= 160 ==> !mask_view(final(self).background_mask).contains(i),
            old(self).spec_obj_on() ==> (forall|x: int|
                #![trigger final(self).line_buffer@[x]]
                0 <= x < 160 ==> final(self).line_buffer@[x] == (match final(self).spec_sprite_winner(
                    x,
                    40,
                ) {
                    Some(w) => final(self).spec_sprite_level(w, x),
                    None => if old(self).spec_bg_on() {
                        old(self).spec_bg_level(x)
                    } else {
                        0u8
                    },
                })),
    {
        if self.control % 2 == 1 {
            let mut x: u8 = 0;
            while x < 160
                invariant
                    self.wf(),
                    x <= 160,
                    old(self).wf(),
                    old(self).scanline < 144,
                    old(self).spec_bg_on(),
                    *self == (Ppu {
                        background_mask: self.background_mask,
                        line_buffer: self.line_buffer,
                        screen: self.screen,
                        ..*old(self)
                    }),
                    forall|j: int|
                        0 <= j < x ==> self.line_buffer@[j] == old(self).spec_bg_level(j),
                    forall|i: nat|
                        i < x as nat ==> (mask_view(self.background_mask).contains(i) <==> old(
                            self,
                        ).spec_bg_index(i as int) != 0),
                    forall|i: nat|
                        i >= x as nat ==> (mask_view(self.background_mask).contains(i)
                            <==> mask_view(old(self).background_mask).contains(i)),
                decreases 160 - x,
            {
                let use_window = self.control / 32 % 2 == 1 && self.window_y <= self.scanline && x
                    + 7 >= self.window_x;
                if use_window {
                    self.draw_background_window_pixel(x);
                } else {
                    self.draw_background_pixel(x);
                }
                proof {
                    assert(use_window == old(self).spec_uses_window(x as int));
                    assert(self.line_buffer@[x as int] == old(self).spec_bg_level(x as int));
                }
                x = x + 1;
            }
        } else {
            let mut x: u8 = 0;
            let color = self.color_palette.background(Shade::Lightest);
            while x < 160
                invariant
                    self.wf(),
                    x <= 160,
                    old(self).wf(),
                    *self == (Ppu {
                        background_mask: self.background_mask,
                        line_buffer: self.line_buffer,
                        screen: self.screen,
                        ..*old(self)
                    }),
                    forall|j: int| 0 <= j < x ==> self.line_buffer@[j] == 0u8,
                    forall|i: nat|
                        i < x as nat ==> !mask_view(self.background_mask).contains(i),
                    forall|i: nat|
                        i >= x as nat ==> (mask_view(self.background_mask).contains(i)
                            <==> mask_view(old(self).background_mask).contains(i)),
                decreases 160 - x,
            {
                self.background_mask.remove(x as usize);
                self.line_buffer[x as usize] = 0;
                let y = self.scanline;
                self.screen.set_pixel(x, y, color);
                x = x + 1;
            }
        }
        if self.control / 2 % 2 == 1 {
            let ghost mid = *self;
            self.draw_sprites();
            proof {
                assert forall|x: int| 0 <= x < 160 implies mid.spec_sprite_winner(x, 40)
                    == self.spec_sprite_winner(x, 40) by {
                    Ppu::lemma_sprite_winner_congruence(mid, *self, x, 40);
                }
                assert forall|x: int|
                    0 <= x < 160 && !old(self).spec_sprite_covers(x) implies self.line_buffer@[x]
                    == mid.line_buffer@[x] by {
                    mid.lemma_winner_drawable(x, 40);
                    match mid.spec_sprite_winner(x, 40) {
                        Some(w) => {
                            assert(mid.sprites@[w].spec_on_scanline(
                                mid.scanline,
                                mid.spec_sprite_height(),
                            ) && mid.sprites@[w].x <= x < mid.sprites@[w].x + 8);
                            assert(mid.spec_sprite_covers(x));
                            assert(false);
                        },
                        None => {},
                    }
                }
            }
        }
    }

    /// How many of the first `n` table entries lie on the current line.
    pub open spec fn spec_on_line_count(self, n: int) -> int
        decreases n,
    {
        if n <= 0 {
            0
        } else {
            self.spec_on_line_count(n - 1) + (if self.sprites@[n - 1].spec_on_scanline(
                self.scanline,
                self.spec_sprite_height(),
            ) {
                1int
            } else {
                0int
            })
        }
    }

    /// Whether sprite `i` is among the at most ten the line takes, in
    /// table order.
    pub open spec fn spec_selected(self, i: int) -> bool {
        &&& 0 <= i < 40
        &&& self.sprites@[i].spec_on_scanline(self.scanline, self.spec_sprite_height())
        &&& self.spec_on_line_count(i) < 10
    }

    /// The 2-bit pixel value sprite `i` shows at column `x` of the
    /// current line, flips and the tall-sprite tile pairing applied.
    pub open spec fn spec_sprite_pixel(self, i: int, x: int) -> u8 {
        let s = self.sprites@[i];
        let h = self.spec_sprite_height();
        let row0 = self.scanline - s.y;
        let col0 = x - s.x;
        let col = if s.spec_flip_x() {
            7 - col0
        } else {
            col0
        };
        let row = if s.spec_flip_y() {
            h - 1 - row0
        } else {
            row0
        };
        let tn = if h == 16 {
            s.tile_number / 2 * 2 + row / 8
        } else {
            s.tile_number as int
        };
        spec_tile_pixel(self.video_ram.tiles@, tn, row % 8, col % 8)
    }

    /// Whether sprite `i` puts a pixel on column `x`: it is among the
    /// line's sprites, covers the column, its pixel is opaque, and its
    /// background priority does not hide it behind an opaque background.
    pub open spec fn spec_sprite_drawable(self, i: int, x: int) -> bool {
        &&& self.spec_selected(i)
        &&& self.sprites@[i].x <= x < self.sprites@[i].x + 8
        &&& self.spec_sprite_pixel(i, x) != 0
        &&& (self.sprites@[i].spec_behind_background() ==> !mask_view(
            self.background_mask,
        ).contains(x as nat))
    }

    /// The sprite that wins column `x` among the first `n` table entries:
    /// the drawable sprite with the lowest x coordinate, ties going to
    /// the earlier table entry.
    pub open spec fn spec_sprite_winner(self, x: int, n: int) -> Option<int>
        decreases n,
    {
        if n <= 0 {
            None
        } else {
            let prev = self.spec_sprite_winner(x, n - 1);
            if self.spec_sprite_drawable(n - 1, x) {
                match prev {
                    None => Some(n - 1),
                    Some(w) => if self.sprites@[n - 1].x < self.sprites@[w].x {
                        Some(n - 1)
                    } else {
                        prev
                    },
                }
            } else {
                prev
            }
        }
    }

    /// The shade level the winning sprite shows, through OBP0 or OBP1 as
    /// its flags select.
    pub open spec fn spec_sprite_level(self, w: int, x: int) -> u8 {
        spec_palette_level(
            if self.sprites@[w].spec_uses_palette1() {
                self.obj_palette1.0
            } else {
                self.obj_palette0.0
            },
            self.spec_sprite_pixel(w, x),
        )
    }

    /// The on-line count reads only the sprite table, the line and the
    /// sprite height.
    pub proof fn lemma_on_line_count_congruence(a: Ppu<T>, b: Ppu<T>, n: int)
        requires
            a.sprites@ == b.sprites@,
            a.scanline == b.scanline,
            a.control == b.control,
        ensures
            a.spec_on_line_count(n) == b.spec_on_line_count(n),
        decreases n,
    {
        if n > 0 {
            Ppu::lemma_on_line_count_congruence(a, b, n - 1);
        }
    }

    /// The sprite winner reads only the sprite table, the line, the
    /// control byte, tile memory and the opacity mask; in particular the
    /// line buffer does not feed back into it.
    pub proof fn lemma_sprite_winner_congruence(a: Ppu<T>, b: Ppu<T>, x: int, n: int)
        requires
            a.sprites@ == b.sprites@,
            a.scanline == b.scanline,
            a.control == b.control,
            a.video_ram.tiles@ == b.video_ram.tiles@,
            a.background_mask == b.background_mask,
        ensures
            a.spec_sprite_winner(x, n) == b.spec_sprite_winner(x, n),
        decreases n,
    {
        if n > 0 {
            Ppu::lemma_sprite_winner_congruence(a, b, x, n - 1);
            Ppu::lemma_on_line_count_congruence(a, b, n - 1);
            assert(a.spec_sprite_drawable(n - 1, x) == b.spec_sprite_drawable(n - 1, x));
        }
    }

    /// The winner of a column, where there is one, is itself drawable.
    pub proof fn lemma_winner_drawable(self, x: int, n: int)
        ensures
            self.spec_sprite_winner(x, n) matches Some(w) ==> 0 <= w < n
                && self.spec_sprite_drawable(w, x),
        decreases n,
    {
        if n > 0 {
            self.lemma_winner_drawable(x, n - 1);
        }
    }

    /// Render the sprites of the current line over the line buffer: each
    /// column shows its winning sprite's palette-mapped level, and the
    /// columns without one keep their background pixel.
    #[verifier::rlimit(60)]
    pub fn draw_sprites(&mut self)
        requires
            old(self).wf(),
            old(self).scanline < 144,
        ensures
            final(self).wf(),
            *final(self) == (Ppu {
                line_buffer: final(self).line_buffer,
                screen: final(self).screen,
                ..*old(self)
            }),
            forall|x: int|
                0 <= x < 160 ==> final(self).line_buffer@[x] == (match old(
                    self,
                ).spec_sprite_winner(x, 40) {
                    Some(w) => old(self).spec_sprite_level(w, x),
                    None => old(self).line_buffer@[x],
                }),
    {
        let large = self.control / 4 % 2 == 1;
        let mut sel: Vec<bool> = Vec::new();
        let mut count: u8 = 0;
        let mut i: u8 = 0;
        while i < 40
            invariant
                self.wf(),
                i <= 40,
                *self == *old(self),
                sel@.len() == i as int,
                count == old(self).spec_on_line_count(i as int),
                count <= i,
                forall|k: int|
                    0 <= k < i as int ==> #[trigger] sel@[k] == old(self).spec_selected(k),
                large == self.spec_large_sprites(),
            decreases 40 - i,
        {
            let s = self.sprites[i as usize];
            let on_line = s.is_on_scan_line(self.scanline, large);
            sel.push(on_line && count < 10);
            if on_line {
                count = count + 1;
            }
            i = i + 1;
        }
        let height: u8 = if large {
            16
        } else {
            8
        };
        let mut x: u8 = 0;
        while x < 160
            invariant
                self.wf(),
                x <= 160,
                old(self).wf(),
                old(self).scanline < 144,
                *self == (Ppu {
                    line_buffer: self.line_buffer,
                    screen: self.screen,
                    ..*old(self)
                }),
                large == self.spec_large_sprites(),
                height == self.spec_sprite_height(),
                sel@.len() == 40,
                forall|k: int| 0 <= k < 40 ==> #[trigger] sel@[k] == old(self).spec_selected(k),
                forall|j: int|
                    0 <= j < x as int ==> self.line_buffer@[j] == (match old(
                        self,
                    ).spec_sprite_winner(j, 40) {
                        Some(w) => old(self).spec_sprite_level(w, j),
                        None => old(self).line_buffer@[j],
                    }),
                forall|j: int|
                    x as int <= j < 160 ==> self.line_buffer@[j] == old(self).line_buffer@[j],
            decreases 160 - x,
        {
            let mut best: Option<(u8, u8, Color)> = None;
            let mut i2: u8 = 0;
            while i2 < 40
                invariant
                    self.wf(),
                    x < 160,
                    i2 <= 40,
                    large == self.spec_large_sprites(),
                    height == self.spec_sprite_height(),
                    sel@.len() == 40,
                    forall|k: int|
                        0 <= k < 40 ==> #[trigger] sel@[k] == old(self).spec_selected(k),
                    *self == (Ppu {
                        line_buffer: self.line_buffer,
                        screen: self.screen,
                        ..*old(self)
                    }),
                    match best {
                        None => old(self).spec_sprite_winner(x as int, i2 as int) is None,
                        Some(b) => {
                            &&& old(self).spec_sprite_winner(x as int, i2 as int) == Some(
                                b.0 as int,
                            )
                            &&& b.0 < 40
                            &&& b.1 == old(self).spec_sprite_level(b.0 as int, x as int)
                        },
                    },
                decreases 40 - i2,
            {
                let s = self.sprites[i2 as usize];
                if sel[i2 as usize] && s.x <= x && (x as u16) < s.x as u16 + 8 {
                    let keep = match best {
                        None => true,
                        Some((bi, _, _)) => s.x < self.sprites[bi as usize].x,
                    };
                    if keep {
                        let row0 = self.scanline - s.y;
                        let col0 = x - s.x;
                        let col = if s.flags / 32 % 2 == 1 {
                            7 - col0
                        } else {
                            col0
                        };
                        let row = if s.flags / 64 % 2 == 1 {
                            height - 1 - row0
                        } else {
                            row0
                        };
                        let tn: u8 = if large {
                            s.tile_number / 2 * 2 + row / 8
                        } else {
                            s.tile_number
                        };
                        let tile = self.video_ram.tile_copy(tn as usize);
                        let pix = tile.pixel_at(col, row);
                        let behind = s.flags / 128 % 2 == 1;
                        let blocked = behind && self.background_mask.contains(x as usize);
                        if pix != 0 && !blocked {
                            let palette = if s.flags / 16 % 2 == 1 {
                                self.obj_palette1
                            } else {
                                self.obj_palette0
                            };
                            let shade = palette.shade(TilePixelValue::from_value(pix));
                            let color = self.color_palette.sprite(shade);
                            proof {
                                assert(pix == old(self).spec_sprite_pixel(i2 as int, x as int));
                                assert(old(self).spec_sprite_drawable(i2 as int, x as int));
                            }
                            best = Some((i2, shade.level(), color));
                        } else {
                            proof {
                                assert(pix == old(self).spec_sprite_pixel(i2 as int, x as int));
                                assert(!old(self).spec_sprite_drawable(i2 as int, x as int));
                            }
                        }
                    }
                } else {
                    proof {
                        assert(!old(self).spec_sprite_drawable(i2 as int, x as int));
                    }
                }
                i2 = i2 + 1;
            }
            match best {
                Some((_, level, color)) => {
                    self.line_buffer[x as usize] = level;
                    let y = self.scanline;
                    self.screen.set_pixel(x, y, color);
                },
                None => {},
            }
            x = x + 1;
        }
    }

    /// How one PPU step relates the old state to the new, for a cost of
    /// at most 24 T-cycles. With the LCD off nothing moves and nothing is
    /// requested. With it on, the position within the 456-cycle line
    /// advances (the frame position by exactly the cost, modulo 70,224);
    /// crossing into HBlank on a visible line renders it, with the line
    /// buffer and opacity mask pinned as `draw_scan_line` pins them;
    /// entering line 144 requests VBLANK; the STAT sources fire on their
    /// edges and nowhere else.
    pub open spec fn spec_step_rel(pre: Ppu<T>, post: Ppu<T>, cycles: u8, r: PpuIrq) -> bool {
        let total = pre.line_cycles + cycles;
        let next_ly: int = if pre.scanline == 153 {
            0
        } else {
            pre.scanline + 1
        };
        let rendered = pre.spec_lcd_on() && pre.scanline < 144 && pre.line_cycles < 252 && total
            >= 252;
        &&& post.control == pre.control
        &&& post.stat == pre.stat
        &&& post.compare_line == pre.compare_line
        &&& post.scroll_x == pre.scroll_x
        &&& post.scroll_y == pre.scroll_y
        &&& post.window_x == pre.window_x
        &&& post.window_y == pre.window_y
        &&& post.background_palette == pre.background_palette
        &&& post.obj_palette0 == pre.obj_palette0
        &&& post.obj_palette1 == pre.obj_palette1
        &&& post.video_ram == pre.video_ram
        &&& post.sprites@ == pre.sprites@
        &&& post.color_palette == pre.color_palette
        &&& (!pre.spec_lcd_on() ==> (post.scanline == pre.scanline && post.line_cycles
            == pre.line_cycles && r == PpuIrq::spec_none() && post.line_buffer@
            == pre.line_buffer@ && post.background_mask == pre.background_mask))
        &&& (pre.spec_lcd_on() ==> ({
            &&& (total < 456 ==> (post.scanline == pre.scanline && post.line_cycles == total))
            &&& (total >= 456 ==> (post.line_cycles == total - 456 && post.scanline == next_ly))
            &&& r.vblank == (total >= 456 && pre.scanline == 143)
            &&& r.stat == ({
                ||| (pre.scanline < 144 && pre.line_cycles < 252 && total >= 252 && spec_bit(
                    pre.stat,
                    3,
                ) == 1)
                ||| (total >= 456 && next_ly < 144 && spec_bit(pre.stat, 5) == 1)
                ||| (total >= 456 && next_ly == 144 && spec_bit(pre.stat, 4) == 1)
                ||| (total >= 456 && spec_bit(pre.stat, 6) == 1 && next_ly == pre.compare_line)
            })
            &&& post.spec_frame_pos() == (pre.spec_frame_pos() + cycles) % 70224
        }))
        &&& (pre.spec_lcd_on() && !rendered ==> (post.line_buffer@ == pre.line_buffer@
            && post.background_mask == pre.background_mask))
        &&& (rendered ==> ({
            &&& forall|x: int|
                0 <= x < 160 && (!pre.spec_obj_on() || !pre.spec_sprite_covers(x))
                    ==> post.line_buffer@[x] == (if pre.spec_bg_on() {
                    pre.spec_bg_level(x)
                } else {
                    0u8
                })
            &&& forall|i: nat|
                i < 160 ==> (mask_view(post.background_mask).contains(i) <==> (pre.spec_bg_on()
                    && pre.spec_bg_index(i as int) != 0))
            &&& (pre.spec_obj_on() ==> (forall|x: int|
                0 <= x < 160 ==> post.line_buffer@[x] == (match post.spec_sprite_winner(x, 40) {
                    Some(w) => post.spec_sprite_level(w, x),
                    None => if pre.spec_bg_on() {
                        pre.spec_bg_level(x)
                    } else {
                        0u8
                    },
                })))
        }))
    }

    /// Advance the PPU by `cycles` T-cycles of the current instruction,
    /// exactly as `spec_step_rel` describes.
    pub fn step(&mut self, cycles: u8) -> (r: PpuIrq)
        requires
            old(self).wf(),
            cycles <= 24,
        ensures
            final(self).wf(),
            Ppu::spec_step_rel(*old(self), *final(self), cycles, r),
    {
        if self.control / 128 % 2 == 0 {
            return PpuIrq { vblank: false, stat: false };
        }
        let total: u16 = self.line_cycles + cycles as u16;
        let mut vblank = false;
        let mut stat_irq = false;
        let ghost mut rendered_state = *self;
        let ghost mut rendered = false;
        if self.scanline < 144 && self.line_cycles < 252 && total >= 252 {
            let ghost pre_render = *self;
            self.draw_scan_line();
            proof {
                rendered_state = *self;
                rendered = true;
                assert(pre_render == *old(self));
                assert forall|i: nat|
                    i < 160 implies (mask_view(rendered_state.background_mask).contains(i) <==> (
                pre_render.spec_bg_on() && pre_render.spec_bg_index(i as int) != 0)) by {}
            }
            if self.stat / 8 % 2 == 1 {
                stat_irq = true;
            }
        }
        if total < 456 {
            self.line_cycles = total;
        } else {
            self.line_cycles = total - 456;
            let next: u8 = if self.scanline == 153 {
                0
            } else {
                self.scanline + 1
            };
            self.scanline = next;
            if next == 144 {
                vblank = true;
                self.screen.draw();
                if self.stat / 16 % 2 == 1 {
                    stat_irq = true;
                }
            }
            if next < 144 {
                if self.stat / 32 % 2 == 1 {
                    stat_irq = true;
                }
            }
            if self.stat / 64 % 2 == 1 && next == self.compare_line {
                stat_irq = true;
            }
        }
        proof {
            if rendered {
                assert(self.background_mask == rendered_state.background_mask);
                assert(self.line_buffer@ == rendered_state.line_buffer@);
                assert forall|x: int|
                    0 <= x < 160 implies self.spec_sprite_winner(x, 40)
                    == rendered_state.spec_sprite_winner(x, 40) by {
                    Ppu::lemma_sprite_winner_congruence(rendered_state, *self, x, 40);
                }
            }
        }
        PpuIrq { vblank, stat: stat_irq }
    }
}

/// The sum of a sequence of per-step cycle counts.
pub open spec fn spec_cycle_sum(chunks: Seq<int>) -> int
    decreases chunks.len(),
{
    if chunks.len() == 0 {
        0
    } else {
        chunks[0] + spec_cycle_sum(chunks.drop_first())
    }
}

/// How many of the steps cross the position `threshold`, stepping through
/// the cycle counts from `pos`.
pub open spec fn spec_count_crossings(pos: int, chunks: Seq<int>, threshold: int) -> int
    decreases chunks.len(),
{
    if chunks.len() == 0 {
        0
    } else {
        (if pos < threshold <= pos + chunks[0] {
            1int
        } else {
            0int
        }) + spec_count_crossings(pos + chunks[0], chunks.drop_first(), threshold)
    }
}

/// Stepping forward through positive cycle counts, a position threshold
/// is crossed exactly once when the walk starts before it and ends at or
/// past it, and never otherwise.
pub proof fn lemma_count_crossings(pos: int, chunks: Seq<int>, threshold: int)
    requires
        forall|i: int| 0 <= i < chunks.len() ==> #[trigger] chunks[i] > 0,
    ensures
        spec_count_crossings(pos, chunks, threshold) == if pos < threshold <= pos
            + spec_cycle_sum(chunks) {
            1int
        } else {
            0int
        },
    decreases chunks.len(),
{
    if chunks.len() == 0 {
    } else {
        assert(chunks[0] > 0);
        assert(forall|i: int|
            0 <= i < chunks.drop_first().len() ==> chunks.drop_first()[i] == chunks[i + 1]);
        lemma_cycle_sum_nonneg(chunks.drop_first());
        lemma_count_crossings(pos + chunks[0], chunks.drop_first(), threshold);
    }
}

/// Cycle sums are nonnegative when every chunk is positive.
proof fn lemma_cycle_sum_nonneg(chunks: Seq<int>)
    requires
        forall|i: int| 0 <= i < chunks.len() ==> #[trigger] chunks[i] > 0,
    ensures
        spec_cycle_sum(chunks) >= 0,
    decreases chunks.len(),
{
    if chunks.len() > 0 {
        assert(forall|i: int|
            0 <= i < chunks.drop_first().len() ==> chunks.drop_first()[i] == chunks[i + 1]);
        lemma_cycle_sum_nonneg(chunks.drop_first());
    }
}

/// With the LCD on, a step requests VBLANK exactly when it carries the
/// frame position across the start of line 144: the interrupt comes on
/// the LY transition from 143 to 144 and nowhere else.
pub proof fn lemma_vblank_is_crossing(ly: u8, lc: u16, c: u8)
    requires
        ly < 154,
        lc < 456,
        c <= 24,
    ensures
        (ly == 143 && lc + c >= 456) <==> (ly * 456 + lc < 65664 <= ly * 456 + lc + c),
{
}

/// Starting at the top of a frame, feeding the PPU any run of steps of
/// at most 24 T-cycles each totalling 70,224 crosses the start of the
/// VBLANK period exactly once: the VBLANK interrupt fires exactly once
/// per rendered frame.
pub proof fn lemma_vblank_once_per_frame(chunks: Seq<int>)
    requires
        forall|i: int| 0 <= i < chunks.len() ==> 0 < #[trigger] chunks[i] <= 24,
        spec_cycle_sum(chunks) == 70224,
    ensures
        spec_count_crossings(0, chunks, 65664) == 1,
{
    lemma_count_crossings(0, chunks, 65664);
}

/// Starting at the top of a frame, a run of steps completes the frame
/// (carries the position across the full 70,224) exactly once when it
/// totals 70,224 T-cycles, and not at all when it totals less: a rendered
/// frame takes exactly 70,224 T-cycles.
pub proof fn lemma_frame_length(chunks: Seq<int>)
    requires
        forall|i: int| 0 <= i < chunks.len() ==> 0 < #[trigger] chunks[i] <= 24,
    ensures
        spec_cycle_sum(chunks) == 70224 ==> spec_count_crossings(0, chunks, 70224) == 1,
        spec_cycle_sum(chunks) < 70224 ==> spec_count_crossings(0, chunks, 70224) == 0,
{
    lemma_count_crossings(0, chunks, 70224);
}

/// Writing an OAM byte and reading the same OAM byte back outside the
/// blocked modes returns the written value: the stored offsets cancel.
pub proof fn lemma_oam_roundtrip<T: Screen>(sprites: Seq<Sprite>, reladdr: u8, value: u8)
    requires
        sprites.len() == 40,
        reladdr < 160,
    ensures
        Ppu::<T>::spec_oam_read(Ppu::<T>::spec_oam_write(sprites, reladdr, value), reladdr)
            == value,
{
    assert(((value + 240) % 256 + 16) % 256 == value) by (bit_vector);
    assert(((value + 248) % 256 + 8) % 256 == value) by (bit_vector);
}

/// Writing a byte of tile memory and reading the same address back
/// returns the written value.
pub proof fn lemma_tile_memory_roundtrip(pre: VideoRam, post: VideoRam, address: u16, value: u8)
    requires
        pre.wf(),
        0x8000 <= address < 0x9800,
        post.tiles@ == pre.tiles@.update(address - 0x8000, value),
    ensures
        post.tiles@[address - 0x8000] == value,
{
}

} // verus!

