use crate::boot_rom::Bootrom;
use crate::cartridge::Cartridge;
use crate::cpu::Interface;
use crate::input::{Controller, InputController, P1};
use crate::interrupt_handler::{lines_byte, IntLines, InterruptHandler, InterruptLine};
use crate::ppu::{Mode, Ppu, Sprite};
use crate::screen::Screen;
use crate::sound::{AudioPlayer, Sound};
use crate::timer::Timer;
use crate::work_ram::WorkRam;
use vstd::prelude::*;

verus! {

/// The memory bus and everything behind it: the address decoder over the
/// interrupt controller, work and high RAM, the timer, the cartridge, the
/// PPU, the boot ROM overlay and the joypad.
pub struct Hardware<S: Screen, C: Cartridge, J: Controller, A: AudioPlayer> {
    pub interrupt_handler: InterruptHandler,
    pub work_ram: WorkRam,
    pub hiram: Vec<u8>,
    pub timer: Timer,
    pub cartridge: C,
    pub gpu: Ppu<S>,
    pub bootrom: Bootrom,
    /// The last value written to the DMA source register.
    pub dma_source: u8,
    pub sound: Sound<A>,
    pub input_controller: InputController<J>,
}

impl<S: Screen, C: Cartridge, J: Controller, A: AudioPlayer> Hardware<S, C, J, A> {
    pub open spec fn wf(&self) -> bool {
        &&& self.work_ram.wf()
        &&& self.hiram@.len() == 0x7F
        &&& self.timer.tac < 8
        &&& self.gpu.wf()
        &&& self.bootrom.wf()
        &&& self.sound.wf()
    }

    /// The work-RAM cell an address in the work-RAM or echo ranges is
    /// backed by.
    pub open spec fn spec_wram_index(address: u16) -> int {
        if address < 0xE000 {
            address - 0xC000
        } else if address < 0xF000 {
            address as int % 0x1000
        } else {
            0x1000 + address as int % 0x1000
        }
    }

    /// Whether a read of this address is decoded by the core itself; the
    /// cartridge ROM and RAM windows answer from the cartridge instead.
    pub open spec fn spec_readable(&self, address: u16) -> bool {
        &&& (address >= 0x8000 || (self.bootrom.spec_active() && address < 0x100))
        &&& !(0xA000 <= address < 0xC000)
    }

    /// The byte each decoded address reads as: the full memory map of the
    /// core outside the cartridge windows.
    pub open spec fn read_spec(&self, address: u16) -> u8 {
        if self.bootrom.spec_active() && address < 0x100 {
            self.bootrom.spec_data().unwrap()[address as int]
        } else if address < 0x8000 {
            0
        } else if address < 0x9800 {
            self.gpu.video_ram.tiles@[address - 0x8000]
        } else if address < 0x9C00 {
            self.gpu.video_ram.tile_map0@[address - 0x9800]
        } else if address < 0xA000 {
            self.gpu.video_ram.tile_map1@[address - 0x9C00]
        } else if address < 0xC000 {
            0
        } else if address < 0xE000 {
            self.work_ram@[address - 0xC000]
        } else if address < 0xF000 {
            self.work_ram@[address as int % 0x1000]
        } else if address < 0xFE00 {
            self.work_ram@[0x1000 + address as int % 0x1000]
        } else if address < 0xFEA0 {
            if self.gpu.spec_mode() == Mode::AccessOam || self.gpu.spec_mode()
                == Mode::AccessVram {
                0xFF
            } else {
                Ppu::<S>::spec_oam_read(self.gpu.sprites@, (address - 0xFE00) as u8)
            }
        } else if address < 0xFF00 {
            0xFF
        } else if address == 0xFF00 {
            self.input_controller.register.spec_wire_byte()
        } else if address == 0xFF01 || address == 0xFF02 {
            0
        } else if address == 0xFF04 {
            (self.timer.sysclock / 256) as u8
        } else if address == 0xFF05 {
            self.timer.tima
        } else if address == 0xFF06 {
            self.timer.tma
        } else if address == 0xFF07 {
            (self.timer.tac + 0xF8) as u8
        } else if address == 0xFF0F {
            (lines_byte(self.interrupt_handler.requested_interrupts) + 0xE0) as u8
        } else if 0xFF10 <= address < 0xFF40 {
            self.sound@[address - 0xFF10]
        } else if address == 0xFF40 {
            self.gpu.control
        } else if address == 0xFF41 {
            self.gpu.spec_stat_read()
        } else if address == 0xFF42 {
            self.gpu.scroll_y
        } else if address == 0xFF43 {
            self.gpu.scroll_x
        } else if address == 0xFF44 {
            self.gpu.scanline
        } else if address == 0xFF45 {
            self.gpu.compare_line
        } else if address == 0xFF46 {
            self.dma_source
        } else if address == 0xFF47 {
            self.gpu.background_palette.0
        } else if address == 0xFF48 {
            self.gpu.obj_palette0.0
        } else if address == 0xFF49 {
            self.gpu.obj_palette1.0
        } else if address == 0xFF4A {
            self.gpu.window_y
        } else if address == 0xFF4B {
            self.gpu.window_x
        } else if address < 0xFF80 {
            0xFF
        } else if address < 0xFFFF {
            self.hiram@[address - 0xFF80]
        } else {
            (lines_byte(self.interrupt_handler.enabled_interrupts) + 0xE0) as u8
        }
    }

    /// Every work-RAM and echo address reads its backing cell.
    proof fn lemma_wram_read(h: &Hardware<S, C, J, A>, a: u16)
        requires
            0xC000 <= a < 0xFE00,
        ensures
            Hardware::read_spec(h, a) == h.work_ram@[Hardware::<S, C, J, A>::spec_wram_index(a)],
    {
    }

    /// Read a byte through the address decoder. Every decoded range
    /// returns exactly what `read_spec` says; the cartridge windows hand
    /// whatever the cartridge answers.
    pub fn read_byte(&self, address: u16) -> (r: u8)
        requires
            self.wf(),
        ensures
            self.spec_readable(address) ==> r == self.read_spec(address),
    {
        if self.bootrom.is_active() && address < 0x100 {
            self.bootrom.read(address)
        } else if address < 0x8000 {
            self.cartridge.read_rom(address)
        } else if address < 0xA000 {
            self.gpu.video_ram.get_byte(address)
        } else if address < 0xC000 {
            self.cartridge.read_ram(address)
        } else if address < 0xE000 {
            if address < 0xD000 {
                self.work_ram.read_lower(address)
            } else {
                self.work_ram.read_upper(address)
            }
        } else if address < 0xF000 {
            self.work_ram.read_lower(address)
        } else if address < 0xFE00 {
            self.work_ram.read_upper(address)
        } else if address < 0xFEA0 {
            self.gpu.read_oam((address - 0xFE00) as u8)
        } else if address < 0xFF00 {
            0xFF
        } else if address == 0xFF00 {
            self.input_controller.read_register()
        } else if address == 0xFF01 || address == 0xFF02 {
            0
        } else if address == 0xFF04 {
            self.timer.read_div()
        } else if address == 0xFF05 {
            self.timer.read_tima()
        } else if address == 0xFF06 {
            self.timer.read_tma()
        } else if address == 0xFF07 {
            self.timer.read_tac()
        } else if address == 0xFF0F {
            self.interrupt_handler.get_interrupt_flag()
        } else if address >= 0xFF10 && address < 0xFF40 {
            self.sound.rb(address)
        } else if address < 0xFF40 {
            0xFF
        } else if address == 0xFF40 {
            self.gpu.get_control()
        } else if address == 0xFF41 {
            self.gpu.get_stat()
        } else if address == 0xFF42 {
            self.gpu.get_scroll_y()
        } else if address == 0xFF43 {
            self.gpu.get_scroll_x()
        } else if address == 0xFF44 {
            self.gpu.get_current_line()
        } else if address == 0xFF45 {
            self.gpu.get_compare_line()
        } else if address == 0xFF46 {
            self.dma_source
        } else if address == 0xFF47 {
            self.gpu.get_bg_palette()
        } else if address == 0xFF48 {
            self.gpu.get_obj_palette0()
        } else if address == 0xFF49 {
            self.gpu.get_obj_palette1()
        } else if address == 0xFF4A {
            self.gpu.get_window_y()
        } else if address == 0xFF4B {
            self.gpu.get_window_x()
        } else if address < 0xFF80 {
            0xFF
        } else if address < 0xFFFF {
            self.hiram[(address - 0xFF80) as usize]
        } else {
            self.interrupt_handler.get_enabled_interrupts_flag()
        }
    }

    /// How a write of `value` at `address` relates the old bus state to
    /// the new: the address decoder of the core, range by range. Writes
    /// into the cartridge windows leave everything but the cartridge
    /// alone; the serial, audio and unmapped ranges drop the byte.
    pub open spec fn bus_write_rel(
        pre: Hardware<S, C, J, A>,
        address: u16,
        value: u8,
        post: Hardware<S, C, J, A>,
    ) -> bool {
        if address < 0x8000 {
            if pre.bootrom.spec_active() && address < 0x100 {
                post == pre
            } else {
                post == (Hardware { cartridge: post.cartridge, ..pre })
            }
        } else if address < 0xA000 {
            &&& post == (Hardware { gpu: post.gpu, ..pre })
            &&& post.gpu == (Ppu { video_ram: post.gpu.video_ram, ..pre.gpu })
            &&& (address < 0x9800 ==> post.gpu.video_ram.tiles@ == pre.gpu.video_ram.tiles@.update(
                address - 0x8000,
                value,
            ) && post.gpu.video_ram.tile_map0@ == pre.gpu.video_ram.tile_map0@
                && post.gpu.video_ram.tile_map1@ == pre.gpu.video_ram.tile_map1@)
            &&& (0x9800 <= address < 0x9C00 ==> post.gpu.video_ram.tile_map0@
                == pre.gpu.video_ram.tile_map0@.update(address - 0x9800, value)
                && post.gpu.video_ram.tiles@ == pre.gpu.video_ram.tiles@
                && post.gpu.video_ram.tile_map1@ == pre.gpu.video_ram.tile_map1@)
            &&& (address >= 0x9C00 ==> post.gpu.video_ram.tile_map1@
                == pre.gpu.video_ram.tile_map1@.update(address - 0x9C00, value)
                && post.gpu.video_ram.tiles@ == pre.gpu.video_ram.tiles@
                && post.gpu.video_ram.tile_map0@ == pre.gpu.video_ram.tile_map0@)
        } else if address < 0xC000 {
            post == (Hardware { cartridge: post.cartridge, ..pre })
        } else if address < 0xE000 {
            &&& post == (Hardware { work_ram: post.work_ram, ..pre })
            &&& post.work_ram@ == pre.work_ram@.update(address - 0xC000, value)
        } else if address < 0xF000 {
            &&& post == (Hardware { work_ram: post.work_ram, ..pre })
            &&& post.work_ram@ == pre.work_ram@.update(address as int % 0x1000, value)
        } else if address < 0xFE00 {
            &&& post == (Hardware { work_ram: post.work_ram, ..pre })
            &&& post.work_ram@ == pre.work_ram@.update(0x1000 + address as int % 0x1000, value)
        } else if address < 0xFEA0 {
            &&& post == (Hardware { gpu: post.gpu, ..pre })
            &&& (pre.gpu.spec_mode() == Mode::AccessOam || pre.gpu.spec_mode()
                == Mode::AccessVram ==> post.gpu == pre.gpu)
            &&& (!(pre.gpu.spec_mode() == Mode::AccessOam || pre.gpu.spec_mode()
                == Mode::AccessVram) ==> post.gpu == (Ppu { sprites: post.gpu.sprites, ..pre.gpu })
                && post.gpu.sprites@ == Ppu::<S>::spec_oam_write(
                pre.gpu.sprites@,
                (address - 0xFE00) as u8,
                value,
            ))
        } else if address < 0xFF00 {
            post == pre
        } else if address == 0xFF00 {
            &&& post == (Hardware { input_controller: post.input_controller, ..pre })
            &&& post.input_controller.register == (P1 {
                key0: false,
                key1: false,
                key2: false,
                key3: false,
                select_directional: value / 16 % 2 == 0,
                select_button: value / 32 % 2 == 0,
            })
            &&& post.input_controller.pressed == pre.input_controller.pressed
        } else if address == 0xFF04 {
            &&& post == (Hardware { timer: post.timer, ..pre })
            &&& post.timer == (Timer { sysclock: 0u16, ..pre.timer })
        } else if address == 0xFF05 {
            &&& post == (Hardware { timer: post.timer, ..pre })
            &&& post.timer == (Timer { tima: value, ..pre.timer })
        } else if address == 0xFF06 {
            &&& post == (Hardware { timer: post.timer, ..pre })
            &&& post.timer == (Timer { tma: value, ..pre.timer })
        } else if address == 0xFF07 {
            &&& post == (Hardware { timer: post.timer, ..pre })
            &&& post.timer == (Timer { tac: (value % 8) as u8, ..pre.timer })
        } else if address == 0xFF0F {
            &&& post == (Hardware { interrupt_handler: post.interrupt_handler, ..pre })
            &&& post.interrupt_handler == (InterruptHandler {
                requested_interrupts: IntLines {
                    vblank: value % 2 == 1,
                    stat: value / 2 % 2 == 1,
                    timer: value / 4 % 2 == 1,
                    serial: value / 8 % 2 == 1,
                    joypad: value / 16 % 2 == 1,
                },
                ..pre.interrupt_handler
            })
        } else if 0xFF10 <= address < 0xFF40 {
            &&& post == (Hardware { sound: post.sound, ..pre })
            &&& post.sound@ == pre.sound@.update(address - 0xFF10, value)
            &&& post.sound.player == pre.sound.player
        } else if address == 0xFF40 {
            &&& post == (Hardware { gpu: post.gpu, ..pre })
            &&& Ppu::spec_set_control_rel(pre.gpu, value, post.gpu)
        } else if address == 0xFF41 {
            &&& post == (Hardware { gpu: post.gpu, ..pre })
            &&& post.gpu == (Ppu { stat: ((value / 8 % 16) * 8) as u8, ..pre.gpu })
        } else if address == 0xFF42 {
            &&& post == (Hardware { gpu: post.gpu, ..pre })
            &&& post.gpu == (Ppu { scroll_y: value, ..pre.gpu })
        } else if address == 0xFF43 {
            &&& post == (Hardware { gpu: post.gpu, ..pre })
            &&& post.gpu == (Ppu { scroll_x: value, ..pre.gpu })
        } else if address == 0xFF44 {
            &&& post == (Hardware { gpu: post.gpu, ..pre })
            &&& post.gpu == (Ppu { scanline: 0u8, ..pre.gpu })
        } else if address == 0xFF45 {
            &&& post == (Hardware { gpu: post.gpu, ..pre })
            &&& post.gpu == (Ppu { compare_line: value, ..pre.gpu })
        } else if address == 0xFF46 {
            &&& post == (Hardware { gpu: post.gpu, dma_source: value, ..pre })
            &&& post.gpu == (Ppu { sprites: post.gpu.sprites, ..pre.gpu })
            &&& post.gpu.sprites@.len() == 40
            &&& ((value != 0xFE && (forall|k: int|
                0 <= k < 0xA0 ==> #[trigger] pre.spec_readable((value * 256 + k) as u16)))
                ==> post.gpu.sprites@ == pre.spec_dma_sprites(value, 0xA0))
        } else if address == 0xFF47 {
            &&& post == (Hardware { gpu: post.gpu, ..pre })
            &&& post.gpu == (Ppu {
                background_palette: (crate::ppu::Palette(value)),
                ..pre.gpu
            })
        } else if address == 0xFF48 {
            &&& post == (Hardware { gpu: post.gpu, ..pre })
            &&& post.gpu == (Ppu { obj_palette0: (crate::ppu::Palette(value)), ..pre.gpu })
        } else if address == 0xFF49 {
            &&& post == (Hardware { gpu: post.gpu, ..pre })
            &&& post.gpu == (Ppu { obj_palette1: (crate::ppu::Palette(value)), ..pre.gpu })
        } else if address == 0xFF4A {
            &&& post == (Hardware { gpu: post.gpu, ..pre })
            &&& post.gpu == (Ppu { window_y: value, ..pre.gpu })
        } else if address == 0xFF4B {
            &&& post == (Hardware { gpu: post.gpu, ..pre })
            &&& post.gpu == (Ppu { window_x: value, ..pre.gpu })
        } else if address == 0xFF50 {
            if pre.bootrom.spec_active() && value % 2 == 1 {
                &&& post == (Hardware { bootrom: post.bootrom, ..pre })
                &&& !post.bootrom.spec_active()
                &&& post.bootrom.spec_data() == pre.bootrom.spec_data()
            } else {
                post == pre
            }
        } else if address < 0xFF80 {
            post == pre
        } else if address < 0xFFFF {
            &&& post == (Hardware { hiram: post.hiram, ..pre })
            &&& post.hiram@ == pre.hiram@.update(address - 0xFF80, value)
        } else {
            &&& post == (Hardware { interrupt_handler: post.interrupt_handler, ..pre })
            &&& post.interrupt_handler == (InterruptHandler {
                enabled_interrupts: IntLines {
                    vblank: value % 2 == 1,
                    stat: value / 2 % 2 == 1,
                    timer: value / 4 % 2 == 1,
                    serial: value / 8 % 2 == 1,
                    joypad: value / 16 % 2 == 1,
                },
                ..pre.interrupt_handler
            })
        }
    }

    /// Write a byte through the address decoder, exactly as
    /// `bus_write_rel` describes.
    pub fn write_byte(&mut self, address: u16, value: u8)
        requires
            old(self).wf(),
        ensures
            final(self).wf(),
            Hardware::bus_write_rel(*old(self), address, value, *final(self)),
    {
        if address < 0x8000 {
            if self.bootrom.is_active() && address < 0x100 {
            } else {
                self.cartridge.write_rom(address, value);
            }
        } else if address < 0xA000 {
            self.gpu.get_memory_as_mut().set_byte(address, value);
        } else if address < 0xC000 {
            self.cartridge.write_ram(address, value);
        } else if address < 0xE000 {
            if address < 0xD000 {
                self.work_ram.write_lower(address, value);
            } else {
                self.work_ram.write_upper(address, value);
            }
        } else if address < 0xF000 {
            self.work_ram.write_lower(address, value);
        } else if address < 0xFE00 {
            self.work_ram.write_upper(address, value);
        } else if address < 0xFEA0 {
            self.gpu.write_oam((address - 0xFE00) as u8, value);
        } else if address < 0xFF00 {
        } else if address == 0xFF00 {
            self.input_controller.write_register(value);
        } else if address == 0xFF04 {
            self.timer.write_div();
        } else if address == 0xFF05 {
            self.timer.write_tima(value);
        } else if address == 0xFF06 {
            self.timer.write_tma(value);
        } else if address == 0xFF07 {
            self.timer.write_tac(value);
        } else if address == 0xFF0F {
            self.interrupt_handler.set_interrupt_flag(value);
        } else if address >= 0xFF10 && address < 0xFF40 {
            self.sound.wb(address, value);
        } else if address == 0xFF40 {
            self.gpu.set_control(value);
        } else if address == 0xFF41 {
            self.gpu.set_stat(value);
        } else if address == 0xFF42 {
            self.gpu.set_scroll_y(value);
        } else if address == 0xFF43 {
            self.gpu.set_scroll_x(value);
        } else if address == 0xFF44 {
            self.gpu.reset_current_line();
        } else if address == 0xFF45 {
            self.gpu.set_compare_line(value);
        } else if address == 0xFF46 {
            self.transfer_dma(value);
            self.dma_source = value;
        } else if address == 0xFF47 {
            self.gpu.set_bg_palette(value);
        } else if address == 0xFF48 {
            self.gpu.set_obj_palette0(value);
        } else if address == 0xFF49 {
            self.gpu.set_obj_palette1(value);
        } else if address == 0xFF4A {
            self.gpu.set_window_y(value);
        } else if address == 0xFF4B {
            self.gpu.set_window_x(value);
        } else if address == 0xFF50 {
            if self.bootrom.is_active() && value % 2 == 1 {
                self.bootrom.deactivate();
            }
        } else if address < 0xFF80 {
        } else if address < 0xFFFF {
            let i = (address - 0xFF80) as usize;
            self.hiram[i] = value;
        } else {
            self.interrupt_handler.set_enabled_interrupts_flag(value);
        }
    }

    /// The sprite table after the first `n` bytes of a DMA copy from
    /// `offset << 8` have landed, each through the raw OAM decoding.
    pub open spec fn spec_dma_sprites(self, offset: u8, n: int) -> Seq<Sprite>
        decreases n,
    {
        if n <= 0 {
            self.gpu.sprites@
        } else {
            Ppu::<S>::spec_oam_write(
                self.spec_dma_sprites(offset, n - 1),
                (n - 1) as u8,
                self.read_spec((offset * 256 + n - 1) as u16),
            )
        }
    }

    /// The instantaneous OAM DMA copy: 160 bytes from `offset << 8`
    /// straight into the sprite table, past the mode gating. When the
    /// whole source block is decoded by the core and is not OAM itself,
    /// the table holds exactly the copied descriptors.
    pub fn transfer_dma(&mut self, offset: u8)
        requires
            old(self).wf(),
        ensures
            final(self).wf(),
            *final(self) == (Hardware { gpu: final(self).gpu, ..*old(self) }),
            final(self).gpu == (Ppu { sprites: final(self).gpu.sprites, ..old(self).gpu }),
            final(self).gpu.sprites@.len() == 40,
            (offset != 0xFE && (forall|k: int|
                0 <= k < 0xA0 ==> #[trigger] old(self).spec_readable((offset * 256 + k) as u16)))
                ==> final(self).gpu.sprites@ == old(self).spec_dma_sprites(offset, 0xA0),
    {
        let ghost guarded = offset != 0xFE && (forall|k: int|
            0 <= k < 0xA0 ==> #[trigger] old(self).spec_readable((offset * 256 + k) as u16));
        let mut i: u16 = 0;
        while i < 0xA0
            invariant
                self.wf(),
                i <= 0xA0,
                *self == (Hardware { gpu: self.gpu, ..*old(self) }),
                self.gpu == (Ppu { sprites: self.gpu.sprites, ..old(self).gpu }),
                self.gpu.sprites@.len() == 40,
                guarded == (offset != 0xFE && (forall|k: int|
                    0 <= k < 0xA0 ==> #[trigger] old(self).spec_readable((offset * 256 + k) as u16))),
                guarded ==> self.gpu.sprites@ == old(self).spec_dma_sprites(offset, i as int),
            decreases 0xA0 - i,
        {
            let source = (offset as u16) * 256 + i;
            let byte = self.read_byte(source);
            proof {
                if guarded {
                    assert(self.spec_readable(source) == old(self).spec_readable(source));
                    assert(self.read_spec(source) == old(self).read_spec(source));
                }
            }
            self.gpu.write_oam_raw(i as u8, byte);
            i = i + 1;
        }
    }

    /// Assemble the bus around its peripherals.
    pub fn create(screen: S, cartridge: C, boot_rom: Bootrom, player: A, controller: J) -> (r:
        Hardware<S, C, J, A>)
        requires
            boot_rom.wf(),
        ensures
            r.wf(),
            r.bootrom.spec_active() == boot_rom.spec_active(),
            r.interrupt_handler == (InterruptHandler {
                interrupt_master_enabled: false,
                enable_delay: 0,
                requested_interrupts: IntLines::spec_none(),
                enabled_interrupts: IntLines::spec_none(),
            }),
            r.timer == (Timer { sysclock: 0, tima: 0, tma: 0, tac: 0 }),
            forall|i: int| 0 <= i < 0x2000 ==> r.work_ram@[i] == 0u8,
            forall|i: int| 0 <= i < 0x7F ==> r.hiram@[i] == 0u8,
            r.gpu.control == 0,
            r.gpu.scanline == 0,
            r.gpu.line_cycles == 0,
    {
        Hardware {
            interrupt_handler: InterruptHandler::new(),
            work_ram: WorkRam::new(),
            hiram: crate::util::zero_vec(0x7F),
            timer: Timer::new(),
            cartridge,
            gpu: Ppu::new(screen),
            bootrom: boot_rom,
            dma_source: 0,
            sound: Sound::new_dmg(player),
            input_controller: InputController::new(controller),
        }
    }

    /// Set or clear a line in the requested mask IF.
    pub fn request(&mut self, interrupt: InterruptLine, requested: bool)
        ensures
            *final(self) == (Hardware {
                interrupt_handler: old(self).interrupt_handler.spec_request(interrupt, requested),
                ..*old(self)
            }),
    {
        self.interrupt_handler.request(interrupt, requested);
    }

    /// Clear both interrupt masks.
    pub fn reset(&mut self)
        ensures
            *final(self) == (Hardware {
                interrupt_handler: (InterruptHandler {
                    requested_interrupts: IntLines::spec_none(),
                    enabled_interrupts: IntLines::spec_none(),
                    ..old(self).interrupt_handler
                }),
                ..*old(self)
            }),
    {
        self.interrupt_handler.requested_interrupts = IntLines::none();
        self.interrupt_handler.enabled_interrupts = IntLines::none();
    }

    pub fn requested_interrupts(&self) -> (r: IntLines)
        ensures
            r == self.interrupt_handler.requested_interrupts,
    {
        self.interrupt_handler.requested_interrupts
    }
}

impl<S: Screen, C: Cartridge, J: Controller, A: AudioPlayer> Interface for Hardware<S, C, J, A> {
    open spec fn wf(&self) -> bool {
        &&& self.work_ram.wf()
        &&& self.hiram@.len() == 0x7F
        &&& self.timer.tac < 8
        &&& self.gpu.wf()
        &&& self.bootrom.wf()
        &&& self.sound.wf()
    }

    open spec fn read_spec(&self, address: u16) -> u8 {
        Hardware::read_spec(self, address)
    }

    open spec fn spec_readable(&self, address: u16) -> bool {
        Hardware::spec_readable(self, address)
    }

    /// High RAM and work RAM (with its echo) are plain storage for every
    /// bus state: writes land in their cell and disturb nothing else.
    open spec fn stack_ok(&self, address: u16) -> bool {
        ||| 0xFF80 <= address < 0xFFFF
        ||| 0xC000 <= address < 0xFE00
    }

    /// Two addresses alias when they are equal, or when both sit in the
    /// work-RAM and echo ranges over the same cell.
    open spec fn aliases(&self, w: u16, r: u16) -> bool {
        ||| w == r
        ||| (0xC000 <= w < 0xFE00 && 0xC000 <= r < 0xFE00 && Hardware::<
            S,
            C,
            J,
            A,
        >::spec_wram_index(w) == Hardware::<S, C, J, A>::spec_wram_index(r))
    }

    proof fn lemma_aliases_reflexive(&self, a: u16) {
    }

    proof fn lemma_adjacent_distinct(&self, w: u16, r: u16) {
    }

    open spec fn ih(&self) -> InterruptHandler {
        self.interrupt_handler
    }

    fn get_byte(&self, address: u16) -> (r: u8) {
        self.read_byte(address)
    }

    #[verifier::rlimit(100)]
    fn set_byte(&mut self, address: u16, value: u8) {
        self.write_byte(address, value);
        proof {
            if 0xFF80 <= address < 0xFFFF {
                assert forall|a: u16| !old(self).aliases(address, a) implies Interface::read_spec(
                    self,
                    a,
                ) == Interface::read_spec(old(self), a) by {
                    if 0xFF80 <= a < 0xFFFF {
                        assert(a != address);
                        assert(a - 0xFF80 != address - 0xFF80);
                    }
                }
            }
            if 0xC000 <= address < 0xFE00 {
                let idx = Hardware::<S, C, J, A>::spec_wram_index(address);
                assert(0 <= idx < 0x2000);
                self.work_ram.lemma_len();
                old(self).work_ram.lemma_len();
                assert(self.work_ram@ == old(self).work_ram@.update(idx, value));
                assert forall|a: u16| old(self).aliases(address, a) implies Interface::read_spec(
                    self,
                    a,
                ) == value by {
                    assert(0xC000 <= a < 0xFE00);
                    assert(Hardware::<S, C, J, A>::spec_wram_index(a) == idx);
                    Hardware::lemma_wram_read(self, a);
                }
                assert forall|a: u16| !old(self).aliases(address, a) implies Interface::read_spec(
                    self,
                    a,
                ) == Interface::read_spec(old(self), a) by {
                    if 0xC000 <= a < 0xFE00 {
                        assert(Hardware::<S, C, J, A>::spec_wram_index(a) != idx);
                        Hardware::lemma_wram_read(self, a);
                        Hardware::lemma_wram_read(old(self), a);
                    }
                }
            }
        }
    }

    fn interrupt_master_enabled(&self) -> (r: bool) {
        self.interrupt_handler.interrupt_master_enabled
    }

    fn highest_pending(&self) -> (r: Option<InterruptLine>) {
        self.interrupt_handler.highest_priority()
    }

    fn any_enabled(&self) -> (r: bool) {
        self.interrupt_handler.any_enabled()
    }

    fn acknowledge(&mut self, interrupt: InterruptLine) {
        self.interrupt_handler.acknowledge(interrupt);
    }

    fn change_interrupt_master_enabled(&mut self, value: bool) {
        self.interrupt_handler.change_interrupt_master_enabled(value);
    }

    fn set_interrupt_disabled(&mut self, disabled: bool) {
        self.interrupt_handler.set_interrupt_disabled(disabled);
    }

    fn step(&mut self) {
        self.interrupt_handler.step();
    }
}

} // verus!
