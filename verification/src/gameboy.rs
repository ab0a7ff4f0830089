use crate::boot_rom::Bootrom;
use crate::cartridge::Cartridge;
use crate::cpu::{Cpu, Interface};
use crate::hardware::Hardware;
use crate::input::{Button, Controller};
use crate::interrupt_handler::{IntLines, InterruptLine};
use crate::ppu::Ppu;
use crate::screen::Screen;
use crate::sound::AudioPlayer;
use vstd::prelude::*;

verus! {

pub const SCREEN_WIDTH: usize = 160;

pub const SCREEN_HEIGHT: usize = 144;

/// Bytes of one RGB frame.
pub const SCREEN_PIXELS: usize = 160 * 144 * 3;

/// T-cycles of the master clock per second.
pub const CPU_FREQ_HZ: usize = 4194304;

/// The whole machine: the CPU over the bus that owns every peripheral.
pub struct GameBoy<S: Screen, C: Cartridge, J: Controller, A: AudioPlayer> {
    pub cpu: Cpu<Hardware<S, C, J, A>>,
}

impl<S: Screen, C: Cartridge, J: Controller, A: AudioPlayer> GameBoy<S, C, J, A> {
    pub open spec fn wf(&self) -> bool {
        self.cpu.wf()
    }

    /// Assemble the machine. Without an active boot ROM the registers
    /// start in the post-boot state.
    pub fn create(screen: S, cartridge: C, boot_rom: Bootrom, player: A, controller: J) -> (r:
        GameBoy<S, C, J, A>)
        requires
            boot_rom.wf(),
        ensures
            r.wf(),
            !boot_rom.spec_active() ==> (r.cpu.registers.pc == 0x0100 && r.cpu.registers.sp
                == 0xFFFE && r.cpu.registers.spec_af() == 0x01B0 && r.cpu.registers.spec_bc()
                == 0x0013 && r.cpu.registers.spec_de() == 0x00D8 && r.cpu.registers.spec_hl()
                == 0x014D && r.cpu.interface.gpu.control == 0x91),
    {
        let active = boot_rom.is_active();
        let hardware = Hardware::create(screen, cartridge, boot_rom, player, controller);
        let mut gb = GameBoy { cpu: Cpu::create(hardware) };
        if !active {
            gb.reset();
        }
        gb
    }

    /// Restore the post-boot register and I/O state, as left behind by
    /// the boot ROM: the documented register pairs, IE cleared, IF with
    /// only VBLANK requested, and the documented LCDC and palette bytes.
    pub fn reset(&mut self)
        requires
            old(self).wf(),
        ensures
            final(self).wf(),
            final(self).cpu.registers.pc == 0x0100,
            final(self).cpu.registers.sp == 0xFFFE,
            final(self).cpu.registers.spec_af() == 0x01B0,
            final(self).cpu.registers.spec_bc() == 0x0013,
            final(self).cpu.registers.spec_de() == 0x00D8,
            final(self).cpu.registers.spec_hl() == 0x014D,
            final(self).cpu.interface.interrupt_handler.enabled_interrupts
                == IntLines::spec_none(),
            final(self).cpu.interface.interrupt_handler.requested_interrupts == (IntLines {
                vblank: true,
                stat: false,
                timer: false,
                serial: false,
                joypad: false,
            }),
            final(self).cpu.interface.gpu.control == 0x91,
            final(self).cpu.interface.gpu.background_palette == (crate::ppu::Palette(0xFC)),
            final(self).cpu.interface.gpu.obj_palette0 == (crate::ppu::Palette(0xFF)),
            final(self).cpu.interface.gpu.obj_palette1 == (crate::ppu::Palette(0xFF)),
    {
        self.cpu.registers.set_pc(0x0100);
        self.cpu.registers.set_sp(0xFFFE);
        self.cpu.registers.set_af(0x01B0);
        self.cpu.registers.set_bc(0x0013);
        self.cpu.registers.set_de(0x00D8);
        self.cpu.registers.set_hl(0x014D);
        self.cpu.interface.interrupt_handler.set_enabled_interrupts_flag(0);
        self.cpu.interface.interrupt_handler.set_interrupt_flag(0xE1);
        self.cpu.interface.gpu.reset();
    }

    /// Run one instruction and advance every peripheral by its cost, the
    /// timer first, then the PPU, then the joypad poll. The cost is
    /// always one of 4, 8, 12, 16, 20 or 24 T-cycles. The contract names
    /// the machine state the CPU step left behind: the CPU ran on it
    /// exactly as its step relation says, the timer then advanced by the
    /// same cost with its request landing in IF, the PPU advanced by its
    /// own step relation with its requests landing in IF, the joypad
    /// polled its row, and nothing else moved.
    pub fn tick(&mut self) -> (cycles: u8)
        requires
            old(self).wf(),
        ensures
            final(self).wf(),
            4 <= cycles <= 24,
            cycles % 4 == 0,
            exists|mid: Cpu<Hardware<S, C, J, A>>|
                {
                    &&& #[trigger] Cpu::<Hardware<S, C, J, A>>::spec_step_rel(
                        old(self).cpu,
                        mid,
                        cycles,
                    )
                    &&& final(self).cpu.registers == mid.registers
                    &&& final(self).cpu.state == mid.state
                    &&& final(self).cpu.op_code == mid.op_code
                    &&& final(self).cpu.illegal_opcode == mid.illegal_opcode
                    &&& ({
                        let hw1 = mid.interface;
                        let timer_out = crate::timer::spec_timer_run(hw1.timer, cycles as nat);
                        let ih1 = if timer_out.1 {
                            hw1.interrupt_handler.spec_request(InterruptLine::Timer, true)
                        } else {
                            hw1.interrupt_handler
                        };
                        &&& final(self).cpu.interface.timer == timer_out.0
                        &&& final(self).cpu.interface.work_ram@ == hw1.work_ram@
                        &&& final(self).cpu.interface.hiram@ == hw1.hiram@
                        &&& final(self).cpu.interface.bootrom == hw1.bootrom
                        &&& final(self).cpu.interface.dma_source == hw1.dma_source
                        &&& final(self).cpu.interface.sound@ == hw1.sound@
                        &&& final(self).cpu.interface.cartridge == hw1.cartridge
                        &&& final(self).cpu.interface.input_controller.pressed
                            == hw1.input_controller.pressed
                        &&& final(self).cpu.interface.input_controller.register.select_directional
                            == hw1.input_controller.register.select_directional
                        &&& final(self).cpu.interface.input_controller.register.select_button
                            == hw1.input_controller.register.select_button
                        &&& (exists|
                            a: bool,
                            b: bool,
                            up: bool,
                            down: bool,
                            left: bool,
                            right: bool,
                            start: bool,
                            select: bool,
                        |
                            final(self).cpu.interface.input_controller.register
                                == hw1.input_controller.register.spec_rows_applied(
                                a,
                                b,
                                up,
                                down,
                                left,
                                right,
                                start,
                                select,
                            ))
                        &&& exists|gpu2: Ppu<S>, irq: crate::ppu::PpuIrq|
                            {
                                &&& #[trigger] Ppu::<S>::spec_step_rel(hw1.gpu, gpu2, cycles, irq)
                                &&& final(self).cpu.interface.gpu == gpu2
                                &&& ({
                                    let ih2 = if irq.vblank {
                                        ih1.spec_request(InterruptLine::Vblank, true)
                                    } else {
                                        ih1
                                    };
                                    let ih3 = if irq.stat {
                                        ih2.spec_request(InterruptLine::Stat, true)
                                    } else {
                                        ih2
                                    };
                                    final(self).cpu.interface.interrupt_handler == (
                                    if hw1.input_controller.register.spec_press_edge(
                                        final(self).cpu.interface.input_controller.register,
                                    ) {
                                        ih3.spec_request(InterruptLine::Joypad, true)
                                    } else {
                                        ih3
                                    })
                                })
                            }
                    })
                },
    {
        let cycles = self.cpu.step();
        let ghost mid = self.cpu;
        let hw = self.cpu.get_interface();
        let timer_request = hw.timer.step(cycles);
        if timer_request {
            hw.request(InterruptLine::Timer, true);
        }
        let ghost irq_ghost;
        let irq = hw.gpu.step(cycles);
        proof {
            irq_ghost = irq;
        }
        let ghost gpu2 = hw.gpu;
        if irq.vblank {
            hw.request(InterruptLine::Vblank, true);
        }
        if irq.stat {
            hw.request(InterruptLine::Stat, true);
        }
        let handler = &mut hw.interrupt_handler;
        hw.input_controller.update_state(handler);
        proof {
            assert(Cpu::<Hardware<S, C, J, A>>::spec_step_rel(old(self).cpu, mid, cycles));
            assert(Ppu::<S>::spec_step_rel(mid.interface.gpu, gpu2, cycles, irq_ghost));
        }
        cycles
    }

    /// A host key event: the button is now down.
    pub fn key_pressed(&mut self, button: Button)
        requires
            old(self).wf(),
        ensures
            final(self).wf(),
            final(self).cpu.interface.input_controller.pressed == old(
                self,
            ).cpu.interface.input_controller.pressed.spec_set(button, true),
            final(self).cpu.interface.input_controller.register == old(
                self,
            ).cpu.interface.input_controller.register,
    {
        self.cpu.interface.input_controller.set_button(button, true);
    }

    /// A host key event: the button is now up.
    pub fn key_released(&mut self, button: Button)
        requires
            old(self).wf(),
        ensures
            final(self).wf(),
            final(self).cpu.interface.input_controller.pressed == old(
                self,
            ).cpu.interface.input_controller.pressed.spec_set(button, false),
            final(self).cpu.interface.input_controller.register == old(
                self,
            ).cpu.interface.input_controller.register,
    {
        self.cpu.interface.input_controller.set_button(button, false);
    }

    /// Whether an unknown opcode has halted the CPU.
    pub fn illegal_opcode(&self) -> (r: bool)
        ensures
            r == self.cpu.illegal_opcode,
    {
        self.cpu.illegal_opcode
    }
}

} // verus!
