//! Cycle-driven emulation core for an 8-bit handheld game console built
//! around a Sharp LR35902 CPU, a scanline picture processing unit, a
//! configurable timer, an interrupt controller and a memory-mapped bus.

pub mod alu;
pub mod bitmask;
pub mod boot_rom;
pub mod cartridge;
pub mod color_palette;
pub mod cpu;
pub mod errors;
pub mod flags;
pub mod gameboy;
pub mod hardware;
pub mod input;
pub mod interrupt_handler;
pub mod ppu;
pub mod registers;
pub mod screen;
pub mod sound;
pub mod timer;
pub mod util;
pub mod work_ram;
