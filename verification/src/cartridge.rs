use crate::errors::CoreError;
use vstd::prelude::*;

verus! {

/// The cartridge capability: the core performs no mapper logic of its own
/// and reaches ROM, external RAM and the mapper registers only through
/// these four methods. The clock source serves real-time mappers.
pub trait Cartridge {
    fn read_rom(&self, address: u16) -> u8;

    fn write_rom(&mut self, address: u16, value: u8);

    fn read_ram(&self, address: u16) -> u8;

    fn write_ram(&mut self, address: u16, value: u8);

    fn clock(&self) -> u64;
}

/// A plain unbanked cartridge: 32 KiB of ROM read straight through, mapper
/// register writes discarded, and no external RAM (reads yield 0xFF).
pub struct RomOnlyCartridge {
    rom: Vec<u8>,
}

impl RomOnlyCartridge {
    pub closed spec fn view(&self) -> Seq<u8> {
        self.rom@
    }

    pub closed spec fn wf(&self) -> bool {
        self.rom@.len() == 0x8000
    }

    /// A cartridge image must fill the full unbanked 32 KiB ROM window;
    /// anything shorter has no complete header and is rejected.
    pub fn new(rom: Vec<u8>) -> (r: Result<RomOnlyCartridge, CoreError>)
        ensures
            rom@.len() == 0x8000 <==> r is Ok,
            r matches Ok(c) ==> c.wf() && c@ == rom@,
            r matches Err(e) ==> e == CoreError::InvalidRom,
    {
        if rom.len() == 0x8000 {
            Ok(RomOnlyCartridge { rom })
        } else {
            Err(CoreError::InvalidRom)
        }
    }

    pub fn rom_byte(&self, address: u16) -> (r: u8)
        requires
            self.wf(),
        ensures
            r == if address < 0x8000 {
                self@[address as int]
            } else {
                0xFFu8
            },
    {
        if address < 0x8000 {
            self.rom[address as usize]
        } else {
            0xFF
        }
    }
}

impl Cartridge for RomOnlyCartridge {
    fn read_rom(&self, address: u16) -> u8 {
        if address < 0x8000 && (address as usize) < self.rom.len() {
            self.rom[address as usize]
        } else {
            0xFF
        }
    }

    fn write_rom(&mut self, address: u16, value: u8) {
    }

    fn read_ram(&self, address: u16) -> u8 {
        0xFF
    }

    fn write_ram(&mut self, address: u16, value: u8) {
    }

    fn clock(&self) -> u64 {
        0
    }
}

} // verus!
