use vstd::prelude::*;

use super::Cartridge;

verus! {

pub const ROM_SIZE: usize = 32768;

/// A cartridge with 32 KiB of ROM and nothing else.
pub struct RomOnly {
    pub rom: [u8; 32768],
}

impl RomOnly {
    /// Whether the ROM holds `data` followed by zeros.
    pub open spec fn is_new(&self, data: Seq<u8>) -> bool {
        &&& forall|i: int| 0 <= i < data.len() ==> self.rom[i] == data[i]
        &&& forall|i: int| data.len() <= i < ROM_SIZE ==> self.rom[i] == 0
    }

    /// Copies `data_buffer` into the start of a zero-filled 32 KiB ROM.
    pub fn new(data_buffer: &Vec<u8>) -> (r: RomOnly)
        requires
            data_buffer.len() <= ROM_SIZE,
        ensures
            r.is_new(data_buffer@),
    {
        let mut rom = [0u8; 32768];
        let end = data_buffer.len();
        let mut i: usize = 0;
        while i < end
            invariant
                end == data_buffer.len(),
                end <= ROM_SIZE,
                i <= end,
                forall|j: int| 0 <= j < i ==> rom[j] == data_buffer[j],
                forall|j: int| end <= j < ROM_SIZE ==> rom[j] == 0,
            decreases end - i,
        {
            rom[i] = data_buffer[i];
            i = i + 1;
        }
        RomOnly { rom }
    }
}

impl Cartridge for RomOnly {
    open spec fn readable(&self, address: u16) -> bool {
        address <= 0x7FFF || address >= 0xA000
    }

    open spec fn read_value(&self, address: u16) -> u8 {
        if address >= 0xA000 { 0xFF } else { self.rom[address as int] }
    }

    open spec fn writable(&self, address: u16) -> bool {
        true
    }

    open spec fn write_result(&self, address: u16, value: u8, new: &Self) -> bool {
        *new == *self
    }

    open spec fn clock_can_advance(&self) -> bool {
        true
    }

    open spec fn clock_result(&self, new: &Self) -> bool {
        *new == *self
    }

    /// ROM reads return the ROM byte; there is no external RAM, so it reads as 0xFF.
    fn read(&self, address: u16) -> (v: u8) {
        if address >= 0xA000 {
            0xFF
        } else {
            self.rom[address as usize]
        }
    }

    /// Writes are ignored.
    fn write(&mut self, address: u16, value: u8) {
    }

    /// There is no clock.
    fn can_read(&self, address: u16) -> (b: bool) {
        address <= 0x7FFF || address >= 0xA000
    }

    fn can_write(&self, address: u16) -> (b: bool) {
        true
    }

    fn clock_can_advance_now(&self) -> (b: bool) {
        true
    }

    fn update_clock(&mut self) {
    }
}

} // verus!
