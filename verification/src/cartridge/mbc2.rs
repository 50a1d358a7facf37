use vstd::prelude::*;
use crate::bits::lemma_byte;

use super::{banked_offset_below, bytes_of, Cartridge, ROM_BANK_SIZE};

verus! {

/// The MBC2 memory bank controller, with its built-in 512 half-bytes of RAM.
pub struct MBC2 {
    pub rom: Vec<u8>,
    pub ram: [u8; 512],
    pub ram_enable: bool,
    pub rom_bank_number: usize,
}

impl MBC2 {
    /// Builds the controller for `data_buffer`. The RAM starts zeroed, and when a save file
    /// exists (`saved_ram`) its first bytes (at most 512) are copied in.
    pub fn new(data_buffer: &Vec<u8>, saved_ram: Option<Vec<u8>>) -> (c: MBC2)
        ensures
            c.is_new(data_buffer@, bytes_of(saved_ram)),
    {
        let rom = data_buffer.clone();
        let mut ram = [0u8; 512];
        match saved_ram {
            Some(r) => {
                let n = if r.len() < 512 { r.len() } else { 512 };
                let mut i: usize = 0;
                while i < n
                    invariant
                        n <= 512,
                        n <= r.len(),
                        n == r.len() || n == 512,
                        i <= n,
                        forall|j: int| 0 <= j < i ==> ram[j] == r@[j],
                        forall|j: int| i <= j < 512 ==> ram[j] == 0,
                    decreases n - i,
                {
                    ram[i] = r[i];
                    i = i + 1;
                }
            },
            None => {},
        }
        MBC2 { rom, ram, ram_enable: false, rom_bank_number: 0 }
    }

    /// Whether the controller is as `new` builds it from ROM `data` and the content of a save
    /// file, if any.
    pub open spec fn is_new(&self, data: Seq<u8>, saved: Option<Seq<u8>>) -> bool {
        &&& self.rom@ == data
        &&& forall|i: int| 0 <= i < 512 ==> self.ram[i] == (match saved {
            Some(r) => if i < r.len() { r[i] } else { 0u8 },
            None => 0u8,
        })
        &&& !self.ram_enable
        &&& self.rom_bank_number == 0
    }

    /// The ROM offset that `address` (0x0000..0x7FFF) maps to.
    pub open spec fn rom_index(&self, address: u16) -> int {
        if address <= 0x3FFF {
            address as int
        } else {
            let bank = if self.rom_bank_number == 0 { 1 } else { self.rom_bank_number };
            address - 0x4000 + bank * ROM_BANK_SIZE
        }
    }

    /// The RAM cell that `address` (0xA000..0xBFFF) maps to: the RAM repeats every 512 bytes.
    pub open spec fn ram_index(address: u16) -> int {
        (address - 0xA000) % 512
    }
}

/// The bit operations on addresses used by the controller.
proof fn lemma_ram_offset(a: usize)
    ensures
        a & 0x1FF == a % 512,
        (a >> 8) & 1 == (a / 256) % 2,
{
    assert(a & 0x1FF == a % 512 && (a >> 8) & 1 == (a / 256) % 2) by (bit_vector);
}

impl Cartridge for MBC2 {
    open spec fn readable(&self, address: u16) -> bool {
        if address <= 0x7FFF {
            self.rom_index(address) < self.rom@.len()
        } else {
            0xA000 <= address <= 0xBFFF
        }
    }

    open spec fn read_value(&self, address: u16) -> u8 {
        if address <= 0x7FFF {
            self.rom@[self.rom_index(address)]
        } else if self.ram_enable {
            self.ram[MBC2::ram_index(address)]
        } else {
            0xFF
        }
    }

    open spec fn writable(&self, address: u16) -> bool {
        address <= 0x7FFF || (0xA000 <= address <= 0xBFFF)
    }

    /// Below 0x4000, bit 8 of the address selects between the RAM enable (clear) and the ROM
    /// bank (set); RAM cells keep four bits, the upper four read as 1.
    open spec fn write_result(&self, address: u16, value: u8, new: &Self) -> bool {
        &&& new.rom == self.rom
        &&& if address <= 0x3FFF {
            if (address / 256) % 2 == 0 {
                &&& new.ram_enable == (value % 16 == 0xA)
                &&& new.ram == self.ram && new.rom_bank_number == self.rom_bank_number
            } else {
                &&& new.rom_bank_number == (value % 16) as usize
                &&& new.ram == self.ram && new.ram_enable == self.ram_enable
            }
        } else if address <= 0x7FFF {
            *new == *self
        } else {
            &&& new.ram@ == (if self.ram_enable { self.ram@.update(MBC2::ram_index(address), value | 0xF0) } else { self.ram@ })
            &&& new.ram_enable == self.ram_enable && new.rom_bank_number == self.rom_bank_number
        }
    }

    open spec fn clock_can_advance(&self) -> bool {
        true
    }

    open spec fn clock_result(&self, new: &Self) -> bool {
        *new == *self
    }

    fn read(&self, address: u16) -> (v: u8) {
        let rom_len = self.rom.len();
        let address = address as usize;
        if address <= 0x3FFF {
            self.rom[address]
        } else if address <= 0x7FFF {
            let offset = address - 0x4000;
            if self.rom_bank_number == 0 {
                self.rom[offset + ROM_BANK_SIZE]
            } else {
                self.rom[offset + self.rom_bank_number * ROM_BANK_SIZE]
            }
        } else {
            let a = address - 0xA000;
            let index = a & 0x1FF;
            assert(a & 0x1FF == a % 512 && (a >> 8) & 1 == (a / 256) % 2) by { lemma_ram_offset(a); }
            if self.ram_enable {
                self.ram[index]
            } else {
                0xFF
            }
        }
    }

    fn write(&mut self, address: u16, value: u8) {
        assert((value & 0x0Fu8) == value % 16) by { lemma_byte(value); }
        let address = address as usize;
        if address <= 0x3FFF {
            let bit_8 = (address >> 8) & 0x1;
            assert((address >> 8) & 1 == (address / 256) % 2) by { lemma_ram_offset(address); }
            if bit_8 == 0 {
                self.ram_enable = value & 0x0F == 0x0A;
            } else {
                let low_nibble = value & 0x0F;
                self.rom_bank_number = low_nibble as usize;
            }
        } else if address <= 0x7FFF {
        } else {
            let a = address - 0xA000;
            let index = a & 0x1FF;
            assert(a & 0x1FF == a % 512 && (a >> 8) & 1 == (a / 256) % 2) by { lemma_ram_offset(a); }
            if self.ram_enable {
                self.ram[index] = value | 0xF0;
            }
        }
    }

    /// There is no clock.
    fn can_read(&self, address: u16) -> (b: bool) {
        if address <= 0x3FFF {
            (address as usize) < self.rom.len()
        } else if address <= 0x7FFF {
            let bank = if self.rom_bank_number == 0 { 1 } else { self.rom_bank_number };
            banked_offset_below((address - 0x4000) as usize, bank, ROM_BANK_SIZE, self.rom.len())
        } else {
            0xA000 <= address && address <= 0xBFFF
        }
    }

    fn can_write(&self, address: u16) -> (b: bool) {
        address <= 0x7FFF || (0xA000 <= address && address <= 0xBFFF)
    }

    fn clock_can_advance_now(&self) -> (b: bool) {
        true
    }

    fn update_clock(&mut self) {
    }
}


/// With RAM enabled, a nibble written to the built-in RAM reads back with the upper four bits
/// set.
pub proof fn lemma_ram_round_trip(c: MBC2, new: MBC2, address: u16, value: u8)
    requires
        0xA000 <= address <= 0xBFFF,
        c.ram_enable,
        c.write_result(address, value, &new),
    ensures
        new.readable(address),
        new.read_value(address) == value | 0xF0,
{
}

} // verus!
