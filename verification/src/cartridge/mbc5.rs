use vstd::prelude::*;
use crate::bits::lemma_byte;

use super::{banked_offset_below, bytes_of, bank_mask, is_bank_mask, Cartridge, RAM_BANK_SIZE, ROM_BANK_SIZE};

verus! {

/// The MBC5 memory bank controller, with a nine-bit ROM bank number.
pub struct MBC5 {
    pub rom: Vec<u8>,
    pub ram: Vec<u8>,
    pub ram_enable: bool,
    pub rom_bank_number: usize,
    pub ram_bank_number: usize,
    pub rom_bit_mask: usize,
}

/// `value` with bit `pos` forced to `bit` (0 or 1).
pub open spec fn with_bit_usize(value: usize, pos: usize, bit: u8) -> usize {
    if bit == 0 { value & !(1usize << pos) } else { value | (1usize << pos) }
}

/// Returns `value` with the bit at `bit_position` set to `bit_value`.
fn set_bit(value: usize, bit_position: usize, bit_value: u8) -> (r: usize)
    requires
        bit_position < 32,
        bit_value <= 1,
    ensures
        r == with_bit_usize(value, bit_position, bit_value),
{
    if bit_value == 0 {
        value & !(1usize << bit_position)
    } else {
        value | (1usize << bit_position)
    }
}

impl MBC5 {
    /// Builds the controller for `data_buffer`. `saved_ram` is the content of the save file
    /// when there is one; otherwise the RAM is `ram_banks` zeroed banks.
    pub fn new(data_buffer: &Vec<u8>, ram_banks: usize, saved_ram: Option<Vec<u8>>) -> (c: MBC5)
        requires
            saved_ram is None ==> ram_banks * RAM_BANK_SIZE <= usize::MAX,
        ensures
            c.is_new(data_buffer@, ram_banks as nat, bytes_of(saved_ram)),
    {
        let rom = data_buffer.clone();
        let rom_banks = rom.len() / ROM_BANK_SIZE;
        let rom_bit_mask = bank_mask(rom_banks);
        let ram = match saved_ram {
            Some(r) => r,
            None => vec![0u8; ram_banks * RAM_BANK_SIZE],
        };
        MBC5 { rom, ram, ram_enable: false, rom_bank_number: 1, ram_bank_number: 0, rom_bit_mask }
    }

    /// Whether the controller is as `new` builds it from ROM `data`, `ram_banks` banks of RAM
    /// and the content of a save file, if any.
    pub open spec fn is_new(&self, data: Seq<u8>, ram_banks: nat, saved: Option<Seq<u8>>) -> bool {
        &&& self.rom@ == data
        &&& match saved {
            Some(r) => self.ram@ == r,
            None => self.ram@.len() == ram_banks * RAM_BANK_SIZE
                && forall|i: int| 0 <= i < self.ram@.len() ==> self.ram@[i] == 0,
        }
        &&& !self.ram_enable
        &&& self.rom_bank_number == 1
        &&& self.ram_bank_number == 0
        &&& is_bank_mask(data.len() / ROM_BANK_SIZE as nat, self.rom_bit_mask as nat)
    }

    /// The ROM offset that `address` (0x0000..0x7FFF) maps to.
    pub open spec fn rom_index(&self, address: u16) -> int {
        if address <= 0x3FFF {
            address as int
        } else {
            address - 0x4000 + (self.rom_bank_number & self.rom_bit_mask) * ROM_BANK_SIZE
        }
    }

    /// The RAM offset that `address` (0xA000..0xBFFF) maps to.
    pub open spec fn ram_index(&self, address: u16) -> int {
        address - 0xA000 + self.ram_bank_number * RAM_BANK_SIZE
    }
}

impl Cartridge for MBC5 {
    open spec fn readable(&self, address: u16) -> bool {
        if address <= 0x7FFF {
            self.rom_index(address) < self.rom@.len()
        } else if 0xA000 <= address <= 0xBFFF {
            self.ram_enable ==> self.ram_index(address) < self.ram@.len()
        } else {
            false
        }
    }

    open spec fn read_value(&self, address: u16) -> u8 {
        if address <= 0x7FFF {
            self.rom@[self.rom_index(address)]
        } else if self.ram_enable {
            self.ram@[self.ram_index(address)]
        } else {
            0xFF
        }
    }

    open spec fn writable(&self, address: u16) -> bool {
        if address <= 0x9FFF {
            true
        } else if address <= 0xBFFF {
            self.ram_enable ==> self.ram_index(address) < self.ram@.len()
        } else {
            false
        }
    }

    /// 0x2000..0x2FFF sets the low eight bits of the ROM bank, 0x3000..0x3FFF its ninth bit,
    /// 0x6000..0x9FFF is ignored.
    open spec fn write_result(&self, address: u16, value: u8, new: &Self) -> bool {
        &&& new.rom == self.rom
        &&& if address <= 0x1FFF {
            *new == MBC5 { rom: new.rom, ram: new.ram, ram_enable: value % 16 == 0xA, ..*self } && new.ram == self.ram
        } else if address <= 0x2FFF {
            *new == MBC5 { rom: new.rom, ram: new.ram, rom_bank_number: (self.rom_bank_number & !0xFFusize) | value as usize, ..*self }
            && new.ram == self.ram
        } else if address <= 0x3FFF {
            *new == MBC5 { rom: new.rom, ram: new.ram, rom_bank_number: with_bit_usize(self.rom_bank_number, 8, value % 2), ..*self }
            && new.ram == self.ram
        } else if address <= 0x5FFF {
            *new == MBC5 { rom: new.rom, ram: new.ram, ram_bank_number: (value % 16) as usize, ..*self } && new.ram == self.ram
        } else if address <= 0x9FFF {
            *new == MBC5 { rom: new.rom, ram: new.ram, ..*self } && new.ram == self.ram
        } else {
            new.ram@ == (if self.ram_enable { self.ram@.update(self.ram_index(address), value) } else { self.ram@ })
            && *new == MBC5 { rom: new.rom, ram: new.ram, ..*self }
        }
    }

    open spec fn clock_can_advance(&self) -> bool {
        true
    }

    open spec fn clock_result(&self, new: &Self) -> bool {
        *new == *self
    }

    fn read(&self, address: u16) -> (v: u8) {
        let rom_len = self.rom.len();
        let ram_len = self.ram.len();
        let address = address as usize;
        if address <= 0x3FFF {
            self.rom[address]
        } else if address <= 0x7FFF {
            let offset = address - 0x4000;
            let bank = self.rom_bank_number & self.rom_bit_mask;
            self.rom[offset + bank * ROM_BANK_SIZE]
        } else {
            let offset = address - 0xA000;
            if self.ram_enable {
                self.ram[offset + self.ram_bank_number * RAM_BANK_SIZE]
            } else {
                0xFF
            }
        }
    }

    fn write(&mut self, address: u16, value: u8) {
        assert((value & 0x0Fu8) == value % 16) by { lemma_byte(value); }
        assert((value & 0x01u8) == value % 2) by { lemma_byte(value); }
        let ram_len = self.ram.len();
        let address = address as usize;
        if address <= 0x1FFF {
            let low_nibble = value & 0x0F;
            self.ram_enable = low_nibble == 0x0A;
        } else if address <= 0x2FFF {
            self.rom_bank_number = self.rom_bank_number & !0xFF;
            self.rom_bank_number = self.rom_bank_number | value as usize;
        } else if address <= 0x3FFF {
            let one_bit = value & 0x01;
            self.rom_bank_number = set_bit(self.rom_bank_number, 8, one_bit);
        } else if address <= 0x5FFF {
            let four_bits = value & 0x0F;
            self.ram_bank_number = four_bits as usize;
        } else if address <= 0x9FFF {
        } else {
            let offset = address - 0xA000;
            if self.ram_enable {
                self.ram.set(offset + self.ram_bank_number * RAM_BANK_SIZE, value);
            }
        }
    }

    /// There is no clock.
    fn can_read(&self, address: u16) -> (b: bool) {
        if address <= 0x3FFF {
            (address as usize) < self.rom.len()
        } else if address <= 0x7FFF {
            banked_offset_below((address - 0x4000) as usize, self.rom_bank_number & self.rom_bit_mask, ROM_BANK_SIZE, self.rom.len())
        } else if 0xA000 <= address && address <= 0xBFFF {
            !self.ram_enable || banked_offset_below((address - 0xA000) as usize, self.ram_bank_number, RAM_BANK_SIZE, self.ram.len())
        } else {
            false
        }
    }

    fn can_write(&self, address: u16) -> (b: bool) {
        if address <= 0x9FFF {
            true
        } else if address <= 0xBFFF {
            !self.ram_enable || banked_offset_below((address - 0xA000) as usize, self.ram_bank_number, RAM_BANK_SIZE, self.ram.len())
        } else {
            false
        }
    }

    fn clock_can_advance_now(&self) -> (b: bool) {
        true
    }

    fn update_clock(&mut self) {
    }
}


/// With RAM enabled, a byte written to external RAM reads back as written.
pub proof fn lemma_ram_round_trip(c: MBC5, new: MBC5, address: u16, value: u8)
    requires
        0xA000 <= address <= 0xBFFF,
        c.ram_enable,
        c.writable(address),
        c.write_result(address, value, &new),
    ensures
        new.readable(address),
        new.read_value(address) == value,
{
}

} // verus!
