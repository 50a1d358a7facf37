use vstd::prelude::*;
use crate::bits::lemma_byte;

use super::{banked_offset_below, bytes_of, bank_mask, is_bank_mask, Cartridge, RAM_BANK_SIZE, ROM_BANK_SIZE};

verus! {

/// How the two-bit register at 0x4000..0x5FFF is used.
#[derive(Clone, Copy, Debug, PartialEq, Eq, Structural)]
pub enum BankingMode {
    Simple,
    Advanced,
}

/// The MBC1 memory bank controller.
pub struct MBC1 {
    pub rom: Vec<u8>,
    pub ram: Vec<u8>,
    pub ram_enable: bool,
    pub rom_bank_number: usize,
    pub ram_bank_number: usize,
    pub banking_mode: BankingMode,
    pub rom_bit_mask: usize,
}

impl MBC1 {
    /// Builds the controller for `data_buffer`. `saved_ram` is the content of the save file
    /// when there is one; otherwise the RAM is `ram_banks` zeroed banks.
    pub fn new(data_buffer: &Vec<u8>, ram_banks: usize, saved_ram: Option<Vec<u8>>) -> (c: MBC1)
        requires
            saved_ram is None ==> ram_banks * RAM_BANK_SIZE <= usize::MAX,
        ensures
            c.is_new(data_buffer@, ram_banks as nat, bytes_of(saved_ram)),
    {
        let rom = data_buffer.clone();
        let rom_banks = rom.len() / ROM_BANK_SIZE;
        let rom_bit_mask = bank_mask(rom_banks);
        let ram = match saved_ram {
            Some(r) => r,
            None => vec![0u8; ram_banks * RAM_BANK_SIZE],
        };
        MBC1 {
            rom,
            ram,
            ram_enable: false,
            rom_bank_number: 0,
            ram_bank_number: 0,
            banking_mode: BankingMode::Simple,
            rom_bit_mask,
        }
    }

    /// Whether the controller is as `new` builds it from ROM `data`, `ram_banks` banks of RAM
    /// and the content of a save file, if any.
    pub open spec fn is_new(&self, data: Seq<u8>, ram_banks: nat, saved: Option<Seq<u8>>) -> bool {
        &&& self.rom@ == data
        &&& match saved {
            Some(r) => self.ram@ == r,
            None => self.ram@.len() == ram_banks * RAM_BANK_SIZE
                && forall|i: int| 0 <= i < self.ram@.len() ==> self.ram@[i] == 0,
        }
        &&& !self.ram_enable
        &&& self.rom_bank_number == 0
        &&& self.ram_bank_number == 0
        &&& self.banking_mode == BankingMode::Simple
        &&& is_bank_mask(data.len() / ROM_BANK_SIZE as nat, self.rom_bit_mask as nat)
    }

    /// Whether the RAM bank register selects the RAM bank (advanced mode with more than one
    /// bank of RAM).
    pub open spec fn ram_banked(&self) -> bool {
        self.banking_mode == BankingMode::Advanced && self.ram@.len() / (RAM_BANK_SIZE as nat) > 1
    }

    /// The ROM offset that `address` (0x0000..0x7FFF) maps to.
    pub open spec fn rom_index(&self, address: u16) -> int {
        if address <= 0x3FFF {
            if self.banking_mode == BankingMode::Simple || self.rom_bit_mask <= 0x1F {
                address as int
            } else {
                address + self.ram_bank_number * 32 * ROM_BANK_SIZE
            }
        } else {
            let low = if self.rom_bank_number == 0 { 1 } else { self.rom_bank_number };
            let bank = if self.rom_bit_mask > 0x1F {
                ((self.ram_bank_number * 32 + low) as usize) & self.rom_bit_mask
            } else {
                low & self.rom_bit_mask
            };
            address - 0x4000 + bank * ROM_BANK_SIZE
        }
    }

    /// The RAM offset that `address` (0xA000..0xBFFF) maps to.
    pub open spec fn ram_index(&self, address: u16) -> int {
        if self.ram_banked() {
            address - 0xA000 + self.ram_bank_number * RAM_BANK_SIZE
        } else {
            address - 0xA000
        }
    }

    /// Register writes keep the bank numbers in range.
    pub open spec fn registers_in_range(&self) -> bool {
        self.rom_bank_number <= 0x1F && self.ram_bank_number <= 3
    }
}

impl MBC1 {
    /// Whether the RAM offset of `address` (0xA000..0xBFFF) lies inside the RAM.
    fn can_touch_ram(&self, address: u16) -> (b: bool)
        requires
            0xA000 <= address <= 0xBFFF,
            self.ram_bank_number <= 3,
        ensures
            b == (self.ram_index(address) < self.ram@.len()),
    {
        let offset = (address - 0xA000) as usize;
        if self.banking_mode == BankingMode::Advanced && self.ram.len() / RAM_BANK_SIZE > 1 {
            offset + self.ram_bank_number * RAM_BANK_SIZE < self.ram.len()
        } else {
            offset < self.ram.len()
        }
    }
}

/// Shifting the two-bit RAM bank register into ROM bank bits 5 and 6.
proof fn lemma_bank_shift(hi: usize)
    requires
        hi <= 3,
    ensures
        hi << 5 == hi * 32,
{
    assert(hi << 5 == hi * 32) by (bit_vector)
        requires
            hi <= 3;
}

impl Cartridge for MBC1 {
    open spec fn readable(&self, address: u16) -> bool {
        &&& self.registers_in_range()
        &&& if address <= 0x7FFF {
            self.rom_index(address) < self.rom@.len()
        } else if 0xA000 <= address <= 0xBFFF {
            self.ram_enable ==> self.ram_index(address) < self.ram@.len()
        } else {
            false
        }
    }

    open spec fn read_value(&self, address: u16) -> u8 {
        if address <= 0x7FFF {
            self.rom@[self.rom_index(address)]
        } else if self.ram_enable {
            self.ram@[self.ram_index(address)]
        } else {
            0xFF
        }
    }

    open spec fn writable(&self, address: u16) -> bool {
        &&& self.registers_in_range()
        &&& if address <= 0x7FFF {
            true
        } else if 0xA000 <= address <= 0xBFFF {
            self.ram_enable ==> self.ram_index(address) < self.ram@.len()
        } else {
            false
        }
    }

    open spec fn write_result(&self, address: u16, value: u8, new: &Self) -> bool {
        &&& new.rom == self.rom
        &&& new.rom_bit_mask == self.rom_bit_mask
        &&& new.registers_in_range()
        &&& if address <= 0x1FFF {
            &&& new.ram_enable == (value % 16 == 0xA)
            &&& new.ram == self.ram && new.rom_bank_number == self.rom_bank_number
            &&& new.ram_bank_number == self.ram_bank_number && new.banking_mode == self.banking_mode
        } else if address <= 0x3FFF {
            &&& new.rom_bank_number == (value % 32) as usize
            &&& new.ram == self.ram && new.ram_enable == self.ram_enable
            &&& new.ram_bank_number == self.ram_bank_number && new.banking_mode == self.banking_mode
        } else if address <= 0x5FFF {
            &&& new.ram_bank_number == (value % 4) as usize
            &&& new.ram == self.ram && new.ram_enable == self.ram_enable
            &&& new.rom_bank_number == self.rom_bank_number && new.banking_mode == self.banking_mode
        } else if address <= 0x7FFF {
            &&& new.banking_mode == (if value % 2 == 0 { BankingMode::Simple } else { BankingMode::Advanced })
            &&& new.ram == self.ram && new.ram_enable == self.ram_enable
            &&& new.rom_bank_number == self.rom_bank_number && new.ram_bank_number == self.ram_bank_number
        } else {
            &&& new.ram@ == (if self.ram_enable { self.ram@.update(self.ram_index(address), value) } else { self.ram@ })
            &&& new.ram_enable == self.ram_enable && new.rom_bank_number == self.rom_bank_number
            &&& new.ram_bank_number == self.ram_bank_number && new.banking_mode == self.banking_mode
        }
    }

    open spec fn clock_can_advance(&self) -> bool {
        true
    }

    open spec fn clock_result(&self, new: &Self) -> bool {
        *new == *self
    }

    fn read(&self, address: u16) -> (v: u8) {
        let rom_len = self.rom.len();
        let address = address as usize;
        if address <= 0x3FFF {
            if self.banking_mode == BankingMode::Simple || self.rom_bit_mask <= 0x1F {
                self.rom[address]
            } else {
                let hi = self.ram_bank_number;
                proof {
                    lemma_bank_shift(hi);
                }
                let rom_bank = hi << 5;
                self.rom[address + rom_bank * ROM_BANK_SIZE]
            }
        } else if address <= 0x7FFF {
            let offset = address - 0x4000;
            let rom_bank_number = if self.rom_bank_number == 0 { 1 } else { self.rom_bank_number };
            if self.rom_bit_mask > 0x1F {
                let hi = self.ram_bank_number;
                proof {
                    lemma_bank_shift(hi);
                }
                let rom_bank = ((hi << 5) + rom_bank_number) & self.rom_bit_mask;
                assert(rom_bank == ((self.ram_bank_number * 32 + rom_bank_number) as usize) & self.rom_bit_mask);
                assert(self.rom_index(address as u16) == offset + rom_bank * ROM_BANK_SIZE);
                self.rom[offset + rom_bank * ROM_BANK_SIZE]
            } else {
                let rom_bank = rom_bank_number & self.rom_bit_mask;
                assert(self.rom_index(address as u16) == offset + rom_bank * ROM_BANK_SIZE);
                self.rom[offset + rom_bank * ROM_BANK_SIZE]
            }
        } else {
            let offset = address - 0xA000;
            if self.ram_enable {
                if self.banking_mode == BankingMode::Advanced && self.ram.len() / RAM_BANK_SIZE > 1 {
                    self.ram[offset + self.ram_bank_number * RAM_BANK_SIZE]
                } else {
                    self.ram[offset]
                }
            } else {
                0xFF
            }
        }
    }

    fn write(&mut self, address: u16, value: u8) {
        assert((value & 0x0Fu8) == value % 16) by { lemma_byte(value); }
        assert((value & 0x1Fu8) == value % 32) by { lemma_byte(value); }
        assert((value & 0x03u8) == value % 4) by { lemma_byte(value); }
        assert((value & 0x01u8) == value % 2) by { lemma_byte(value); }
        let address = address as usize;
        if address <= 0x1FFF {
            let low_nibble = value & 0x0F;
            self.ram_enable = low_nibble == 0xA;
        } else if address <= 0x3FFF {
            let five_bits = value & 0x1F;
            self.rom_bank_number = five_bits as usize;
        } else if address <= 0x5FFF {
            let two_bits = value & 0x03;
            self.ram_bank_number = two_bits as usize;
        } else if address <= 0x7FFF {
            let one_bit = value & 0x01;
            if one_bit == 0 {
                self.banking_mode = BankingMode::Simple;
            } else {
                self.banking_mode = BankingMode::Advanced;
            }
        } else {
            if self.ram_enable {
                if self.banking_mode == BankingMode::Advanced && self.ram.len() / RAM_BANK_SIZE > 1 {
                    self.ram.set(address - 0xA000 + self.ram_bank_number * RAM_BANK_SIZE, value);
                } else {
                    self.ram.set(address - 0xA000, value);
                }
            }
        }
    }

    /// There is no clock.
    fn can_read(&self, address: u16) -> (b: bool) {
        if !(self.rom_bank_number <= 0x1F && self.ram_bank_number <= 3) {
            return false;
        }
        let a = address as usize;
        if address <= 0x3FFF {
            if self.banking_mode == BankingMode::Simple || self.rom_bit_mask <= 0x1F {
                a < self.rom.len()
            } else {
                banked_offset_below(a, self.ram_bank_number * 32, ROM_BANK_SIZE, self.rom.len())
            }
        } else if address <= 0x7FFF {
            let low = if self.rom_bank_number == 0 { 1 } else { self.rom_bank_number };
            let bank = if self.rom_bit_mask > 0x1F {
                (self.ram_bank_number * 32 + low) & self.rom_bit_mask
            } else {
                low & self.rom_bit_mask
            };
            banked_offset_below(a - 0x4000, bank, ROM_BANK_SIZE, self.rom.len())
        } else if 0xA000 <= address && address <= 0xBFFF {
            !self.ram_enable || self.can_touch_ram(address)
        } else {
            false
        }
    }

    fn can_write(&self, address: u16) -> (b: bool) {
        if !(self.rom_bank_number <= 0x1F && self.ram_bank_number <= 3) {
            false
        } else if address <= 0x7FFF {
            true
        } else if 0xA000 <= address && address <= 0xBFFF {
            !self.ram_enable || self.can_touch_ram(address)
        } else {
            false
        }
    }

    fn clock_can_advance_now(&self) -> (b: bool) {
        true
    }

    fn update_clock(&mut self) {
    }
}


/// With RAM enabled, a byte written to external RAM reads back as written.
pub proof fn lemma_ram_round_trip(c: MBC1, new: MBC1, address: u16, value: u8)
    requires
        0xA000 <= address <= 0xBFFF,
        c.ram_enable,
        c.writable(address),
        c.write_result(address, value, &new),
    ensures
        new.readable(address),
        new.read_value(address) == value,
{
}

/// With a ROM of more than 32 banks (up to the 128 banks that MBC1 can address), the bank
/// seen at 0x4000..0x7FFF is chosen by both bank registers: after `hi` is written to
/// 0x4000..0x5FFF and `lo` to 0x2000..0x3FFF, a read at `address` gives byte
/// `address - 0x4000` of bank `(hi % 4) * 32 + l`, where `l` is `lo % 32` read as 1 when it is
/// 0, wrapped to the number of banks the bank register can select.
pub proof fn lemma_upper_bank_bits(m: MBC1, m1: MBC1, m2: MBC1, a1: u16, hi: u8, a2: u16, lo: u8, address: u16)
    requires
        0x4000 <= a1 <= 0x5FFF,
        m.writable(a1),
        m.write_result(a1, hi, &m1),
        0x2000 <= a2 <= 0x3FFF,
        m1.writable(a2),
        m1.write_result(a2, lo, &m2),
        0x4000 <= address <= 0x7FFF,
        m.rom_bit_mask == 0x3F || m.rom_bit_mask == 0x7F,
    ensures
        ({
            let l: int = if lo % 32 == 0 { 1 } else { (lo % 32) as int };
            let bank = ((hi % 4) * 32 + l) % (m.rom_bit_mask + 1);
            m2.read_value(address) == m.rom@[address - 0x4000 + bank * 0x4000]
        }),
{
    let l: usize = if lo % 32 == 0 { 1 } else { (lo % 32) as usize };
    let v: usize = ((hi % 4) * 32 + l) as usize;
    assert(v < 128);
    assert(v & 0x3F == v % 64 && v & 0x7F == v % 128) by (bit_vector)
        requires
            v < 128,
    ;
    assert(m2.rom_bank_number == (lo % 32) as usize && m2.ram_bank_number == (hi % 4) as usize);
    assert(m2.rom_index(address) == address - 0x4000 + (v & m.rom_bit_mask) * 0x4000);
}

} // verus!
