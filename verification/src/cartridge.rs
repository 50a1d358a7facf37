use vstd::prelude::*;

use crate::gb_mode::GBMode;
use mbc1::MBC1;
use mbc2::MBC2;
use mbc3::{MBC3, SavedMbc3, saved_bytes};
use mbc5::MBC5;
use romonly::RomOnly;

pub mod mbc1;
pub mod mbc2;
pub mod mbc3;
pub mod mbc5;
pub mod romonly;

verus! {

pub const ROM_BANK_SIZE: usize = 16384;
pub const RAM_BANK_SIZE: usize = 8192;

/// Whether `address` lies in the cartridge's part of the address space: ROM (0x0000..0x7FFF)
/// or external RAM (0xA000..0xBFFF).
pub open spec fn cartridge_address(address: u16) -> bool {
    address <= 0x7FFF || (0xA000 <= address <= 0xBFFF)
}

/// The memory-bank-controller interface that every cartridge kind offers the bus.
pub trait Cartridge {
    /// Whether reading `address` is defined for the cartridge in its current state.
    spec fn readable(&self, address: u16) -> bool;

    /// The byte that a read of `address` returns.
    spec fn read_value(&self, address: u16) -> u8;

    /// Whether writing `address` is defined for the cartridge in its current state.
    spec fn writable(&self, address: u16) -> bool;

    /// Whether `new` is the cartridge after `value` is written to `address`.
    spec fn write_result(&self, address: u16, value: u8, new: &Self) -> bool;

    /// Whether the real-time clock (if any) can advance by one second.
    spec fn clock_can_advance(&self) -> bool;

    /// Whether `new` is the cartridge after one second of real time.
    spec fn clock_result(&self, new: &Self) -> bool;

    fn read(&self, address: u16) -> (v: u8)
        requires
            self.readable(address),
        ensures
            v == self.read_value(address),
    ;

    fn write(&mut self, address: u16, value: u8)
        requires
            old(self).writable(address),
        ensures
            old(self).write_result(address, value, final(self)),
    ;

    fn update_clock(&mut self)
        requires
            old(self).clock_can_advance(),
        ensures
            old(self).clock_result(final(self)),
    ;

    /// Whether reading `address` is defined.
    fn can_read(&self, address: u16) -> (b: bool)
        ensures
            b == self.readable(address),
    ;

    /// Whether writing `address` is defined.
    fn can_write(&self, address: u16) -> (b: bool)
        ensures
            b == self.writable(address),
    ;

    /// Whether the real-time clock (if any) can advance by one second.
    fn clock_can_advance_now(&self) -> (b: bool)
        ensures
            b == self.clock_can_advance(),
    ;
}

/// Whether byte `offset` of bank `bank` of `size`-byte banks lies below `len`.
pub fn banked_offset_below(offset: usize, bank: usize, size: usize, len: usize) -> (b: bool)
    ensures
        b == (offset + bank * size < len),
{
    match bank.checked_mul(size) {
        None => {
            assert(bank * size >= 0) by (nonlinear_arith);
            false
        },
        Some(start) => match start.checked_add(offset) {
            None => false,
            Some(index) => index < len,
        },
    }
}

/// The bytes of an optional buffer.
pub open spec fn bytes_of(o: Option<Vec<u8>>) -> Option<Seq<u8>> {
    match o {
        Some(v) => Some(v@),
        None => None,
    }
}

/// Recognises the powers of two 1, 2, 4, 8, ...
pub open spec fn is_power_of_two(p: nat) -> bool
    decreases p,
{
    if p == 1 {
        true
    } else if p < 2 {
        false
    } else {
        p % 2 == 0 && is_power_of_two(p / 2)
    }
}

/// The mask that keeps a ROM bank number inside a ROM of `banks` banks: one less than the
/// smallest power of two that is at least `banks` (zero when there is no bank or one).
pub open spec fn is_bank_mask(banks: nat, mask: nat) -> bool {
    &&& banks <= 1 ==> mask == 0
    &&& banks >= 1 ==> is_power_of_two(mask + 1) && mask + 1 >= banks && (mask == 0 || (mask + 1) / 2 < banks)
}

/// Computes the bank mask for a ROM of `banks` banks.
pub fn bank_mask(banks: usize) -> (mask: usize)
    requires
        banks <= usize::MAX / 2,
    ensures
        is_bank_mask(banks as nat, mask as nat),
{
    let mut p: usize = 1;
    while p < banks
        invariant
            is_power_of_two(p as nat),
            p == 1 || p / 2 < banks,
            p <= 2 * banks || p == 1,
            banks <= usize::MAX / 2,
        decreases 2 * banks + 1 - p,
    {
        assert(((p * 2) as nat) / 2 == p as nat);
        p = p * 2;
    }
    p - 1
}

/// A cartridge of any supported kind.
pub enum AnyCartridge {
    RomOnly(RomOnly),
    MBC1(MBC1),
    MBC2(MBC2),
    MBC3(MBC3),
    MBC5(MBC5),
}

impl Cartridge for AnyCartridge {
    open spec fn readable(&self, address: u16) -> bool {
        match self {
            AnyCartridge::RomOnly(c) => c.readable(address),
            AnyCartridge::MBC1(c) => c.readable(address),
            AnyCartridge::MBC2(c) => c.readable(address),
            AnyCartridge::MBC3(c) => c.readable(address),
            AnyCartridge::MBC5(c) => c.readable(address),
        }
    }

    open spec fn read_value(&self, address: u16) -> u8 {
        match self {
            AnyCartridge::RomOnly(c) => c.read_value(address),
            AnyCartridge::MBC1(c) => c.read_value(address),
            AnyCartridge::MBC2(c) => c.read_value(address),
            AnyCartridge::MBC3(c) => c.read_value(address),
            AnyCartridge::MBC5(c) => c.read_value(address),
        }
    }

    open spec fn writable(&self, address: u16) -> bool {
        match self {
            AnyCartridge::RomOnly(c) => c.writable(address),
            AnyCartridge::MBC1(c) => c.writable(address),
            AnyCartridge::MBC2(c) => c.writable(address),
            AnyCartridge::MBC3(c) => c.writable(address),
            AnyCartridge::MBC5(c) => c.writable(address),
        }
    }

    open spec fn write_result(&self, address: u16, value: u8, new: &Self) -> bool {
        match (self, new) {
            (AnyCartridge::RomOnly(c), AnyCartridge::RomOnly(n)) => c.write_result(address, value, n),
            (AnyCartridge::MBC1(c), AnyCartridge::MBC1(n)) => c.write_result(address, value, n),
            (AnyCartridge::MBC2(c), AnyCartridge::MBC2(n)) => c.write_result(address, value, n),
            (AnyCartridge::MBC3(c), AnyCartridge::MBC3(n)) => c.write_result(address, value, n),
            (AnyCartridge::MBC5(c), AnyCartridge::MBC5(n)) => c.write_result(address, value, n),
            _ => false,
        }
    }

    open spec fn clock_can_advance(&self) -> bool {
        match self {
            AnyCartridge::MBC3(c) => c.clock_can_advance(),
            _ => true,
        }
    }

    open spec fn clock_result(&self, new: &Self) -> bool {
        match (self, new) {
            (AnyCartridge::RomOnly(c), AnyCartridge::RomOnly(n)) => c.clock_result(n),
            (AnyCartridge::MBC1(c), AnyCartridge::MBC1(n)) => c.clock_result(n),
            (AnyCartridge::MBC2(c), AnyCartridge::MBC2(n)) => c.clock_result(n),
            (AnyCartridge::MBC3(c), AnyCartridge::MBC3(n)) => c.clock_result(n),
            (AnyCartridge::MBC5(c), AnyCartridge::MBC5(n)) => c.clock_result(n),
            _ => false,
        }
    }

    fn read(&self, address: u16) -> (v: u8) {
        match self {
            AnyCartridge::RomOnly(c) => c.read(address),
            AnyCartridge::MBC1(c) => c.read(address),
            AnyCartridge::MBC2(c) => c.read(address),
            AnyCartridge::MBC3(c) => c.read(address),
            AnyCartridge::MBC5(c) => c.read(address),
        }
    }

    fn write(&mut self, address: u16, value: u8) {
        match self {
            AnyCartridge::RomOnly(c) => c.write(address, value),
            AnyCartridge::MBC1(c) => c.write(address, value),
            AnyCartridge::MBC2(c) => c.write(address, value),
            AnyCartridge::MBC3(c) => c.write(address, value),
            AnyCartridge::MBC5(c) => c.write(address, value),
        }
    }

    fn can_read(&self, address: u16) -> (b: bool) {
        match self {
            AnyCartridge::RomOnly(c) => c.can_read(address),
            AnyCartridge::MBC1(c) => c.can_read(address),
            AnyCartridge::MBC2(c) => c.can_read(address),
            AnyCartridge::MBC3(c) => c.can_read(address),
            AnyCartridge::MBC5(c) => c.can_read(address),
        }
    }

    fn can_write(&self, address: u16) -> (b: bool) {
        match self {
            AnyCartridge::RomOnly(c) => c.can_write(address),
            AnyCartridge::MBC1(c) => c.can_write(address),
            AnyCartridge::MBC2(c) => c.can_write(address),
            AnyCartridge::MBC3(c) => c.can_write(address),
            AnyCartridge::MBC5(c) => c.can_write(address),
        }
    }

    fn clock_can_advance_now(&self) -> (b: bool) {
        match self {
            AnyCartridge::MBC3(c) => c.clock_can_advance_now(),
            _ => true,
        }
    }

    fn update_clock(&mut self) {
        match self {
            AnyCartridge::RomOnly(c) => c.update_clock(),
            AnyCartridge::MBC1(c) => c.update_clock(),
            AnyCartridge::MBC2(c) => c.update_clock(),
            AnyCartridge::MBC3(c) => c.update_clock(),
            AnyCartridge::MBC5(c) => c.update_clock(),
        }
    }
}

/// Counting a second on the clock changes nothing that a read of the cartridge shows (the
/// clock registers only change when latched).
pub proof fn lemma_clock_keeps_reads(c: AnyCartridge, n: AnyCartridge, address: u16)
    requires
        c.clock_result(&n),
    ensures
        n.readable(address) == c.readable(address),
        n.read_value(address) == c.read_value(address),
{
}

/// The files that may lie next to a ROM: the battery-backed RAM image (`.sav`) and the
/// clock's second count (`.rtc`), each `Some` when the file exists.
pub struct SaveFiles {
    pub ram: Option<Vec<u8>>,
    pub rtc: Option<Vec<u8>>,
}

/// Offsets of the cartridge header fields.
pub const HEADER_CGB_FLAG: usize = 0x0143;
pub const HEADER_CARTRIDGE_TYPE: usize = 0x0147;
pub const HEADER_RAM_SIZE: usize = 0x0149;

/// The number of 8 KiB RAM banks that header code `code` (0..5) announces.
pub open spec fn ram_banks_of(code: u8) -> usize {
    if code <= 1 { 0 } else if code == 2 { 1 } else if code == 3 { 4 } else if code == 4 { 16 } else { 8 }
}

/// The console that header byte 0x0143 targets.
pub open spec fn gb_mode_of(flag: u8) -> GBMode {
    if flag == 0x80 || flag == 0xC0 { GBMode::CGB } else { GBMode::DMG }
}

/// The cartridge types (header byte 0x0147) that the emulator supports.
pub open spec fn supported_type(t: u8) -> bool {
    t == 0x00 || t == 0x01 || t == 0x02 || t == 0x03 || t == 0x05 || t == 0x06
        || (0x0F <= t <= 0x13) || (0x19 <= t <= 0x1E)
}

/// The cartridge types whose RAM (and clock) are kept in save files.
pub open spec fn has_battery(t: u8) -> bool {
    t == 0x03 || t == 0x06 || t == 0x0F || t == 0x10 || t == 0x13 || t == 0x1B || t == 0x1E
}

/// Returns whether cartridges of type `t` keep their RAM (and clock) in save files.
pub fn battery_backed(t: u8) -> (b: bool)
    ensures
        b == has_battery(t),
{
    t == 0x03 || t == 0x06 || t == 0x0F || t == 0x10 || t == 0x13 || t == 0x1B || t == 0x1E
}

/// Whether `load` is defined for ROM `data` and save files `saves`: the header must be there,
/// name a known RAM size and a supported cartridge type, a plain ROM must fit in 32 KiB, and a
/// clock file that is used must hold eight bytes.
pub open spec fn loadable(data: Seq<u8>, saves: SaveFiles) -> bool {
    &&& data.len() > HEADER_RAM_SIZE
    &&& data[HEADER_RAM_SIZE as int] <= 5
    &&& supported_type(data[HEADER_CARTRIDGE_TYPE as int])
    &&& data[HEADER_CARTRIDGE_TYPE as int] == 0 ==> data.len() <= romonly::ROM_SIZE
    &&& (data[HEADER_CARTRIDGE_TYPE as int] == 0x0F || data[HEADER_CARTRIDGE_TYPE as int] == 0x10
        || data[HEADER_CARTRIDGE_TYPE as int] == 0x13) && saves.ram is Some
        ==> (saves.rtc matches Some(b) ==> b@.len() == 8)
}

/// Returns whether `load` accepts ROM `data` with save files `saves`.
pub fn can_load(data: &Vec<u8>, saves: &SaveFiles) -> (b: bool)
    ensures
        b == loadable(data@, *saves),
{
    if data.len() <= HEADER_RAM_SIZE {
        return false;
    }
    let t = data[HEADER_CARTRIDGE_TYPE];
    let supported = t == 0x00 || t == 0x01 || t == 0x02 || t == 0x03 || t == 0x05 || t == 0x06
        || (0x0F <= t && t <= 0x13) || (0x19 <= t && t <= 0x1E);
    let clock_ok = if (t == 0x0F || t == 0x10 || t == 0x13) && saves.ram.is_some() {
        match &saves.rtc {
            Some(b) => b.len() == 8,
            None => true,
        }
    } else {
        true
    };
    data[HEADER_RAM_SIZE] <= 5 && supported && (t != 0 || data.len() <= romonly::ROM_SIZE) && clock_ok
}

/// Whether `cart` is the cartridge that `load` builds from ROM `data` and `saves`.
pub open spec fn loaded_from(cart: AnyCartridge, data: Seq<u8>, saves: SaveFiles) -> bool {
    let t = data[HEADER_CARTRIDGE_TYPE as int];
    let banks = ram_banks_of(data[HEADER_RAM_SIZE as int]) as nat;
    let ram = if has_battery(t) { bytes_of(saves.ram) } else { None };
    if t == 0x00 {
        cart matches AnyCartridge::RomOnly(c) && c.is_new(data)
    } else if t <= 0x03 {
        cart matches AnyCartridge::MBC1(c) && c.is_new(data, banks, ram)
    } else if t <= 0x06 {
        cart matches AnyCartridge::MBC2(c) && c.is_new(data, ram)
    } else if t <= 0x13 {
        let saved = match ram {
            Some(r) => Some((r, bytes_of(saves.rtc))),
            None => None,
        };
        cart matches AnyCartridge::MBC3(c) && c.is_new(data, banks, saved, t == 0x0F || t == 0x10)
    } else {
        cart matches AnyCartridge::MBC5(c) && c.is_new(data, banks, ram)
    }
}

/// Builds the cartridge for a ROM image and says whether it targets the Game Boy Color.
/// Without a ROM, an empty 32 KiB ROM-only cartridge is made.
pub fn load(data_buffer: Option<Vec<u8>>, saves: SaveFiles) -> (r: (AnyCartridge, GBMode))
    requires
        data_buffer matches Some(d) ==> loadable(d@, saves),
    ensures
        data_buffer is None ==> r.1 == GBMode::DMG && (r.0 matches AnyCartridge::RomOnly(c)
            && c.is_new(Seq::new(32768, |i: int| 0u8))),
        data_buffer matches Some(d) ==> r.1 == gb_mode_of(d@[HEADER_CGB_FLAG as int])
            && loaded_from(r.0, d@, saves),
{
    match data_buffer {
        None => {
            let data = vec![0u8; 32768];
            assert(data@ == Seq::new(32768, |i: int| 0u8));
            (AnyCartridge::RomOnly(RomOnly::new(&data)), GBMode::DMG)
        },
        Some(data) => {
            let cartridge_type = data[HEADER_CARTRIDGE_TYPE];
            let ram_code = data[HEADER_RAM_SIZE];
            let ram_banks: usize = if ram_code <= 1 {
                0
            } else if ram_code == 2 {
                1
            } else if ram_code == 3 {
                4
            } else if ram_code == 4 {
                16
            } else {
                8
            };
            let flag = data[HEADER_CGB_FLAG];
            let gb_mode = if flag == 0x80 || flag == 0xC0 { GBMode::CGB } else { GBMode::DMG };
            let battery = cartridge_type == 0x03 || cartridge_type == 0x06 || cartridge_type == 0x0F
                || cartridge_type == 0x10 || cartridge_type == 0x13 || cartridge_type == 0x1B
                || cartridge_type == 0x1E;
            let SaveFiles { ram, rtc } = saves;
            let saved_ram = if battery { ram } else { None };
            let cartridge = if cartridge_type == 0x00 {
                AnyCartridge::RomOnly(RomOnly::new(&data))
            } else if cartridge_type <= 0x03 {
                AnyCartridge::MBC1(MBC1::new(&data, ram_banks, saved_ram))
            } else if cartridge_type <= 0x06 {
                AnyCartridge::MBC2(MBC2::new(&data, saved_ram))
            } else if cartridge_type <= 0x13 {
                let saved = match saved_ram {
                    Some(r) => Some(SavedMbc3 { ram: r, clock: rtc }),
                    None => None,
                };
                let has_clock = cartridge_type == 0x0F || cartridge_type == 0x10;
                AnyCartridge::MBC3(MBC3::new(&data, ram_banks, saved, has_clock))
            } else {
                AnyCartridge::MBC5(MBC5::new(&data, ram_banks, saved_ram))
            };
            (cartridge, gb_mode)
        },
    }
}

} // verus!
