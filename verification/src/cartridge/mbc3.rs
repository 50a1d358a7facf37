use vstd::prelude::*;
use crate::bits::lemma_byte;

use crate::bits::{bit8, get_bit, set_bit, with_bit8};
use super::{banked_offset_below, bytes_of, Cartridge, RAM_BANK_SIZE, ROM_BANK_SIZE};

verus! {

/// The big-endian value of a byte sequence.
pub open spec fn be_value(s: Seq<u8>) -> nat
    decreases s.len(),
{
    if s.len() == 0 {
        0
    } else {
        be_value(s.drop_last()) * 256 + s.last() as nat
    }
}

/// 256 to the power `n`.
pub open spec fn pow256(n: nat) -> nat
    decreases n,
{
    if n == 0 { 1 } else { 256 * pow256((n - 1) as nat) }
}

pub const SECONDS_PER_DAY: u64 = 86400;

/// The MBC3 real-time clock: the counter registers and the running second count `base`.
pub struct Clock {
    pub seconds: u8,
    pub minutes: u8,
    pub hours: u8,
    pub days_l: u8,
    pub days_h: u8,
    pub base: u64,
}

impl Clock {
    /// Bit 6 of the upper day register stops the clock.
    pub open spec fn halted(&self) -> bool {
        bit8(self.days_h, 6) == 1
    }

    /// The day counter: bit 0 of the upper day register above the lower day register.
    pub open spec fn days(&self) -> nat {
        (self.days_h % 2) as nat * 256 + self.days_l as nat
    }

    /// The second count that the registers stand for.
    pub open spec fn register_seconds(&self) -> nat {
        self.seconds as nat + 60 * self.minutes as nat + 3600 * self.hours as nat + 86400 * self.days()
    }

    /// Builds the clock; `saved` holds the eight big-endian bytes of a saved second count.
    pub fn new(saved: Option<Vec<u8>>) -> (c: Clock)
        requires
            saved matches Some(b) ==> b@.len() == 8,
        ensures
            c.base == (match saved {
                Some(b) => be_value(b@),
                None => 0,
            }),
            c.seconds == 0 && c.minutes == 0 && c.hours == 0 && c.days_l == 0 && c.days_h == 0,
    {
        let mut base: u64 = 0;
        match saved {
            Some(b) => {
                let mut i: usize = 0;
                while i < 8
                    invariant
                        b@.len() == 8,
                        i <= 8,
                        base == be_value(b@.take(i as int)),
                        base < pow256(i as nat),
                    decreases 8 - i,
                {
                    assert(b@.take(i + 1).drop_last() == b@.take(i as int));
                    let byte = b[i];
                    proof {
                        assert(pow256((i + 1) as nat) == 256 * pow256(i as nat));
                        reveal_with_fuel(pow256, 9);
                        assert(pow256(8) == 0x1_0000_0000_0000_0000);
                        lemma_pow256_monotone((i + 1) as nat, 8);
                        assert(base * 256 + byte < 256 * pow256(i as nat)) by (nonlinear_arith)
                            requires base < pow256(i as nat), byte < 256;
                    }
                    base = base * 256 + byte as u64;
                    i = i + 1;
                }
                assert(b@.take(8) == b@);
            },
            None => {},
        }
        Clock { seconds: 0, minutes: 0, hours: 0, days_l: 0, days_h: 0, base }
    }

    /// Counts one second unless the clock is halted.
    pub fn increment_seconds(&mut self)
        requires
            old(self).halted() || old(self).base < u64::MAX,
        ensures
            final(self).base == if old(self).halted() { old(self).base } else { (old(self).base + 1) as u64 },
            final(self).seconds == old(self).seconds,
            final(self).minutes == old(self).minutes,
            final(self).hours == old(self).hours,
            final(self).days_l == old(self).days_l,
            final(self).days_h == old(self).days_h,
    {
        if get_bit(self.days_h, 6) == 0 {
            self.base = self.base + 1;
        }
    }

    /// The clock with its second count set from the registers.
    pub open spec fn rebased(self) -> Clock {
        Clock { base: self.register_seconds() as u64, ..self }
    }

    /// The clock with its registers latched from the second count (unless halted). A day
    /// counter of 256..511 sets bit 0 of the upper day register; above 511 it clears bit 0
    /// and sets the carry (bit 7).
    pub open spec fn latched(self) -> Clock {
        if self.halted() {
            self
        } else {
            let b = self.base as nat;
            let days = b / 86400;
            Clock {
                seconds: (b % 60) as u8,
                minutes: ((b / 60) % 60) as u8,
                hours: ((b / 3600) % 24) as u8,
                days_l: (days % 256) as u8,
                days_h: if days < 256 { self.days_h } else if days < 512 {
                    with_bit8(self.days_h, 0, 1) } else { with_bit8(with_bit8(self.days_h, 0, 0), 7, 1) },
                base: self.base,
            }
        }
    }

    /// Sets the second count from the registers.
    pub fn update_base(&mut self)
        ensures
            *final(self) == old(self).rebased(),
    {
        let dh = self.days_h;
        let dl = self.days_l;
        assert((((dh as u64 & 1u64) << 8u64) | (dl as u64)) == (dh % 2) as u64 * 256 + dl as u64) by (bit_vector);
        let days = ((self.days_h as u64 & 0x01) << 8) | (self.days_l as u64);
        assert(days == (dh % 2) as u64 * 256 + dl as u64);
        assert(days <= 511);
        let day_seconds: u64 = SECONDS_PER_DAY * days;
        self.base = self.seconds as u64 + 60 * self.minutes as u64 + 3600 * self.hours as u64 + day_seconds;
    }

    /// Latches the registers from the second count unless the clock is halted.
    pub fn update(&mut self)
        ensures
            *final(self) == old(self).latched(),
    {
        let halt_bit = get_bit(self.days_h, 6);
        if halt_bit == 1 {
            return;
        }
        self.seconds = (self.base % 60) as u8;
        let minutes = self.base / 60;
        self.minutes = (minutes % 60) as u8;
        let hours = minutes / 60;
        self.hours = (hours % 24) as u8;
        let days = hours / 24;
        self.days_l = (days % 256) as u8;
        proof {
            let b = self.base as nat;
            vstd::arithmetic::div_mod::lemma_div_denominator(b as int, 60, 60);
            vstd::arithmetic::div_mod::lemma_div_denominator(b as int, 3600, 24);
        }
        if days <= 0xFF {
        } else if days <= 0x1FF {
            self.days_h = set_bit(self.days_h, 0, 1);
        } else {
            self.days_h = set_bit(self.days_h, 0, 0);
            self.days_h = set_bit(self.days_h, 7, 1);
        }
    }
}

proof fn lemma_pow256_monotone(i: nat, j: nat)
    requires
        i <= j,
    ensures
        pow256(i) <= pow256(j),
    decreases j - i,
{
    if i < j {
        lemma_pow256_monotone(i, (j - 1) as nat);
    }
}

/// Registers written and then latched back give the same values: with the counters in their
/// usual ranges and the clock running, `update_base` followed by `update` leaves every
/// register unchanged.
pub proof fn lemma_clock_round_trip(c: Clock)
    requires
        c.seconds < 60,
        c.minutes < 60,
        c.hours < 24,
        !c.halted(),
    ensures
        c.rebased().latched() == c.rebased(),
        c.rebased().latched().seconds == c.seconds,
        c.rebased().latched().minutes == c.minutes,
        c.rebased().latched().hours == c.hours,
        c.rebased().latched().days_l == c.days_l,
        c.rebased().latched().days_h == c.days_h,
{
    let b = c.register_seconds();
    let s = c.seconds as nat;
    let m = c.minutes as nat;
    let h = c.hours as nat;
    let d = c.days();
    assert(b == s + 60 * (m + 60 * (h + 24 * d))) by (nonlinear_arith)
        requires b == s + 60 * m + 3600 * h + 86400 * d;
    assert(b < 0x1_0000_0000_0000_0000);
    let q1 = m + 60 * (h + 24 * d);
    let q2 = h + 24 * d;
    vstd::arithmetic::div_mod::lemma_fundamental_div_mod_converse(b as int, 60, q1 as int, s as int);
    vstd::arithmetic::div_mod::lemma_fundamental_div_mod_converse(q1 as int, 60, q2 as int, m as int);
    vstd::arithmetic::div_mod::lemma_fundamental_div_mod_converse(q2 as int, 24, d as int, h as int);
    vstd::arithmetic::div_mod::lemma_div_denominator(b as int, 60, 60);
    vstd::arithmetic::div_mod::lemma_div_denominator(b as int, 3600, 24);
    assert(b / 3600 == q2);
    assert(b / 86400 == d);
    let r = c.rebased();
    assert(r.base as nat == b);
    assert(!r.halted());
    let dh = c.days_h;
    if d >= 256 {
        assert(dh % 2 == 1);
        assert(with_bit8(dh, 0, 1) == dh) by (bit_vector)
            requires dh % 2 == 1;
    }
    assert(d % 256 == c.days_l);
    assert(r.latched().days_h == c.days_h);
}

/// The MBC3 memory bank controller, with an optional real-time clock.
pub struct MBC3 {
    pub rom: Vec<u8>,
    pub ram: Vec<u8>,
    pub ram_timer_enable: bool,
    pub rom_bank_number: usize,
    pub ram_bank_number: usize,
    pub clock: Option<Clock>,
    /// Whether the last value written to the latch register was 0x00.
    pub latch_clock_00: bool,
}

/// The content of the save files next to a ROM: the RAM image, and the clock's second count.
pub struct SavedMbc3 {
    pub ram: Vec<u8>,
    pub clock: Option<Vec<u8>>,
}

/// The bytes of the save files, if any.
pub open spec fn saved_bytes(saved: Option<SavedMbc3>) -> Option<(Seq<u8>, Option<Seq<u8>>)> {
    match saved {
        Some(sv) => Some((sv.ram@, bytes_of(sv.clock))),
        None => None,
    }
}

impl MBC3 {
    /// Builds the controller for `data_buffer`. With a save file (`saved`), the RAM is its
    /// content and the clock is restored from the clock file (zero when there is none);
    /// otherwise the RAM is `ram_banks` zeroed banks and there is a fresh clock exactly when
    /// `has_clock`.
    pub fn new(data_buffer: &Vec<u8>, ram_banks: usize, saved: Option<SavedMbc3>, has_clock: bool) -> (c: MBC3)
        requires
            saved is None ==> ram_banks * RAM_BANK_SIZE <= usize::MAX,
            saved matches Some(sv) ==> (sv.clock matches Some(b) ==> b@.len() == 8),
        ensures
            c.is_new(data_buffer@, ram_banks as nat, saved_bytes(saved), has_clock),
    {
        let rom = data_buffer.clone();
        let (ram, clock) = match saved {
            Some(sv) => (sv.ram, Some(Clock::new(sv.clock))),
            None => {
                let clock = if has_clock { Some(Clock::new(None)) } else { None };
                (vec![0u8; ram_banks * RAM_BANK_SIZE], clock)
            },
        };
        MBC3 {
            rom,
            ram,
            ram_timer_enable: false,
            rom_bank_number: 0,
            ram_bank_number: 0,
            clock,
            latch_clock_00: false,
        }
    }

    /// Whether the controller is as `new` builds it from ROM `data`, `ram_banks` banks of RAM,
    /// the content of the save files (RAM image and clock), if any, and `has_clock`.
    pub open spec fn is_new(&self, data: Seq<u8>, ram_banks: nat, saved: Option<(Seq<u8>, Option<Seq<u8>>)>, has_clock: bool) -> bool {
        &&& self.rom@ == data
        &&& match saved {
            Some(sv) => self.ram@ == sv.0 && self.clock == Some(Clock {
                seconds: 0,
                minutes: 0,
                hours: 0,
                days_l: 0,
                days_h: 0,
                base: (match sv.1 { Some(b) => be_value(b), None => 0 }) as u64,
            }),
            None => self.ram@.len() == ram_banks * RAM_BANK_SIZE
                && (forall|i: int| 0 <= i < self.ram@.len() ==> self.ram@[i] == 0)
                && (self.clock == if has_clock { Some(Clock { seconds: 0, minutes: 0, hours: 0, days_l: 0, days_h: 0, base: 0 }) } else { None::<Clock> }),
        }
        &&& !self.ram_timer_enable
        &&& self.rom_bank_number == 0
        &&& self.ram_bank_number == 0
        &&& !self.latch_clock_00
    }

    /// The ROM offset that `address` (0x0000..0x7FFF) maps to.
    pub open spec fn rom_index(&self, address: u16) -> int {
        if address <= 0x3FFF {
            address as int
        } else {
            let bank = if self.rom_bank_number == 0 { 1 } else { self.rom_bank_number };
            address - 0x4000 + bank * ROM_BANK_SIZE
        }
    }

    /// The RAM offset that `address` (0xA000..0xBFFF) maps to while a RAM bank (0..3) is
    /// selected.
    pub open spec fn ram_index(&self, address: u16) -> int {
        address - 0xA000 + self.ram_bank_number * RAM_BANK_SIZE
    }

    /// The clock register that bank number `bank` (0x08..0x0C) selects.
    pub open spec fn clock_register(c: Clock, bank: usize) -> u8 {
        if bank == 0x08 { c.seconds }
        else if bank == 0x09 { c.minutes }
        else if bank == 0x0A { c.hours }
        else if bank == 0x0B { c.days_l }
        else { c.days_h }
    }

    /// The clock after `value` is written to the register that `bank` selects, followed by
    /// recomputing the second count.
    pub open spec fn clock_written(c: Clock, bank: usize, value: u8) -> Clock {
        let c1 = if bank == 0x08 { Clock { seconds: value, ..c } }
            else if bank == 0x09 { Clock { minutes: value, ..c } }
            else if bank == 0x0A { Clock { hours: value, ..c } }
            else if bank == 0x0B { Clock { days_l: value, ..c } }
            else if bank == 0x0C { Clock { days_h: value, ..c } }
            else { c };
        c1.rebased()
    }
}

impl MBC3 {
    /// Whether an access to `address` (0xA000..0xBFFF) is defined: with RAM and clock enabled,
    /// a RAM bank must lie inside the RAM, and a clock must not be selected through the
    /// reserved bank numbers 4..7.
    fn can_touch_ram(&self, address: u16) -> (b: bool)
        requires
            0xA000 <= address <= 0xBFFF,
        ensures
            b == (self.ram_timer_enable ==> if self.ram_bank_number <= 3 {
                self.ram_index(address) < self.ram@.len()
            } else {
                self.clock is Some ==> !(4 <= self.ram_bank_number <= 7)
            }),
    {
        if !self.ram_timer_enable {
            true
        } else if self.ram_bank_number <= 3 {
            ((address - 0xA000) as usize) + self.ram_bank_number * RAM_BANK_SIZE < self.ram.len()
        } else {
            self.clock.is_none() || !(4 <= self.ram_bank_number && self.ram_bank_number <= 7)
        }
    }
}

impl Cartridge for MBC3 {
    open spec fn readable(&self, address: u16) -> bool {
        if address <= 0x7FFF {
            self.rom_index(address) < self.rom@.len()
        } else if 0xA000 <= address <= 0xBFFF {
            self.ram_timer_enable ==> if self.ram_bank_number <= 3 {
                self.ram_index(address) < self.ram@.len()
            } else {
                self.clock is Some ==> !(4 <= self.ram_bank_number <= 7)
            }
        } else {
            false
        }
    }

    open spec fn read_value(&self, address: u16) -> u8 {
        if address <= 0x7FFF {
            self.rom@[self.rom_index(address)]
        } else if !self.ram_timer_enable {
            0xFF
        } else if self.ram_bank_number <= 3 {
            self.ram@[self.ram_index(address)]
        } else {
            match self.clock {
                Some(c) => if self.ram_bank_number <= 0x0C { MBC3::clock_register(c, self.ram_bank_number) } else { 0xFF },
                None => 0xFF,
            }
        }
    }

    open spec fn writable(&self, address: u16) -> bool {
        if address <= 0x7FFF {
            true
        } else if 0xA000 <= address <= 0xBFFF {
            self.ram_timer_enable ==> if self.ram_bank_number <= 3 {
                self.ram_index(address) < self.ram@.len()
            } else {
                self.clock is Some ==> !(4 <= self.ram_bank_number <= 7)
            }
        } else {
            false
        }
    }

    open spec fn write_result(&self, address: u16, value: u8, new: &Self) -> bool {
        &&& new.rom == self.rom
        &&& if address <= 0x1FFF {
            *new == MBC3 { rom: new.rom, ram: new.ram, ram_timer_enable: value % 16 == 0xA, ..*self }
            && new.ram == self.ram
        } else if address <= 0x3FFF {
            *new == MBC3 { rom: new.rom, ram: new.ram, rom_bank_number: (value % 128) as usize, ..*self }
            && new.ram == self.ram
        } else if address <= 0x5FFF {
            *new == MBC3 { rom: new.rom, ram: new.ram, ram_bank_number: (value % 16) as usize, ..*self }
            && new.ram == self.ram
        } else if address <= 0x7FFF {
            &&& new.ram == self.ram
            &&& if value == 1 && self.latch_clock_00 {
                *new == MBC3 {
                    rom: new.rom,
                    ram: new.ram,
                    latch_clock_00: false,
                    clock: match self.clock { Some(c) => Some(c.latched()), None => None },
                    ..*self
                }
            } else {
                *new == MBC3 { rom: new.rom, ram: new.ram, latch_clock_00: self.latch_clock_00 || value == 0, ..*self }
            }
        } else if !self.ram_timer_enable {
            *new == MBC3 { rom: new.rom, ram: new.ram, ..*self } && new.ram == self.ram
        } else if self.ram_bank_number <= 3 {
            new.ram@ == self.ram@.update(self.ram_index(address), value)
            && *new == MBC3 { rom: new.rom, ram: new.ram, ..*self }
        } else {
            new.ram == self.ram && *new == MBC3 {
                rom: new.rom,
                ram: new.ram,
                clock: match self.clock { Some(c) => Some(MBC3::clock_written(c, self.ram_bank_number, value)), None => None },
                ..*self
            }
        }
    }

    open spec fn clock_can_advance(&self) -> bool {
        self.clock matches Some(c) ==> (c.halted() || c.base < u64::MAX)
    }

    open spec fn clock_result(&self, new: &Self) -> bool {
        &&& new.ram == self.ram && new.rom == self.rom
        &&& *new == MBC3 {
            rom: new.rom,
            ram: new.ram,
            clock: match self.clock {
                Some(c) => Some(Clock { base: if c.halted() { c.base } else { (c.base + 1) as u64 }, ..c }),
                None => None,
            },
            ..*self
        }
    }

    fn read(&self, address: u16) -> (v: u8) {
        let rom_len = self.rom.len();
        let ram_len = self.ram.len();
        let address = address as usize;
        if address <= 0x3FFF {
            self.rom[address]
        } else if address <= 0x7FFF {
            let offset = address - 0x4000;
            if self.rom_bank_number == 0 {
                self.rom[offset + ROM_BANK_SIZE]
            } else {
                self.rom[offset + self.rom_bank_number * ROM_BANK_SIZE]
            }
        } else {
            let offset = address - 0xA000;
            if self.ram_timer_enable {
                if self.ram_bank_number <= 0x03 {
                    self.ram[offset + self.ram_bank_number * RAM_BANK_SIZE]
                } else {
                    match &self.clock {
                        Some(clock) => {
                            if self.ram_bank_number <= 0x0C {
                                if self.ram_bank_number == 0x08 {
                                    clock.seconds
                                } else if self.ram_bank_number == 0x09 {
                                    clock.minutes
                                } else if self.ram_bank_number == 0x0A {
                                    clock.hours
                                } else if self.ram_bank_number == 0x0B {
                                    clock.days_l
                                } else {
                                    clock.days_h
                                }
                            } else {
                                0xFF
                            }
                        },
                        None => 0xFF,
                    }
                }
            } else {
                0xFF
            }
        }
    }

    fn write(&mut self, address: u16, value: u8) {
        assert((value & 0x0Fu8) == value % 16) by { lemma_byte(value); }
        assert((value & 0x7Fu8) == value % 128) by { lemma_byte(value); }
        let ram_len = self.ram.len();
        let address = address as usize;
        if address <= 0x1FFF {
            let low_nibble = value & 0x0F;
            self.ram_timer_enable = low_nibble == 0x0A;
        } else if address <= 0x3FFF {
            let seven_bits = value & 0x7F;
            self.rom_bank_number = seven_bits as usize;
        } else if address <= 0x5FFF {
            let four_bits = value & 0x0F;
            self.ram_bank_number = four_bits as usize;
        } else if address <= 0x7FFF {
            if value == 0x01 && self.latch_clock_00 {
                self.latch_clock_00 = false;
                match &mut self.clock {
                    Some(clock) => clock.update(),
                    None => {},
                }
            } else {
                if value == 0x00 {
                    self.latch_clock_00 = true;
                }
            }
        } else {
            let offset = address - 0xA000;
            if self.ram_timer_enable {
                if self.ram_bank_number <= 0x03 {
                    self.ram.set(offset + self.ram_bank_number * RAM_BANK_SIZE, value);
                } else {
                    let bank = self.ram_bank_number;
                    match &mut self.clock {
                        Some(clock) => {
                            if bank <= 0x0C {
                                if bank == 0x08 {
                                    clock.seconds = value;
                                } else if bank == 0x09 {
                                    clock.minutes = value;
                                } else if bank == 0x0A {
                                    clock.hours = value;
                                } else if bank == 0x0B {
                                    clock.days_l = value;
                                } else {
                                    clock.days_h = value;
                                }
                            }
                            clock.update_base();
                        },
                        None => {},
                    }
                }
            }
        }
    }

    /// Counts one second on the clock, if there is one.
    fn can_read(&self, address: u16) -> (b: bool) {
        if address <= 0x3FFF {
            (address as usize) < self.rom.len()
        } else if address <= 0x7FFF {
            let bank = if self.rom_bank_number == 0 { 1 } else { self.rom_bank_number };
            banked_offset_below((address - 0x4000) as usize, bank, ROM_BANK_SIZE, self.rom.len())
        } else if 0xA000 <= address && address <= 0xBFFF {
            self.can_touch_ram(address)
        } else {
            false
        }
    }

    fn can_write(&self, address: u16) -> (b: bool) {
        if address <= 0x7FFF {
            true
        } else if 0xA000 <= address && address <= 0xBFFF {
            self.can_touch_ram(address)
        } else {
            false
        }
    }

    fn clock_can_advance_now(&self) -> (b: bool) {
        match &self.clock {
            Some(c) => get_bit(c.days_h, 6) == 1 || c.base < u64::MAX,
            None => true,
        }
    }

    fn update_clock(&mut self) {
        match &mut self.clock {
            Some(clock) => clock.increment_seconds(),
            None => {},
        }
    }
}


/// With RAM and clock enabled and a RAM bank selected, a byte written to external RAM reads
/// back as written.
pub proof fn lemma_ram_round_trip(c: MBC3, new: MBC3, address: u16, value: u8)
    requires
        0xA000 <= address <= 0xBFFF,
        c.ram_timer_enable,
        c.ram_bank_number <= 3,
        c.writable(address),
        c.write_result(address, value, &new),
    ensures
        new.readable(address),
        new.read_value(address) == value,
{
}

} // verus!
