use vstd::prelude::*;

use crate::bits::{bit8, get_bit, lemma_bytes_to_word, lemma_word, set_bit, with_bit8};
use crate::bus::{add16, lemma_store_plain, lemma_tick_keeps_stable, plain_memory, stable_address, Bus};
use crate::cartridge::lemma_clock_keeps_reads;
use crate::cartridge::Cartridge;
use crate::mmu::MMU;
use opcodes::implemented;

pub mod alu;
pub mod opcodes;

verus! {

/// The prefix of the second opcode page.
pub const EXPANDED_INSTRUCTION_OPCODE: u8 = 0xCB;

/// Machine cycles per second of the cartridge clock (2^20).
pub const RTC_PERIOD: u64 = 1048576;

/// Register file indices: A, F, B, C, D, E, H, L, and SP as S (high) and P (low).
pub const REG_A: usize = 0;
pub const REG_F: usize = 1;
pub const REG_B: usize = 2;
pub const REG_C: usize = 3;
pub const REG_D: usize = 4;
pub const REG_E: usize = 5;
pub const REG_H: usize = 6;
pub const REG_L: usize = 7;
pub const REG_S: usize = 8;
pub const REG_P: usize = 9;

/// Why the CPU could not go on.
#[derive(Clone, Copy, Debug, PartialEq, Eq, Structural)]
pub enum CpuError {
    /// An opcode that this CPU does not implement (HALT, STOP and the unused ones).
    UnimplementedOpcode(u8),
    /// A read of an address that the memory map cannot serve.
    InvalidRead(u16),
    /// A write to an address that the memory map cannot serve.
    InvalidWrite(u16),
    /// A flag was to be set from a value other than 0 or 1 (SLA on a register whose bit 7 is
    /// set).
    InvalidFlag,
    /// An interrupt was requested and enabled through one of bits 5..7 of IE and IF, which
    /// name no interrupt.
    UnknownInterrupt(u8),
}

/// The SM83 processor: registers, program counter and interrupt state.
pub struct CPU {
    /// A, F, B, C, D, E, H, L, then SP high and low.
    pub cpu_registers: [u8; 10],
    pub pc: u16,
    /// Length in machine cycles of the last instruction that recorded it.
    pub mcycles: u8,
    /// Interrupt master enable (0 or 1).
    pub ime: u8,
    pub ime_scheduled: bool,
    pub halt_mode: bool,
    /// Machine cycles since the cartridge clock last advanced.
    pub rtc_oscillator: u64,
}

/// The register pair whose high byte is at `hi` in `regs`.
pub open spec fn pair_value(regs: Seq<u8>, hi: int) -> u16 {
    (regs[hi] * 256 + regs[hi + 1]) as u16
}

/// `regs` with the pair at `hi` set to `value`.
pub open spec fn with_pair(regs: Seq<u8>, hi: int, value: u16) -> Seq<u8> {
    regs.update(hi, (value / 256) as u8).update(hi + 1, (value % 256) as u8)
}

impl CPU {
    /// The oscillator count stays below one second.
    pub open spec fn wf(&self) -> bool {
        self.rtc_oscillator < RTC_PERIOD
    }

    /// Whether `new_cpu` and `new_bus` follow this CPU and `bus` by one machine cycle: the bus
    /// ticks, and once a second (when the clock can advance) the cartridge clock counts a
    /// second.
    pub open spec fn tick_result(self, bus: Bus, new_cpu: CPU, new_bus: Bus) -> bool {
        let r = self.rtc_oscillator + 1;
        &&& new_cpu == (CPU { rtc_oscillator: if r == RTC_PERIOD { 0 } else { r as u64 }, ..self })
        &&& exists|mid: Bus| #[trigger] bus.tick_result(mid) && if r == RTC_PERIOD && mid.mmu.cartridge.clock_can_advance() {
            &&& mid.mmu.cartridge.clock_result(&new_bus.mmu.cartridge)
            &&& new_bus == (Bus { mmu: MMU { cartridge: new_bus.mmu.cartridge, ..mid.mmu }, ..mid })
        } else {
            new_bus == mid
        }
    }

    /// The CPU at power-on: every register zero.
    pub fn new() -> (c: CPU)
        ensures
            c.wf(),
            forall|i: int| 0 <= i < 10 ==> c.cpu_registers[i] == 0,
            c.pc == 0,
            c.mcycles == 0,
            c.ime == 0,
            !c.ime_scheduled,
            !c.halt_mode,
            c.rtc_oscillator == 0,
    {
        CPU {
            cpu_registers: [0u8; 10],
            pc: 0,
            mcycles: 0,
            ime: 0,
            ime_scheduled: false,
            halt_mode: false,
            rtc_oscillator: 0,
        }
    }

    /// Sets the registers and PC to their values after the boot ROM.
    pub fn initialize(&mut self)
        ensures
            final(self).cpu_registers@ == seq![0x01u8, 0xB0, 0x00, 0x13, 0x00, 0xD8, 0x01, 0x4D, 0xFF, 0xFE],
            final(self).pc == 0x100,
            *final(self) == (CPU { cpu_registers: final(self).cpu_registers, pc: 0x100, ..*old(self) }),
    {
        self.cpu_registers = [0x01, 0xB0, 0x00, 0x13, 0x00, 0xD8, 0x01, 0x4D, 0xFF, 0xFE];
        self.pc = 0x100;
        assert(self.cpu_registers@ =~= seq![0x01u8, 0xB0, 0x00, 0x13, 0x00, 0xD8, 0x01, 0x4D, 0xFF, 0xFE]);
    }

    /// The value of the register pair whose high byte is at `hi` (A, B, D, H or S).
    pub fn double_register_value(&self, hi: usize) -> (v: u16)
        requires
            hi == REG_A || hi == REG_B || hi == REG_D || hi == REG_H || hi == REG_S,
        ensures
            v == pair_value(self.cpu_registers@, hi as int),
    {
        let high = self.cpu_registers[hi] as u16;
        let low = self.cpu_registers[hi + 1] as u16;
        proof {
            lemma_bytes_to_word(high, low);
        }
        (high << 8) | low
    }

    /// Sets the register pair whose high byte is at `hi` to `value`.
    pub fn set_double_register(&mut self, hi: usize, value: u16)
        requires
            hi == REG_A || hi == REG_B || hi == REG_D || hi == REG_H || hi == REG_S,
        ensures
            final(self).cpu_registers@ == with_pair(old(self).cpu_registers@, hi as int, value),
            *final(self) == (CPU { cpu_registers: final(self).cpu_registers, ..*old(self) }),
    {
        let high = ((value & 0xFF00) >> 8) as u8;
        let low = (value & 0x00FF) as u8;
        proof {
            lemma_word(value);
        }
        self.cpu_registers[hi] = high;
        self.cpu_registers[hi + 1] = low;
    }

    /// The flag at bit `pos` of F.
    pub fn get_flag(&self, pos: u8) -> (b: u8)
        requires
            4 <= pos <= 7,
        ensures
            b == bit8(self.cpu_registers[REG_F as int], pos),
            b <= 1,
    {
        get_bit(self.cpu_registers[REG_F], pos)
    }

    /// Advances every component by one machine cycle; once a second the cartridge clock
    /// counts a second.
    pub fn tick(&mut self, bus: &mut Bus)
        requires
            old(self).wf(),
            old(bus).wf(),
        ensures
            final(self).wf(),
            final(bus).wf(),
            old(self).tick_result(*old(bus), *final(self), *final(bus)),
            old(bus).same_stable(*final(bus)),
    {
        bus.tick();
        let ghost mid = *bus;
        proof {
            lemma_tick_keeps_stable(*old(bus), mid);
        }
        self.rtc_oscillator += 1;
        if self.rtc_oscillator == RTC_PERIOD {
            if bus.mmu.cartridge.clock_can_advance_now() {
                bus.mmu.cartridge.update_clock();
                proof {
                    assert forall|a: u16|
                        #![trigger bus.readable(a)]
                        #![trigger bus.read_value(a)]
                        stable_address(a) implies bus.readable(a) == mid.readable(a) && bus.read_value(a)
                        == mid.read_value(a) by {
                        lemma_clock_keeps_reads(mid.mmu.cartridge, bus.mmu.cartridge, a);
                    }
                }
            }
            self.rtc_oscillator = 0;
        }
        assert(old(bus).tick_result(mid));
    }

    /// Whether `new_cpu` and `new_bus` follow this CPU and `bus` by a write of `value` to
    /// `address` and one machine cycle.
    #[verifier::opaque]
    pub open spec fn stored_then_ticked(self, bus: Bus, address: u16, value: u8, new_cpu: CPU, new_bus: Bus) -> bool {
        exists|mid: Bus| #[trigger] bus.write_result(address, value, mid) && self.tick_result(mid, new_cpu, new_bus)
    }

    /// The outcome of reading `address` (the byte read being `value`) from this CPU and `bus`:
    /// refused with nothing changed when the address cannot be read, else one machine cycle.
    pub open spec fn loaded(self, bus: Bus, address: u16, nc: CPU, nb: Bus, r: Result<(), CpuError>, value: u8) -> bool {
        if !bus.readable(address) {
            r == Err::<(), CpuError>(CpuError::InvalidRead(address)) && nc == self && nb == bus
        } else {
            r is Ok && value == bus.read_value(address) && self.tick_result(bus, nc, nb)
        }
    }

    /// The outcome of writing `value` to `address` from this CPU and `bus`: refused with
    /// nothing changed when the address cannot take the byte, else the write and one machine
    /// cycle.
    pub open spec fn stored(self, bus: Bus, address: u16, value: u8, nc: CPU, nb: Bus, r: Result<(), CpuError>) -> bool {
        if !bus.writable(address, value) {
            r == Err::<(), CpuError>(CpuError::InvalidWrite(address)) && nc == self && nb == bus
        } else {
            r is Ok && self.stored_then_ticked(bus, address, value, nc, nb)
        }
    }

    /// Whether `nc` and `nb` follow this CPU and `bus` by two machine cycles.
    #[verifier::opaque]
    pub open spec fn ticked_twice(self, bus: Bus, nc: CPU, nb: Bus) -> bool {
        exists|c1: CPU, b1: Bus| #[trigger] self.tick_result(bus, c1, b1) && c1.tick_result(b1, nc, nb)
    }

    /// A read of `first` and, one machine cycle later and with PC set to `moved_pc`, a write of
    /// `value` to `address`: refused with nothing changed when `first` cannot be read.
    #[verifier::opaque]
    pub open spec fn loaded_then_stored(self, bus: Bus, first: u16, moved_pc: u16, address: u16, value: u8, nc: CPU, nb: Bus,
        r: Result<(), CpuError>) -> bool {
        if !bus.readable(first) {
            r == Err::<(), CpuError>(CpuError::InvalidRead(first)) && nc == self && nb == bus
        } else {
            exists|c1: CPU, b1: Bus|
                #[trigger] self.tick_result(bus, c1, b1) && (CPU { pc: moved_pc, ..c1 }).stored(b1, address, value, nc, nb, r)
        }
    }

    /// A read of `first` and, one machine cycle later and with PC set to `moved_pc`, a read of
    /// `address` giving `value`: refused with nothing changed when `first` cannot be read.
    #[verifier::opaque]
    pub open spec fn loaded_then_loaded(self, bus: Bus, first: u16, moved_pc: u16, address: u16, nc: CPU, nb: Bus,
        r: Result<(), CpuError>, value: u8) -> bool {
        if !bus.readable(first) {
            r == Err::<(), CpuError>(CpuError::InvalidRead(first)) && nc == self && nb == bus
        } else {
            exists|c1: CPU, b1: Bus|
                #[trigger] self.tick_result(bus, c1, b1) && (CPU { pc: moved_pc, ..c1 }).loaded(b1, address, nc, nb, r, value)
        }
    }

    /// A write of `v1` to `a1` and, one machine cycle later, of `v2` to `a2`: refused with
    /// nothing changed when `a1` cannot take `v1`.
    #[verifier::opaque]
    pub open spec fn stored_twice(self, bus: Bus, a1: u16, v1: u8, a2: u16, v2: u8, nc: CPU, nb: Bus, r: Result<(), CpuError>) -> bool {
        if !bus.writable(a1, v1) {
            r == Err::<(), CpuError>(CpuError::InvalidWrite(a1)) && nc == self && nb == bus
        } else {
            exists|c1: CPU, b1: Bus| #[trigger] self.stored_then_ticked(bus, a1, v1, c1, b1) && c1.stored(b1, a2, v2, nc, nb, r)
        }
    }

    /// The fetch of the 16-bit operand at PC (two machine cycles): refused with nothing changed
    /// at the first of its bytes that cannot be read.
    pub open spec fn word_fetched(self, bus: Bus, nc: CPU, nb: Bus, r: Result<(), CpuError>) -> bool {
        if !bus.readable(self.pc) {
            r == Err::<(), CpuError>(CpuError::InvalidRead(self.pc)) && nc == self && nb == bus
        } else if !bus.readable(add16(self.pc, 1)) {
            r == Err::<(), CpuError>(CpuError::InvalidRead(add16(self.pc, 1))) && nc == self && nb == bus
        } else {
            r is Ok && self.ticked_twice(bus, nc, nb)
        }
    }

    /// The fetch of the 16-bit operand at PC, then, PC moved past it, a write of `value` to
    /// `address`.
    #[verifier::opaque]
    pub open spec fn word_fetched_then_stored(self, bus: Bus, address: u16, value: u8, nc: CPU, nb: Bus, r: Result<(), CpuError>) -> bool {
        if !bus.readable(self.pc) || !bus.readable(add16(self.pc, 1)) {
            self.word_fetched(bus, nc, nb, r)
        } else {
            exists|c2: CPU, b2: Bus|
                #[trigger] self.ticked_twice(bus, c2, b2) && (CPU { pc: add16(self.pc, 2), ..c2 }).stored(b2, address, value, nc, nb, r)
        }
    }

    /// The fetch of the 16-bit operand at PC, then, PC moved past it, a read of `address`
    /// giving `value`.
    #[verifier::opaque]
    pub open spec fn word_fetched_then_loaded(self, bus: Bus, address: u16, nc: CPU, nb: Bus, r: Result<(), CpuError>, value: u8) -> bool {
        if !bus.readable(self.pc) || !bus.readable(add16(self.pc, 1)) {
            self.word_fetched(bus, nc, nb, r)
        } else {
            exists|c2: CPU, b2: Bus|
                #[trigger] self.ticked_twice(bus, c2, b2) && (CPU { pc: add16(self.pc, 2), ..c2 }).loaded(b2, address, nc, nb, r, value)
        }
    }

    /// The fetch of the 16-bit operand at PC, then, PC moved past it, a write of `v1` to `a1`
    /// and one of `v2` to `a2`.
    #[verifier::opaque]
    pub open spec fn word_fetched_then_stored_twice(self, bus: Bus, a1: u16, v1: u8, a2: u16, v2: u8, nc: CPU, nb: Bus,
        r: Result<(), CpuError>) -> bool {
        if !bus.readable(self.pc) || !bus.readable(add16(self.pc, 1)) {
            self.word_fetched(bus, nc, nb, r)
        } else {
            exists|c2: CPU, b2: Bus|
                #[trigger] self.ticked_twice(bus, c2, b2) && (CPU { pc: add16(self.pc, 2), ..c2 }).stored_twice(b2, a1, v1, a2, v2, nc, nb, r)
        }
    }

    /// Reads `address`, then lets a machine cycle pass.
    pub fn get_byte(&mut self, bus: &mut Bus, address: u16) -> (r: Result<u8, CpuError>)
        requires
            old(self).wf(),
            old(bus).wf(),
        ensures
            final(self).wf(),
            final(bus).wf(),
            final(self).cpu_registers == old(self).cpu_registers,
            final(self).pc == old(self).pc,
            final(self).ime == old(self).ime,
            final(self).mcycles == old(self).mcycles,
            final(self).halt_mode == old(self).halt_mode,
            final(self).ime_scheduled == old(self).ime_scheduled,
            r == (if old(bus).readable(address) { Ok(old(bus).read_value(address)) } else { Err(CpuError::InvalidRead(address)) }),
            r is Ok ==> old(self).tick_result(*old(bus), *final(self), *final(bus)),
            r is Err ==> *final(self) == *old(self) && *final(bus) == *old(bus),
            old(bus).same_stable(*final(bus)),
    {
        if !bus.can_read(address) {
            return Err(CpuError::InvalidRead(address));
        }
        let byte = bus.get_byte(address);
        self.tick(bus);
        Ok(byte)
    }

    /// Writes `value` to `address`, then lets a machine cycle pass.
    pub fn set_byte(&mut self, bus: &mut Bus, address: u16, value: u8) -> (r: Result<(), CpuError>)
        requires
            old(self).wf(),
            old(bus).wf(),
        ensures
            final(self).wf(),
            final(bus).wf(),
            final(self).cpu_registers == old(self).cpu_registers,
            final(self).pc == old(self).pc,
            final(self).ime == old(self).ime,
            final(self).mcycles == old(self).mcycles,
            final(self).halt_mode == old(self).halt_mode,
            final(self).ime_scheduled == old(self).ime_scheduled,
            r == (if old(bus).writable(address, value) { Ok::<(), CpuError>(()) } else { Err(CpuError::InvalidWrite(address)) }),
            r is Err ==> *final(bus) == *old(bus) && *final(self) == *old(self),
            r is Ok ==> old(self).stored_then_ticked(*old(bus), address, value, *final(self), *final(bus)),
            r is Ok && plain_memory(address) ==> old(bus).stored_at(address, value, *final(bus)),
    {
        if !bus.can_write(address, value) {
            return Err(CpuError::InvalidWrite(address));
        }
        bus.set_byte(address, value);
        let ghost mid = *bus;
        proof {
            if plain_memory(address) {
                lemma_store_plain(*old(bus), *bus, address, value);
            }
        }
        self.tick(bus);
        proof {
            reveal(CPU::stored_then_ticked);
            assert(old(bus).write_result(address, value, mid));
        }
        Ok(())
    }

    /// Reads the byte at PC, lets a machine cycle pass and moves PC on.
    pub fn fetch_byte(&mut self, bus: &mut Bus) -> (r: Result<u8, CpuError>)
        requires
            old(self).wf(),
            old(bus).wf(),
        ensures
            final(self).wf(),
            final(bus).wf(),
            final(self).cpu_registers == old(self).cpu_registers,
            final(self).ime == old(self).ime,
            final(self).mcycles == old(self).mcycles,
            final(self).halt_mode == old(self).halt_mode,
            final(self).ime_scheduled == old(self).ime_scheduled,
            r is Ok ==> final(self).pc == add16(old(self).pc, 1),
            r == (if old(bus).readable(old(self).pc) { Ok(old(bus).read_value(old(self).pc)) } else { Err(CpuError::InvalidRead(old(self).pc)) }),
            r is Ok ==> old(self).tick_result(*old(bus), CPU { pc: old(self).pc, ..*final(self) }, *final(bus)),
            r is Err ==> *final(self) == *old(self) && *final(bus) == *old(bus),
            old(bus).same_stable(*final(bus)),
    {
        let pc = self.pc;
        let byte = self.get_byte(bus, pc)?;
        self.pc = self.pc.wrapping_add(1);
        Ok(byte)
    }

    /// Reads the little-endian word at PC, lets two machine cycles pass and moves PC on.
    pub fn fetch_word(&mut self, bus: &mut Bus) -> (r: Result<u16, CpuError>)
        requires
            old(self).wf(),
            old(bus).wf(),
        ensures
            final(self).wf(),
            final(bus).wf(),
            final(self).cpu_registers == old(self).cpu_registers,
            final(self).ime == old(self).ime,
            final(self).mcycles == old(self).mcycles,
            final(self).halt_mode == old(self).halt_mode,
            final(self).ime_scheduled == old(self).ime_scheduled,
            r is Ok ==> final(self).pc == add16(old(self).pc, 2),
            r is Ok <==> old(bus).readable(old(self).pc) && old(bus).readable(add16(old(self).pc, 1)),
            r matches Ok(w) ==> w == old(bus).word_value(old(self).pc),
            !old(bus).readable(old(self).pc) ==> r == Err::<u16, CpuError>(CpuError::InvalidRead(old(self).pc)),
            old(bus).readable(old(self).pc) && !old(bus).readable(add16(old(self).pc, 1)) ==> r == Err::<u16, CpuError>(
                CpuError::InvalidRead(add16(old(self).pc, 1))),
            r is Err ==> *final(self) == *old(self) && *final(bus) == *old(bus),
            r is Ok ==> old(self).ticked_twice(*old(bus), CPU { pc: old(self).pc, ..*final(self) }, *final(bus)),
            old(bus).same_stable(*final(bus)),
    {
        let pc = self.pc;
        if !bus.can_read(pc) {
            return Err(CpuError::InvalidRead(pc));
        }
        let next = pc.wrapping_add(1);
        if !bus.can_read(next) {
            return Err(CpuError::InvalidRead(next));
        }
        let word = bus.get_word(pc);
        self.tick(bus);
        let ghost c1 = *self;
        let ghost b1 = *bus;
        self.tick(bus);
        proof {
            reveal(CPU::ticked_twice);
            assert(old(self).tick_result(*old(bus), c1, b1));
        }
        self.pc = pc.wrapping_add(2);
        Ok(word)
    }

    /// Pushes `value` on the stack: high byte at SP - 1, low byte at SP - 2.
    pub fn push_stack(&mut self, bus: &mut Bus, value: u16) -> (r: Result<(), CpuError>)
        requires
            old(self).wf(),
            old(bus).wf(),
        ensures
            final(self).wf(),
            final(bus).wf(),
            final(self).pc == old(self).pc,
            final(self).ime == old(self).ime,
            final(self).halt_mode == old(self).halt_mode,
            final(self).ime_scheduled == old(self).ime_scheduled,
            final(self).mcycles == old(self).mcycles,
            r is Ok ==> final(self).cpu_registers@ == with_pair(old(self).cpu_registers@, REG_S as int,
                add16(pair_value(old(self).cpu_registers@, REG_S as int), -2)),
            r is Err ==> final(self).cpu_registers == old(self).cpu_registers,
            ({
                let sp = pair_value(old(self).cpu_registers@, REG_S as int);
                &&& !old(bus).writable(add16(sp, -1), (value / 256) as u8) ==> r == Err::<(), CpuError>(
                    CpuError::InvalidWrite(add16(sp, -1)))
                &&& r is Ok && plain_memory(add16(sp, -1)) && plain_memory(add16(sp, -2)) ==> {
                    &&& final(bus).read_value(add16(sp, -1)) == (value / 256) as u8
                    &&& final(bus).read_value(add16(sp, -2)) == (value % 256) as u8
                }
                &&& old(self).stored_twice(*old(bus), add16(sp, -1), (value / 256) as u8, add16(sp, -2), (value % 256) as u8,
                    CPU { cpu_registers: old(self).cpu_registers, ..*final(self) }, *final(bus), r)
            }),
    {
        let sp_value = self.double_register_value(REG_S);
        proof {
            lemma_word(value);
        }
        let high = ((value & 0xFF00) >> 8) as u8;
        let low = (value & 0x00FF) as u8;
        proof {
            reveal(CPU::stored_twice);
        }
        self.set_byte(bus, sp_value.wrapping_sub(1), high)?;
        let ghost c1 = *self;
        let ghost b1 = *bus;
        self.set_byte(bus, sp_value.wrapping_sub(2), low)?;
        proof {
            assert(old(self).stored_then_ticked(*old(bus), add16(pair_value(old(self).cpu_registers@, REG_S as int), -1),
                high, c1, b1));
        }
        self.set_double_register(REG_S, sp_value.wrapping_sub(2));
        Ok(())
    }

    /// Pops a little-endian word from the stack.
    #[verifier::rlimit(40)]
    pub fn pop_stack(&mut self, bus: &mut Bus) -> (r: Result<u16, CpuError>)
        requires
            old(self).wf(),
            old(bus).wf(),
        ensures
            final(self).wf(),
            final(bus).wf(),
            final(self).pc == old(self).pc,
            final(self).ime == old(self).ime,
            final(self).halt_mode == old(self).halt_mode,
            final(self).ime_scheduled == old(self).ime_scheduled,
            final(self).mcycles == old(self).mcycles,
            r is Ok ==> final(self).cpu_registers@ == with_pair(old(self).cpu_registers@, REG_S as int,
                add16(pair_value(old(self).cpu_registers@, REG_S as int), 2)),
            r is Err ==> final(self).cpu_registers == old(self).cpu_registers,
            ({
                let sp = pair_value(old(self).cpu_registers@, REG_S as int);
                &&& !old(bus).readable(sp) ==> r == Err::<u16, CpuError>(CpuError::InvalidRead(sp))
                &&& stable_address(sp) && stable_address(add16(sp, 1)) ==> (r matches Ok(w) ==> w == old(bus).word_value(sp))
                &&& r matches Ok(w) ==> w % 256 == old(bus).read_value(sp)
                &&& old(self).loaded_then_loaded(*old(bus), sp, old(self).pc, add16(sp, 1),
                    CPU { cpu_registers: old(self).cpu_registers, ..*final(self) }, *final(bus),
                    (match r { Ok(_) => Ok(()), Err(e) => Err(e) }), (match r { Ok(w) => (w / 256) as u8, Err(_) => 0u8 }))
            }),
            old(bus).same_stable(*final(bus)),
    {
        let sp_value = self.double_register_value(REG_S);
        proof {
            reveal(CPU::loaded_then_loaded);
        }
        let lsb = self.get_byte(bus, sp_value)?;
        let ghost c1 = *self;
        let ghost b1 = *bus;
        let msb = match self.get_byte(bus, sp_value.wrapping_add(1)) {
            Ok(v) => v,
            Err(e) => {
                proof {
                    assert(old(self).tick_result(*old(bus), c1, b1));
                }
                return Err(e);
            },
        };
        proof {
            lemma_bytes_to_word(msb as u16, lsb as u16);
            assert(old(self).tick_result(*old(bus), c1, b1));
        }
        let value = ((msb as u16) << 8) | lsb as u16;
        self.set_double_register(REG_S, sp_value.wrapping_add(2));
        Ok(value)
    }
}


/// The index of the lowest set bit of `v` (8 when `v` is zero).
pub open spec fn lowest_set_bit(v: u8) -> u8 {
    if bit8(v, 0) == 1 { 0 }
    else if bit8(v, 1) == 1 { 1 }
    else if bit8(v, 2) == 1 { 2 }
    else if bit8(v, 3) == 1 { 3 }
    else if bit8(v, 4) == 1 { 4 }
    else if bit8(v, 5) == 1 { 5 }
    else if bit8(v, 6) == 1 { 6 }
    else if bit8(v, 7) == 1 { 7 }
    else { 8 }
}

/// Returns the index of the lowest set bit of `v` (8 when `v` is zero).
fn trailing_zeros(v: u8) -> (k: u8)
    ensures
        k == lowest_set_bit(v),
{
    if get_bit(v, 0) == 1 { 0 }
    else if get_bit(v, 1) == 1 { 1 }
    else if get_bit(v, 2) == 1 { 2 }
    else if get_bit(v, 3) == 1 { 3 }
    else if get_bit(v, 4) == 1 { 4 }
    else if get_bit(v, 5) == 1 { 5 }
    else if get_bit(v, 6) == 1 { 6 }
    else if get_bit(v, 7) == 1 { 7 }
    else { 8 }
}

/// The interrupts that are both enabled (IE) and requested (IF).
pub open spec fn pending_interrupts(bus: Bus) -> u8 {
    bus.read_value(0xFFFF) & bus.read_value(0xFF0F)
}

/// Whether `nc`, `nb` and `r` follow from CPU `c` and bus `b` by the interrupt check that
/// ends each step: with IME set and an interrupt both enabled and requested, the one with the
/// lowest number (below 5) is served (IME cleared, PC pushed, the handler at 0x40 + 8 * number
/// next); otherwise only HALT ends on a pending interrupt. A scheduled IME takes effect.
pub open spec fn interrupts_served(c: CPU, b: Bus, nc: CPU, nb: Bus, r: Result<(), CpuError>) -> bool {
    let pending = pending_interrupts(b);
    let ime_after = if c.ime_scheduled { 1u8 } else { 0u8 };
    &&& (c.ime != 1 || pending == 0) ==> r is Ok && nb == b && nc == (CPU {
        halt_mode: c.halt_mode && pending == 0,
        ime: if c.ime_scheduled { 1 } else { c.ime },
        ime_scheduled: false,
        ..c
    })
    &&& (c.ime == 1 && pending != 0 && lowest_set_bit(pending) >= 5) ==> r == Err::<(), CpuError>(
        CpuError::UnknownInterrupt(lowest_set_bit(pending))) && nc == (CPU { halt_mode: false, ..c }) && nb == b
    &&& (c.ime == 1 && pending != 0 && lowest_set_bit(pending) < 5) ==> interrupt_dispatched(c, b, lowest_set_bit(pending), nc,
        nb, r)
    &&& (c.ime == 1 && pending != 0 && r is Ok) ==> {
        &&& lowest_set_bit(pending) < 5
        &&& nc.pc == 0x40 + 8 * lowest_set_bit(pending)
        &&& !nc.halt_mode
        &&& nc.ime == ime_after
        &&& !nc.ime_scheduled
        &&& nc.cpu_registers@ == with_pair(c.cpu_registers@, REG_S as int, add16(pair_value(c.cpu_registers@, REG_S as int), -2))
        &&& opcodes::pushed(nb, pair_value(c.cpu_registers@, REG_S as int), c.pc)
    }
}

/// Serving interrupt `k` from CPU `c` and bus `b`: its request bit in IF is cleared, IME is
/// cleared and HALT left, two machine cycles pass, PC is pushed (refused, and the step ends
/// there, when the stack cannot take it), PC is set to the handler and one more machine cycle
/// passes.
#[verifier::opaque]
pub open spec fn interrupt_dispatched(c: CPU, b: Bus, k: u8, nc: CPU, nb: Bus, r: Result<(), CpuError>) -> bool {
    let sp = pair_value(c.cpu_registers@, REG_S as int);
    let cleared = with_bit8(b.read_value(0xFF0F), k, 0);
    exists|b0: Bus, c2: CPU, b2: Bus, c3: CPU, b3: Bus|
        #[trigger] b.write_result(0xFF0F, cleared, b0) && #[trigger] (CPU { ime: 0, halt_mode: false, ..c }).ticked_twice(b0, c2, b2)
            && #[trigger] c2.stored_twice(b2, add16(sp, -1), (c.pc / 256) as u8, add16(sp, -2), (c.pc % 256) as u8, c3, b3, r)
            && if r is Err {
            nc == c3 && nb == b3
        } else {
            (CPU { cpu_registers: nc.cpu_registers, pc: nc.pc, ..c3 }).tick_result(b3, CPU {
                ime: 0,
                ime_scheduled: c.ime_scheduled,
                ..nc
            }, nb)
        }
}

impl CPU {
    /// Serves the highest-priority pending interrupt when IME is set: IME is cleared, the
    /// request bit in IF is cleared, PC is pushed and the handler at 0x40 + 8 * number runs
    /// next; a pending interrupt also ends HALT when IME is clear. A scheduled IME takes
    /// effect at the end.
    pub fn handle_interrupts(&mut self, bus: &mut Bus) -> (r: Result<(), CpuError>)
        requires
            old(self).wf(),
            old(bus).wf(),
        ensures
            final(self).wf(),
            final(bus).wf(),
            interrupts_served(*old(self), *old(bus), *final(self), *final(bus), r),
    {
        let ie = bus.get_byte(0xFFFF);
        let if_register = bus.get_byte(0xFF0F);
        let pending = ie & if_register;
        if self.ime == 1 {
            if pending != 0 {
                if self.halt_mode {
                    self.halt_mode = false;
                }
                let interrupt_type = trailing_zeros(pending);
                if interrupt_type >= 5 {
                    return Err(CpuError::UnknownInterrupt(interrupt_type));
                }
                self.ime = 0;
                let if_register = set_bit(if_register, interrupt_type, 0);
                bus.set_byte(0xFF0F, if_register);
                let ghost c0 = *self;
                let ghost b0 = *bus;
                self.tick(bus);
                let ghost c1 = *self;
                let ghost b1 = *bus;
                self.tick(bus);
                let ghost c2 = *self;
                let ghost b2 = *bus;
                proof {
                    reveal(CPU::ticked_twice);
                    reveal(interrupt_dispatched);
                    assert(c0.tick_result(b0, c1, b1));
                    assert(c0.ticked_twice(b0, c2, b2));
                }
                let pc = self.pc;
                let pushed = self.push_stack(bus, pc);
                let ghost c3 = CPU { cpu_registers: c2.cpu_registers, ..*self };
                let ghost b3 = *bus;
                proof {
                    assert(c2.stored_twice(b2, add16(pair_value(c2.cpu_registers@, REG_S as int), -1), (pc / 256) as u8,
                        add16(pair_value(c2.cpu_registers@, REG_S as int), -2), (pc % 256) as u8, c3, b3, pushed));
                }
                if let Err(e) = pushed {
                    return Err(e);
                }
                self.pc = 0x0040 + 8 * interrupt_type as u16;
                let ghost c_pre = *self;
                self.tick(bus);
                proof {
                    assert(c_pre == (CPU { cpu_registers: self.cpu_registers, pc: self.pc, ..c3 }));
                    let fin = CPU { ime: if self.ime_scheduled { 1 } else { 0 }, ime_scheduled: false, ..*self };
                    match pushed {
                        Ok(u) => {
                            assert(u == ());
                        },
                        Err(_) => {},
                    }
                    assert((CPU { ime: 0, ime_scheduled: old(self).ime_scheduled, ..fin }) == *self);
                    assert(interrupt_dispatched(*old(self), *old(bus), interrupt_type, fin, *bus, Ok(())));
                }
            }
        } else if pending != 0 {
            if self.halt_mode {
                self.halt_mode = false;
            }
        }
        if self.ime_scheduled {
            self.ime = 1;
            self.ime_scheduled = false;
        }
        Ok(())
    }

    /// Whether `nc`, `nb` and `r` follow from this CPU and `bus` by fetching opcode `op` at PC
    /// (PC moves on and a machine cycle passes) and running it, as `opcode_result` describes.
    #[verifier::opaque]
    pub open spec fn fetched_and_ran(self, bus: Bus, op: u8, nc: CPU, nb: Bus, r: Result<(), CpuError>) -> bool {
        exists|c1: CPU, b1: Bus|
            #[trigger] (CPU { pc: add16(self.pc, 1), ..self }).tick_result(bus, c1, b1)
                && opcodes::opcode_result(c1, b1, op, nc, nb, r)
    }

    /// Whether `nc`, `nb` and `r` follow from this CPU and `bus` by fetching the prefix 0xCB at
    /// PC and the opcode after it (a machine cycle passes after each) and running that opcode
    /// of the second page, as `cb_op_result` describes.
    #[verifier::opaque]
    pub open spec fn fetched_and_ran_cb(self, bus: Bus, nc: CPU, nb: Bus, r: Result<(), CpuError>) -> bool {
        exists|c1: CPU, b1: Bus|
            #[trigger] (CPU { pc: add16(self.pc, 1), ..self }).tick_result(bus, c1, b1) && if !b1.readable(c1.pc) {
                r == Err::<(), CpuError>(CpuError::InvalidRead(c1.pc))
            } else {
                exists|c2: CPU, b2: Bus|
                    #[trigger] (CPU { pc: add16(c1.pc, 1), ..c1 }).tick_result(b1, c2, b2)
                        && opcodes::cb_op_result(c2, b2, b1.read_value(c1.pc), nc, nb, r)
            }
    }

    /// Whether `nc`, `nb` and `r` follow from this CPU (not halted) and `bus` by one step: the
    /// opcode at PC is refused when PC cannot be read or the opcode is not implemented;
    /// otherwise it is fetched and run (with the opcode after it for the prefix 0xCB) and, when
    /// that succeeds, the interrupt check follows.
    #[verifier::opaque]
    pub open spec fn stepped(self, bus: Bus, nc: CPU, nb: Bus, r: Result<(), CpuError>) -> bool {
        let op = bus.read_value(self.pc);
        if !bus.readable(self.pc) {
            r == Err::<(), CpuError>(CpuError::InvalidRead(self.pc)) && nc == self && nb == bus
        } else if op != EXPANDED_INSTRUCTION_OPCODE && !implemented(op) {
            r == Err::<(), CpuError>(CpuError::UnimplementedOpcode(op)) && nc == self && nb == bus
        } else {
            exists|c2: CPU, b2: Bus, r2: Result<(), CpuError>|
                #[trigger] self.ran(bus, op, c2, b2, r2) && if r2 is Err {
                    r == r2 && nc == c2 && nb == b2
                } else {
                    interrupts_served(c2, b2, nc, nb, r)
                }
        }
    }

    /// Whether `nc`, `nb` and `r` follow from fetching and running opcode `op` found at PC.
    pub open spec fn ran(self, bus: Bus, op: u8, nc: CPU, nb: Bus, r: Result<(), CpuError>) -> bool {
        if op == EXPANDED_INSTRUCTION_OPCODE {
            self.fetched_and_ran_cb(bus, nc, nb, r)
        } else {
            self.fetched_and_ran(bus, op, nc, nb, r)
        }
    }

    /// Fetches and runs the next instruction (only a machine cycle passes while halted), then
    /// serves interrupts.
    pub fn step(&mut self, bus: &mut Bus) -> (r: Result<(), CpuError>)
        requires
            old(self).wf(),
            old(bus).wf(),
        ensures
            final(self).wf(),
            final(bus).wf(),
            !old(self).halt_mode && !old(bus).readable(old(self).pc) ==> r == Err::<(), CpuError>(CpuError::InvalidRead(old(self).pc)),
            !old(self).halt_mode && old(bus).readable(old(self).pc) && old(bus).read_value(old(self).pc) != EXPANDED_INSTRUCTION_OPCODE
                && !implemented(old(bus).read_value(old(self).pc)) ==> r == Err::<(), CpuError>(
                CpuError::UnimplementedOpcode(old(bus).read_value(old(self).pc)),
            ),
            !old(self).halt_mode && old(self).ime != 1 && old(bus).readable(old(self).pc)
                && opcodes::register_opcode(old(bus).read_value(old(self).pc)) ==> {
                &&& r is Ok
                &&& final(self).cpu_registers@ == opcodes::register_op(old(self).cpu_registers@, old(bus).read_value(old(self).pc))
                &&& final(self).pc == add16(old(self).pc, 1)
            },
            !old(self).halt_mode ==> old(self).stepped(*old(bus), *final(self), *final(bus), r),
            old(self).halt_mode ==> exists|c1: CPU, b1: Bus|
                #[trigger] old(self).tick_result(*old(bus), c1, b1) && interrupts_served(c1, b1, *final(self), *final(bus), r),
    {
        if self.halt_mode {
            self.tick(bus);
            let ghost c1 = *self;
            let ghost b1 = *bus;
            let r = self.handle_interrupts(bus);
            proof {
                assert(old(self).tick_result(*old(bus), c1, b1));
            }
            return r;
        }
        proof {
            reveal(CPU::stepped);
        }
        let pc = self.pc;
        if !bus.can_read(pc) {
            return Err(CpuError::InvalidRead(pc));
        }
        let opcode = bus.get_byte(pc);
        if opcode != EXPANDED_INSTRUCTION_OPCODE && !opcodes::implemented_opcode(opcode) {
            return Err(CpuError::UnimplementedOpcode(opcode));
        }
        let result = if opcode == EXPANDED_INSTRUCTION_OPCODE {
            self.pc = self.pc.wrapping_add(1);
            self.tick(bus);
            let ghost c1 = *self;
            let ghost b1 = *bus;
            proof {
                reveal(CPU::fetched_and_ran_cb);
                assert((CPU { pc: add16(old(self).pc, 1), ..*old(self) }).tick_result(*old(bus), c1, b1));
            }
            let pc = self.pc;
            if !bus.can_read(pc) {
                let r = Err(CpuError::InvalidRead(pc));
                proof {
                    assert(old(self).ran(*old(bus), opcode, *self, *bus, r));
                }
                return r;
            }
            let opcode = bus.get_byte(pc);
            self.pc = self.pc.wrapping_add(1);
            self.tick(bus);
            let ghost c2 = *self;
            let ghost b2 = *bus;
            let result = self.execute_cb(bus, opcode);
            proof {
                assert((CPU { pc: add16(c1.pc, 1), ..c1 }).tick_result(b1, c2, b2));
            }
            result
        } else {
            self.pc = self.pc.wrapping_add(1);
            self.tick(bus);
            let ghost c1 = *self;
            let ghost b1 = *bus;
            let result = self.execute(bus, opcode);
            proof {
                reveal(CPU::fetched_and_ran);
                assert((CPU { pc: add16(old(self).pc, 1), ..*old(self) }).tick_result(*old(bus), c1, b1));
            }
            result
        };
        let ghost c2 = *self;
        let ghost b2 = *bus;
        proof {
            assert(old(self).ran(*old(bus), opcode, c2, b2, result));
        }
        if result.is_err() {
            return result;
        }
        self.handle_interrupts(bus)
    }
}


/// A word pushed on the stack comes back whole: the two bytes that a push leaves below SP
/// (in plain memory) are read by a pop from the new SP as the word that was pushed.
pub proof fn lemma_push_then_pop(bus: Bus, sp: u16, value: u16)
    requires
        crate::cpu::opcodes::pushed(bus, sp, value),
        plain_memory(add16(sp, -1)),
        plain_memory(add16(sp, -2)),
    ensures
        stable_address(add16(sp, -2)),
        stable_address(add16(add16(sp, -2), 1)),
        bus.word_value(add16(sp, -2)) == value,
{
    assert(add16(add16(sp, -2), 1) == add16(sp, -1));
}

/// Setting a register pair and reading it back gives the value written; the other registers
/// keep theirs.
pub proof fn lemma_pair_round_trip(regs: Seq<u8>, hi: int, value: u16)
    requires
        0 <= hi,
        hi + 1 < regs.len(),
    ensures
        pair_value(with_pair(regs, hi, value), hi) == value,
        forall|i: int| 0 <= i < regs.len() && i != hi && i != hi + 1 ==> #[trigger] with_pair(regs, hi, value)[i] == regs[i],
{
}

} // verus!
