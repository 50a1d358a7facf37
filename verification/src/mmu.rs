use vstd::prelude::*;

use crate::bits::{bit8, get_bit, set_bit, with_bit8};
use crate::cartridge::{AnyCartridge, Cartridge};
use crate::input::Input;
use crate::timer::Timer;

verus! {

/// 0 when a button is pressed, 1 when it is released (the joypad register is active-low).
pub open spec fn released(pressed: bool) -> u8 {
    if pressed { 0 } else { 1 }
}

/// The low nibble of P1 for the selection bits `sel4` (d-pad, active-low) and `sel5`
/// (buttons, active-low): all ones when nothing is selected, otherwise the released state of
/// the selected group, or of both groups ANDed when both are selected.
pub open spec fn p1_nibble(sel4: u8, sel5: u8, input: Input) -> u8 {
    let (b0, b1, b2, b3) = if sel4 == 1 && sel5 == 1 {
        (1u8, 1u8, 1u8, 1u8)
    } else if sel4 == 0 && sel5 == 0 {
        (released(input.right) & released(input.a), released(input.left) & released(input.b),
            released(input.up) & released(input.select), released(input.down) & released(input.start))
    } else if sel4 == 0 {
        (released(input.right), released(input.left), released(input.up), released(input.down))
    } else {
        (released(input.a), released(input.b), released(input.select), released(input.start))
    };
    (b0 + 2 * b1 + 4 * b2 + 8 * b3) as u8
}

/// The value of P1 after the joypad lines are sampled: the upper nibble as written, the lower
/// nibble from the buttons.
pub open spec fn p1_value(p1: u8, input: Input) -> u8 {
    (p1 & 0xF0) | p1_nibble(bit8(p1, 4), bit8(p1, 5), input)
}

/// The console's memory map outside video memory and sound: cartridge, work RAM, I/O
/// registers, high RAM, timer and joypad.
pub struct MMU {
    pub cartridge: AnyCartridge,
    pub wram: [u8; 8192],
    pub io_registers: [u8; 128],
    pub hram: [u8; 127],
    pub ie_register: u8,
    pub timer: Timer,
    pub input: Input,
    pub prev_p1: u8,
    pub joypad_interrupt: bool,
    pub serial_buffer: [u8; 100],
}

impl MMU {
    pub fn new(cartridge: AnyCartridge) -> (m: MMU)
        ensures
            m.cartridge == cartridge,
            forall|i: int| 0 <= i < 8192 ==> m.wram[i] == 0,
            forall|i: int| 0 <= i < 128 ==> m.io_registers[i] == 0,
            forall|i: int| 0 <= i < 127 ==> m.hram[i] == 0,
            forall|i: int| 0 <= i < 100 ==> m.serial_buffer[i] == 0,
            m.ie_register == 0,
            m.timer == Timer::initial(),
            m.input == Input::released_all(),
            m.prev_p1 == 0xCF,
            !m.joypad_interrupt,
            m.timer.div_consistent(),
    {
        MMU {
            cartridge,
            wram: [0u8; 8192],
            io_registers: [0u8; 128],
            hram: [0u8; 127],
            ie_register: 0,
            timer: Timer::new(),
            input: Input::new(),
            prev_p1: 0xCF,
            joypad_interrupt: false,
            serial_buffer: [0u8; 100],
        }
    }

    /// Sets the I/O registers and the timer to their post-boot values.
    pub fn initialize(&mut self)
        ensures
            final(self).io_registers@ == old(self).io_registers@.update(0x00, 0xCF).update(0x02, 0x7E)
                .update(0x04, 0xAB).update(0x07, 0xF8).update(0x0F, 0xE1),
            final(self).timer.internal_timer == 0xAB00,
            final(self).timer.div == 0xAB,
            final(self).timer.tima == 0,
            final(self).timer.tma == 0,
            final(self).timer.tac == 0xF8,
            final(self).timer.previous_and == old(self).timer.previous_and,
            final(self).timer.tima_overflow == old(self).timer.tima_overflow,
            final(self).timer.timer_interrupt == old(self).timer.timer_interrupt,
            final(self).cartridge == old(self).cartridge,
            final(self).wram == old(self).wram,
            final(self).hram == old(self).hram,
            final(self).ie_register == old(self).ie_register,
            final(self).input == old(self).input,
            final(self).prev_p1 == old(self).prev_p1,
            final(self).joypad_interrupt == old(self).joypad_interrupt,
            final(self).serial_buffer == old(self).serial_buffer,
    {
        self.io_registers[0x00] = 0xCF;
        self.io_registers[0x02] = 0x7E;
        self.io_registers[0x04] = 0xAB;
        self.io_registers[0x07] = 0xF8;
        self.io_registers[0x0F] = 0xE1;
        self.timer.initialize();
    }

    /// Whether reading `address` is defined: video memory and the OAM/unusable area belong
    /// to the PPU, and a cartridge address must be readable by the cartridge.
    pub open spec fn readable(&self, address: u16) -> bool {
        if address <= 0x7FFF || (0xA000 <= address <= 0xBFFF) {
            self.cartridge.readable(address)
        } else {
            !(0x8000 <= address <= 0x9FFF) && !(0xFE00 <= address <= 0xFEFF)
        }
    }

    /// The byte that a read of `address` returns.
    pub open spec fn read_value(&self, address: u16) -> u8 {
        if address <= 0x7FFF || (0xA000 <= address <= 0xBFFF) {
            self.cartridge.read_value(address)
        } else if 0xC000 <= address <= 0xDFFF {
            self.wram[address - 0xC000]
        } else if 0xE000 <= address <= 0xFDFF {
            self.wram[address - 0xE000]
        } else if address == 0xFF04 {
            self.timer.div
        } else if address == 0xFF05 {
            self.timer.tima
        } else if address == 0xFF06 {
            self.timer.tma
        } else if address == 0xFF07 {
            self.timer.tac
        } else if 0xFF00 <= address <= 0xFF7F {
            self.io_registers[address - 0xFF00]
        } else if 0xFF80 <= address <= 0xFFFE {
            self.hram[address - 0xFF80]
        } else {
            self.ie_register
        }
    }

    /// Reads the byte at `address`.
    pub fn get_byte(&self, address: u16) -> (v: u8)
        requires
            self.readable(address),
        ensures
            v == self.read_value(address),
    {
        if address <= 0x7FFF || (0xA000 <= address && address <= 0xBFFF) {
            self.cartridge.read(address)
        } else if 0xC000 <= address && address <= 0xDFFF {
            self.wram[(address - 0xC000) as usize]
        } else if 0xE000 <= address && address <= 0xFDFF {
            self.wram[(address - 0xE000) as usize]
        } else if 0xFF00 <= address && address <= 0xFF7F {
            if address == 0xFF04 {
                self.timer.div
            } else if address == 0xFF05 {
                self.timer.tima
            } else if address == 0xFF06 {
                self.timer.tma
            } else if address == 0xFF07 {
                self.timer.tac
            } else {
                self.io_registers[(address - 0xFF00) as usize]
            }
        } else if 0xFF80 <= address && address <= 0xFFFE {
            self.hram[(address - 0xFF80) as usize]
        } else {
            self.ie_register
        }
    }

    /// Returns whether reading `address` is defined.
    pub fn can_read(&self, address: u16) -> (b: bool)
        ensures
            b == self.readable(address),
    {
        if address <= 0x7FFF || (0xA000 <= address && address <= 0xBFFF) {
            self.cartridge.can_read(address)
        } else {
            !(0x8000 <= address && address <= 0x9FFF) && !(0xFE00 <= address && address <= 0xFEFF)
        }
    }

    /// Returns whether writing `address` is defined.
    pub fn can_write(&self, address: u16) -> (b: bool)
        ensures
            b == self.writable(address),
    {
        if address <= 0x7FFF || (0xA000 <= address && address <= 0xBFFF) {
            self.cartridge.can_write(address)
        } else {
            !(0x8000 <= address && address <= 0x9FFF) && !(0xFE00 <= address && address <= 0xFE9F)
        }
    }

    /// Whether writing `address` is defined: video memory and OAM belong to the PPU, and a
    /// cartridge address must be writable by the cartridge.
    pub open spec fn writable(&self, address: u16) -> bool {
        if address <= 0x7FFF || (0xA000 <= address <= 0xBFFF) {
            self.cartridge.writable(address)
        } else {
            !(0x8000 <= address <= 0x9FFF) && !(0xFE00 <= address <= 0xFE9F)
        }
    }

    /// Whether `new` is the memory map after `value` is written at `address`: cartridge
    /// addresses go to the cartridge, echo RAM and the unusable area ignore writes, P1 keeps
    /// the written selection bits and resamples the buttons, SB stores the byte to send, a
    /// write to DIV resets the timer counter, and SC changes nothing here.
    pub open spec fn write_result(&self, address: u16, value: u8, new: &MMU) -> bool {
        if address <= 0x7FFF || (0xA000 <= address <= 0xBFFF) {
            self.cartridge.write_result(address, value, &new.cartridge)
            && *new == MMU { cartridge: new.cartridge, ..*self }
        } else if 0xC000 <= address <= 0xDFFF {
            new.wram@ == self.wram@.update(address - 0xC000, value) && *new == MMU { wram: new.wram, ..*self }
        } else if address == 0xFF00 {
            new.io_registers@ == self.io_registers@.update(0, p1_value(value, self.input))
            && *new == MMU { io_registers: new.io_registers, ..*self }
        } else if address == 0xFF01 {
            new.serial_buffer@ == self.serial_buffer@.update(0, value) && *new == MMU { serial_buffer: new.serial_buffer, ..*self }
        } else if address == 0xFF04 {
            *new == MMU { timer: Timer { internal_timer: 0, div: 0, ..self.timer }, ..*self }
        } else if address == 0xFF05 {
            *new == MMU { timer: Timer { tima: value, ..self.timer }, ..*self }
        } else if address == 0xFF06 {
            *new == MMU { timer: Timer { tma: value, ..self.timer }, ..*self }
        } else if address == 0xFF07 {
            *new == MMU { timer: Timer { tac: value, ..self.timer }, ..*self }
        } else if address == 0xFF03 || (0xFF08 <= address <= 0xFF7F) {
            new.io_registers@ == self.io_registers@.update(address - 0xFF00, value)
            && *new == MMU { io_registers: new.io_registers, ..*self }
        } else if 0xFF80 <= address <= 0xFFFE {
            new.hram@ == self.hram@.update(address - 0xFF80, value) && *new == MMU { hram: new.hram, ..*self }
        } else if address == 0xFFFF {
            *new == MMU { ie_register: value, ..*self }
        } else {
            *new == *self
        }
    }

    /// Writes `value` at `address`. A write to SC (0xFF02) sends the byte held in SB over the
    /// serial port: it is returned, for the frontend to print.
    pub fn set_byte(&mut self, address: u16, value: u8) -> (serial: Option<u8>)
        requires
            old(self).writable(address),
        ensures
            old(self).write_result(address, value, final(self)),
            serial == (if address == 0xFF02 { Some(old(self).serial_buffer[0]) } else { None::<u8> }),
    {
        if address <= 0x7FFF || (0xA000 <= address && address <= 0xBFFF) {
            self.cartridge.write(address, value);
            None
        } else if 0xC000 <= address && address <= 0xDFFF {
            self.wram[(address - 0xC000) as usize] = value;
            None
        } else if 0xE000 <= address && address <= 0xFDFF {
            None
        } else if 0xFEA0 <= address && address <= 0xFEFF {
            None
        } else if 0xFF00 <= address && address <= 0xFF7F {
            if address == 0xFF00 {
                self.io_registers[0x00] = value;
                self.update_p1();
                assert(self.io_registers@ == old(self).io_registers@.update(0, p1_value(value, old(self).input)));
                None
            } else if address == 0xFF01 {
                self.serial_buffer[0] = value;
                None
            } else if address == 0xFF02 {
                Some(self.serial_buffer[0])
            } else if address == 0xFF04 {
                self.timer.reset_timer();
                None
            } else if address == 0xFF05 {
                self.timer.tima = value;
                None
            } else if address == 0xFF06 {
                self.timer.tma = value;
                None
            } else if address == 0xFF07 {
                self.timer.tac = value;
                None
            } else {
                self.io_registers[(address - 0xFF00) as usize] = value;
                None
            }
        } else if 0xFF80 <= address && address <= 0xFFFE {
            self.hram[(address - 0xFF80) as usize] = value;
            None
        } else {
            self.ie_register = value;
            None
        }
    }

    /// Samples the joypad into the low nibble of P1 according to the selection bits 4 and 5.
    pub fn update_p1(&mut self)
        ensures
            final(self).io_registers@ == old(self).io_registers@.update(0, p1_value(old(self).io_registers[0], old(self).input)),
            final(self).cartridge == old(self).cartridge,
            final(self).wram == old(self).wram,
            final(self).hram == old(self).hram,
            final(self).ie_register == old(self).ie_register,
            final(self).timer == old(self).timer,
            final(self).input == old(self).input,
            final(self).prev_p1 == old(self).prev_p1,
            final(self).joypad_interrupt == old(self).joypad_interrupt,
            final(self).serial_buffer == old(self).serial_buffer,
    {
        let p1 = self.io_registers[0x00];
        let bit4 = get_bit(p1, 4);
        let bit5 = get_bit(p1, 5);
        let (b0, b1, b2, b3) = if bit5 == 1 && bit4 == 1 {
            (1u8, 1u8, 1u8, 1u8)
        } else if bit4 == 0 && bit5 == 0 {
            (
                MMU::reverse_flag(self.input.right) & MMU::reverse_flag(self.input.a),
                MMU::reverse_flag(self.input.left) & MMU::reverse_flag(self.input.b),
                MMU::reverse_flag(self.input.up) & MMU::reverse_flag(self.input.select),
                MMU::reverse_flag(self.input.down) & MMU::reverse_flag(self.input.start),
            )
        } else if bit4 == 0 {
            (
                MMU::reverse_flag(self.input.right),
                MMU::reverse_flag(self.input.left),
                MMU::reverse_flag(self.input.up),
                MMU::reverse_flag(self.input.down),
            )
        } else {
            (
                MMU::reverse_flag(self.input.a),
                MMU::reverse_flag(self.input.b),
                MMU::reverse_flag(self.input.select),
                MMU::reverse_flag(self.input.start),
            )
        };
        proof {
            assert(forall|p: u8, q: u8| p <= 1 && q <= 1 ==> #[trigger] (p & q) <= 1) by (bit_vector);
        }
        let mut input_byte = p1;
        input_byte = set_bit(input_byte, 0, b0);
        input_byte = set_bit(input_byte, 1, b1);
        input_byte = set_bit(input_byte, 2, b2);
        input_byte = set_bit(input_byte, 3, b3);
        proof {
            lemma_low_nibble(p1, b0, b1, b2, b3);
        }
        self.io_registers[0x00] = input_byte;
    }

    /// Stores the button state and updates P1.
    pub fn store_input(&mut self, input: Input)
        ensures
            final(self).input == input,
            final(self).io_registers@ == old(self).io_registers@.update(0, p1_value(old(self).io_registers[0], input)),
            final(self).cartridge == old(self).cartridge,
            final(self).wram == old(self).wram,
            final(self).hram == old(self).hram,
            final(self).ie_register == old(self).ie_register,
            final(self).timer == old(self).timer,
            final(self).prev_p1 == old(self).prev_p1,
            final(self).joypad_interrupt == old(self).joypad_interrupt,
            final(self).serial_buffer == old(self).serial_buffer,
    {
        self.input = input;
        self.update_p1();
    }

    /// 0 if `flag` is set, 1 otherwise.
    fn reverse_flag(flag: bool) -> (r: u8)
        ensures
            r == released(flag),
    {
        if flag { 0 } else { 1 }
    }
}

/// Setting bits 0..3 one after the other to `b0..b3` keeps the upper nibble and makes the
/// lower nibble `b0 + 2 b1 + 4 b2 + 8 b3`.
proof fn lemma_low_nibble(v: u8, b0: u8, b1: u8, b2: u8, b3: u8)
    requires
        b0 <= 1,
        b1 <= 1,
        b2 <= 1,
        b3 <= 1,
    ensures
        with_bit8(with_bit8(with_bit8(with_bit8(v, 0, b0), 1, b1), 2, b2), 3, b3)
            == (v & 0xF0) | ((b0 + 2 * b1 + 4 * b2 + 8 * b3) as u8),
{
    assert(with_bit8(with_bit8(with_bit8(with_bit8(v, 0, b0), 1, b1), 2, b2), 3, b3)
        == (v & 0xF0) | ((b0 + 2 * b1 + 4 * b2 + 8 * b3) as u8)) by (bit_vector)
        requires
            b0 <= 1,
            b1 <= 1,
            b2 <= 1,
            b3 <= 1;
}

/// The bits of a byte whose upper nibble is that of `x` and whose lower nibble is `m`.
proof fn lemma_nibble_bits(x: u8, m: u8)
    by (bit_vector)
    requires
        m < 16,
    ensures
        ((x & 0xF0) | m) & 0xF0 == x & 0xF0,
        ((x & 0xF0) | m) & 0x0F == m,
        (((x & 0xF0) | m) & 1 == 0) == (m % 2 == 0),
        (((x & 0xF0) | m) & 2 == 0) == ((m / 2) % 2 == 0),
        (((x & 0xF0) | m) & 4 == 0) == ((m / 4) % 2 == 0),
        (((x & 0xF0) | m) & 8 == 0) == ((m / 8) % 2 == 0),
{
}

/// What a game reads from P1 (0xFF00): the upper nibble as written, and in the lower nibble a
/// 0 for each pressed key of the selected groups, active low. With only the directions
/// selected (bit 4 clear, bit 5 set) bits 0-3 are Right, Left, Up, Down; with only the buttons
/// selected (bit 5 clear, bit 4 set) they are A, B, Select, Start; with both selected a bit is
/// 0 when either of its keys is pressed; with neither, all four read 1.
pub proof fn lemma_p1_reports_keys(p1: u8, input: Input)
    ensures
        ({
            let v = p1_value(p1, input);
            let d4 = p1 & 0x10 == 0;
            let d5 = p1 & 0x20 == 0;
            &&& v & 0xF0 == p1 & 0xF0
            &&& d4 && !d5 ==> (v & 1 == 0) == input.right && (v & 2 == 0) == input.left && (v & 4 == 0) == input.up && (v & 8
                == 0) == input.down
            &&& d5 && !d4 ==> (v & 1 == 0) == input.a && (v & 2 == 0) == input.b && (v & 4 == 0) == input.select && (v & 8
                == 0) == input.start
            &&& d4 && d5 ==> (v & 1 == 0) == (input.right || input.a) && (v & 2 == 0) == (input.left || input.b) && (v & 4
                == 0) == (input.up || input.select) && (v & 8 == 0) == (input.down || input.start)
            &&& !d4 && !d5 ==> v & 0x0F == 0x0F
        }),
{
    assert(forall|a: u8, b: u8| a <= 1 && b <= 1 ==> #[trigger] (a & b) == (if a == 1 && b == 1 { 1u8 } else { 0u8 }))
        by (bit_vector);
    assert((bit8(p1, 4) == 0) == (p1 & 0x10 == 0) && (bit8(p1, 5) == 0) == (p1 & 0x20 == 0) && bit8(p1, 4) <= 1 && bit8(
        p1,
        5,
    ) <= 1) by (bit_vector);
    let r = |k: bool| released(k);
    assert(r(input.right) & r(input.a) == (if input.right || input.a { 0u8 } else { 1u8 }));
    assert(r(input.left) & r(input.b) == (if input.left || input.b { 0u8 } else { 1u8 }));
    assert(r(input.up) & r(input.select) == (if input.up || input.select { 0u8 } else { 1u8 }));
    assert(r(input.down) & r(input.start) == (if input.down || input.start { 0u8 } else { 1u8 }));
    let n = p1_nibble(bit8(p1, 4), bit8(p1, 5), input);
    assert(n < 16);
    lemma_nibble_bits(p1, n);
    assert(p1_value(p1, input) == (p1 & 0xF0) | n);
}

} // verus!
