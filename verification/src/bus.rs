use vstd::prelude::*;

use crate::apu::APU;
use crate::bits::{bit8, lemma_byte, lemma_bytes_to_word, set_bit};
use crate::cartridge::AnyCartridge;
use crate::gb_mode::GBMode;
use crate::mmu::MMU;
use crate::timer::Timer;
use crate::ppu::{Mode, PPU};

verus! {

/// The state of a Game Boy Color VRAM DMA transfer.
#[derive(Clone, Copy, Debug, PartialEq, Eq, Structural)]
pub struct Hdma {
    pub hdma_index: usize,
    pub hdma_length: usize,
    pub hdma_active: bool,
    pub src_address: u16,
    pub dest_address: u16,
}

impl Hdma {
    /// No transfer in progress.
    pub open spec fn idle() -> Hdma {
        Hdma { hdma_index: 0, hdma_length: 0, hdma_active: false, src_address: 0, dest_address: 0 }
    }
}

/// The system bus: it routes CPU accesses to the APU, the PPU and the memory map, and runs
/// the three of them for each machine cycle.
pub struct Bus {
    pub apu: APU,
    pub mmu: MMU,
    pub ppu: PPU,
    pub gb_mode: GBMode,
    pub hdma: [u8; 5],
    pub dma_active: bool,
    pub hdma_struct: Hdma,
    pub key1: u8,
    pub double_speed: bool,
    /// The VRAM bank register (0xFF4F); only bit 0 is kept.
    pub vbk: u8,
    /// The Color palette index registers (0xFF68, 0xFF6A): bits 0..5 select a byte of the
    /// palette memory, bit 7 moves the index on after each write of palette data.
    pub bgpi: u8,
    pub obpi: u8,
    /// The Color palette memory of the background and of the objects, written through 0xFF69
    /// and 0xFF6B.
    pub bg_palette: [u8; 64],
    pub obj_palette: [u8; 64],
    /// Bytes sent over the serial port and not yet taken by the frontend.
    pub serial_output: Vec<u8>,
}

/// A palette index register after a write of palette data: with bit 7 set the index moves on
/// to the next of the 64 bytes (wrapping), otherwise it stays.
pub open spec fn palette_index_after_write(index: u8) -> u8 {
    if index >= 0x80 { (0x80 + (index % 64 + 1) % 64) as u8 } else { index }
}

/// Computes `palette_index_after_write`.
fn next_palette_index(index: u8) -> (r: u8)
    ensures
        r == palette_index_after_write(index),
{
    if index >= 0x80 { 0x80 + (index % 64 + 1) % 64 } else { index }
}

/// The source address of a VRAM DMA, from the HDMA1 (high) and HDMA2 (low) registers; the
/// low four bits are ignored.
pub open spec fn hdma_source(high: u8, low: u8) -> u16 {
    ((high as u16) * 256 + (low as u16 / 16) * 16) as u16
}

/// The VRAM offset of a VRAM DMA destination, from HDMA3 (high, five bits kept) and HDMA4
/// (low); the low four bits are ignored.
pub open spec fn hdma_destination(high: u8, low: u8) -> u16 {
    ((high as u16 % 32) * 256 + (low as u16 / 16) * 16) as u16
}

/// `a + b` wrapped to 16 bits.
pub open spec fn add16(a: u16, b: int) -> u16 {
    ((a + b) % 0x10000) as u16
}

impl Bus {
    /// The invariant kept by every operation: the PPU's and APU's own invariants, and an
    /// HBlank VRAM DMA in progress has between one and 128 blocks of 16 bytes, a whole number
    /// of them done and at least one left, and a destination that stays in VRAM.
    pub open spec fn wf(&self) -> bool {
        &&& self.ppu.wf()
        &&& self.apu.wf()
        &&& self.hdma_struct.hdma_active ==> {
            &&& 16 <= self.hdma_struct.hdma_length <= 2048
            &&& self.hdma_struct.hdma_length % 16 == 0
            &&& self.hdma_struct.hdma_index % 16 == 0
            &&& self.hdma_struct.hdma_index < self.hdma_struct.hdma_length
            &&& self.hdma_struct.dest_address + self.hdma_struct.hdma_length <= 8192
        }
    }

    /// Whether reading `address` is defined.
    pub open spec fn readable(&self, address: u16) -> bool {
        if (0x8000 <= address <= 0x9FFF) || (0xFE00 <= address <= 0xFE9F) || (0xFF10 <= address <= 0xFF3F)
            || Bus::bus_register(address) {
            true
        } else {
            self.mmu.readable(address)
        }
    }

    /// The I/O registers that the bus itself answers (outside the sound registers).
    pub open spec fn bus_register(address: u16) -> bool {
        (0xFF40 <= address <= 0xFF45) || (0xFF47 <= address <= 0xFF4B) || address == 0xFF4D || address == 0xFF4F
            || (0xFF51 <= address <= 0xFF55) || (0xFF68 <= address <= 0xFF6B)
    }

    /// The byte that a read of `address` returns.
    pub open spec fn read_value(&self, address: u16) -> u8 {
        let color = self.gb_mode == GBMode::CGB;
        if 0x8000 <= address <= 0x9FFF {
            self.ppu.vram[address - 0x8000]
        } else if 0xFE00 <= address <= 0xFE9F {
            self.ppu.oam[address - 0xFE00]
        } else if 0xFF10 <= address <= 0xFF3F {
            self.apu.register_value(address)
        } else if address == 0xFF40 {
            self.ppu.lcdc
        } else if address == 0xFF41 {
            self.ppu.stat
        } else if address == 0xFF42 {
            self.ppu.scy
        } else if address == 0xFF43 {
            self.ppu.scx
        } else if address == 0xFF44 {
            self.ppu.ly
        } else if address == 0xFF45 {
            self.ppu.lyc
        } else if address == 0xFF47 {
            self.ppu.bgp
        } else if address == 0xFF48 {
            self.ppu.obp0
        } else if address == 0xFF49 {
            self.ppu.obp1
        } else if address == 0xFF4A {
            self.ppu.wy
        } else if address == 0xFF4B {
            self.ppu.wx
        } else if address == 0xFF4D {
            if !color {
                0xFF
            } else if self.double_speed {
                0xFE | (self.key1 & 1)
            } else {
                0x7E | (self.key1 & 1)
            }
        } else if address == 0xFF4F {
            self.vbk | 0xFE
        } else if 0xFF51 <= address <= 0xFF54 {
            if color { self.hdma[address - 0xFF51] } else { 0xFF }
        } else if address == 0xFF55 {
            if color && self.hdma_struct.hdma_active { (self.hdma_struct.hdma_length / 16 - 1) as u8 } else { 0xFF }
        } else if address == 0xFF68 || address == 0xFF69 || address == 0xFF6B {
            if color { self.bgpi } else { 0xFF }
        } else if address == 0xFF6A {
            if color { self.obpi } else { 0xFF }
        } else {
            self.mmu.read_value(address)
        }
    }

    /// Reads the byte at `address`.
    pub fn get_byte(&self, address: u16) -> (v: u8)
        requires
            self.wf(),
            self.readable(address),
        ensures
            v == self.read_value(address),
    {
        let color = self.gb_mode == GBMode::CGB;
        if 0x8000 <= address && address <= 0x9FFF {
            self.ppu.get_vram(address as usize - 0x8000)
        } else if 0xFE00 <= address && address <= 0xFE9F {
            self.ppu.get_oam(address as usize - 0xFE00)
        } else if 0xFF10 <= address && address <= 0xFF3F {
            self.apu.get_byte(address)
        } else if address == 0xFF40 {
            self.ppu.lcdc
        } else if address == 0xFF41 {
            self.ppu.stat
        } else if address == 0xFF42 {
            self.ppu.scy
        } else if address == 0xFF43 {
            self.ppu.scx
        } else if address == 0xFF44 {
            self.ppu.ly
        } else if address == 0xFF45 {
            self.ppu.lyc
        } else if address == 0xFF47 {
            self.ppu.bgp
        } else if address == 0xFF48 {
            self.ppu.obp0
        } else if address == 0xFF49 {
            self.ppu.obp1
        } else if address == 0xFF4A {
            self.ppu.wy
        } else if address == 0xFF4B {
            self.ppu.wx
        } else if address == 0xFF4D {
            if !color {
                0xFF
            } else if self.double_speed {
                0xFE | (self.key1 & 0x01)
            } else {
                0x7E | (self.key1 & 0x01)
            }
        } else if address == 0xFF4F {
            self.vbk | 0xFE
        } else if 0xFF51 <= address && address <= 0xFF54 {
            if color { self.hdma[address as usize - 0xFF51] } else { 0xFF }
        } else if address == 0xFF55 {
            if color && self.hdma_struct.hdma_active {
                ((self.hdma_struct.hdma_length / 0x10) - 1) as u8
            } else {
                0xFF
            }
        } else if address == 0xFF68 || address == 0xFF69 || address == 0xFF6B {
            if color { self.bgpi } else { 0xFF }
        } else if address == 0xFF6A {
            if color { self.obpi } else { 0xFF }
        } else {
            self.mmu.get_byte(address)
        }
    }

    /// Returns whether reading `address` is defined.
    pub fn can_read(&self, address: u16) -> (b: bool)
        ensures
            b == self.readable(address),
    {
        if (0x8000 <= address && address <= 0x9FFF) || (0xFE00 <= address && address <= 0xFE9F)
            || (0xFF10 <= address && address <= 0xFF3F) || (0xFF40 <= address && address <= 0xFF45)
            || (0xFF47 <= address && address <= 0xFF4B) || address == 0xFF4D || address == 0xFF4F
            || (0xFF51 <= address && address <= 0xFF55) || (0xFF68 <= address && address <= 0xFF6B) {
            true
        } else {
            self.mmu.can_read(address)
        }
    }

    /// The little-endian word at `address` and `address + 1`.
    pub open spec fn word_value(&self, address: u16) -> u16 {
        (self.read_value(add16(address, 1)) as u16 * 256 + self.read_value(address) as u16) as u16
    }

    /// Reads the little-endian word at `address` (the second byte wraps around to 0x0000).
    pub fn get_word(&self, address: u16) -> (w: u16)
        requires
            self.wf(),
            self.readable(address),
            self.readable(add16(address, 1)),
        ensures
            w == self.word_value(address),
    {
        let byte1 = self.get_byte(address) as u16;
        let byte2 = self.get_byte(address.wrapping_add(1)) as u16;
        proof {
            lemma_bytes_to_word(byte2, byte1);
        }
        (byte2 << 8) | byte1
    }
}


/// The source address of byte `i` of an OAM DMA from page `page`.
pub open spec fn dma_source(page: u8, i: int) -> u16 {
    (page as int * 256 + i) as u16
}

impl Bus {
    /// The addresses whose writes the bus handles itself rather than the memory map.
    pub open spec fn bus_write_register(address: u16) -> bool {
        (0x8000 <= address <= 0x9FFF) || (0xFE00 <= address <= 0xFE9F) || (0xFF10 <= address <= 0xFF3F)
            || (0xFF40 <= address <= 0xFF43) || (0xFF45 <= address <= 0xFF4B) || address == 0xFF4D
            || address == 0xFF4F || (0xFF51 <= address <= 0xFF55) || (0xFF68 <= address <= 0xFF6B)
    }

    /// Whether a write of `value` to HDMA5 starts a general-purpose VRAM DMA.
    pub open spec fn starts_gdma(&self, value: u8) -> bool {
        &&& self.gb_mode == GBMode::CGB
        &&& value < 0x80
        &&& !self.hdma_struct.hdma_active
    }

    /// The length in bytes of a VRAM DMA that HDMA5 value `value` asks for.
    pub open spec fn dma_length(value: u8) -> int {
        ((value % 128) + 1) * 16
    }

    /// Whether every access of a general-purpose VRAM DMA started by `value` is defined:
    /// each source byte is readable in the memory map and the destination stays in VRAM.
    pub open spec fn gdma_defined(&self, value: u8) -> bool {
        let src = hdma_source(self.hdma[0], self.hdma[1]);
        let dest = hdma_destination(self.hdma[2], self.hdma[3]);
        &&& dest + Bus::dma_length(value) <= 8192
        &&& forall|i: int| 0 <= i < Bus::dma_length(value) ==> #[trigger] self.mmu.readable(add16(src, i))
    }

    /// Whether HDMA5 value `value` arms an HBlank VRAM DMA (Color mode, bit 7 set).
    pub open spec fn arms_hdma(&self, value: u8) -> bool {
        self.gb_mode == GBMode::CGB && value >= 0x80
    }

    /// Whether the HBlank VRAM DMA that `value` arms keeps its destination in VRAM.
    pub open spec fn hdma_defined(&self, value: u8) -> bool {
        hdma_destination(self.hdma[2], self.hdma[3]) + Bus::dma_length(value) <= 8192
    }

    /// Whether writing `value` to `address` is defined.
    pub open spec fn writable(&self, address: u16, value: u8) -> bool {
        if address == 0xFF46 {
            forall|i: int| 0 <= i < 160 ==> #[trigger] self.readable(dma_source(value, i))
        } else if address == 0xFF55 {
            &&& self.starts_gdma(value) ==> self.gdma_defined(value)
            &&& self.arms_hdma(value) ==> self.hdma_defined(value)
        } else if Bus::bus_write_register(address) {
            true
        } else {
            self.mmu.writable(address)
        }
    }

    /// The bus after an HDMA5 write of `value` (Color mode only): a write with bit 7 clear
    /// stops a running HBlank transfer, or else copies the whole block at once; a write with
    /// bit 7 set arms an HBlank transfer.
    pub open spec fn hdma5_result(self, value: u8, new: Bus) -> bool {
        let src = hdma_source(self.hdma[0], self.hdma[1]);
        let dest = hdma_destination(self.hdma[2], self.hdma[3]);
        let len = Bus::dma_length(value);
        let hdma = self.hdma@.update(4, value);
        &&& new.hdma@ == hdma
        &&& if self.hdma_struct.hdma_active && value < 0x80 {
            new == Bus { hdma: new.hdma, hdma_struct: Hdma { hdma_active: false, ..self.hdma_struct }, ..self }
        } else if value >= 0x80 {
            new == Bus {
                hdma: new.hdma,
                hdma_struct: Hdma { hdma_length: len as usize, hdma_index: 0, hdma_active: true, src_address: src, dest_address: dest },
                ..self
            }
        } else {
            &&& new == Bus { hdma: new.hdma, ppu: PPU { vram: new.ppu.vram, ..self.ppu }, ..self }
            &&& forall|j: int| 0 <= j < 8192 ==> #[trigger] new.ppu.vram[j] == if dest <= j < dest + len {
                self.mmu.read_value(add16(src, j - dest))
            } else {
                self.ppu.vram[j]
            }
        }
    }

    /// Whether `new` is the bus after `value` is written to `address`.
    pub open spec fn write_result(self, address: u16, value: u8, new: Bus) -> bool {
        if 0x8000 <= address <= 0x9FFF {
            new.ppu.vram@ == self.ppu.vram@.update(address - 0x8000, value)
            && new == Bus { ppu: PPU { vram: new.ppu.vram, ..self.ppu }, ..self }
        } else if 0xFE00 <= address <= 0xFE9F {
            new.ppu.oam@ == self.ppu.oam@.update(address - 0xFE00, value)
            && new == Bus { ppu: PPU { oam: new.ppu.oam, ..self.ppu }, ..self }
        } else if 0xFF10 <= address <= 0xFF3F {
            self.apu.write_result(address, value, new.apu) && new == Bus { apu: new.apu, ..self }
        } else if address == 0xFF40 {
            new == Bus { ppu: PPU { lcdc: value, ..self.ppu }, ..self }
        } else if address == 0xFF41 {
            new == Bus { ppu: PPU { stat: value, ..self.ppu }, ..self }
        } else if address == 0xFF42 {
            new == Bus { ppu: PPU { scy: value, ..self.ppu }, ..self }
        } else if address == 0xFF43 {
            new == Bus { ppu: PPU { scx: value, ..self.ppu }, ..self }
        } else if address == 0xFF45 {
            new == Bus { ppu: PPU { lyc: value, ..self.ppu }, ..self }
        } else if address == 0xFF46 {
            &&& new == Bus { ppu: PPU { oam: new.ppu.oam, ..self.ppu }, dma_active: false, ..self }
            &&& forall|i: int| 0 <= i < 160 ==> #[trigger] new.ppu.oam[i] == self.read_value(dma_source(value, i))
        } else if address == 0xFF47 {
            new == Bus { ppu: PPU { bgp: value, ..self.ppu }, ..self }
        } else if address == 0xFF48 {
            new == Bus { ppu: PPU { obp0: value, ..self.ppu }, ..self }
        } else if address == 0xFF49 {
            new == Bus { ppu: PPU { obp1: value, ..self.ppu }, ..self }
        } else if address == 0xFF4A {
            new == Bus { ppu: PPU { wy: value, ..self.ppu }, ..self }
        } else if address == 0xFF4B {
            new == Bus { ppu: PPU { wx: value, ..self.ppu }, ..self }
        } else if address == 0xFF4D {
            new == Bus { key1: value, ..self }
        } else if address == 0xFF4F {
            new == Bus { vbk: value & 1, ..self }
        } else if 0xFF51 <= address <= 0xFF54 {
            if self.gb_mode == GBMode::CGB {
                new.hdma@ == self.hdma@.update(address - 0xFF51, value) && new == Bus { hdma: new.hdma, ..self }
            } else {
                new == self
            }
        } else if address == 0xFF55 {
            if self.gb_mode == GBMode::CGB { self.hdma5_result(value, new) } else { new == self }
        } else if address == 0xFF68 {
            new == Bus { bgpi: value, ..self }
        } else if address == 0xFF6A {
            new == Bus { obpi: value, ..self }
        } else if address == 0xFF69 {
            &&& new.bg_palette@ == self.bg_palette@.update((self.bgpi % 64) as int, value)
            &&& new == Bus { bg_palette: new.bg_palette, bgpi: palette_index_after_write(self.bgpi), ..self }
        } else if address == 0xFF6B {
            &&& new.obj_palette@ == self.obj_palette@.update((self.obpi % 64) as int, value)
            &&& new == Bus { obj_palette: new.obj_palette, obpi: palette_index_after_write(self.obpi), ..self }
        } else {
            &&& self.mmu.write_result(address, value, &new.mmu)
            &&& new.serial_output@ == if address == 0xFF02 {
                self.serial_output@.push(self.mmu.serial_buffer[0])
            } else {
                self.serial_output@
            }
            &&& new == Bus { mmu: new.mmu, serial_output: new.serial_output, ..self }
        }
    }
}


impl Bus {
    /// Writes `value` to `address`.
    #[verifier::rlimit(40)]
    pub fn set_byte(&mut self, address: u16, value: u8)
        requires
            old(self).wf(),
            old(self).writable(address, value),
        ensures
            final(self).wf(),
            old(self).write_result(address, value, *final(self)),
    {
        let color = self.gb_mode == GBMode::CGB;
        if 0x8000 <= address && address <= 0x9FFF {
            self.ppu.set_vram(address as usize - 0x8000, value);
        } else if 0xFE00 <= address && address <= 0xFE9F {
            self.ppu.set_oam(address as usize - 0xFE00, value);
        } else if 0xFF10 <= address && address <= 0xFF3F {
            self.apu.set_byte(address, value);
        } else if address == 0xFF46 {
            self.start_oam_dma(value);
        } else if 0xFF40 <= address && address <= 0xFF4B && address != 0xFF44 {
            self.set_lcd_register(address, value);
        } else if address == 0xFF4D || address == 0xFF4F || (0xFF51 <= address && address <= 0xFF55) {
            self.set_color_register(address, value);
        } else if address == 0xFF68 {
            self.bgpi = value;
        } else if address == 0xFF6A {
            self.obpi = value;
        } else if address == 0xFF69 {
            self.bg_palette[(self.bgpi % 64) as usize] = value;
            self.bgpi = next_palette_index(self.bgpi);
        } else if address == 0xFF6B {
            self.obj_palette[(self.obpi % 64) as usize] = value;
            self.obpi = next_palette_index(self.obpi);
        } else {
            if let Some(byte) = self.mmu.set_byte(address, value) {
                self.serial_output.push(byte);
            }
        }
    }

    /// A write to the OAM DMA register.
    fn start_oam_dma(&mut self, value: u8)
        requires
            old(self).wf(),
            old(self).writable(0xFF46, value),
        ensures
            final(self).wf(),
            old(self).write_result(0xFF46, value, *final(self)),
    {
            self.dma_active = true;
            proof {
                assert forall|i: int| 0 <= i < 160 implies #[trigger] self.readable(dma_source(value, i)) by {
                    assert(old(self).readable(dma_source(value, i)));
                }
            }
            self.dma_transfer(value);
            self.dma_active = false;
            proof {
                assert forall|i: int| 0 <= i < 160 implies #[trigger] self.ppu.oam[i] == old(self).read_value(dma_source(value, i)) by {
                    assert(old(self).readable(dma_source(value, i)));
                }
            }
    }

    /// Writes one of the LCD registers 0xFF40..0xFF4B (not LY nor DMA).
    fn set_lcd_register(&mut self, address: u16, value: u8)
        requires
            old(self).wf(),
            0xFF40 <= address <= 0xFF4B,
            address != 0xFF44,
            address != 0xFF46,
        ensures
            final(self).wf(),
            old(self).write_result(address, value, *final(self)),
    {
        if address == 0xFF40 {
            self.ppu.lcdc = value;
        } else if address == 0xFF41 {
            self.ppu.stat = value;
        } else if address == 0xFF42 {
            self.ppu.scy = value;
        } else if address == 0xFF43 {
            self.ppu.scx = value;
        } else if address == 0xFF45 {
            self.ppu.lyc = value;
        } else if address == 0xFF47 {
            self.ppu.bgp = value;
        } else if address == 0xFF48 {
            self.ppu.obp0 = value;
        } else if address == 0xFF49 {
            self.ppu.obp1 = value;
        } else if address == 0xFF4A {
            self.ppu.wy = value;
        } else {
            self.ppu.wx = value;
        }
    }

    /// Writes KEY1, VBK or one of the HDMA registers.
    fn set_color_register(&mut self, address: u16, value: u8)
        requires
            old(self).wf(),
            address == 0xFF4D || address == 0xFF4F || 0xFF51 <= address <= 0xFF55,
            old(self).writable(address, value),
        ensures
            final(self).wf(),
            old(self).write_result(address, value, *final(self)),
    {
        let color = self.gb_mode == GBMode::CGB;
        if address == 0xFF4D {
            self.key1 = value;
        } else if address == 0xFF4F {
            self.vbk = value & 0x01;
        } else if address <= 0xFF54 {
            if color {
                self.hdma[address as usize - 0xFF51] = value;
            }
        } else {
            if color {
                self.write_hdma5(value);
            }
        }
    }

    /// OAM DMA: copies the 160 bytes at `value * 0x100` into OAM.
    fn dma_transfer(&mut self, value: u8)
        requires
            old(self).wf(),
            forall|i: int| 0 <= i < 160 ==> #[trigger] old(self).readable(dma_source(value, i)),
        ensures
            *final(self) == (Bus { ppu: PPU { oam: final(self).ppu.oam, ..old(self).ppu }, ..*old(self) }),
            forall|i: int| 0 <= i < 160 ==> #[trigger] final(self).ppu.oam[i] == old(self).read_value(dma_source(value, i)),
    {
        let ghost start = *self;
        let base: u16 = (value as u16) << 8;
        assert(base == value as u16 * 256) by {
            lemma_byte(value);
            }
        let mut i: u16 = 0;
        while i < 0xA0
            invariant
                i <= 0xA0,
                base == value as int * 256,
                start.wf(),
                forall|k: int| 0 <= k < 160 ==> #[trigger] start.readable(dma_source(value, k)),
                *self == (Bus { ppu: PPU { oam: self.ppu.oam, ..start.ppu }, ..start }),
                forall|k: int| 0 <= k < i ==> #[trigger] self.ppu.oam[k] == start.read_value(dma_source(value, k)),
                forall|k: int| i <= k < 160 ==> #[trigger] self.ppu.oam[k] == start.ppu.oam[k],
            decreases 0xA0 - i,
        {
            let address = base + i;
            assert(address == dma_source(value, i as int));
            assert(start.readable(dma_source(value, i as int)));
            assert(self.readable(address));
            assert(self.read_value(address) == start.read_value(address));
            let byte = self.get_byte(address);
            self.ppu.set_oam(i as usize, byte);
            i += 1;
        }
    }

    /// A write to HDMA5 in Color mode.
    fn write_hdma5(&mut self, value: u8)
        requires
            old(self).wf(),
            old(self).gb_mode == GBMode::CGB,
            old(self).starts_gdma(value) ==> old(self).gdma_defined(value),
            old(self).arms_hdma(value) ==> old(self).hdma_defined(value),
        ensures
            final(self).wf(),
            old(self).hdma5_result(value, *final(self)),
    {
        let ghost start = *self;
        self.hdma[4] = value;
        assert(((value & 0x7Fu8) as u16 + 1) * 16 == ((value % 128) + 1) * 16) by { lemma_byte(value); }
        assert(((value & 0x80u8) == 0) == (value < 0x80)) by { lemma_byte(value); }
        let dma_length: u16 = ((value & 0x7F) as u16 + 1) * 0x10;
        let dma_mode = value & 0x80;
        if self.hdma_struct.hdma_active && dma_mode == 0 {
            self.hdma_struct.hdma_active = false;
        } else {
            let high_byte = self.hdma[0];
            let low_byte = self.hdma[1];
            let src_address = ((high_byte as u16) << 8) | (low_byte as u16 & 0xF0);
            assert(((high_byte as u16) << 8u16) | (low_byte as u16 & 0xF0u16) == hdma_source(high_byte, low_byte)) by { lemma_bytes_to_word(high_byte as u16, low_byte as u16); }
            let high_byte = self.hdma[2];
            let low_byte = self.hdma[3];
            let dest_address = ((high_byte as u16 & 0x1F) << 8) | (low_byte as u16 & 0xF0);
            assert(((high_byte as u16 & 0x1Fu16) << 8u16) | (low_byte as u16 & 0xF0u16) == hdma_destination(high_byte, low_byte)) by { lemma_bytes_to_word(high_byte as u16, low_byte as u16); }
            if dma_mode != 0 {
                self.hdma_struct = Hdma {
                    hdma_length: dma_length as usize,
                    hdma_index: 0,
                    hdma_active: true,
                    src_address,
                    dest_address,
                };
            } else {
                let ghost mid = *self;
                let mut i: u16 = 0;
                while i < dma_length
                    invariant
                        i <= dma_length,
                        dma_length == Bus::dma_length(value),
                        dest_address as int + dma_length <= 8192,
                        forall|k: int| 0 <= k < dma_length ==> #[trigger] self.mmu.readable(add16(src_address, k)),
                        *self == (Bus { ppu: PPU { vram: self.ppu.vram, ..mid.ppu }, ..mid }),
                        forall|j: int| 0 <= j < 8192 ==> #[trigger] self.ppu.vram[j] == if dest_address <= j < dest_address + i {
                            mid.mmu.read_value(add16(src_address, j - dest_address))
                        } else {
                            mid.ppu.vram[j]
                        },
                    decreases dma_length - i,
                {
                    let source = src_address.wrapping_add(i);
                    assert(source == add16(src_address, i as int));
                    assert(self.mmu.readable(add16(src_address, i as int)));
                    let byte = self.mmu.get_byte(source);
                    self.ppu.set_vram(dest_address as usize + i as usize, byte);
                    i += 1;
                }
            }
        }
    }

    /// Returns whether writing `value` to `address` is defined.
    pub fn can_write(&self, address: u16, value: u8) -> (b: bool)
        ensures
            b == self.writable(address, value),
    {
        if address == 0xFF46 {
            let base: u16 = (value as u16) << 8;
            assert(base == value as u16 * 256) by {
                lemma_byte(value);
                }
            let mut i: u16 = 0;
            while i < 0xA0
                invariant
                    i <= 0xA0,
                    address == 0xFF46,
                    base == value as int * 256,
                    forall|k: int| 0 <= k < i ==> #[trigger] self.readable(dma_source(value, k)),
                decreases 0xA0 - i,
            {
                assert(base + i == dma_source(value, i as int));
                if !self.can_read(base + i) {
                    assert(!self.readable(dma_source(value, i as int)));
                    return false;
                }
                i += 1;
            }
            true
        } else if address == 0xFF55 {
            if self.gb_mode == GBMode::CGB && value >= 0x80 {
                let length: u16 = ((value & 0x7F) as u16 + 1) * 0x10;
                assert(((value & 0x7Fu8) as u16 + 1) * 16 == ((value % 128) + 1) * 16) by { lemma_byte(value); }
                let high_byte = self.hdma[2];
                let low_byte = self.hdma[3];
                let dest_address = ((high_byte as u16 & 0x1F) << 8) | (low_byte as u16 & 0xF0);
                assert(((high_byte as u16 & 0x1Fu16) << 8u16) | (low_byte as u16 & 0xF0u16) == hdma_destination(high_byte, low_byte)) by { lemma_bytes_to_word(high_byte as u16, low_byte as u16); }
                dest_address as usize + length as usize <= 8192
            } else if self.gb_mode == GBMode::CGB && value < 0x80 && !self.hdma_struct.hdma_active {
                let length: u16 = ((value & 0x7F) as u16 + 1) * 0x10;
                assert(((value & 0x7Fu8) as u16 + 1) * 16 == ((value % 128) + 1) * 16) by { lemma_byte(value); }
                let high_byte = self.hdma[0];
                let low_byte = self.hdma[1];
                let src_address = ((high_byte as u16) << 8) | (low_byte as u16 & 0xF0);
                assert(((high_byte as u16) << 8u16) | (low_byte as u16 & 0xF0u16) == hdma_source(high_byte, low_byte)) by { lemma_bytes_to_word(high_byte as u16, low_byte as u16); }
                let high_byte = self.hdma[2];
                let low_byte = self.hdma[3];
                let dest_address = ((high_byte as u16 & 0x1F) << 8) | (low_byte as u16 & 0xF0);
                assert(((high_byte as u16 & 0x1Fu16) << 8u16) | (low_byte as u16 & 0xF0u16) == hdma_destination(high_byte, low_byte)) by { lemma_bytes_to_word(high_byte as u16, low_byte as u16); }
                if dest_address as usize + length as usize > 8192 {
                    return false;
                }
                let mut i: u16 = 0;
                while i < length
                    invariant
                        i <= length,
                        address == 0xFF55,
                        self.starts_gdma(value),
                        src_address == hdma_source(self.hdma[0], self.hdma[1]),
                        dest_address == hdma_destination(self.hdma[2], self.hdma[3]),
                        dest_address + length <= 8192,
                        length == Bus::dma_length(value),
                        forall|k: int| 0 <= k < i ==> #[trigger] self.mmu.readable(add16(src_address, k)),
                    decreases length - i,
                {
                    let source = src_address.wrapping_add(i);
                    assert(source == add16(src_address, i as int));
                    if !self.mmu.can_read(source) {
                        assert(!self.mmu.readable(add16(src_address, i as int)));
                        return false;
                    }
                    i += 1;
                }
                true
            } else {
                true
            }
        } else if (0x8000 <= address && address <= 0x9FFF) || (0xFE00 <= address && address <= 0xFE9F)
            || (0xFF10 <= address && address <= 0xFF3F) || (0xFF40 <= address && address <= 0xFF43)
            || (0xFF45 <= address && address <= 0xFF4B) || address == 0xFF4D || address == 0xFF4F
            || (0xFF51 <= address && address <= 0xFF55) || (0xFF68 <= address && address <= 0xFF6B) {
            true
        } else {
            self.mmu.can_write(address)
        }
    }
}


/// `v` with bit `bit` set when `cond` holds.
pub open spec fn raise(v: u8, bit: u8, cond: bool) -> u8 {
    if cond { v | (1u8 << bit) } else { v }
}

impl Bus {
    /// Whether each PPU state of `run` is the previous one a dot later.
    pub open spec fn dot_run(run: Seq<PPU>) -> bool {
        forall|i: int| 0 <= i < run.len() - 1 ==> #[trigger] run[i].dot_result(run[i + 1])
    }

    /// Whether each APU state of `run` is the previous one a tick later, with DIV at `div`.
    pub open spec fn apu_run(run: Seq<APU>, div: u8) -> bool {
        forall|i: int| 0 <= i < run.len() - 1 ==> #[trigger] run[i].tick_result(div, run[i + 1])
    }

    /// The number of PPU dots and APU ticks in one machine cycle: four, or two at double speed.
    pub open spec fn cycle_dots(&self) -> nat {
        if self.double_speed { 2 } else { 4 }
    }

    /// Whether `new` is this bus after the end of a machine cycle: the PPU's VBlank and STAT
    /// requests, a timer overflow and a joypad press become bits 0, 1, 2 and 4 of IF (and are
    /// cleared where they were noted), and the timer advances.
    pub open spec fn collected(self, new: Bus) -> bool {
        let t = self.mmu.timer.ticked();
        let iflag = self.mmu.io_registers[0x0F];
        let raised = raise(raise(raise(raise(iflag, 0, self.ppu.vblank_interrupt), 1, self.ppu.stat_interrupt), 2,
            t.timer_interrupt == 1), 4, self.mmu.joypad_interrupt);
        &&& new.ppu == (PPU { vblank_interrupt: false, stat_interrupt: false, ..self.ppu })
        &&& new.mmu.io_registers@ == self.mmu.io_registers@.update(0x0F, raised)
        &&& new.mmu == (MMU {
            timer: if t.timer_interrupt == 1 { Timer { timer_interrupt: 0, ..t } } else { t },
            joypad_interrupt: false,
            io_registers: new.mmu.io_registers,
            ..self.mmu
        })
        &&& new == (Bus { ppu: new.ppu, mmu: new.mmu, ..self })
    }

    /// Whether the PPU states of `run` pass from another mode into HBlank.
    #[verifier::opaque]
    pub open spec fn enters_hblank(run: Seq<PPU>) -> bool {
        exists|i: int| #![trigger run[i]] 0 <= i < run.len() - 1 && run[i].mode != Mode::HBlank && run[i + 1].mode == Mode::HBlank
    }

    /// The byte that an HBlank VRAM DMA copies from `address` of the memory map: what a read
    /// gives, or 0xFF where nothing answers.
    pub open spec fn hdma_byte(mmu: MMU, address: u16) -> u8 {
        if mmu.readable(address) { mmu.read_value(address) } else { 0xFF }
    }

    /// Whether `new` is this bus after the HBlank step of a VRAM DMA: when one is running, its
    /// next block of 16 bytes is copied into VRAM, and after the last block the transfer ends
    /// and HDMA5 reads 0xFF.
    #[verifier::opaque]
    pub open spec fn hblank_transfer(self, new: Bus) -> bool {
        let h = self.hdma_struct;
        let start = h.dest_address + h.hdma_index;
        let next = h.hdma_index + 16;
        if h.hdma_active {
            &&& forall|j: int| 0 <= j < 8192 ==> #[trigger] new.ppu.vram[j] == if start <= j < start + 16 {
                Bus::hdma_byte(self.mmu, add16(h.src_address, h.hdma_index + (j - start)))
            } else {
                self.ppu.vram[j]
            }
            &&& new.hdma_struct == (Hdma { hdma_index: next as usize, hdma_active: next < h.hdma_length, ..h })
            &&& new.hdma@ == if next < h.hdma_length { self.hdma@ } else { self.hdma@.update(4, 0xFF) }
            &&& new == (Bus { ppu: PPU { vram: new.ppu.vram, ..self.ppu }, hdma_struct: new.hdma_struct, hdma: new.hdma, ..self })
        } else {
            new == self
        }
    }

    /// Whether `new` is the bus after the machine cycle in which the APU reached state `a` and
    /// the PPU state `p` (entering HBlank on the way when `entered`): the HBlank step of a VRAM
    /// DMA, then the interrupt requests.
    pub open spec fn cycle_end(self, p: PPU, a: APU, entered: bool, new: Bus) -> bool {
        let moved = Bus { ppu: p, apu: a, ..self };
        if entered {
            exists|mid: Bus| #[trigger] moved.hblank_transfer(mid) && mid.collected(new)
        } else {
            moved.collected(new)
        }
    }

    /// Whether `new` is the bus one machine cycle later: the PPU runs through `cycle_dots`
    /// dots and the APU through as many ticks, then the interrupt requests are collected.
    pub open spec fn tick_result(self, new: Bus) -> bool {
        exists|pr: Seq<PPU>, ar: Seq<APU>|
            #![trigger Bus::dot_run(pr), Bus::apu_run(ar, self.mmu.timer.div)]
            {
                &&& pr.len() == self.cycle_dots() + 1 && pr[0] == self.ppu && Bus::dot_run(pr)
                &&& ar.len() == self.cycle_dots() + 1 && ar[0] == self.apu && Bus::apu_run(ar, self.mmu.timer.div)
                &&& self.cycle_end(pr.last(), ar.last(), Bus::enters_hblank(pr), new)
            }
    }

    /// Runs the APU for `n` ticks; the returned states are those it went through.
    fn run_apu(&mut self, n: u8) -> (run: Ghost<Seq<APU>>)
        requires
            old(self).wf(),
        ensures
            final(self).wf(),
            run@.len() == n + 1,
            run@[0] == old(self).apu,
            run@.last() == final(self).apu,
            Bus::apu_run(run@, old(self).mmu.timer.div),
            *final(self) == (Bus { apu: final(self).apu, ..*old(self) }),
    {
        let ghost start = *self;
        let ghost mut run: Seq<APU> = seq![self.apu];
        let mut i: u8 = 0;
        while i < n
            invariant
                i <= n,
                self.wf(),
                run.len() == i + 1,
                run[0] == start.apu,
                run.last() == self.apu,
                Bus::apu_run(run, start.mmu.timer.div),
                *self == (Bus { apu: self.apu, ..start }),
            decreases n - i,
        {
            self.apu.tick(self.mmu.timer.div);
            proof {
                let old_run = run;
                run = run.push(self.apu);
                assert forall|k: int| 0 <= k < run.len() - 1 implies #[trigger] run[k].tick_result(start.mmu.timer.div, run[k + 1]) by {
                    if k < old_run.len() - 1 {
                        assert(old_run[k].tick_result(start.mmu.timer.div, old_run[k + 1]));
                    }
                }
            }
            i += 1;
        }
        Ghost(run)
    }

    /// Runs the PPU for `n` dots; returns the states it went through and whether it entered
    /// HBlank on the way.
    fn run_ppu(&mut self, n: u8) -> (result: (Ghost<Seq<PPU>>, bool))
        requires
            old(self).wf(),
        ensures
            final(self).wf(),
            result.0@.len() == n + 1,
            result.0@[0] == old(self).ppu,
            result.0@.last() == final(self).ppu,
            Bus::dot_run(result.0@),
            result.1 == Bus::enters_hblank(result.0@),
            *final(self) == (Bus { ppu: final(self).ppu, ..*old(self) }),
    {
        let ghost start = *self;
        let ghost mut run: Seq<PPU> = seq![self.ppu];
        let mut entered = false;
        assert(!Bus::enters_hblank(run)) by {
            reveal(Bus::enters_hblank);
        }
        let mut j: u8 = 0;
        while j < n
            invariant
                j <= n,
                self.wf(),
                run.len() == j + 1,
                run[0] == start.ppu,
                run.last() == self.ppu,
                Bus::dot_run(run),
                entered == Bus::enters_hblank(run),
                *self == (Bus { ppu: self.ppu, ..start }),
            decreases n - j,
        {
            let was_hblank = self.ppu.mode == Mode::HBlank;
            self.ppu.dot();
            let now_hblank = self.ppu.mode == Mode::HBlank;
            proof {
                let old_run = run;
                run = run.push(self.ppu);
                assert forall|k: int| 0 <= k < run.len() - 1 implies #[trigger] run[k].dot_result(run[k + 1]) by {
                    if k < old_run.len() - 1 {
                        assert(old_run[k].dot_result(old_run[k + 1]));
                    }
                }
                lemma_enters_hblank_push(old_run, self.ppu);
            }
            entered = entered || (!was_hblank && now_hblank);
            j += 1;
        }
        (Ghost(run), entered)
    }

    /// The HBlank step of a VRAM DMA: copies the next block of 16 bytes when one is running.
    fn run_hblank_transfer(&mut self)
        requires
            old(self).wf(),
        ensures
            final(self).wf(),
            old(self).hblank_transfer(*final(self)),
    {
        proof {
            reveal(Bus::hblank_transfer);
        }
        if self.hdma_struct.hdma_active {
            let ghost start = *self;
            let src = self.hdma_struct.src_address;
            let index = self.hdma_struct.hdma_index;
            let dest = self.hdma_struct.dest_address as usize;
            assert(index + 16 <= start.hdma_struct.hdma_length);
            let mut i: usize = 0;
            while i < 16
                invariant
                    i <= 16,
                    start.wf(),
                    start.hdma_struct.hdma_active,
                    src == start.hdma_struct.src_address,
                    index == start.hdma_struct.hdma_index,
                    dest == start.hdma_struct.dest_address,
                    index + 16 <= start.hdma_struct.hdma_length,
                    *self == (Bus { ppu: PPU { vram: self.ppu.vram, ..start.ppu }, ..start }),
                    forall|j: int| 0 <= j < 8192 ==> #[trigger] self.ppu.vram[j] == if dest + index <= j < dest + index + i {
                        Bus::hdma_byte(start.mmu, add16(src, index + (j - dest - index)))
                    } else {
                        start.ppu.vram[j]
                    },
                decreases 16 - i,
            {
                let source = src.wrapping_add((index + i) as u16);
                assert(source == add16(src, (index + i) as int));
                let byte = if self.mmu.can_read(source) { self.mmu.get_byte(source) } else { 0xFF };
                self.ppu.set_vram(dest + index + i, byte);
                i += 1;
            }
            let next = index + 16;
            self.hdma_struct.hdma_index = next;
            if next >= self.hdma_struct.hdma_length {
                self.hdma_struct.hdma_active = false;
                self.hdma[4] = 0xFF;
            }
        }
    }

    /// Moves the pending interrupt requests into IF and advances the timer.
    #[verifier::rlimit(80)]
    fn collect_interrupts(&mut self)
        requires
            old(self).wf(),
        ensures
            final(self).wf(),
            old(self).collected(*final(self)),
    {
        let ghost start = *self;
        let ghost t = start.mmu.timer.ticked();
        let ghost v0 = start.mmu.io_registers[0x0F];
        let ghost v1 = raise(v0, 0, start.ppu.vblank_interrupt);
        let ghost v2 = raise(v1, 1, start.ppu.stat_interrupt);
        let ghost v3 = raise(v2, 2, t.timer_interrupt == 1);
        let ghost v4 = raise(v3, 4, start.mmu.joypad_interrupt);
        if self.ppu.vblank_interrupt {
            self.ppu.vblank_interrupt = false;
            let if_register = self.mmu.get_byte(0xFF0F);
            let if_register = set_bit(if_register, 0, 1);
            self.mmu.set_byte(0xFF0F, if_register);
        }
        assert(self.mmu.io_registers@ =~= start.mmu.io_registers@.update(0x0F, v1));
        assert(self.mmu == (MMU { io_registers: self.mmu.io_registers, ..start.mmu }));
        if self.ppu.stat_interrupt {
            self.ppu.stat_interrupt = false;
            let if_register = self.mmu.get_byte(0xFF0F);
            let if_register = set_bit(if_register, 1, 1);
            self.mmu.set_byte(0xFF0F, if_register);
        }
        assert(self.mmu.io_registers@ =~= start.mmu.io_registers@.update(0x0F, v2));
        assert(self.mmu == (MMU { io_registers: self.mmu.io_registers, ..start.mmu }));
        self.mmu.timer.tick();
        if self.mmu.timer.timer_interrupt == 1 {
            self.mmu.timer.timer_interrupt = 0;
            let if_register = self.mmu.get_byte(0xFF0F);
            let if_register = set_bit(if_register, 2, 1);
            self.mmu.set_byte(0xFF0F, if_register);
        }
        assert(self.mmu.io_registers@ =~= start.mmu.io_registers@.update(0x0F, v3));
        if self.mmu.joypad_interrupt {
            self.mmu.joypad_interrupt = false;
            let if_register = self.mmu.get_byte(0xFF0F);
            let if_register = set_bit(if_register, 4, 1);
            self.mmu.set_byte(0xFF0F, if_register);
        }
        assert(self.mmu.io_registers@ =~= start.mmu.io_registers@.update(0x0F, v4));
    }

    /// Runs the APU and the PPU for one machine cycle, collects their interrupt requests in
    /// IF, and advances the timer.
    pub fn tick(&mut self)
        requires
            old(self).wf(),
        ensures
            final(self).wf(),
            old(self).tick_result(*final(self)),
    {
        let speed_factor: u8 = if self.double_speed { 2 } else { 1 };
        let n: u8 = 4 / speed_factor;
        assert(n as nat == old(self).cycle_dots());
        let ar = self.run_apu(n);
        let (pr, entered) = self.run_ppu(n);
        assert(*self == (Bus { ppu: pr@.last(), apu: ar@.last(), ..*old(self) }));
        let ghost moved = *self;
        if entered {
            self.run_hblank_transfer();
        }
        let ghost mid = *self;
        self.collect_interrupts();
        proof {
            if entered {
                assert(moved.hblank_transfer(mid));
            }
        }
        assert(old(self).cycle_end(pr@.last(), ar@.last(), entered, *self));
        assert(Bus::dot_run(pr@) && Bus::apu_run(ar@, old(self).mmu.timer.div));
    }
}


impl Bus {
    /// A bus around `cartridge`, with every component at power-on.
    pub fn new(cartridge: AnyCartridge) -> (b: Bus)
        ensures
            b.wf(),
            b.apu.is_reset(),
            b.mmu.cartridge == cartridge,
            forall|i: int| 0 <= i < 8192 ==> #[trigger] b.mmu.wram[i] == 0,
            forall|i: int| 0 <= i < 127 ==> #[trigger] b.mmu.hram[i] == 0,
            forall|i: int| 0 <= i < 128 ==> #[trigger] b.mmu.io_registers[i] == 0,
            b.mmu.ie_register == 0,
            b.ppu.mode == crate::ppu::Mode::OAMSearch && b.ppu.current_clock == 0 && b.ppu.ly == 0,
            b.gb_mode == GBMode::DMG,
            forall|i: int| 0 <= i < 5 ==> b.hdma[i] == 0xFF,
            !b.dma_active,
            b.hdma_struct == Hdma::idle(),
            b.key1 == 0x7E,
            !b.double_speed,
            b.vbk == 0 && b.bgpi == 0 && b.obpi == 0,
            b.serial_output@.len() == 0,
    {
        let apu = APU::new();
        let mmu = MMU::new(cartridge);
        let ppu = PPU::new();
        Bus {
            apu,
            mmu,
            ppu,
            gb_mode: GBMode::DMG,
            hdma: [0xFFu8; 5],
            dma_active: false,
            hdma_struct: Hdma { hdma_index: 0, hdma_length: 0, hdma_active: false, src_address: 0, dest_address: 0 },
            key1: 0x7E,
            double_speed: false,
            vbk: 0,
            bgpi: 0,
            obpi: 0,
            bg_palette: [0u8; 64],
            obj_palette: [0u8; 64],
            serial_output: Vec::new(),
        }
    }

    /// Puts the bus in its post-boot state for a cartridge targeting `gb_mode`.
    pub fn initialize(&mut self, gb_mode: GBMode)
        requires
            old(self).wf(),
        ensures
            final(self).wf(),
            final(self).gb_mode == gb_mode,
            final(self).apu.is_reset(),
            final(self).apu.mute_channels == old(self).apu.mute_channels,
            final(self).apu.is_mute == old(self).apu.is_mute,
            final(self).ppu == (PPU { lcdc: 0x91, stat: 0x85, bgp: 0xFC, ..old(self).ppu }),
            final(self).mmu.io_registers@ == old(self).mmu.io_registers@.update(0x00, 0xCF).update(0x02, 0x7E)
                .update(0x04, 0xAB).update(0x07, 0xF8).update(0x0F, 0xE1),
            final(self).mmu.timer.internal_timer == 0xAB00,
            final(self).mmu.timer.div == 0xAB,
            final(self).mmu.timer.tac == 0xF8,
            final(self).mmu.timer.tima == 0 && final(self).mmu.timer.tma == 0,
            final(self).mmu.ie_register == old(self).mmu.ie_register,
            final(self).mmu.cartridge == old(self).mmu.cartridge,
            final(self).mmu.wram == old(self).mmu.wram,
            final(self).mmu.hram == old(self).mmu.hram,
            forall|i: int| 0 <= i < 5 ==> final(self).hdma[i] == 0xFF,
            !final(self).dma_active,
            final(self).hdma_struct == Hdma::idle(),
            final(self).key1 == 0x7E,
            !final(self).double_speed,
            final(self).serial_output == old(self).serial_output,
    {
        self.gb_mode = gb_mode;
        self.mmu.initialize();
        self.ppu.initialize();
        self.apu.reset();
        self.dma_active = false;
        self.hdma = [0xFFu8; 5];
        self.hdma_struct = Hdma { hdma_index: 0, hdma_length: 0, hdma_active: false, src_address: 0, dest_address: 0 };
        self.key1 = 0x7E;
        self.double_speed = false;
    }

    /// Replaces the memory map with a fresh one around a new cartridge.
    pub fn load_rom(&mut self, cartridge: AnyCartridge)
        requires
            old(self).wf(),
        ensures
            final(self).wf(),
            final(self).mmu.cartridge == cartridge,
            final(self).mmu.timer == crate::timer::Timer::initial(),
            forall|i: int| 0 <= i < 8192 ==> #[trigger] final(self).mmu.wram[i] == 0,
            forall|i: int| 0 <= i < 127 ==> #[trigger] final(self).mmu.hram[i] == 0,
            forall|i: int| 0 <= i < 128 ==> #[trigger] final(self).mmu.io_registers[i] == 0,
            final(self).mmu.ie_register == 0,
            *final(self) == (Bus { mmu: final(self).mmu, ..*old(self) }),
    {
        self.mmu = MMU::new(cartridge);
    }

    /// Hands over the bytes sent on the serial port since the last call.
    pub fn take_serial_output(&mut self) -> (out: Vec<u8>)
        ensures
            out@ == old(self).serial_output@,
            final(self).serial_output@.len() == 0,
            *final(self) == (Bus { serial_output: final(self).serial_output, ..*old(self) }),
    {
        let mut out: Vec<u8> = Vec::new();
        std::mem::swap(&mut out, &mut self.serial_output);
        out
    }
}


/// The addresses that the passing of machine cycles leaves alone: the cartridge, work RAM
/// and OAM, high RAM and IE (video RAM takes the blocks of an HBlank DMA).
pub open spec fn stable_address(address: u16) -> bool {
    address < 0x8000 || (0xA000 <= address < 0xFEA0) || address >= 0xFF80
}

/// The addresses that read back what was last stored, whatever machine cycles pass: work RAM,
/// OAM, high RAM and IE.
pub open spec fn plain_memory(address: u16) -> bool {
    (0xC000 <= address <= 0xDFFF) || (0xFE00 <= address <= 0xFE9F) || address >= 0xFF80
}

/// Whether a read of `a` shows the byte at `address`: the address itself, or its echo
/// 0x2000 higher in work RAM.
pub open spec fn aliases(a: u16, address: u16) -> bool {
    a == address || (0xE000 <= a <= 0xFDFF && a - 0x2000 == address)
}

impl Bus {
    /// Whether `other` reads as this bus at every stable address.
    pub open spec fn same_stable(self, other: Bus) -> bool {
        forall|a: u16|
            #![trigger other.readable(a)]
            #![trigger other.read_value(a)]
            stable_address(a) ==> other.readable(a) == self.readable(a) && other.read_value(a) == self.read_value(a)
    }

    /// Whether `other` reads as this bus with `value` stored at `address`, at every stable
    /// address.
    pub open spec fn stored_at(self, address: u16, value: u8, other: Bus) -> bool {
        forall|a: u16|
            #![trigger other.readable(a)]
            #![trigger other.read_value(a)]
            stable_address(a) ==> other.readable(a) == self.readable(a)
                && other.read_value(a) == if aliases(a, address) { value } else { self.read_value(a) }
    }
}

/// The PPU keeps its video memory and OAM from dot to dot.
proof fn lemma_dot_run_keeps_memory(run: Seq<PPU>, k: int)
    requires
        Bus::dot_run(run),
        0 <= k < run.len(),
    ensures
        run[k].vram == run[0].vram,
        run[k].oam == run[0].oam,
    decreases k,
{
    if k > 0 {
        let j = k - 1;
        lemma_dot_run_keeps_memory(run, j);
        assert(run[j].dot_result(run[j + 1]));
    }
}

/// A machine cycle leaves every stable address as it was.
pub proof fn lemma_tick_keeps_stable(bus: Bus, new: Bus)
    requires
        bus.tick_result(new),
    ensures
        bus.same_stable(new),
{
    let (pr, ar) = choose|pr: Seq<PPU>, ar: Seq<APU>|
        #![trigger Bus::dot_run(pr), Bus::apu_run(ar, bus.mmu.timer.div)]
        {
            &&& pr.len() == bus.cycle_dots() + 1 && pr[0] == bus.ppu && Bus::dot_run(pr)
            &&& ar.len() == bus.cycle_dots() + 1 && ar[0] == bus.apu && Bus::apu_run(ar, bus.mmu.timer.div)
            &&& bus.cycle_end(pr.last(), ar.last(), Bus::enters_hblank(pr), new)
        };
    lemma_dot_run_keeps_memory(pr, pr.len() - 1);
    let moved = Bus { ppu: pr.last(), apu: ar.last(), ..bus };
    let src = if Bus::enters_hblank(pr) {
        choose|mid: Bus| #[trigger] moved.hblank_transfer(mid) && mid.collected(new)
    } else {
        moved
    };
    assert(src.collected(new));
    if Bus::enters_hblank(pr) {
        lemma_hblank_transfer_keeps(moved, src);
    }
    assert(src.ppu.oam == bus.ppu.oam && src.mmu == bus.mmu && src.gb_mode == bus.gb_mode);
    assert(new.ppu.oam == bus.ppu.oam);
    assert(new.mmu.cartridge == bus.mmu.cartridge);
    assert(new.mmu.wram == bus.mmu.wram);
    assert(new.mmu.hram == bus.mmu.hram);
    assert(new.mmu.ie_register == bus.mmu.ie_register);
}

/// The HBlank step of a VRAM DMA touches only VRAM and the DMA registers.
proof fn lemma_hblank_transfer_keeps(b: Bus, new: Bus)
    requires
        b.hblank_transfer(new),
    ensures
        new.mmu == b.mmu,
        new.apu == b.apu,
        new.gb_mode == b.gb_mode,
        new.ppu == (PPU { vram: new.ppu.vram, ..b.ppu }),
{
    reveal(Bus::hblank_transfer);
}

/// Recording one more PPU state enters HBlank exactly when the run already did, or when the
/// last state was in another mode and the new one is in HBlank.
proof fn lemma_enters_hblank_push(run: Seq<PPU>, p: PPU)
    requires
        run.len() > 0,
    ensures
        Bus::enters_hblank(run.push(p)) == (Bus::enters_hblank(run) || (run.last().mode != Mode::HBlank && p.mode
            == Mode::HBlank)),
{
    reveal(Bus::enters_hblank);
    let next = run.push(p);
    let last = run.len() - 1;
    assert(next[last] == run[last] && next[last + 1] == p);
    if Bus::enters_hblank(run) {
        let i = choose|i: int| #![trigger run[i]] 0 <= i < run.len() - 1 && run[i].mode != Mode::HBlank
            && run[i + 1].mode == Mode::HBlank;
        assert(next[i] == run[i] && next[i + 1] == run[i + 1]);
    }
    if Bus::enters_hblank(next) {
        let i = choose|i: int| #![trigger next[i]] 0 <= i < next.len() - 1 && next[i].mode != Mode::HBlank
            && next[i + 1].mode == Mode::HBlank;
        if i < last {
            assert(run[i] == next[i] && run[i + 1] == next[i + 1]);
        }
    }
}

/// Storing `value` at a plain-memory address changes what reads at that address (and its
/// echo) give, and nothing else at the stable addresses.
pub proof fn lemma_store_plain(bus: Bus, new: Bus, address: u16, value: u8)
    requires
        plain_memory(address),
        bus.write_result(address, value, new),
    ensures
        bus.stored_at(address, value, new),
{
    assert forall|a: u16| stable_address(a) implies new.readable(a) == bus.readable(a) && new.read_value(a) == (if aliases(
        a,
        address,
    ) { value } else { bus.read_value(a) }) by {
        if 0xFE00 <= address <= 0xFE9F {
            assert(new.ppu.oam@ == bus.ppu.oam@.update(address - 0xFE00, value));
        } else if 0xC000 <= address <= 0xDFFF {
            assert(new.mmu.wram@ == bus.mmu.wram@.update(address - 0xC000, value));
        } else if address <= 0xFFFE {
            assert(new.mmu.hram@ == bus.mmu.hram@.update(address - 0xFF80, value));
        } else {
            assert(new.mmu == (MMU { ie_register: value, ..bus.mmu }));
        }
    }
}

/// A byte written to work RAM, high RAM, video RAM or OAM reads back as written; a byte of
/// work RAM also reads back through its echo 0x2000 higher.
pub proof fn lemma_write_then_read(bus: Bus, new: Bus, address: u16, value: u8)
    requires
        bus.wf(),
        (0xC000 <= address <= 0xDFFF) || (0xFF80 <= address <= 0xFFFE) || (0x8000 <= address <= 0x9FFF)
            || (0xFE00 <= address <= 0xFE9F),
        bus.write_result(address, value, new),
    ensures
        bus.writable(address, value),
        new.readable(address),
        new.read_value(address) == value,
        0xC000 <= address <= 0xDDFF ==> new.readable((address + 0x2000) as u16) && new.read_value(
            (address + 0x2000) as u16,
        ) == value,
{
}

/// A write to work RAM leaves every other work-RAM byte as it was.
pub proof fn lemma_write_keeps_other_bytes(bus: Bus, new: Bus, address: u16, other: u16, value: u8)
    requires
        bus.wf(),
        0xC000 <= address <= 0xDFFF,
        0xC000 <= other <= 0xDFFF,
        other != address,
        bus.write_result(address, value, new),
    ensures
        new.read_value(other) == bus.read_value(other),
{
}

} // verus!
