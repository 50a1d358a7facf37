use vstd::prelude::*;

use crate::bits::{bit8, get_bit, lemma_byte, lemma_signed_byte, set_bit, with_bit8};
use crate::color::{shade, shade_of, Color, LogicalColor};

verus! {

pub const OAM_SEARCH_DOTS: u16 = 80;
pub const PIXEL_TRANSFER_DOTS: u16 = 172;
pub const HBLANK_DOTS: u16 = 204;
pub const LINE_DOTS: u16 = 456;

pub const GB_WIDTH: usize = 160;
pub const GB_HEIGHT: usize = 144;
pub const SCREEN_PIXELS: usize = 23040;

/// The PPU's four modes.
#[derive(Clone, Copy, Debug, PartialEq, Eq, Structural)]
pub enum Mode {
    OAMSearch,
    PixelTransfer,
    HBlank,
    VBlank,
}

/// One entry of the object attribute memory.
#[derive(Clone, Copy, Debug, PartialEq, Eq, Structural)]
pub struct Object {
    pub y_position: u8,
    pub x_position: u8,
    pub tile_index: u8,
    pub attributes: u8,
}

/// The pixel processing unit: LCD registers, video RAM, OAM and the screen it draws.
pub struct PPU {
    pub lcdc: u8,
    pub ly: u8,
    pub lyc: u8,
    pub stat: u8,
    pub scy: u8,
    pub scx: u8,
    pub wy: u8,
    pub wx: u8,
    pub window_line_counter: u8,
    pub window_in_frame: bool,
    pub window_in_line: bool,
    pub object_buffer: Vec<Object>,
    pub bgp: u8,
    pub obp0: u8,
    pub obp1: u8,
    pub vram: [u8; 8192],
    pub oam: [u8; 160],
    /// The screen, row after row, 160 pixels per row.
    pub screen_buffer: [Color; 23040],
    pub mode: Mode,
    pub current_clock: u16,
    pub vblank_interrupt: bool,
    pub stat_interrupt: bool,
    pub prev_interrupt_line: u8,
    pub frame_ready: bool,
    pub ppu_disabled: bool,
    /// Which display layers are shown: the background, the window and the objects. A hidden
    /// layer is left out of the screen only; the emulated machine is unaffected.
    pub active_layers: [bool; 3],
}

/// The color that palette register `palette` gives to color number `index` (0..3).
pub open spec fn palette_color(palette: u8, index: u8) -> Color {
    Color::Logical(shade_of((palette >> (index * 2)) & 3))
}

/// The color number (0..3) of pixel `px` (0 is leftmost) of the tile row whose two bytes
/// start at `addr`.
pub open spec fn tile_pixel(vram: Seq<u8>, addr: int, px: u8) -> u8 {
    (((vram[addr + 1] >> (7 - px) as u8) & 1) << 1) | ((vram[addr] >> (7 - px) as u8) & 1)
}

/// The fixed debug palette: 0 white, 1 light gray, 2 dark gray, 3 black.
pub open spec fn debug_color(index: u8) -> Color {
    Color::Logical(shade_of(index))
}

/// `a + b` wrapped to a byte.
pub open spec fn add8(a: u8, b: u8) -> u8 {
    ((a + b) % 256) as u8
}

/// `a - b` wrapped to a byte.
pub open spec fn sub8(a: u8, b: u8) -> u8 {
    ((a - b + 256) % 256) as u8
}

/// Whether the scan of object `o` for line `ly` picks it: it must be on screen horizontally
/// and cover the line (sprites are 8 or 16 lines tall; the bottom edge wraps at 256).
pub open spec fn object_on_line(o: Object, ly: u8, tall: bool) -> bool {
    let h: u8 = if tall { 16 } else { 8 };
    o.x_position > 0 && o.y_position <= ly + 16 && add8(o.y_position, h) > ly + 16
}

/// Whether object `o` covers column `x`.
pub open spec fn covers_column(o: Object, x: u8) -> bool {
    o.x_position <= x + 8 && o.x_position > x
}

impl PPU {
    /// The invariant that the dot clock keeps: the line clock and the line number stay within
    /// the bounds of each mode, and at most ten objects are buffered.
    pub open spec fn wf(&self) -> bool {
        &&& match self.mode {
            Mode::OAMSearch => self.current_clock <= 78 && self.ly < 144,
            Mode::PixelTransfer => self.current_clock <= 250 && self.ly < 144,
            Mode::HBlank => self.current_clock <= 454 && self.ly < 144,
            Mode::VBlank => self.current_clock <= 454 && 144 <= self.ly <= 153,
        }
        &&& self.object_buffer@.len() <= 10
    }

    pub open spec fn lcdc_bit(&self, n: u8) -> u8 {
        bit8(self.lcdc, n)
    }

    // ---------------------------------------------------------------- background & window

    /// Whether pixel (`x`, `y`) shows the window rather than the background.
    pub open spec fn window_at(&self, x: u8, y: u8) -> bool {
        self.lcdc_bit(5) == 1 && self.window_in_frame && self.wx <= 166 && x + 7 >= self.wx
            && self.wy <= y && self.wy <= 143
    }

    /// The VRAM offset of the tile-map entry for pixel (`x`, `y`).
    pub open spec fn bg_map_entry(&self, x: u8, y: u8) -> int {
        let win = self.window_at(x, y);
        let base: int = if (if win { self.lcdc_bit(6) } else { self.lcdc_bit(3) }) == 0 { 0x1800 } else { 0x1C00 };
        let row: int = if win { 32 * (self.window_line_counter / 8) } else { 32 * (add8(y, self.scy) / 8) };
        let col: int = if win { ((sub8(x, sub8(self.wx, 7)) / 8) % 32) as int } else { ((add8(x, self.scx) / 8) % 32) as int };
        base + row + col
    }

    /// The VRAM offset of the tile row that pixel (`x`, `y`) falls in; with LCDC bit 4 clear
    /// the tile number is signed and counted from 0x1000.
    pub open spec fn bg_tile_row(&self, x: u8, y: u8) -> int {
        let win = self.window_at(x, y);
        let tile = self.vram@[self.bg_map_entry(x, y)];
        let py: int = if win { (sub8(y, self.wy) % 8) as int } else { (add8(y, self.scy) % 8) as int };
        if self.lcdc_bit(4) == 0 {
            let signed: int = if tile < 128 { tile as int } else { tile - 256 };
            0x1000 + signed * 16 + py * 2
        } else {
            tile * 16 + py * 2
        }
    }

    /// The background/window color number (0..3) of pixel (`x`, `y`); zero when the
    /// background is off (LCDC bit 0).
    pub open spec fn bg_color_index(&self, x: u8, y: u8) -> u8 {
        if self.lcdc_bit(0) == 0 {
            0
        } else {
            let win = self.window_at(x, y);
            let px: u8 = if win { sub8(x, sub8(self.wx, 7)) % 8 } else { add8(x, self.scx) % 8 };
            tile_pixel(self.vram@, self.bg_tile_row(x, y), px)
        }
    }

    /// The background/window color of pixel (`x`, `y`): white when the background is off,
    /// otherwise the color number through BGP.
    pub open spec fn bg_color(&self, x: u8, y: u8) -> Color {
        if self.lcdc_bit(0) == 0 {
            Color::Logical(LogicalColor::White)
        } else {
            palette_color(self.bgp, self.bg_color_index(x, y))
        }
    }

    // ---------------------------------------------------------------- objects

    /// The column inside object `o` that screen column `x` hits, after a horizontal flip
    /// (attribute bit 5).
    pub open spec fn object_column(o: Object, x: u8) -> u8 {
        let px = (x + 8 - o.x_position) as u8;
        if bit8(o.attributes, 5) == 1 { (7 - px) as u8 } else { px }
    }

    /// The row inside object `o` that line `y` hits, after a vertical flip (attribute bit 6);
    /// byte arithmetic wraps.
    pub open spec fn object_row(&self, o: Object, y: u8) -> u8 {
        let py = sub8(add8(y, 16), o.y_position);
        if bit8(o.attributes, 6) == 1 {
            if self.lcdc_bit(2) == 1 { sub8(15, py) } else { sub8(7, py) }
        } else {
            py
        }
    }

    /// The color number of object `o` at pixel (`x`, `y`); zero is transparent.
    pub open spec fn object_color_index(&self, o: Object, x: u8, y: u8) -> u8 {
        let tile: int = if self.lcdc_bit(2) == 0 { o.tile_index as int } else { (o.tile_index & 0xFE) as int };
        tile_pixel(self.vram@, 16 * tile + 2 * self.object_row(o, y), PPU::object_column(o, x))
    }

    /// Among the first `n` buffered objects, the index of the one drawn at (`x`, `y`): the
    /// object covering column `x` with a visible pixel there and the smallest X position,
    /// the earliest one in the buffer on a tie.
    pub open spec fn object_choice(&self, x: u8, y: u8, n: nat) -> Option<int>
        decreases n,
    {
        if n == 0 {
            None
        } else {
            let prev = self.object_choice(x, y, (n - 1) as nat);
            let o = self.object_buffer@[n - 1];
            if covers_column(o, x) && self.object_color_index(o, x, y) != 0 && (match prev {
                Some(j) => o.x_position < self.object_buffer@[j].x_position,
                None => true,
            }) {
                Some(n - 1)
            } else {
                prev
            }
        }
    }

    /// The object color at (`x`, `y`) over a background of color number `bg_bits`: objects
    /// behind the background (attribute bit 7) only show over color 0, and there the
    /// background color is returned instead.
    pub open spec fn object_color(&self, x: u8, y: u8, bg_bits: u8) -> Option<Color> {
        match self.object_choice(x, y, self.object_buffer@.len()) {
            None => None,
            Some(i) => {
                let o = self.object_buffer@[i];
                let idx = self.object_color_index(o, x, y);
                if bit8(o.attributes, 7) == 0 || bg_bits == 0 {
                    if bit8(o.attributes, 4) == 0 {
                        Some(palette_color(self.obp0, idx))
                    } else {
                        Some(palette_color(self.obp1, idx))
                    }
                } else {
                    Some(palette_color(self.bgp, bg_bits))
                }
            }
        }
    }

    /// The color of pixel (`x`, `y`) on the current line: background/window (white where
    /// that layer is hidden), covered by an object when objects are on (LCDC bit 1) and their
    /// layer is shown, and white while the LCD is off.
    pub open spec fn pixel_color(&self, x: u8, y: u8) -> Color {
        let shown = if self.window_used(x, y) { self.active_layers[1] } else { self.active_layers[0] };
        let bg = if shown { self.bg_color(x, y) } else { Color::Logical(LogicalColor::White) };
        let with_obj = if self.lcdc_bit(1) == 1 && self.active_layers[2] {
            match self.object_color(x, y, self.bg_color_index(x, y)) {
                Some(c) => c,
                None => bg,
            }
        } else {
            bg
        };
        if self.lcdc_bit(7) == 0 { Color::Logical(LogicalColor::White) } else { with_obj }
    }

    /// Whether pixel (`x`, `y`) is taken from the window (the background is on and the window
    /// covers the pixel).
    pub open spec fn window_used(&self, x: u8, y: u8) -> bool {
        self.lcdc_bit(0) == 1 && self.window_at(x, y)
    }

    // ---------------------------------------------------------------- line and frame

    /// The object at OAM slot `i`.
    pub open spec fn oam_object(&self, i: int) -> Object {
        Object {
            y_position: self.oam[4 * i],
            x_position: self.oam[4 * i + 1],
            tile_index: self.oam[4 * i + 2],
            attributes: self.oam[4 * i + 3],
        }
    }

    /// The objects that the scan of the first `n` OAM slots keeps for the current line: those
    /// on the line, in OAM order, at most ten.
    pub open spec fn scanned(&self, n: nat) -> Seq<Object>
        decreases n,
    {
        if n == 0 {
            Seq::empty()
        } else {
            let s = self.scanned((n - 1) as nat);
            let o = self.oam_object(n - 1);
            if object_on_line(o, self.ly, self.lcdc_bit(2) == 1) && s.len() < 10 { s.push(o) } else { s }
        }
    }

    /// The window state at the start of drawing a line: the window starts for the frame on
    /// the line equal to WY (when enabled), with its own line counter at zero.
    pub open spec fn line_start(self) -> PPU {
        if self.lcdc_bit(5) == 1 && !self.window_in_frame && self.ly == self.wy {
            PPU { window_in_frame: true, window_line_counter: 0, window_in_line: false, ..self }
        } else {
            PPU { window_in_line: false, ..self }
        }
    }

    /// Whether the current line shows the window somewhere.
    pub open spec fn line_uses_window(&self) -> bool {
        exists|x: u8| x < 160 && #[trigger] self.window_used(x, self.ly)
    }

    /// Whether `new` is this PPU after drawing line LY: the row of the screen is computed,
    /// the rest of the screen is kept, and the window line counter advances when the window
    /// was shown.
    pub open spec fn drew_line(self, new: PPU) -> bool {
        let s = self.line_start();
        let uses = s.line_uses_window();
        &&& new.window_in_frame == s.window_in_frame
        &&& new.window_in_line == uses
        &&& new.window_line_counter == if uses { add8(s.window_line_counter, 1) } else { s.window_line_counter }
        &&& forall|i: int| 0 <= i < SCREEN_PIXELS ==> #[trigger] new.screen_buffer[i] == if i / 160 == self.ly as int {
            s.pixel_color((i % 160) as u8, self.ly)
        } else {
            self.screen_buffer[i]
        }
    }

    /// STAT bits 0-1 for each mode.
    pub open spec fn mode_bits(mode: Mode) -> u8 {
        match mode {
            Mode::HBlank => 0,
            Mode::VBlank => 1,
            Mode::OAMSearch => 2,
            Mode::PixelTransfer => 3,
        }
    }

    /// The STAT interrupt line: one of the sources enabled by STAT bits 3-6 is active.
    pub open spec fn interrupt_line(&self) -> u8 {
        if (bit8(self.stat, 3) == 1 && self.mode == Mode::HBlank) || (bit8(self.stat, 4) == 1 && self.mode == Mode::VBlank)
            || (bit8(self.stat, 5) == 1 && self.mode == Mode::OAMSearch) || (bit8(self.stat, 6) == 1 && self.ly == self.lyc) {
            1
        } else {
            0
        }
    }

    /// STAT after its read-only bits are refreshed: the mode in bits 0-1 and the LY=LYC
    /// coincidence in bit 2.
    pub open spec fn refreshed_stat(&self) -> u8 {
        (self.stat & 0xF8) | (if self.ly == self.lyc { 4u8 } else { 0u8 }) | PPU::mode_bits(self.mode)
    }

    /// The PPU one dot later as far as the line clock goes: the mode changes at the end of
    /// each period, LY advances at the end of each line, the frame is ready (and VBlank
    /// requested unless the LCD is off) when line 144 starts, and the frame restarts after
    /// line 153.
    pub open spec fn clocked(self) -> PPU {
        let cc = (self.current_clock + 1) as u16;
        match self.mode {
            Mode::OAMSearch => if cc >= 79 {
                PPU { current_clock: cc, mode: Mode::PixelTransfer, ..self }
            } else {
                PPU { current_clock: cc, ..self }
            },
            Mode::PixelTransfer => if cc >= 251 {
                PPU { current_clock: cc, mode: Mode::HBlank, ..self }
            } else {
                PPU { current_clock: cc, ..self }
            },
            Mode::HBlank => if cc >= 455 {
                let ly = (self.ly + 1) as u8;
                if ly >= 144 {
                    PPU {
                        current_clock: 0,
                        ly,
                        mode: Mode::VBlank,
                        frame_ready: true,
                        vblank_interrupt: self.vblank_interrupt || !self.ppu_disabled,
                        ..self
                    }
                } else {
                    PPU { current_clock: 0, ly, mode: Mode::OAMSearch, ..self }
                }
            } else {
                PPU { current_clock: cc, ..self }
            },
            Mode::VBlank => if cc >= 455 {
                let ly = (self.ly + 1) as u8;
                if ly >= 154 {
                    PPU {
                        current_clock: 0,
                        ly: 0,
                        window_line_counter: 0,
                        window_in_frame: false,
                        mode: Mode::OAMSearch,
                        ..self
                    }
                } else {
                    PPU { current_clock: 0, ly, ..self }
                }
            } else {
                PPU { current_clock: cc, ..self }
            },
        }
    }

    /// The PPU after the line clock and the LCD switch (LCDC bit 7): switching the LCD off is
    /// noted, switching it on restarts the frame at line 0.
    pub open spec fn lcd_step(self) -> PPU {
        let c = self.clocked();
        if c.lcdc_bit(7) == 0 && !c.ppu_disabled {
            PPU { ppu_disabled: true, ..c }
        } else if c.lcdc_bit(7) == 1 && c.ppu_disabled {
            PPU {
                ppu_disabled: false,
                ly: 0,
                current_clock: 1,
                window_line_counter: 0,
                window_in_frame: false,
                mode: Mode::OAMSearch,
                ..c
            }
        } else {
            c
        }
    }

    /// Whether `new` is this PPU one dot later: after `lcd_step`, the objects for the line
    /// are scanned on the first OAM-search dot, the line is drawn on the first HBlank dot,
    /// and (while the LCD is on) STAT is refreshed and a rising interrupt line requests the
    /// STAT interrupt.
    pub open spec fn dot_result(self, new: PPU) -> bool {
        let p = self.lcd_step();
        let scanning = p.mode == Mode::OAMSearch && p.current_clock == 1;
        let drawing = p.mode == Mode::HBlank && p.current_clock == OAM_SEARCH_DOTS + PIXEL_TRANSFER_DOTS;
        &&& new.object_buffer@ == if scanning { p.scanned(40) } else { p.object_buffer@ }
        &&& if drawing {
            p.drew_line(new)
        } else {
            &&& new.screen_buffer == p.screen_buffer
            &&& new.window_in_frame == p.window_in_frame
            &&& new.window_line_counter == p.window_line_counter
            &&& new.window_in_line == p.window_in_line
        }
        &&& if p.ppu_disabled {
            new.stat == p.stat && new.stat_interrupt == p.stat_interrupt && new.prev_interrupt_line == p.prev_interrupt_line
        } else {
            let r = PPU { stat: p.refreshed_stat(), ..p };
            &&& new.stat == r.stat
            &&& new.prev_interrupt_line == r.interrupt_line()
            &&& new.stat_interrupt == (p.stat_interrupt || (p.prev_interrupt_line == 0 && r.interrupt_line() == 1))
        }
        &&& new == PPU {
            object_buffer: new.object_buffer,
            screen_buffer: new.screen_buffer,
            window_in_frame: new.window_in_frame,
            window_line_counter: new.window_line_counter,
            window_in_line: new.window_in_line,
            stat: new.stat,
            stat_interrupt: new.stat_interrupt,
            prev_interrupt_line: new.prev_interrupt_line,
            ..p
        }
    }
}

/// Returns `a + b` wrapped to a byte.
fn wadd(a: u8, b: u8) -> (r: u8)
    ensures
        r == add8(a, b),
{
    a.wrapping_add(b)
}

/// Returns `a - b` wrapped to a byte.
fn wsub(a: u8, b: u8) -> (r: u8)
    ensures
        r == sub8(a, b),
{
    a.wrapping_sub(b)
}

/// Returns the color that `palette` gives to color number `index`.
fn palette_lookup(palette: u8, index: u8) -> (c: Color)
    requires
        index <= 3,
    ensures
        c == palette_color(palette, index),
{
    let shift_amount = index * 2;
    let shifted = palette >> shift_amount;
    let color_bits = shifted & 0b11;
    assert(color_bits <= 3) by {
        lemma_byte(shifted);
    }
    Color::Logical(shade(color_bits))
}

/// Returns the color number of pixel `px` of the tile row at `addr`.
fn tile_pixel_at(vram: &[u8; 8192], addr: usize, px: u8) -> (c: u8)
    requires
        addr + 1 < 8192,
        px <= 7,
    ensures
        c == tile_pixel(vram@, addr as int, px),
        c <= 3,
{
    let low_byte = vram[addr];
    let high_byte = vram[addr + 1];
    let s = 7 - px;
    let c = ((high_byte >> s) & 0x1) << 1 | ((low_byte >> s) & 0x1);
    assert((((high_byte >> s) & 1u8) << 1u8 | ((low_byte >> s) & 1u8)) <= 3) by (bit_vector);
    c
}

impl PPU {
    pub fn new() -> (p: PPU)
        ensures
            p.wf(),
            p.lcdc == 0 && p.ly == 0 && p.lyc == 0 && p.stat == 0,
            p.scy == 0 && p.scx == 0 && p.wy == 0 && p.wx == 0,
            p.window_line_counter == 0 && !p.window_in_frame && !p.window_in_line,
            p.object_buffer@.len() == 0,
            p.bgp == 0 && p.obp0 == 0 && p.obp1 == 0,
            forall|i: int| 0 <= i < 8192 ==> p.vram[i] == 0,
            forall|i: int| 0 <= i < 160 ==> p.oam[i] == 0,
            forall|i: int| 0 <= i < SCREEN_PIXELS ==> p.screen_buffer[i] == Color::Logical(LogicalColor::Black),
            p.mode == Mode::OAMSearch,
            p.current_clock == 0,
            !p.vblank_interrupt && !p.stat_interrupt && !p.frame_ready && !p.ppu_disabled,
            forall|i: int| 0 <= i < 3 ==> #[trigger] p.active_layers[i],
            p.prev_interrupt_line == 0,
    {
        PPU {
            lcdc: 0,
            ly: 0,
            lyc: 0,
            stat: 0,
            scy: 0,
            scx: 0,
            wy: 0,
            wx: 0,
            window_line_counter: 0,
            window_in_frame: false,
            window_in_line: false,
            object_buffer: Vec::new(),
            bgp: 0,
            obp0: 0,
            obp1: 0,
            vram: [0u8; 8192],
            oam: [0u8; 160],
            screen_buffer: [Color::Logical(LogicalColor::Black); 23040],
            mode: Mode::OAMSearch,
            current_clock: 0,
            vblank_interrupt: false,
            stat_interrupt: false,
            prev_interrupt_line: 0,
            frame_ready: false,
            ppu_disabled: false,
            active_layers: [true; 3],
        }
    }

    /// Sets LCDC, STAT and BGP to their post-boot values.
    pub fn initialize(&mut self)
        ensures
            *final(self) == (PPU { lcdc: 0x91, stat: 0x85, bgp: 0xFC, ..*old(self) }),
    {
        self.lcdc = 0x91;
        self.stat = 0x85;
        self.bgp = 0xFC;
    }

    /// Shows or hides display layer `layer` (0 the background, 1 the window, 2 the objects).
    pub fn toggle_layer(&mut self, layer: usize)
        requires
            layer < 3,
        ensures
            final(self).active_layers@ == old(self).active_layers@.update(layer as int, !old(self).active_layers[layer as int]),
            *final(self) == (PPU { active_layers: final(self).active_layers, ..*old(self) }),
    {
        self.active_layers[layer] = !self.active_layers[layer];
    }

    /// The screen, row after row.
    pub fn get_screen_buffer(&self) -> (s: &[Color; 23040])
        ensures
            *s == self.screen_buffer,
    {
        &self.screen_buffer
    }

    /// Reads VRAM at offset `address`.
    pub fn get_vram(&self, address: usize) -> (v: u8)
        requires
            address < 8192,
        ensures
            v == self.vram[address as int],
    {
        self.vram[address]
    }

    /// Writes VRAM at offset `address`.
    pub fn set_vram(&mut self, address: usize, value: u8)
        requires
            address < 8192,
        ensures
            final(self).vram@ == old(self).vram@.update(address as int, value),
            *final(self) == (PPU { vram: final(self).vram, ..*old(self) }),
    {
        self.vram[address] = value;
    }

    /// Reads OAM at offset `address`.
    pub fn get_oam(&self, address: usize) -> (v: u8)
        requires
            address < 160,
        ensures
            v == self.oam[address as int],
    {
        self.oam[address]
    }

    /// Writes OAM at offset `address`.
    pub fn set_oam(&mut self, address: usize, value: u8)
        requires
            address < 160,
        ensures
            final(self).oam@ == old(self).oam@.update(address as int, value),
            *final(self) == (PPU { oam: final(self).oam, ..*old(self) }),
    {
        self.oam[address] = value;
    }

    /// The color of number `index` through BGP.
    fn get_bgp_color(&self, index: u8) -> (c: Color)
        requires
            index <= 3,
        ensures
            c == palette_color(self.bgp, index),
    {
        palette_lookup(self.bgp, index)
    }

    /// The color of number `index` through OBP0.
    fn get_obp0_color(&self, index: u8) -> (c: Color)
        requires
            index <= 3,
        ensures
            c == palette_color(self.obp0, index),
    {
        palette_lookup(self.obp0, index)
    }

    /// The color of number `index` through OBP1.
    fn get_obp1_color(&self, index: u8) -> (c: Color)
        requires
            index <= 3,
        ensures
            c == palette_color(self.obp1, index),
    {
        palette_lookup(self.obp1, index)
    }

    /// Whether the window covers pixel (`x`, `y`).
    fn window_covers(&self, x: u8, y: u8) -> (w: bool)
        requires
            x < 160,
        ensures
            w == self.window_at(x, y),
    {
        get_bit(self.lcdc, 5) == 1 && self.window_in_frame && self.wx <= 166 && (x + 7) >= self.wx
            && self.wy <= y && self.wy <= 143
    }

    /// The VRAM offset of the tile-map entry for pixel (`x`, `y`).
    fn map_entry_address(&self, x: u8, y: u8, window_enabled: bool) -> (a: usize)
        requires
            x < 160,
            window_enabled == self.window_at(x, y),
        ensures
            a == self.bg_map_entry(x, y),
            a < 8192,
    {
        let tile_map = if window_enabled { get_bit(self.lcdc, 6) } else { get_bit(self.lcdc, 3) };
        let bg_map_start: usize = if tile_map == 0 { 0x1800 } else { 0x1C00 };
        let wx7 = wsub(self.wx, 7);
        let row_byte = if window_enabled { self.window_line_counter } else { wadd(y, self.scy) };
        let tile_row: usize = 32 * (row_byte as usize / 8);
        let col_byte = if window_enabled { wsub(x, wx7) / 8 } else { wadd(x, self.scx) / 8 };
        assert((col_byte & 0x1Fu8) == col_byte % 32) by { lemma_byte(col_byte); }
        let tile_column = (col_byte & 0x1F) as usize;
        assert(tile_row <= 32 * 31);
        assert(tile_column < 32);
        bg_map_start + tile_row + tile_column
    }

    /// The VRAM offset of the tile row that pixel (`x`, `y`) falls in.
    fn tile_row_address(&self, x: u8, y: u8, window_enabled: bool) -> (a: usize)
        requires
            x < 160,
            window_enabled == self.window_at(x, y),
        ensures
            a == self.bg_tile_row(x, y),
            a + 1 < 8192,
    {
        let tile_index_address = self.map_entry_address(x, y, window_enabled);
        let tile = self.vram[tile_index_address];
        let pixel_y: usize = if window_enabled {
            (wsub(y, self.wy) % 8) as usize
        } else {
            (wadd(y, self.scy) % 8) as usize
        };
        if get_bit(self.lcdc, 4) == 0 {
            let signed: i16 = (tile as i8) as i16;
            proof {
                lemma_signed_byte(tile);
            }
            (0x1000 + signed * 16) as usize + pixel_y * 2
        } else {
            tile as usize * 16 + pixel_y * 2
        }
    }

    /// The background/window color and color number of pixel (`x`, `y`), and whether the
    /// window provided it.
    fn get_bg_color(&self, x: u8, y: u8) -> (r: (Color, u8, bool))
        requires
            x < 160,
        ensures
            r.0 == self.bg_color(x, y),
            r.1 == self.bg_color_index(x, y),
            r.1 <= 3,
            r.2 == self.window_used(x, y),
    {
        if get_bit(self.lcdc, 0) == 0 {
            return (Color::Logical(LogicalColor::White), 0, false);
        }
        let window_enabled = self.window_covers(x, y);
        let tile_address = self.tile_row_address(x, y, window_enabled);
        let wx7 = wsub(self.wx, 7);
        let pixel_x: u8 = if window_enabled { wsub(x, wx7) % 8 } else { wadd(x, self.scx) % 8 };
        let color_index = tile_pixel_at(&self.vram, tile_address, pixel_x);
        let color = self.get_bgp_color(color_index);
        (color, color_index, window_enabled)
    }
}


/// The color number of the debug views' tile map at position `m`: tile `m / 64`, row
/// `(m / 8) % 8`, column `m % 8`.
pub open spec fn tilemap_entry(vram: Seq<u8>, m: int) -> Color {
    debug_color(tile_pixel(vram, (m / 64) * 16 + ((m / 8) % 8) * 2, (m % 8) as u8))
}

/// The VRAM offset of row `y` of entry `tile` of background map `map` (bit 0 picks the map
/// at 0x1800 or 0x1C00, bit 1 picks signed tile numbers counted from 0x1000).
pub open spec fn bg_map_row(vram: Seq<u8>, map: u8, tile: int, y: int) -> int {
    let start: int = if map & 1 == 0 { 0x1800 } else { 0x1C00 };
    let t = vram[start + tile];
    if (map >> 1) & 1 == 0 {
        t * 16 + 2 * y
    } else {
        let signed: int = if t < 128 { t as int } else { t - 256 };
        0x0800 + (signed + 128) * 16 + 2 * y
    }
}

/// The color at position `m` of the debug view of background map `map`.
pub open spec fn bg_map_entry_color(vram: Seq<u8>, map: u8, m: int) -> Color {
    debug_color(tile_pixel(vram, bg_map_row(vram, map, m / 64, (m / 8) % 8), (m % 8) as u8))
}

impl PPU {
    /// The color number of object `o` at pixel (`x`, `y`).
    fn object_pixel(&self, o: Object, x: u8, y: u8) -> (c: u8)
        requires
            x < 160,
            covers_column(o, x),
        ensures
            c == self.object_color_index(o, x, y),
            c <= 3,
    {
        let mut pixel_x = (x + 8) - o.x_position;
        if get_bit(o.attributes, 5) == 1 {
            pixel_x = 7 - pixel_x;
        }
        let mut pixel_y = wsub(wadd(y, 16), o.y_position);
        if get_bit(o.attributes, 6) == 1 {
            if get_bit(self.lcdc, 2) == 1 {
                pixel_y = wsub(15, pixel_y);
            } else {
                pixel_y = wsub(7, pixel_y);
            }
        }
        let tile: usize = if get_bit(self.lcdc, 2) == 0 {
            o.tile_index as usize
        } else {
            (o.tile_index & 0xFE) as usize
        };
        tile_pixel_at(&self.vram, 16 * tile + 2 * pixel_y as usize, pixel_x)
    }

    /// The object color (if any) at pixel (`x`, `y`) over background color number
    /// `bg_color_bits`.
    fn get_sprite_color(&self, x: u8, y: u8, bg_color_bits: u8) -> (r: Option<Color>)
        requires
            x < 160,
            bg_color_bits <= 3,
        ensures
            r == self.object_color(x, y, bg_color_bits),
    {
        let n = self.object_buffer.len();
        let mut best: Option<usize> = None;
        let mut best_index: u8 = 0;
        let mut i: usize = 0;
        while i < n
            invariant
                n == self.object_buffer@.len(),
                i <= n,
                x < 160,
                best_index <= 3,
                match best {
                    None => self.object_choice(x, y, i as nat) is None,
                    Some(j) => self.object_choice(x, y, i as nat) == Some(j as int) && j < i
                        && best_index == self.object_color_index(self.object_buffer@[j as int], x, y),
                },
            decreases n - i,
        {
            let o = self.object_buffer[i];
            if o.x_position <= x + 8 && o.x_position > x {
                let ci = self.object_pixel(o, x, y);
                if ci != 0 {
                    let better = match best {
                        None => true,
                        Some(j) => o.x_position < self.object_buffer[j].x_position,
                    };
                    if better {
                        best = Some(i);
                        best_index = ci;
                    }
                }
            }
            i += 1;
        }
        match best {
            None => None,
            Some(j) => {
                let o = self.object_buffer[j];
                if get_bit(o.attributes, 7) == 0 || bg_color_bits == 0 {
                    if get_bit(o.attributes, 4) == 0 {
                        Some(self.get_obp0_color(best_index))
                    } else {
                        Some(self.get_obp1_color(best_index))
                    }
                } else {
                    Some(self.get_bgp_color(bg_color_bits))
                }
            },
        }
    }

    /// The color of pixel (`x`, `y`) and whether the window provided it.
    fn pixel_at(&self, x: u8, y: u8) -> (r: (Color, bool))
        requires
            x < 160,
        ensures
            r.0 == self.pixel_color(x, y),
            r.1 == self.window_used(x, y),
    {
        let (mut color, bg_color_bits, window) = self.get_bg_color(x, y);
        let shown = if window { self.active_layers[1] } else { self.active_layers[0] };
        if !shown {
            color = Color::Logical(LogicalColor::White);
        }
        if get_bit(self.lcdc, 1) == 1 && self.active_layers[2] {
            if let Some(new_color) = self.get_sprite_color(x, y, bg_color_bits) {
                color = new_color;
            }
        }
        if get_bit(self.lcdc, 7) == 0 {
            color = Color::Logical(LogicalColor::White);
        }
        (color, window)
    }
}


impl PPU {
    /// Fills the object buffer with the objects on the current line (at most ten, in OAM
    /// order).
    fn scan_objects(&mut self)
        requires
            old(self).ly < 240,
        ensures
            final(self).object_buffer@ == old(self).scanned(40),
            final(self).object_buffer@.len() <= 10,
            *final(self) == (PPU { object_buffer: final(self).object_buffer, ..*old(self) }),
    {
        let sprite_mode = get_bit(self.lcdc, 2);
        let sprite_height: u8 = if sprite_mode == 0 { 8 } else { 16 };
        let mut buffer: Vec<Object> = Vec::new();
        let mut i: usize = 0;
        while i < 40
            invariant
                i <= 40,
                self.ly < 240,
                sprite_height == (if self.lcdc_bit(2) == 1 { 16u8 } else { 8u8 }),
                buffer@ == self.scanned(i as nat),
                buffer@.len() <= 10,
            decreases 40 - i,
        {
            let o = Object {
                y_position: self.oam[4 * i],
                x_position: self.oam[4 * i + 1],
                tile_index: self.oam[4 * i + 2],
                attributes: self.oam[4 * i + 3],
            };
            assert(o == self.oam_object(i as int));
            if o.x_position > 0 && o.y_position <= self.ly + 16 && wadd(o.y_position, sprite_height) > self.ly + 16
                && buffer.len() < 10 {
                buffer.push(o);
            }
            i += 1;
        }
        self.object_buffer = buffer;
    }

    /// Draws line LY into the screen buffer.
    fn draw_scanline(&mut self)
        requires
            old(self).ly < 144,
        ensures
            old(self).drew_line(*final(self)),
            *final(self) == (PPU {
                screen_buffer: final(self).screen_buffer,
                window_in_frame: final(self).window_in_frame,
                window_line_counter: final(self).window_line_counter,
                window_in_line: final(self).window_in_line,
                ..*old(self)
            }),
    {
        let ghost start = old(self).line_start();
        let y = self.ly;
        if get_bit(self.lcdc, 5) == 1 && !self.window_in_frame && y == self.wy {
            self.window_in_frame = true;
            self.window_line_counter = 0;
        }
        self.window_in_line = false;
        assert(*self == start);
        let mut row: [Color; 160] = [Color::Logical(LogicalColor::White); 160];
        let mut window_in_line = false;
        let mut x: u8 = 0;
        while x < 160
            invariant
                x <= 160,
                *self == start,
                y == self.ly,
                forall|k: int| 0 <= k < x ==> #[trigger] row[k] == self.pixel_color(k as u8, y),
                window_in_line == exists|k: u8| k < x && #[trigger] self.window_used(k, y),
            decreases 160 - x,
        {
            let (color, window) = self.pixel_at(x, y);
            row[x as usize] = color;
            proof {
                if window {
                    assert(x < x + 1 && self.window_used(x, y));
                }
            }
            window_in_line = window_in_line || window;
            x += 1;
        }
        assert(window_in_line == start.line_uses_window());
        let base: usize = y as usize * 160;
        let mut screen = self.screen_buffer;
        let mut k: usize = 0;
        while k < 160
            invariant
                k <= 160,
                base == y as int * 160,
                y < 144,
                forall|m: int| 0 <= m < SCREEN_PIXELS ==> #[trigger] screen[m] == if base <= m < base + k {
                    row[m - base]
                } else {
                    start.screen_buffer[m]
                },
            decreases 160 - k,
        {
            screen[base + k] = row[k];
            k += 1;
        }
        self.screen_buffer = screen;
        self.window_in_line = window_in_line;
        if window_in_line {
            self.window_line_counter = wadd(self.window_line_counter, 1);
        }
        proof {
            assert forall|m: int| 0 <= m < SCREEN_PIXELS implies #[trigger] self.screen_buffer[m] == if m / 160 == y as int {
                start.pixel_color((m % 160) as u8, y)
            } else {
                old(self).screen_buffer[m]
            } by {
                assert((base <= m < base + 160) == (m / 160 == y as int));
                if base <= m < base + 160 {
                    assert(m - base == m % 160);
                    assert(row[m - base] == start.pixel_color((m - base) as u8, y));
                }
            }
        }
    }
}


impl PPU {
    /// Refreshes STAT's mode and coincidence bits and raises the STAT interrupt on a rising
    /// edge of the interrupt line.
    fn update_stat(&mut self)
        ensures
            final(self).stat == old(self).refreshed_stat(),
            final(self).prev_interrupt_line == (PPU { stat: old(self).refreshed_stat(), ..*old(self) }).interrupt_line(),
            final(self).stat_interrupt == (old(self).stat_interrupt || (old(self).prev_interrupt_line == 0
                && (PPU { stat: old(self).refreshed_stat(), ..*old(self) }).interrupt_line() == 1)),
            *final(self) == (PPU {
                stat: final(self).stat,
                prev_interrupt_line: final(self).prev_interrupt_line,
                stat_interrupt: final(self).stat_interrupt,
                ..*old(self)
            }),
    {
        let mode_bits: u8 = match self.mode {
            Mode::HBlank => 0,
            Mode::VBlank => 1,
            Mode::OAMSearch => 2,
            Mode::PixelTransfer => 3,
        };
        let coincidence: u8 = if self.ly == self.lyc { 4 } else { 0 };
        self.stat = (self.stat & 0xF8) | coincidence | mode_bits;
        let mut curr_interrupt_line: u8 = 0;
        if get_bit(self.stat, 3) == 1 && self.mode == Mode::HBlank {
            curr_interrupt_line = 1;
        }
        if get_bit(self.stat, 4) == 1 && self.mode == Mode::VBlank {
            curr_interrupt_line = 1;
        }
        if get_bit(self.stat, 5) == 1 && self.mode == Mode::OAMSearch {
            curr_interrupt_line = 1;
        }
        if get_bit(self.stat, 6) == 1 && self.ly == self.lyc {
            curr_interrupt_line = 1;
        }
        if self.prev_interrupt_line == 0 && curr_interrupt_line == 1 {
            self.stat_interrupt = true;
        }
        self.prev_interrupt_line = curr_interrupt_line;
    }

    /// Advances the line clock by one dot.
    fn update_clock(&mut self)
        requires
            old(self).wf(),
        ensures
            *final(self) == old(self).clocked(),
            final(self).wf(),
    {
        self.current_clock += 1;
        match self.mode {
            Mode::OAMSearch => {
                if self.current_clock >= OAM_SEARCH_DOTS - 1 {
                    self.mode = Mode::PixelTransfer;
                }
            },
            Mode::PixelTransfer => {
                if self.current_clock >= OAM_SEARCH_DOTS + PIXEL_TRANSFER_DOTS - 1 {
                    self.mode = Mode::HBlank;
                }
            },
            Mode::HBlank => {
                if self.current_clock >= LINE_DOTS - 1 {
                    self.ly += 1;
                    self.current_clock = 0;
                    if self.ly >= GB_HEIGHT as u8 {
                        self.mode = Mode::VBlank;
                        self.frame_ready = true;
                        if !self.ppu_disabled {
                            self.vblank_interrupt = true;
                        }
                    } else {
                        self.mode = Mode::OAMSearch;
                    }
                }
            },
            Mode::VBlank => {
                if self.current_clock >= LINE_DOTS - 1 {
                    self.ly += 1;
                    self.current_clock = 0;
                    if self.ly >= GB_HEIGHT as u8 + 10 {
                        self.ly = 0;
                        self.window_line_counter = 0;
                        self.window_in_frame = false;
                        self.mode = Mode::OAMSearch;
                    }
                }
            },
        }
    }

    /// Mode 2: the objects of the line are scanned on its first dot.
    fn oam_search(&mut self)
        requires
            old(self).ly < 240,
        ensures
            final(self).object_buffer@ == if old(self).current_clock == 1 { old(self).scanned(40) } else { old(self).object_buffer@ },
            old(self).current_clock == 1 ==> final(self).object_buffer@.len() <= 10,
            *final(self) == (PPU { object_buffer: final(self).object_buffer, ..*old(self) }),
    {
        if self.current_clock == 1 {
            self.scan_objects();
        }
    }

    /// Mode 0: the line is drawn on the first HBlank dot.
    fn hblank(&mut self)
        requires
            old(self).ly < 144,
        ensures
            if old(self).current_clock == OAM_SEARCH_DOTS + PIXEL_TRANSFER_DOTS {
                old(self).drew_line(*final(self))
            } else {
                *final(self) == *old(self)
            },
            *final(self) == (PPU {
                screen_buffer: final(self).screen_buffer,
                window_in_frame: final(self).window_in_frame,
                window_line_counter: final(self).window_line_counter,
                window_in_line: final(self).window_in_line,
                ..*old(self)
            }),
    {
        if self.current_clock == OAM_SEARCH_DOTS + PIXEL_TRANSFER_DOTS {
            self.draw_scanline();
        }
    }

    /// Runs the PPU for one dot (one T-cycle).
    pub fn dot(&mut self)
        requires
            old(self).wf(),
        ensures
            final(self).wf(),
            old(self).dot_result(*final(self)),
    {
        self.update_clock();
        if get_bit(self.lcdc, 7) == 0 && !self.ppu_disabled {
            self.ppu_disabled = true;
        }
        if get_bit(self.lcdc, 7) == 1 && self.ppu_disabled {
            self.ppu_disabled = false;
            self.ly = 0;
            self.current_clock = 1;
            self.window_line_counter = 0;
            self.window_in_frame = false;
            self.mode = Mode::OAMSearch;
        }
        let ghost p = *self;
        assert(p == old(self).lcd_step());
        match self.mode {
            Mode::OAMSearch => self.oam_search(),
            Mode::HBlank => self.hblank(),
            _ => {},
        }
        if !self.ppu_disabled {
            self.update_stat();
        }
    }
}


/// Returns the shade of a two-bit color number in the fixed debug palette.
fn debug_shade(index: u8) -> (c: Color)
    requires
        index <= 3,
    ensures
        c == debug_color(index),
{
    Color::Logical(shade(index))
}

impl PPU {
    /// All 384 tiles of VRAM in the debug palette: tile `i`, row `j`, column `k` at
    /// `64 * i + 8 * j + k`.
    pub fn get_tilemap(&self) -> (t: Vec<Color>)
        ensures
            t@.len() == 384 * 64,
            forall|m: int| 0 <= m < 384 * 64 ==> #[trigger] t@[m] == tilemap_entry(self.vram@, m),
    {
        let mut tilemap: Vec<Color> = Vec::new();
        let mut n: usize = 0;
        while n < 384 * 64
            invariant
                n <= 384 * 64,
                tilemap@.len() == n,
                forall|m: int| 0 <= m < n ==> #[trigger] tilemap@[m] == tilemap_entry(self.vram@, m),
            decreases 384 * 64 - n,
        {
            let i = n / 64;
            let j = (n / 8) % 8;
            let k = (n % 8) as u8;
            let address = i * 16 + j * 2;
            let color_id = tile_pixel_at(&self.vram, address, k);
            tilemap.push(debug_shade(color_id));
            n += 1;
        }
        tilemap
    }

    /// Background map `map` (bit 0: the map at 0x1800 or 0x1C00; bit 1: signed tile numbers)
    /// in the debug palette: entry `t`, row `y`, column `x` at `64 * t + 8 * y + x`.
    pub fn get_bg_map(&self, map: u8) -> (t: Vec<Color>)
        ensures
            t@.len() == 1024 * 64,
            forall|m: int| 0 <= m < 1024 * 64 ==> #[trigger] t@[m] == bg_map_entry_color(self.vram@, map, m),
    {
        let bg_map_start: usize = if (map & 1) == 0 { 0x1800 } else { 0x1C00 };
        let signed_tiles = ((map >> 1) & 1) != 0;
        let mut tilemap: Vec<Color> = Vec::new();
        let mut n: usize = 0;
        while n < 1024 * 64
            invariant
                n <= 1024 * 64,
                bg_map_start == (if map & 1 == 0 { 0x1800int } else { 0x1C00int }),
                signed_tiles == ((map >> 1) & 1 != 0),
                tilemap@.len() == n,
                forall|m: int| 0 <= m < n ==> #[trigger] tilemap@[m] == bg_map_entry_color(self.vram@, map, m),
            decreases 1024 * 64 - n,
        {
            let tile = n / 64;
            let y = (n / 8) % 8;
            let x = (n % 8) as u8;
            let tile_number = self.vram[bg_map_start + tile];
            let signed: i16 = (#[verifier::truncate] (tile_number as i8)) as i16;
            proof {
                lemma_signed_byte(tile_number);
            }
            assert(signed as int == (if tile_number < 128 { tile_number as int } else { tile_number as int - 256 }));
            let correct_tile: usize = if !signed_tiles {
                tile_number as usize * 16 + 2 * y
            } else {
                (0x0800 + (signed + 128) * 16) as usize + 2 * y
            };
            assert(correct_tile == bg_map_row(self.vram@, map, tile as int, y as int));
            let color_id = tile_pixel_at(&self.vram, correct_tile, x);
            tilemap.push(debug_shade(color_id));
            assert(tilemap@[n as int] == bg_map_entry_color(self.vram@, map, n as int));
            n += 1;
        }
        tilemap
    }
}

/// Flipping an object horizontally (setting attribute bit 5) mirrors it: at every column it
/// covers, the flipped object shows tile column 7 - c where the unflipped one shows column c,
/// so the flipped object's color at a column is the unflipped object's color at the mirror
/// column (X - 8 + X - 1 - x, for an object at X).
pub proof fn lemma_x_flip_mirrors(p: PPU, o: Object, x: u8, y: u8)
    requires
        o.attributes & 0x20 == 0,
        covers_column(o, x),
    ensures
        ({
            let f = Object { attributes: o.attributes | 0x20, ..o };
            let m = 2 * o.x_position - 9 - x;
            &&& PPU::object_column(o, x) == x + 8 - o.x_position
            &&& PPU::object_column(f, x) == 7 - PPU::object_column(o, x)
            &&& 0 <= m < 256 ==> covers_column(f, m as u8) && p.object_color_index(f, m as u8, y) == p.object_color_index(o, x, y)
        }),
{
    let a = o.attributes;
    assert(bit8(a | 0x20, 5) == 1 && bit8(a, 5) == 0 && bit8(a | 0x20, 6) == bit8(a, 6)) by (bit_vector)
        requires
            a & 0x20 == 0,
    ;
    let f = Object { attributes: a | 0x20, ..o };
    let m = 2 * o.x_position - 9 - x;
    if 0 <= m < 256 {
        assert(PPU::object_column(f, m as u8) == PPU::object_column(o, x));
        assert(p.object_row(f, y) == p.object_row(o, y));
    }
}

/// Flipping an object vertically (setting attribute bit 6) mirrors it top to bottom: on a
/// line that the object covers, the flipped object shows tile row `h - 1 - r` where the
/// unflipped one shows row `r`, for objects `h` lines tall (8, or 16 with LCDC bit 2 set).
pub proof fn lemma_y_flip_mirrors(p: PPU, o: Object, y: u8)
    requires
        o.attributes & 0x40 == 0,
        sub8(add8(y, 16), o.y_position) < (if p.lcdc_bit(2) == 1 { 16u8 } else { 8u8 }),
    ensures
        ({
            let f = Object { attributes: o.attributes | 0x40, ..o };
            let h: int = if p.lcdc & 4 != 0 { 16 } else { 8 };
            &&& p.object_row(o, y) == sub8(add8(y, 16), o.y_position)
            &&& p.object_row(f, y) == h - 1 - p.object_row(o, y)
        }),
{
    let a = o.attributes;
    let l = p.lcdc;
    assert(bit8(a | 0x40, 6) == 1 && bit8(a, 6) == 0 && ((l >> 2u8) & 1 == 1) == (l & 4 != 0)) by (bit_vector)
        requires
            a & 0x40 == 0,
    ;
}

} // verus!
