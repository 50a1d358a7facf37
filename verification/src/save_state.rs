use vstd::prelude::*;

use crate::apu::APU;
use crate::apu::channels::{NoiseChannel, PulseChannel, WaveChannel, ChannelType};
use crate::bus::Bus;
use crate::cpu::{CPU, RTC_PERIOD};
use crate::input::Input;
use crate::mmu::MMU;
use crate::ppu::{Mode, Object, PPU};
use crate::timer::Timer;

verus! {

/// A snapshot of the whole machine; the cartridge travels as the text the frontend made of it.
pub struct EmulatorState {
    pub cpu_state: CPUState,
    pub bus_state: BusState,
    pub cartridge_json: String,
}

/// A snapshot of the bus components.
pub struct BusState {
    pub mmu_state: MMUState,
    pub ppu_state: PPUState,
    pub apu_state: APUState,
}

/// The CPU registers and interrupt state.
#[derive(Clone, Copy)]
pub struct CPUState {
    pub cpu_registers: [u8; 10],
    pub pc: u16,
    pub mcycles: u8,
    pub ime: u8,
    pub ime_scheduled: bool,
    pub halt_mode: bool,
    pub rtc_oscillator: u64,
}

/// The memory map without the cartridge.
#[derive(Clone, Copy)]
pub struct MMUState {
    pub wram: [u8; 8192],
    pub io_registers: [u8; 128],
    pub hram: [u8; 127],
    pub ie_register: u8,
    pub timer: Timer,
    pub input: Input,
    pub prev_p1: u8,
    pub joypad_interrupt: bool,
    pub serial_buffer: [u8; 100],
}

/// The PPU without the screen.
pub struct PPUState {
    pub lcdc: u8,
    pub ly: u8,
    pub lyc: u8,
    pub stat: u8,
    pub scy: u8,
    pub scx: u8,
    pub wy: u8,
    pub wx: u8,
    pub window_line_counter: u8,
    pub window_in_frame: bool,
    pub window_in_line: bool,
    pub object_buffer: Vec<Object>,
    pub bgp: u8,
    pub obp0: u8,
    pub obp1: u8,
    pub vram: [u8; 8192],
    pub oam: [u8; 160],
    pub mode: Mode,
    pub current_clock: u16,
    pub vblank_interrupt: bool,
    pub stat_interrupt: bool,
    pub prev_interrupt_line: u8,
    pub frame_ready: bool,
    pub ppu_disabled: bool,
}

/// The sound registers and channels (the output samples are not part of it).
#[derive(Clone, Copy)]
pub struct APUState {
    pub channel1: PulseChannel,
    pub channel2: PulseChannel,
    pub channel3: WaveChannel,
    pub channel4: NoiseChannel,
    pub mute_channels: [bool; 4],
    pub nr50: u8,
    pub nr51: u8,
    pub nr52: u8,
    pub div_apu: u8,
    pub prev_div_apu: u8,
    pub internal_cycles: u16,
    pub is_mute: bool,
}

/// Returns a copy of a list of objects.
fn copy_objects(v: &Vec<Object>) -> (out: Vec<Object>)
    ensures
        out@ == v@,
{
    let mut out: Vec<Object> = Vec::new();
    let mut i: usize = 0;
    while i < v.len()
        invariant
            i <= v.len(),
            out@ == v@.subrange(0, i as int),
        decreases v.len() - i,
    {
        out.push(v[i]);
        i += 1;
    }
    assert(out@ =~= v@);
    out
}

impl CPUState {
    /// Whether the snapshot can be resumed: the oscillator count is below one second.
    pub open spec fn valid(&self) -> bool {
        self.rtc_oscillator < RTC_PERIOD
    }

    /// Returns whether the snapshot can be resumed.
    pub fn is_valid(&self) -> (b: bool)
        ensures
            b == self.valid(),
    {
        self.rtc_oscillator < RTC_PERIOD
    }
}

impl PPUState {
    /// Whether the snapshot can be resumed: the line clock and line number fit the mode, and
    /// at most ten objects are buffered.
    pub open spec fn valid(&self) -> bool {
        &&& match self.mode {
            Mode::OAMSearch => self.current_clock <= 78 && self.ly < 144,
            Mode::PixelTransfer => self.current_clock <= 250 && self.ly < 144,
            Mode::HBlank => self.current_clock <= 454 && self.ly < 144,
            Mode::VBlank => self.current_clock <= 454 && 144 <= self.ly <= 153,
        }
        &&& self.object_buffer@.len() <= 10
    }

    /// Returns whether the snapshot can be resumed.
    pub fn is_valid(&self) -> (b: bool)
        ensures
            b == self.valid(),
    {
        let timing = match self.mode {
            Mode::OAMSearch => self.current_clock <= 78 && self.ly < 144,
            Mode::PixelTransfer => self.current_clock <= 250 && self.ly < 144,
            Mode::HBlank => self.current_clock <= 454 && self.ly < 144,
            Mode::VBlank => self.current_clock <= 454 && 144 <= self.ly && self.ly <= 153,
        };
        timing && self.object_buffer.len() <= 10
    }
}

impl APUState {
    /// Whether the snapshot can be resumed: the channels' counters are in range, channels 1
    /// and 2 are the two pulse channels, and the sample counter is within a period.
    pub open spec fn valid(&self) -> bool {
        &&& self.channel1.wf()
        &&& self.channel2.wf()
        &&& self.channel3.wf()
        &&& self.channel4.wf()
        &&& self.channel1.channel == ChannelType::Pulse1
        &&& self.channel2.channel == ChannelType::Pulse2
        &&& self.internal_cycles <= crate::apu::SAMPLE_PERIOD
    }

    /// Returns whether the snapshot can be resumed.
    pub fn is_valid(&self) -> (b: bool)
        ensures
            b == self.valid(),
    {
        let c1 = &self.channel1;
        let c2 = &self.channel2;
        c1.frequency_timer >= 1 && c1.duty_step < 8 && c1.volume <= 15 && c2.frequency_timer >= 1
            && c2.duty_step < 8 && c2.volume <= 15 && self.channel3.frequency_timer >= 1 && self.channel3.wave_index < 32
            && self.channel4.volume <= 15 && c1.channel == ChannelType::Pulse1 && c2.channel == ChannelType::Pulse2
            && self.internal_cycles <= crate::apu::SAMPLE_PERIOD
    }
}

impl BusState {
    /// Whether every part of the snapshot can be resumed.
    pub open spec fn valid(&self) -> bool {
        self.ppu_state.valid() && self.apu_state.valid()
    }

    /// Returns whether every part of the snapshot can be resumed.
    pub fn is_valid(&self) -> (b: bool)
        ensures
            b == self.valid(),
    {
        self.ppu_state.is_valid() && self.apu_state.is_valid()
    }
}

impl PPUState {
    /// Whether `other` holds the same values, the object buffer holding the same objects.
    pub open spec fn same_as(&self, other: PPUState) -> bool {
        &&& other.object_buffer@ == self.object_buffer@
        &&& other == (PPUState { object_buffer: other.object_buffer, ..*self })
    }

    /// A copy of the snapshot.
    pub fn copy(&self) -> (c: PPUState)
        ensures
            self.same_as(c),
    {
        PPUState {
            lcdc: self.lcdc,
            ly: self.ly,
            lyc: self.lyc,
            stat: self.stat,
            scy: self.scy,
            scx: self.scx,
            wy: self.wy,
            wx: self.wx,
            window_line_counter: self.window_line_counter,
            window_in_frame: self.window_in_frame,
            window_in_line: self.window_in_line,
            object_buffer: copy_objects(&self.object_buffer),
            bgp: self.bgp,
            obp0: self.obp0,
            obp1: self.obp1,
            vram: self.vram,
            oam: self.oam,
            mode: self.mode,
            current_clock: self.current_clock,
            vblank_interrupt: self.vblank_interrupt,
            stat_interrupt: self.stat_interrupt,
            prev_interrupt_line: self.prev_interrupt_line,
            frame_ready: self.frame_ready,
            ppu_disabled: self.ppu_disabled,
        }
    }
}

impl BusState {
    /// Whether `other` holds the same values, the object buffer holding the same objects.
    pub open spec fn same_as(&self, other: BusState) -> bool {
        &&& other.mmu_state == self.mmu_state
        &&& self.ppu_state.same_as(other.ppu_state)
        &&& other.apu_state == self.apu_state
    }

    /// A copy of the snapshot.
    pub fn copy(&self) -> (c: BusState)
        ensures
            self.same_as(c),
    {
        BusState { mmu_state: self.mmu_state, ppu_state: self.ppu_state.copy(), apu_state: self.apu_state }
    }
}

impl CPU {
    /// The snapshot that describes this CPU.
    pub open spec fn snapshot(self) -> CPUState {
        CPUState {
            cpu_registers: self.cpu_registers,
            pc: self.pc,
            mcycles: self.mcycles,
            ime: self.ime,
            ime_scheduled: self.ime_scheduled,
            halt_mode: self.halt_mode,
            rtc_oscillator: self.rtc_oscillator,
        }
    }

    /// The CPU that snapshot `s` describes.
    pub open spec fn restored(self, s: CPUState) -> CPU {
        CPU {
            cpu_registers: s.cpu_registers,
            pc: s.pc,
            mcycles: s.mcycles,
            ime: s.ime,
            ime_scheduled: s.ime_scheduled,
            halt_mode: s.halt_mode,
            rtc_oscillator: s.rtc_oscillator,
        }
    }

    /// A snapshot of the CPU.
    pub fn create_state(&self) -> (s: CPUState)
        ensures
            s == self.snapshot(),
    {
        CPUState {
            cpu_registers: self.cpu_registers,
            pc: self.pc,
            mcycles: self.mcycles,
            ime: self.ime,
            ime_scheduled: self.ime_scheduled,
            halt_mode: self.halt_mode,
            rtc_oscillator: self.rtc_oscillator,
        }
    }

    /// Restores a snapshot.
    pub fn load_state(&mut self, s: CPUState)
        requires
            s.valid(),
        ensures
            final(self).wf(),
            *final(self) == old(self).restored(s),
    {
        self.cpu_registers = s.cpu_registers;
        self.pc = s.pc;
        self.mcycles = s.mcycles;
        self.ime = s.ime;
        self.ime_scheduled = s.ime_scheduled;
        self.halt_mode = s.halt_mode;
        self.rtc_oscillator = s.rtc_oscillator;
    }
}

impl MMU {
    /// The snapshot that describes this memory map.
    pub open spec fn snapshot(self) -> MMUState {
        MMUState {
            wram: self.wram,
            io_registers: self.io_registers,
            hram: self.hram,
            ie_register: self.ie_register,
            timer: self.timer,
            input: self.input,
            prev_p1: self.prev_p1,
            joypad_interrupt: self.joypad_interrupt,
            serial_buffer: self.serial_buffer,
        }
    }

    /// This memory map with the contents that snapshot `s` describes; the cartridge stays.
    pub open spec fn restored(self, s: MMUState) -> MMU {
        MMU {
            cartridge: self.cartridge,
            wram: s.wram,
            io_registers: s.io_registers,
            hram: s.hram,
            ie_register: s.ie_register,
            timer: s.timer,
            input: s.input,
            prev_p1: s.prev_p1,
            joypad_interrupt: s.joypad_interrupt,
            serial_buffer: s.serial_buffer,
        }
    }

    /// A snapshot of the memory map (without the cartridge).
    pub fn create_state(&self) -> (s: MMUState)
        ensures
            s == self.snapshot(),
    {
        MMUState {
            wram: self.wram,
            io_registers: self.io_registers,
            hram: self.hram,
            ie_register: self.ie_register,
            timer: Timer { ..self.timer },
            input: self.input,
            prev_p1: self.prev_p1,
            joypad_interrupt: self.joypad_interrupt,
            serial_buffer: self.serial_buffer,
        }
    }

    /// Restores a snapshot; the cartridge is kept.
    pub fn load_state(&mut self, s: MMUState)
        ensures
            *final(self) == old(self).restored(s),
    {
        self.wram = s.wram;
        self.io_registers = s.io_registers;
        self.hram = s.hram;
        self.ie_register = s.ie_register;
        self.timer = s.timer;
        self.input = s.input;
        self.prev_p1 = s.prev_p1;
        self.joypad_interrupt = s.joypad_interrupt;
        self.serial_buffer = s.serial_buffer;
    }
}

impl PPU {
    /// Whether snapshot `s` holds every field of this PPU but the screen.
    pub open spec fn described_by(&self, s: PPUState) -> bool {
        &&& s.object_buffer@ == self.object_buffer@
        &&& s.vram == self.vram && s.oam == self.oam
        &&& s.lcdc == self.lcdc && s.ly == self.ly && s.lyc == self.lyc && s.stat == self.stat
        &&& s.scy == self.scy && s.scx == self.scx && s.wy == self.wy && s.wx == self.wx
        &&& s.window_line_counter == self.window_line_counter
        &&& s.window_in_frame == self.window_in_frame && s.window_in_line == self.window_in_line
        &&& s.bgp == self.bgp && s.obp0 == self.obp0 && s.obp1 == self.obp1
        &&& s.mode == self.mode && s.current_clock == self.current_clock
        &&& s.vblank_interrupt == self.vblank_interrupt && s.stat_interrupt == self.stat_interrupt
        &&& s.prev_interrupt_line == self.prev_interrupt_line
        &&& s.frame_ready == self.frame_ready && s.ppu_disabled == self.ppu_disabled
    }

    /// A snapshot of the PPU (without the screen).
    pub fn create_state(&self) -> (s: PPUState)
        requires
            self.wf(),
        ensures
            s.valid(),
            self.described_by(s),
    {
        PPUState {
            lcdc: self.lcdc,
            ly: self.ly,
            lyc: self.lyc,
            stat: self.stat,
            scy: self.scy,
            scx: self.scx,
            wy: self.wy,
            wx: self.wx,
            window_line_counter: self.window_line_counter,
            window_in_frame: self.window_in_frame,
            window_in_line: self.window_in_line,
            object_buffer: copy_objects(&self.object_buffer),
            bgp: self.bgp,
            obp0: self.obp0,
            obp1: self.obp1,
            vram: self.vram,
            oam: self.oam,
            mode: self.mode,
            current_clock: self.current_clock,
            vblank_interrupt: self.vblank_interrupt,
            stat_interrupt: self.stat_interrupt,
            prev_interrupt_line: self.prev_interrupt_line,
            frame_ready: self.frame_ready,
            ppu_disabled: self.ppu_disabled,
        }
    }

    /// Restores a snapshot; the screen is kept.
    pub fn load_state(&mut self, s: PPUState)
        requires
            s.valid(),
        ensures
            final(self).wf(),
            final(self).object_buffer@ == s.object_buffer@,
            *final(self) == (PPU {
                lcdc: s.lcdc,
                ly: s.ly,
                lyc: s.lyc,
                stat: s.stat,
                scy: s.scy,
                scx: s.scx,
                wy: s.wy,
                wx: s.wx,
                window_line_counter: s.window_line_counter,
                window_in_frame: s.window_in_frame,
                window_in_line: s.window_in_line,
                object_buffer: final(self).object_buffer,
                bgp: s.bgp,
                obp0: s.obp0,
                obp1: s.obp1,
                vram: s.vram,
                oam: s.oam,
                mode: s.mode,
                current_clock: s.current_clock,
                vblank_interrupt: s.vblank_interrupt,
                stat_interrupt: s.stat_interrupt,
                prev_interrupt_line: s.prev_interrupt_line,
                frame_ready: s.frame_ready,
                ppu_disabled: s.ppu_disabled,
                ..*old(self)
            }),
    {
        self.lcdc = s.lcdc;
        self.ly = s.ly;
        self.lyc = s.lyc;
        self.stat = s.stat;
        self.scy = s.scy;
        self.scx = s.scx;
        self.wy = s.wy;
        self.wx = s.wx;
        self.window_line_counter = s.window_line_counter;
        self.window_in_frame = s.window_in_frame;
        self.window_in_line = s.window_in_line;
        self.object_buffer = s.object_buffer;
        self.bgp = s.bgp;
        self.obp0 = s.obp0;
        self.obp1 = s.obp1;
        self.vram = s.vram;
        self.oam = s.oam;
        self.mode = s.mode;
        self.current_clock = s.current_clock;
        self.vblank_interrupt = s.vblank_interrupt;
        self.stat_interrupt = s.stat_interrupt;
        self.prev_interrupt_line = s.prev_interrupt_line;
        self.frame_ready = s.frame_ready;
        self.ppu_disabled = s.ppu_disabled;
    }
}

impl APU {
    /// The snapshot that describes this APU.
    pub open spec fn snapshot(self) -> APUState {
        APUState {
            channel1: self.channel1,
            channel2: self.channel2,
            channel3: self.channel3,
            channel4: self.channel4,
            mute_channels: self.mute_channels,
            nr50: self.nr50,
            nr51: self.nr51,
            nr52: self.nr52,
            div_apu: self.div_apu,
            prev_div_apu: self.prev_div_apu,
            internal_cycles: self.internal_cycles,
            is_mute: self.is_mute,
        }
    }

    /// This APU with the registers and channels that snapshot `s` describes; the pending
    /// samples stay.
    pub open spec fn restored(self, s: APUState) -> APU {
        APU {
            channel1: s.channel1,
            channel2: s.channel2,
            channel3: s.channel3,
            channel4: s.channel4,
            mute_channels: s.mute_channels,
            nr50: s.nr50,
            nr51: s.nr51,
            nr52: s.nr52,
            div_apu: s.div_apu,
            prev_div_apu: s.prev_div_apu,
            internal_cycles: s.internal_cycles,
            is_mute: s.is_mute,
            ..self
        }
    }

    /// A snapshot of the sound registers and channels.
    pub fn create_state(&self) -> (s: APUState)
        requires
            self.wf(),
        ensures
            s.valid(),
            s == self.snapshot(),
    {
        APUState {
            channel1: PulseChannel { ..self.channel1 },
            channel2: PulseChannel { ..self.channel2 },
            channel3: WaveChannel { ..self.channel3 },
            channel4: NoiseChannel { ..self.channel4 },
            mute_channels: self.mute_channels,
            nr50: self.nr50,
            nr51: self.nr51,
            nr52: self.nr52,
            div_apu: self.div_apu,
            prev_div_apu: self.prev_div_apu,
            internal_cycles: self.internal_cycles,
            is_mute: self.is_mute,
        }
    }

    /// Restores a snapshot; the pending output samples are kept.
    pub fn load_state(&mut self, s: APUState)
        requires
            s.valid(),
        ensures
            final(self).wf(),
            *final(self) == old(self).restored(s),
    {
        self.channel1 = s.channel1;
        self.channel2 = s.channel2;
        self.channel3 = s.channel3;
        self.channel4 = s.channel4;
        self.mute_channels = s.mute_channels;
        self.nr50 = s.nr50;
        self.nr51 = s.nr51;
        self.nr52 = s.nr52;
        self.div_apu = s.div_apu;
        self.prev_div_apu = s.prev_div_apu;
        self.internal_cycles = s.internal_cycles;
        self.is_mute = s.is_mute;
    }
}

impl Bus {
    /// A snapshot of the memory map, the PPU and the APU.
    pub fn create_state(&self) -> (s: BusState)
        requires
            self.wf(),
        ensures
            s.valid(),
            s.mmu_state == self.mmu.snapshot(),
            self.ppu.described_by(s.ppu_state),
            s.apu_state == self.apu.snapshot(),
    {
        BusState {
            mmu_state: self.mmu.create_state(),
            ppu_state: self.ppu.create_state(),
            apu_state: self.apu.create_state(),
        }
    }

    /// Restores a snapshot; the cartridge, the screen and the pending samples are kept.
    pub fn load_state(&mut self, s: BusState)
        requires
            old(self).wf(),
            s.valid(),
        ensures
            final(self).wf(),
            final(self).mmu == old(self).mmu.restored(s.mmu_state),
            final(self).ppu.described_by(s.ppu_state),
            final(self).ppu.screen_buffer == old(self).ppu.screen_buffer,
            final(self).ppu.active_layers == old(self).ppu.active_layers,
            final(self).apu == old(self).apu.restored(s.apu_state),
            *final(self) == (Bus { mmu: final(self).mmu, ppu: final(self).ppu, apu: final(self).apu, ..*old(self) }),
    {
        self.mmu.load_state(s.mmu_state);
        self.ppu.load_state(s.ppu_state);
        self.apu.load_state(s.apu_state);
    }
}


/// Restoring the snapshot of a CPU gives the same CPU.
pub proof fn lemma_cpu_state_round_trip(c: CPU)
    ensures
        c.restored(c.snapshot()) == c,
{
}

/// Restoring the snapshot of a memory map gives the same memory map.
pub proof fn lemma_mmu_state_round_trip(m: MMU)
    ensures
        m.restored(m.snapshot()) == m,
{
}

/// Restoring the snapshot of an APU gives the same APU.
pub proof fn lemma_apu_state_round_trip(a: APU)
    ensures
        a.restored(a.snapshot()) == a,
{
}

/// Loading the snapshot of a bus back into it gives the same bus: every component is as it
/// was, the object buffer holding the same objects.
pub proof fn lemma_bus_state_round_trip(b: Bus, s: BusState, d: Bus)
    requires
        s.mmu_state == b.mmu.snapshot(),
        b.ppu.described_by(s.ppu_state),
        s.apu_state == b.apu.snapshot(),
        d.mmu == b.mmu.restored(s.mmu_state),
        d.ppu.described_by(s.ppu_state),
        d.ppu.screen_buffer == b.ppu.screen_buffer,
        d.ppu.active_layers == b.ppu.active_layers,
        d.apu == b.apu.restored(s.apu_state),
        d == (Bus { mmu: d.mmu, ppu: d.ppu, apu: d.apu, ..b }),
    ensures
        d.mmu == b.mmu,
        d.apu == b.apu,
        d.ppu.object_buffer@ == b.ppu.object_buffer@,
        d.ppu == (PPU { object_buffer: d.ppu.object_buffer, ..b.ppu }),
        d == (Bus { ppu: d.ppu, ..b }),
{
}

/// A snapshot is valid exactly when the CPU it describes keeps the CPU invariant.
pub proof fn lemma_cpu_state_valid(c: CPU)
    ensures
        c.snapshot().valid() == c.wf(),
{
}

} // verus!
