use vstd::prelude::*;
use crate::bits::lemma_byte;

pub mod channels;

use crate::apu::channels::{ChannelType, NoiseChannel, PulseChannel, WaveChannel};

verus! {

/// How many APU cycles separate two output samples.
pub const SAMPLE_PERIOD: u16 = 95;

/// What each of the four channels contributes to one output sample: `Some(level)` when the
/// channel is active, not muted and its DAC is on (the frontend maps the level to an analog
/// value), `None` when it is silent.
#[derive(Clone, Copy, Debug, PartialEq, Eq, Structural)]
pub struct SampleFrame {
    pub ch1: Option<u8>,
    pub ch2: Option<u8>,
    pub ch3: Option<u8>,
    pub ch4: Option<u8>,
}

/// The audio processing unit: four channels and the master registers NR50..NR52.
pub struct APU {
    pub channel1: PulseChannel,
    pub channel2: PulseChannel,
    pub channel3: WaveChannel,
    pub channel4: NoiseChannel,
    pub mute_channels: [bool; 4],
    pub nr50: u8,
    pub nr51: u8,
    pub nr52: u8,
    pub div_apu: u8,
    pub prev_div_apu: u8,
    pub internal_cycles: u16,
    pub is_mute: bool,
    /// Output samples produced since the frontend last drained them.
    pub samples: Vec<SampleFrame>,
}

pub open spec fn contribution(active: bool, muted: bool, dac: bool, level: u8) -> Option<u8> {
    if active && !muted && dac { Some(level) } else { None }
}

impl APU {
    pub open spec fn wf(&self) -> bool {
        &&& self.channel1.wf()
        &&& self.channel2.wf()
        &&& self.channel3.wf()
        &&& self.channel4.wf()
        &&& self.channel1.channel == ChannelType::Pulse1
        &&& self.channel2.channel == ChannelType::Pulse2
        &&& self.internal_cycles <= SAMPLE_PERIOD
    }

    /// The APU is powered while bit 7 of NR52 is set.
    pub open spec fn enabled(&self) -> bool {
        self.nr52 >= 128
    }

    /// The sample that the current channel state produces.
    pub open spec fn frame(&self) -> SampleFrame {
        if self.is_mute {
            SampleFrame { ch1: None, ch2: None, ch3: None, ch4: None }
        } else {
            SampleFrame {
                ch1: contribution(self.channel1.active, self.mute_channels[0], self.channel1.dac_on(), self.channel1.output_level()),
                ch2: contribution(self.channel2.active, self.mute_channels[1], self.channel2.dac_on(), self.channel2.output_level()),
                ch3: contribution(self.channel3.active, self.mute_channels[2], self.channel3.dac_on(), self.channel3.output_level()),
                ch4: contribution(self.channel4.active, self.mute_channels[3], self.channel4.dac_on(), self.channel4.output_level()),
            }
        }
    }

    /// The power-on state of the registers and channels (the mute settings are not part of it).
    pub open spec fn is_reset(&self) -> bool {
        &&& self.wf()
        &&& self.channel1 == PulseChannel::initial(ChannelType::Pulse1)
        &&& self.channel2 == PulseChannel::initial(ChannelType::Pulse2)
        &&& self.channel3.is_initial()
        &&& self.channel4 == NoiseChannel::initial()
        &&& self.nr50 == 0x77
        &&& self.nr51 == 0xF3
        &&& self.nr52 == 0xF1
        &&& self.div_apu == 0
        &&& self.prev_div_apu == 0
        &&& self.internal_cycles == 0
        &&& self.samples@.len() == 0
    }

    pub fn new() -> (apu: APU)
        ensures
            apu.is_reset(),
            forall|i: int| 0 <= i < 4 ==> !apu.mute_channels[i],
            !apu.is_mute,
    {
        APU {
            channel1: PulseChannel::new(ChannelType::Pulse1),
            channel2: PulseChannel::new(ChannelType::Pulse2),
            channel3: WaveChannel::new(),
            channel4: NoiseChannel::new(),
            mute_channels: [false; 4],
            nr50: 0x77,
            nr51: 0xF3,
            nr52: 0xF1,
            div_apu: 0,
            prev_div_apu: 0,
            internal_cycles: 0,
            is_mute: false,
            samples: Vec::new(),
        }
    }

    /// Puts the registers and channels back in their power-on state; the mute settings stay.
    pub fn reset(&mut self)
        ensures
            final(self).is_reset(),
            final(self).mute_channels == old(self).mute_channels,
            final(self).is_mute == old(self).is_mute,
    {
        self.channel1 = PulseChannel::new(ChannelType::Pulse1);
        self.channel2 = PulseChannel::new(ChannelType::Pulse2);
        self.channel3 = WaveChannel::new();
        self.channel4 = NoiseChannel::new();
        self.nr50 = 0x77;
        self.nr51 = 0xF3;
        self.nr52 = 0xF1;
        self.div_apu = 0;
        self.prev_div_apu = 0;
        self.internal_cycles = 0;
        self.samples = Vec::new();
    }

    /// Mutes or unmutes the whole output.
    pub fn toggle_mute(&mut self)
        ensures
            final(self).is_mute == !old(self).is_mute,
            final(self).mute_channels == old(self).mute_channels,
            *final(self) == (APU { is_mute: !old(self).is_mute, ..*old(self) }),
    {
        self.is_mute = !self.is_mute;
    }

    /// Mutes or unmutes channel `i` (0..3).
    pub fn toggle_channel(&mut self, i: usize)
        requires
            i < 4,
        ensures
            final(self).mute_channels@ == old(self).mute_channels@.update(i as int, !old(self).mute_channels[i as int]),
            final(self).is_mute == old(self).is_mute,
            *final(self) == (APU { mute_channels: final(self).mute_channels, ..*old(self) }),
    {
        let m = self.mute_channels[i];
        self.mute_channels[i] = !m;
    }

    /// Whether DIV's bit 4 fell between the previous call and this one; that clocks DIV-APU.
    pub open spec fn div_falls(prev_div: u8, div: u8) -> bool {
        (prev_div / 16) % 2 == 1 && (div / 16) % 2 == 0
    }

    /// Advances the APU by one T-cycle. `div` is the current value of the DIV register; a
    /// falling edge of its bit 4 clocks the frame sequencer. Every `SAMPLE_PERIOD` cycles an
    /// output sample is appended to `samples`.
    /// Whether `new` is this APU one T-cycle later, with `div` the current value of DIV: the
    /// channels step, a falling edge of DIV's bit 4 clocks the frame sequencer (while powered),
    /// and every `SAMPLE_PERIOD` cycles an output sample is appended to `samples`.
    pub open spec fn tick_result(self, div: u8, new: APU) -> bool {
        let clock = self.enabled() && APU::div_falls(self.prev_div_apu, div);
        let d: u8 = if clock { ((self.div_apu + 1) % 256) as u8 } else { self.div_apu };
        let c1 = self.channel1.stepped();
        let c2 = self.channel2.stepped();
        let c3 = self.channel3.stepped();
        let c4 = self.channel4.stepped();
        &&& new.wf()
        &&& new.div_apu == d
        &&& new.channel1 == if clock { c1.clocked(d) } else { c1 }
        &&& new.channel2 == if clock { c2.clocked(d) } else { c2 }
        &&& new.channel3 == if clock { c3.clocked(d) } else { c3 }
        &&& new.channel4 == if clock { c4.clocked(d) } else { c4 }
        &&& new.prev_div_apu == div
        &&& new.internal_cycles == if self.internal_cycles >= SAMPLE_PERIOD { 1 } else { self.internal_cycles + 1 }
        &&& new.samples@ == if self.internal_cycles >= SAMPLE_PERIOD {
            self.samples@.push(new.frame())
        } else {
            self.samples@
        }
        &&& new.nr50 == self.nr50
        &&& new.nr51 == self.nr51
        &&& new.nr52 == self.nr52
        &&& new.mute_channels == self.mute_channels
        &&& new.is_mute == self.is_mute
    }

    /// Advances the APU by one T-cycle. `div` is the current value of the DIV register; a
    /// falling edge of its bit 4 clocks the frame sequencer. Every `SAMPLE_PERIOD` cycles an
    /// output sample is appended to `samples`.
    pub fn tick(&mut self, div: u8)
        requires
            old(self).wf(),
        ensures
            final(self).wf(),
            old(self).tick_result(div, *final(self)),
    {
        self.channel1.duty_cycle();
        self.channel2.duty_cycle();
        self.channel3.duty_cycle();
        self.channel4.duty_cycle();

        let prev = self.prev_div_apu;
        assert((((prev >> 4u8) & 1u8) == 1u8) == ((prev / 16) % 2 == 1)) by { lemma_byte(prev); }
        assert((((div >> 4u8) & 1u8) == 0u8) == ((div / 16) % 2 == 0)) by { lemma_byte(div); }
        if self.is_enabled() && (self.prev_div_apu >> 4) & 0x01 == 1 && (div >> 4) & 0x01 == 0 {
            self.div_apu = self.div_apu.wrapping_add(1);
            self.channel1.tick(self.div_apu);
            self.channel2.tick(self.div_apu);
            self.channel3.tick(self.div_apu);
            self.channel4.tick(self.div_apu);
        }
        self.prev_div_apu = div;

        if self.internal_cycles >= SAMPLE_PERIOD {
            self.internal_cycles = 0;
            let frame = self.mix();
            self.samples.push(frame);
        }
        self.internal_cycles = self.internal_cycles + 1;
    }

    /// The current output sample.
    fn mix(&self) -> (f: SampleFrame)
        requires
            self.wf(),
        ensures
            f == self.frame(),
    {
        if self.is_mute {
            return SampleFrame { ch1: None, ch2: None, ch3: None, ch4: None };
        }
        let ch1 = if self.channel1.active && !self.mute_channels[0] && self.channel1.dac_status() {
            Some(self.channel1.level())
        } else {
            None
        };
        let ch2 = if self.channel2.active && !self.mute_channels[1] && self.channel2.dac_status() {
            Some(self.channel2.level())
        } else {
            None
        };
        let ch3 = if self.channel3.active && !self.mute_channels[2] && self.channel3.dac_status() {
            Some(self.channel3.level())
        } else {
            None
        };
        let ch4 = if self.channel4.active && !self.mute_channels[3] && self.channel4.dac_status() {
            Some(self.channel4.level())
        } else {
            None
        };
        SampleFrame { ch1, ch2, ch3, ch4 }
    }

    /// The value the CPU reads from sound register `address` (0xFF10..0xFF3F).
    pub open spec fn register_value(&self, address: u16) -> u8 {
        if address == 0xFF10 { self.channel1.reg.nrx0 | 0x80 }
        else if address == 0xFF11 { self.channel1.reg.nrx1 | 0x3F }
        else if address == 0xFF12 { self.channel1.reg.nrx2 }
        else if address == 0xFF13 { 0xFF }
        else if address == 0xFF14 { self.channel1.reg.nrx4 | 0xBF }
        else if address == 0xFF15 { 0xFF }
        else if address == 0xFF16 { self.channel2.reg.nrx1 | 0x3F }
        else if address == 0xFF17 { self.channel2.reg.nrx2 }
        else if address == 0xFF18 { 0xFF }
        else if address == 0xFF19 { self.channel2.reg.nrx4 | 0xBF }
        else if address == 0xFF1A { self.channel3.reg.nrx0 | 0x7F }
        else if address == 0xFF1B { 0xFF }
        else if address == 0xFF1C { self.channel3.reg.nrx2 | 0x9F }
        else if address == 0xFF1D { 0xFF }
        else if address == 0xFF1E { self.channel3.reg.nrx4 | 0xBF }
        else if address == 0xFF1F { 0xFF }
        else if address == 0xFF20 { 0xFF }
        else if address == 0xFF21 { self.channel4.reg.nrx2 }
        else if address == 0xFF22 { self.channel4.reg.nrx3 }
        else if address == 0xFF23 { self.channel4.reg.nrx4 | 0xBF }
        else if address == 0xFF24 { self.nr50 }
        else if address == 0xFF25 { self.nr51 }
        else if address == 0xFF26 {
            (0x70 + (if self.enabled() { 0x80int } else { 0 }) + (if self.channel1.active { 1int } else { 0 })
                + (if self.channel2.active { 2int } else { 0 }) + (if self.channel3.active { 4int } else { 0 })
                + (if self.channel4.active { 8int } else { 0 })) as u8
        }
        else if address <= 0xFF2F { 0xFF }
        else { self.channel3.wave_pattern[address - 0xFF30] }
    }

    /// Reads sound register `address` (0xFF10..0xFF3F).
    pub fn get_byte(&self, address: u16) -> (v: u8)
        requires
            0xFF10 <= address <= 0xFF3F,
            self.wf(),
        ensures
            v == self.register_value(address),
    {
        match address {
            0xFF10 => self.channel1.get_reg(0),
            0xFF11 => self.channel1.get_reg(1),
            0xFF12 => self.channel1.get_reg(2),
            0xFF13 => self.channel1.get_reg(3),
            0xFF14 => self.channel1.get_reg(4),
            0xFF15 => self.channel2.get_reg(0),
            0xFF16 => self.channel2.get_reg(1),
            0xFF17 => self.channel2.get_reg(2),
            0xFF18 => self.channel2.get_reg(3),
            0xFF19 => self.channel2.get_reg(4),
            0xFF1A => self.channel3.get_reg(0),
            0xFF1B => self.channel3.get_reg(1),
            0xFF1C => self.channel3.get_reg(2),
            0xFF1D => self.channel3.get_reg(3),
            0xFF1E => self.channel3.get_reg(4),
            0xFF1F => self.channel4.get_reg(0),
            0xFF20 => self.channel4.get_reg(1),
            0xFF21 => self.channel4.get_reg(2),
            0xFF22 => self.channel4.get_reg(3),
            0xFF23 => self.channel4.get_reg(4),
            0xFF24 => self.nr50,
            0xFF25 => self.nr51,
            0xFF26 => {
                let mut value: u8 = 0x70;
                if self.is_enabled() {
                    value = value | 0x80;
                }
                if self.channel1.active {
                    value = value | 0x1;
                }
                if self.channel2.active {
                    value = value | 0x2;
                }
                if self.channel3.active {
                    value = value | 0x4;
                }
                if self.channel4.active {
                    value = value | 0x8;
                }
                proof {
                    let e = self.enabled();
                    let a1 = self.channel1.active;
                    let a2 = self.channel2.active;
                    let a3 = self.channel3.active;
                    let a4 = self.channel4.active;
                    lemma_status_bits(e, a1, a2, a3, a4);
                }
                value
            },
            0xFF27..=0xFF2F => 0xFF,
            _ => self.channel3.wave_pattern[(address - 0xFF30) as usize],
        }
    }

    /// The APU after the CPU writes `value` to sound register `address`. Turning the APU
    /// off (bit 7 of NR52 clear) clears every channel and NR50/NR51; while it is off, writes
    /// to anything but NR52 are ignored.
    pub open spec fn written(self, address: u16, value: u8) -> APU {
        if address == 0xFF26 {
            if value >= 128 {
                APU { nr52: value, ..self }
            } else {
                APU {
                    nr52: value,
                    channel1: self.channel1.cleared(),
                    channel2: self.channel2.cleared(),
                    channel3: self.channel3.cleared(),
                    channel4: self.channel4.cleared(),
                    nr50: 0,
                    nr51: 0,
                    ..self
                }
            }
        } else if !self.enabled() {
            self
        } else if 0xFF10 <= address <= 0xFF14 {
            APU { channel1: self.channel1.written((address - 0xFF10) as u8, value), ..self }
        } else if 0xFF16 <= address <= 0xFF19 {
            APU { channel2: self.channel2.written((address - 0xFF15) as u8, value), ..self }
        } else if 0xFF1A <= address <= 0xFF1E {
            APU { channel3: self.channel3.written((address - 0xFF1A) as u8, value), ..self }
        } else if 0xFF20 <= address <= 0xFF23 {
            APU { channel4: self.channel4.written((address - 0xFF1F) as u8, value), ..self }
        } else if address == 0xFF24 {
            APU { nr50: value, ..self }
        } else if address == 0xFF25 {
            APU { nr51: value, ..self }
        } else {
            self
        }
    }

    /// Whether `new` is the APU after the CPU writes `value` to `address`: wave-RAM writes
    /// (while powered) change one byte of the pattern, other writes are described by `written`.
    pub open spec fn write_result(self, address: u16, value: u8, new: APU) -> bool {
        if self.enabled() && 0xFF30 <= address <= 0xFF3F {
            &&& new.channel3.wave_pattern@ == self.channel3.wave_pattern@.update(address - 0xFF30, value)
            &&& new == APU { channel3: WaveChannel { wave_pattern: new.channel3.wave_pattern, ..self.channel3 }, ..self }
        } else {
            new == self.written(address, value)
        }
    }

    /// Writes sound register `address` (0xFF10..0xFF3F).
    pub fn set_byte(&mut self, address: u16, value: u8)
        requires
            0xFF10 <= address <= 0xFF3F,
            old(self).wf(),
        ensures
            final(self).wf(),
            old(self).write_result(address, value, *final(self)),
    {
        if address == 0xFF26 {
            self.nr52 = value;
            if !self.is_enabled() {
                self.channel1.clear();
                self.channel2.clear();
                self.channel3.clear();
                self.channel4.clear();
                self.nr50 = 0;
                self.nr51 = 0;
            }
        }
        if address != 0xFF26 && !self.is_enabled() {
            return;
        }
        match address {
            0xFF10 => self.channel1.set_reg(0, value),
            0xFF11 => self.channel1.set_reg(1, value),
            0xFF12 => self.channel1.set_reg(2, value),
            0xFF13 => self.channel1.set_reg(3, value),
            0xFF14 => self.channel1.set_reg(4, value),
            0xFF15 => (),
            0xFF16 => self.channel2.set_reg(1, value),
            0xFF17 => self.channel2.set_reg(2, value),
            0xFF18 => self.channel2.set_reg(3, value),
            0xFF19 => self.channel2.set_reg(4, value),
            0xFF1A => self.channel3.set_reg(0, value),
            0xFF1B => self.channel3.set_reg(1, value),
            0xFF1C => self.channel3.set_reg(2, value),
            0xFF1D => self.channel3.set_reg(3, value),
            0xFF1E => self.channel3.set_reg(4, value),
            0xFF1F => (),
            0xFF20 => self.channel4.set_reg(1, value),
            0xFF21 => self.channel4.set_reg(2, value),
            0xFF22 => self.channel4.set_reg(3, value),
            0xFF23 => self.channel4.set_reg(4, value),
            0xFF24 => self.nr50 = value,
            0xFF25 => self.nr51 = value,
            0xFF26 => self.nr52 = value,
            0xFF27..=0xFF2F => (),
            _ => {
                let i = (address - 0xFF30) as usize;
                self.channel3.wave_pattern[i] = value;
            },
        }
    }

    /// True while the APU is powered (bit 7 of NR52).
    fn is_enabled(&self) -> (b: bool)
        ensures
            b == self.enabled(),
    {
        let v = self.nr52;
        assert((((v >> 7u8) & 1u8) == 1u8) == (v >= 128)) by { lemma_byte(v); }
        (self.nr52 >> 7) & 0x01 == 1
    }
}

/// The NR52 status byte: 0x70 with bit 7 for power and bits 0..3 for the active channels.
proof fn lemma_status_bits(e: bool, a1: bool, a2: bool, a3: bool, a4: bool)
    ensures
        ({
            let v0: u8 = 0x70;
            let v1: u8 = if e { v0 | 0x80 } else { v0 };
            let v2: u8 = if a1 { v1 | 1 } else { v1 };
            let v3: u8 = if a2 { v2 | 2 } else { v2 };
            let v4: u8 = if a3 { v3 | 4 } else { v3 };
            let v5: u8 = if a4 { v4 | 8 } else { v4 };
            v5 == (0x70 + (if e { 0x80int } else { 0 }) + (if a1 { 1int } else { 0 }) + (if a2 { 2int } else { 0 })
                + (if a3 { 4int } else { 0 }) + (if a4 { 8int } else { 0 })) as u8
        }),
{
    assert({
        let v0: u8 = 0x70;
        let v1: u8 = if e { v0 | 0x80 } else { v0 };
        let v2: u8 = if a1 { v1 | 1 } else { v1 };
        let v3: u8 = if a2 { v2 | 2 } else { v2 };
        let v4: u8 = if a3 { v3 | 4 } else { v3 };
        let v5: u8 = if a4 { v4 | 8 } else { v4 };
        v5 == 0x70u8 + (if e { 0x80u8 } else { 0u8 }) + (if a1 { 1u8 } else { 0u8 }) + (if a2 { 2u8 } else { 0u8 })
            + (if a3 { 4u8 } else { 0u8 }) + (if a4 { 8u8 } else { 0u8 })
    }) by (bit_vector);
}


/// A muted output is silent, and a muted channel contributes nothing to any sample.
pub proof fn lemma_muted_output(apu: APU)
    ensures
        apu.is_mute ==> apu.frame() == (SampleFrame { ch1: None, ch2: None, ch3: None, ch4: None }),
        apu.mute_channels[0] ==> apu.frame().ch1 is None,
        apu.mute_channels[1] ==> apu.frame().ch2 is None,
        apu.mute_channels[2] ==> apu.frame().ch3 is None,
        apu.mute_channels[3] ==> apu.frame().ch4 is None,
{
}

/// While the APU is off, writes to any sound register but NR52 and wave RAM change nothing.
pub proof fn lemma_writes_ignored_when_off(apu: APU, address: u16, value: u8)
    requires
        !apu.enabled(),
        0xFF10 <= address <= 0xFF2F,
        address != 0xFF26,
    ensures
        apu.written(address, value) == apu,
{
}

/// Writing NR52 with bit 7 clear powers the APU off: the channels are cleared and silent.
pub proof fn lemma_power_off_clears(apu: APU, value: u8)
    requires
        value < 128,
    ensures
        !apu.written(0xFF26, value).enabled(),
        !apu.written(0xFF26, value).channel1.active,
        !apu.written(0xFF26, value).channel2.active,
        !apu.written(0xFF26, value).channel3.active,
        !apu.written(0xFF26, value).channel4.active,
        apu.written(0xFF26, value).nr50 == 0,
        apu.written(0xFF26, value).nr51 == 0,
{
}

} // verus!
