use vstd::prelude::*;
use crate::bits::lemma_byte;

verus! {

/// The four duty-cycle waveforms of the pulse channels.
pub const WAVE_FORMS: [[u8; 8]; 4] = [
    [0, 0, 0, 0, 0, 0, 0, 1],
    [1, 0, 0, 0, 0, 0, 0, 1],
    [1, 0, 0, 0, 0, 1, 1, 1],
    [0, 1, 1, 1, 1, 1, 1, 0],
];

/// The output (0 or 1) of duty waveform `form` at step `step`.
pub open spec fn wave_form_bit(form: int, step: int) -> u8 {
    if form == 0 {
        if step == 7 { 1 } else { 0 }
    } else if form == 1 {
        if step == 0 || step == 7 { 1 } else { 0 }
    } else if form == 2 {
        if step == 0 || step >= 5 { 1 } else { 0 }
    } else {
        if step == 0 || step == 7 { 0 } else { 1 }
    }
}

/// The five registers NRx0..NRx4 of one sound channel.
#[derive(Clone, Copy, Debug)]
pub struct SoundRegisters {
    pub nrx0: u8,
    pub nrx1: u8,
    pub nrx2: u8,
    pub nrx3: u8,
    pub nrx4: u8,
}

impl SoundRegisters {
    pub open spec fn is_zero(&self) -> bool {
        self.nrx0 == 0 && self.nrx1 == 0 && self.nrx2 == 0 && self.nrx3 == 0 && self.nrx4 == 0
    }

    /// Sets every register to zero.
    pub fn clear(&mut self)
        ensures
            final(self).is_zero(),
    {
        self.nrx0 = 0;
        self.nrx1 = 0;
        self.nrx2 = 0;
        self.nrx3 = 0;
        self.nrx4 = 0;
    }
}

/// The 11-bit period held in NRx3 (low byte) and the low three bits of NRx4.
pub open spec fn period_of(reg: SoundRegisters) -> u16 {
    ((reg.nrx4 % 8) as u16 * 256 + reg.nrx3 as u16) as u16
}

/// The length counter is enabled by bit 6 of NRx4.
pub open spec fn length_enabled(reg: SoundRegisters) -> bool {
    (reg.nrx4 / 64) % 2 == 1
}

/// Bit 7 of a register written to NRx4 triggers the channel.
pub open spec fn triggers(value: u8) -> bool {
    value >= 128
}

/// The length-counter step taken on a DIV-APU tick: it counts down on even ticks while enabled
/// and switches the channel off when it reaches zero.
pub open spec fn length_clock(div_apu: u8, enabled: bool, len: int, active: bool) -> (int, bool) {
    if div_apu % 2 == 0 && enabled && len > 0 {
        (len - 1, if len - 1 == 0 { false } else { active })
    } else {
        (len, active)
    }
}

/// The volume-envelope step taken on a DIV-APU tick: (new volume timer, new volume).
pub open spec fn envelope_clock(div_apu: u8, nrx2: u8, volume_timer: u8, volume: u8) -> (u8, u8) {
    if div_apu % 8 == 0 && nrx2 % 8 != 0 {
        let t1: u8 = if volume_timer > 0 { (volume_timer - 1) as u8 } else { 0 };
        if t1 == 0 {
            let v: u8 = if (nrx2 / 8) % 2 == 0 {
                if volume > 0 { (volume - 1) as u8 } else { volume }
            } else {
                if volume < 15 { (volume + 1) as u8 } else { volume }
            };
            (nrx2 % 8, v)
        } else {
            (t1, volume)
        }
    } else {
        (volume_timer, volume)
    }
}

fn get_period(reg: &SoundRegisters) -> (f: u16)
    ensures
        f == period_of(*reg),
        f <= 0x7FF,
{
    let f = (reg.nrx4 as u16 & 0b111) << 8 | (reg.nrx3 as u16);
    let hi = reg.nrx4;
    let lo = reg.nrx3;
    assert(((hi as u16 & 7u16) << 8u16 | lo as u16) == ((hi % 8) as u16 * 256 + lo as u16) as u16)
        by (bit_vector);
    f
}

fn length_bit(reg: &SoundRegisters) -> (b: bool)
    ensures
        b == length_enabled(*reg),
{
    let v = reg.nrx4;
    assert(((v >> 6u8) & 1u8 == 1u8) == ((v / 64) % 2 == 1)) by { lemma_byte(v); }
    (reg.nrx4 >> 6) & 0x01 == 1
}

fn envelope_step(div_apu: u8, nrx2: u8, volume_timer: u8, volume: u8) -> (r: (u8, u8))
    requires
        volume <= 15,
    ensures
        r == envelope_clock(div_apu, nrx2, volume_timer, volume),
        r.1 <= 15,
{
    assert((nrx2 & 7u8) == nrx2 % 8) by { lemma_byte(nrx2); }
    assert(((nrx2 & 8u8) == 0u8) == ((nrx2 / 8) % 2 == 0)) by { lemma_byte(nrx2); }
    if div_apu % 8 == 0 && nrx2 & 0b111 != 0 {
        let t1 = if volume_timer > 0 { volume_timer - 1 } else { 0 };
        if t1 == 0 {
            let v = if nrx2 & 0x08 == 0 {
                if volume > 0 { volume - 1 } else { volume }
            } else {
                if volume < 0xF { volume + 1 } else { volume }
            };
            (nrx2 & 0b111, v)
        } else {
            (t1, volume)
        }
    } else {
        (volume_timer, volume)
    }
}

/// Which of the two pulse channels this is (only the first one has a frequency sweep).
#[derive(Clone, Copy, Debug, PartialEq, Eq, Structural)]
pub enum ChannelType {
    Pulse1,
    Pulse2,
}

/// A square-wave channel.
#[derive(Clone, Copy, Debug)]
pub struct PulseChannel {
    pub reg: SoundRegisters,
    pub channel: ChannelType,
    pub volume: u8,
    pub frequency_timer: u16,
    pub duty_step: u8,
    pub len_timer: u8,
    pub volume_timer: u8,
    pub sweep_timer: u8,
    pub active: bool,
}

/// The frequency that the sweep unit computes from `freq` and NR10.
pub open spec fn sweep_target(freq: u16, nrx0: u8) -> int {
    let delta = (freq >> (nrx0 % 8) as u16) as int;
    if (nrx0 / 8) % 2 == 0 { freq + delta } else { freq - delta }
}

impl PulseChannel {
    /// The channel's invariant: the period timer never sits at zero, and the duty step and
    /// volume are in range.
    pub open spec fn wf(&self) -> bool {
        self.frequency_timer >= 1 && self.duty_step < 8 && self.volume <= 15
    }

    pub open spec fn dac_on(&self) -> bool {
        self.reg.nrx2 >= 8
    }

    /// The power-on state of a pulse channel.
    pub open spec fn initial(channel: ChannelType) -> PulseChannel {
        PulseChannel {
            reg: if channel == ChannelType::Pulse1 {
                SoundRegisters { nrx0: 0x80, nrx1: 0xBF, nrx2: 0xF3, nrx3: 0xFF, nrx4: 0xBF }
            } else {
                SoundRegisters { nrx0: 0, nrx1: 0x3F, nrx2: 0, nrx3: 0xFF, nrx4: 0xBF }
            },
            channel,
            volume: 0,
            frequency_timer: 0x7FF,
            duty_step: 0,
            len_timer: 0,
            volume_timer: 0,
            sweep_timer: 0,
            active: false,
        }
    }

    pub fn new(channel: ChannelType) -> (c: PulseChannel)
        ensures
            c.wf(),
            c == PulseChannel::initial(channel),
            c.channel == channel,
            channel == ChannelType::Pulse1 ==> c.reg.nrx0 == 0x80 && c.reg.nrx1 == 0xBF
                && c.reg.nrx2 == 0xF3 && c.reg.nrx3 == 0xFF && c.reg.nrx4 == 0xBF,
            channel == ChannelType::Pulse2 ==> c.reg.nrx0 == 0 && c.reg.nrx1 == 0x3F
                && c.reg.nrx2 == 0 && c.reg.nrx3 == 0xFF && c.reg.nrx4 == 0xBF,
            c.volume == 0,
            c.frequency_timer == 0x7FF,
            c.duty_step == 0,
            c.len_timer == 0,
            c.volume_timer == 0,
            c.sweep_timer == 0,
            !c.active,
    {
        let reg = match channel {
            ChannelType::Pulse1 => SoundRegisters {
                nrx0: 0x80,
                nrx1: 0xBF,
                nrx2: 0xF3,
                nrx3: 0xFF,
                nrx4: 0xBF,
            },
            ChannelType::Pulse2 => SoundRegisters {
                nrx0: 0,
                nrx1: 0x3F,
                nrx2: 0x00,
                nrx3: 0xFF,
                nrx4: 0xBF,
            },
        };
        PulseChannel {
            reg,
            channel,
            volume: 0,
            frequency_timer: 0x7FF,
            duty_step: 0,
            len_timer: 0,
            volume_timer: 0,
            sweep_timer: 0,
            active: false,
        }
    }

    /// The channel one T-cycle later: the period timer counts down and, when it runs out, is
    /// reloaded while the waveform moves to its next step.
    pub open spec fn stepped(self) -> PulseChannel {
        if self.frequency_timer == 1 {
            PulseChannel {
                frequency_timer: ((2048 - period_of(self.reg)) * 4) as u16,
                duty_step: ((self.duty_step + 1) % 8) as u8,
                ..self
            }
        } else {
            PulseChannel { frequency_timer: (self.frequency_timer - 1) as u16, ..self }
        }
    }

    /// Advances the period timer by one T-cycle.
    pub fn duty_cycle(&mut self)
        requires
            old(self).wf(),
        ensures
            final(self).wf(),
            *final(self) == old(self).stepped(),
    {
        self.frequency_timer = self.frequency_timer - 1;
        if self.frequency_timer == 0 {
            self.frequency_timer = (2048 - get_period(&self.reg)) * 4;
            self.duty_step = (self.duty_step + 1) % 8;
        }
    }

    /// The channel after one DIV-APU step: the length counter, the frequency sweep (first
    /// channel only) and the volume envelope are clocked.
    pub open spec fn clocked(self, div_apu: u8) -> PulseChannel {
        let (len1, active1) = length_clock(div_apu, length_enabled(self.reg), self.len_timer as int, self.active);
        let sweeping = div_apu % 4 == 0 && self.channel == ChannelType::Pulse1 && (self.reg.nrx0 / 16) % 8 != 0;
        let st1: u8 = if self.sweep_timer > 0 { (self.sweep_timer - 1) as u8 } else { 0 };
        let fires = sweeping && st1 == 0;
        let target = sweep_target(period_of(self.reg), self.reg.nrx0);
        let env = envelope_clock(div_apu, self.reg.nrx2, self.volume_timer, self.volume);
        PulseChannel {
            len_timer: len1 as u8,
            sweep_timer: if !sweeping { self.sweep_timer } else if fires { ((self.reg.nrx0 / 16) % 8) as u8 } else { st1 },
            active: active1 && !(fires && (self.reg.nrx0 / 8) % 2 == 0 && target > 0x7FF),
            reg: SoundRegisters {
                nrx3: if fires { (target % 256) as u8 } else { self.reg.nrx3 },
                nrx4: if fires { self.reg.nrx4 | ((target / 256) % 8) as u8 } else { self.reg.nrx4 },
                ..self.reg
            },
            volume_timer: env.0,
            volume: env.1,
            ..self
        }
    }

    /// Clocks the length counter, the frequency sweep and the volume envelope.
    pub fn tick(&mut self, div_apu: u8)
        requires
            old(self).wf(),
        ensures
            final(self).wf(),
            *final(self) == old(self).clocked(div_apu),
    {
        // Length counter
        if div_apu % 2 == 0 && length_bit(&self.reg) && self.len_timer > 0 {
            self.len_timer = self.len_timer - 1;
            if self.len_timer == 0 {
                self.active = false;
            }
        }
        // Frequency sweep (first channel only)
        let nrx0 = self.reg.nrx0;
        assert(((nrx0 & 0x70u8) >> 4u8) == (nrx0 / 16) % 8) by { lemma_byte(nrx0); }
        assert((nrx0 & 7u8) == nrx0 % 8) by { lemma_byte(nrx0); }
        assert((((nrx0 >> 3u8) & 1u8) == 0u8) == ((nrx0 / 8) % 2 == 0)) by { lemma_byte(nrx0); }
        if div_apu % 4 == 0 && self.channel == ChannelType::Pulse1 {
            let sweep_pace = (self.reg.nrx0 & 0x70) >> 4;
            if sweep_pace != 0 {
                if self.sweep_timer > 0 {
                    self.sweep_timer = self.sweep_timer - 1;
                }
                if self.sweep_timer == 0 {
                    self.sweep_timer = sweep_pace;
                    let frequency = get_period(&self.reg);
                    let sweep_step = self.reg.nrx0 & 0b111;
                    let delta = frequency >> (sweep_step as u16);
                    assert(delta <= frequency) by (bit_vector)
                        requires delta == frequency >> (sweep_step as u16);
                    let new_frequency = if (self.reg.nrx0 >> 3) & 0x01 == 0 {
                        frequency + delta
                    } else {
                        frequency - delta
                    };
                    if (self.reg.nrx0 >> 3) & 0x01 == 0 && new_frequency > 0x7FF {
                        self.active = false;
                    }
                    assert((new_frequency as u8) == new_frequency % 256) by (bit_vector);
                    assert(((new_frequency & 0x700u16) >> 8u16) as u8 == ((new_frequency / 256) % 8) as u8)
                        by (bit_vector);
                    self.reg.nrx3 = new_frequency as u8;
                    self.reg.nrx4 = self.reg.nrx4 | ((new_frequency & 0x700) >> 8) as u8;
                }
            }
        }
        // Volume envelope
        let (vt, v) = envelope_step(div_apu, self.reg.nrx2, self.volume_timer, self.volume);
        self.volume_timer = vt;
        self.volume = v;
    }

    /// The output level: the duty waveform's bit at the current step times the volume.
    pub open spec fn output_level(self) -> u8 {
        (wave_form_bit((self.reg.nrx1 / 64) as int, self.duty_step as int) * self.volume) as u8
    }

    /// The digital output level (0..15) of the channel at its current duty step; the
    /// frontend turns it into an analog sample when the DAC is on.
    pub fn level(&self) -> (l: u8)
        requires
            self.wf(),
        ensures
            l == self.output_level(),
            l <= 15,
    {
        let form = ((self.reg.nrx1 >> 6) & 0b11) as usize;
        let nrx1 = self.reg.nrx1;
        assert(((nrx1 >> 6u8) & 3u8) == nrx1 / 64) by { lemma_byte(nrx1); }
        let bit = WAVE_FORMS[form][self.duty_step as usize];
        assert(bit == wave_form_bit(form as int, self.duty_step as int));
        assert(bit <= 1);
        assert(bit * self.volume <= 15) by (nonlinear_arith)
            requires bit <= 1, self.volume <= 15;
        bit * self.volume
    }

    /// Reads register NRx`register` as the CPU sees it (unused bits read as 1).
    pub fn get_reg(&self, register: u8) -> (v: u8)
        requires
            register <= 4,
        ensures
            register == 0 ==> v == (if self.channel == ChannelType::Pulse1 { self.reg.nrx0 | 0x80 } else { 0xFF }),
            register == 1 ==> v == self.reg.nrx1 | 0x3F,
            register == 2 ==> v == self.reg.nrx2,
            register == 3 ==> v == 0xFF,
            register == 4 ==> v == self.reg.nrx4 | 0xBF,
    {
        let nrx3 = self.reg.nrx3;
        assert(nrx3 | 0xFFu8 == 0xFFu8) by { lemma_byte(nrx3); }
        match register {
            0 => match self.channel {
                ChannelType::Pulse1 => self.reg.nrx0 | 0x80,
                ChannelType::Pulse2 => 0xFF,
            },
            1 => self.reg.nrx1 | 0x3F,
            2 => self.reg.nrx2,
            3 => self.reg.nrx3 | 0xFF,
            _ => self.reg.nrx4 | 0xBF,
        }
    }

    /// The channel as the trigger (bit 7 of NRx4) leaves it.
    pub open spec fn triggered(self) -> PulseChannel {
        PulseChannel {
            len_timer: if self.len_timer == 0 { 64 } else { self.len_timer },
            volume_timer: self.reg.nrx2 % 8,
            volume: self.reg.nrx2 / 16,
            frequency_timer: ((2048 - period_of(self.reg)) * 4) as u16,
            sweep_timer: 0,
            active: self.active || self.reg.nrx2 >= 8,
            ..self
        }
    }

    /// The channel after the CPU writes `value` to NRx`register`.
    pub open spec fn written(self, register: u8, value: u8) -> PulseChannel {
        if register == 0 {
            PulseChannel { reg: SoundRegisters { nrx0: value, ..self.reg }, ..self }
        } else if register == 1 {
            PulseChannel {
                reg: SoundRegisters { nrx1: value, ..self.reg },
                len_timer: (64 - value % 64) as u8,
                ..self
            }
        } else if register == 2 {
            PulseChannel {
                reg: SoundRegisters { nrx2: value, ..self.reg },
                active: self.active && value >= 8,
                ..self
            }
        } else if register == 3 {
            PulseChannel { reg: SoundRegisters { nrx3: value, ..self.reg }, ..self }
        } else {
            let c = PulseChannel { reg: SoundRegisters { nrx4: value, ..self.reg }, ..self };
            if triggers(value) { c.triggered() } else { c }
        }
    }

    /// Writes register NRx`register`.
    pub fn set_reg(&mut self, register: u8, value: u8)
        requires
            old(self).wf(),
            register <= 4,
        ensures
            final(self).wf(),
            *final(self) == old(self).written(register, value),
    {
        assert((value & 0x3Fu8) == value % 64) by { lemma_byte(value); }
        assert((value & 0xF8u8 != 0u8) == (value >= 8)) by { lemma_byte(value); }
        assert((((value >> 7u8) & 1u8) == 1u8) == (value >= 128)) by { lemma_byte(value); }
        match register {
            0 => self.reg.nrx0 = value,
            1 => {
                self.reg.nrx1 = value;
                let six_bits = value & 0x3F;
                self.len_timer = 64 - six_bits;
            },
            2 => {
                self.reg.nrx2 = value;
                if !self.dac_status() {
                    self.active = false;
                }
            },
            3 => self.reg.nrx3 = value,
            _ => {
                self.reg.nrx4 = value;
                if (self.reg.nrx4 >> 7) & 0x1 == 1 {
                    self.trigger();
                }
            },
        }
    }

    /// The channel with its registers cleared, its duty step reset and switched off.
    pub open spec fn cleared(self) -> PulseChannel {
        PulseChannel { reg: SoundRegisters { nrx0: 0, nrx1: 0, nrx2: 0, nrx3: 0, nrx4: 0 }, duty_step: 0, active: false, ..self }
    }

    /// Clears the registers and switches the channel off.
    pub fn clear(&mut self)
        requires
            old(self).wf(),
        ensures
            final(self).wf(),
            *final(self) == old(self).cleared(),
            final(self).reg.is_zero(),
            final(self).duty_step == 0,
            !final(self).active,
            final(self).channel == old(self).channel,
            final(self).volume == old(self).volume,
            final(self).frequency_timer == old(self).frequency_timer,
            final(self).len_timer == old(self).len_timer,
            final(self).volume_timer == old(self).volume_timer,
            final(self).sweep_timer == old(self).sweep_timer,
    {
        self.reg.clear();
        self.duty_step = 0;
        self.active = false;
    }

    /// The DAC is on when the upper five bits of NRx2 are not all zero.
    pub fn dac_status(&self) -> (b: bool)
        ensures
            b == self.dac_on(),
    {
        let v = self.reg.nrx2;
        assert((v & 0xF8u8 != 0u8) == (v >= 8)) by { lemma_byte(v); }
        self.reg.nrx2 & 0xF8 != 0
    }

    fn trigger(&mut self)
        requires
            old(self).wf(),
        ensures
            final(self).wf(),
            *final(self) == old(self).triggered(),
    {
        if self.len_timer == 0 {
            self.len_timer = 64;
        }
        let nrx2 = self.reg.nrx2;
        assert((nrx2 & 7u8) == nrx2 % 8) by { lemma_byte(nrx2); }
        assert(((nrx2 & 0xF0u8) >> 4u8) == nrx2 / 16) by { lemma_byte(nrx2); }
        self.volume_timer = self.reg.nrx2 & 0b111;
        self.volume = (self.reg.nrx2 & 0xF0) >> 4;
        self.frequency_timer = (2048 - get_period(&self.reg)) * 4;
        self.sweep_timer = 0;
        if self.dac_status() {
            self.active = true;
        }
    }
}

/// The programmable-waveform channel.
#[derive(Clone, Copy, Debug)]
pub struct WaveChannel {
    pub reg: SoundRegisters,
    pub wave_pattern: [u8; 16],
    pub wave_index: u8,
    pub frequency_timer: u16,
    pub len_timer: u16,
    pub active: bool,
}

/// The 4-bit sample at position `index` (0..31) of the wave pattern RAM: high nibble first.
pub open spec fn wave_nibble(pattern: Seq<u8>, index: u8) -> u8 {
    if index % 2 == 0 {
        pattern[(index / 2) as int] / 16
    } else {
        pattern[(index / 2) as int] % 16
    }
}

/// A 4-bit sample scaled by the output-level code in bits 5-6 of NR32.
pub open spec fn wave_scaled(raw: u8, nrx2: u8) -> u8 {
    let code = (nrx2 / 32) % 4;
    if code == 0 {
        0
    } else if code == 1 {
        raw
    } else if code == 2 {
        raw / 2
    } else {
        raw / 4
    }
}

impl WaveChannel {
    pub open spec fn wf(&self) -> bool {
        self.frequency_timer >= 1 && self.wave_index < 32
    }

    pub open spec fn dac_on(&self) -> bool {
        self.reg.nrx0 >= 128
    }

    /// Whether the channel is in its power-on state.
    pub open spec fn is_initial(&self) -> bool {
        &&& self.reg == SoundRegisters { nrx0: 0x7F, nrx1: 0xFF, nrx2: 0x9F, nrx3: 0xFF, nrx4: 0xBF }
        &&& forall|i: int| 0 <= i < 16 ==> self.wave_pattern[i] == 0
        &&& self.wave_index == 0
        &&& self.frequency_timer == 0x7FF
        &&& self.len_timer == 0
        &&& !self.active
    }

    pub fn new() -> (c: WaveChannel)
        ensures
            c.wf(),
            c.is_initial(),
            c.reg.nrx0 == 0x7F && c.reg.nrx1 == 0xFF && c.reg.nrx2 == 0x9F && c.reg.nrx3 == 0xFF
                && c.reg.nrx4 == 0xBF,
            forall|i: int| 0 <= i < 16 ==> c.wave_pattern[i] == 0,
            c.wave_index == 0,
            c.frequency_timer == 0x7FF,
            c.len_timer == 0,
            !c.active,
    {
        let reg = SoundRegisters { nrx0: 0x7F, nrx1: 0xFF, nrx2: 0x9F, nrx3: 0xFF, nrx4: 0xBF };
        WaveChannel {
            reg,
            wave_pattern: [0; 16],
            wave_index: 0,
            frequency_timer: 0x7FF,
            len_timer: 0,
            active: false,
        }
    }

    /// The channel one T-cycle later: the period timer counts down and, when it runs out, is
    /// reloaded while the channel moves to the next 4-bit sample.
    pub open spec fn stepped(self) -> WaveChannel {
        if self.frequency_timer == 1 {
            WaveChannel {
                frequency_timer: ((2048 - period_of(self.reg)) * 2) as u16,
                wave_index: ((self.wave_index + 1) % 32) as u8,
                ..self
            }
        } else {
            WaveChannel { frequency_timer: (self.frequency_timer - 1) as u16, ..self }
        }
    }

    /// Advances the period timer by one T-cycle.
    pub fn duty_cycle(&mut self)
        requires
            old(self).wf(),
        ensures
            final(self).wf(),
            *final(self) == old(self).stepped(),
    {
        self.frequency_timer = self.frequency_timer - 1;
        if self.frequency_timer == 0 {
            self.frequency_timer = (2048 - get_period(&self.reg)) * 2;
            self.wave_index = (self.wave_index + 1) % 32;
        }
    }

    /// The output level: the current 4-bit sample scaled by the output-level code.
    pub open spec fn output_level(self) -> u8 {
        wave_scaled(wave_nibble(self.wave_pattern@, self.wave_index), self.reg.nrx2)
    }

    /// The digital output level of the current sample after the volume shift; the frontend
    /// turns it into an analog sample when the DAC is on.
    pub fn level(&self) -> (l: u8)
        requires
            self.wf(),
        ensures
            l == self.output_level(),
            l <= 15,
    {
        let byte = self.wave_pattern[(self.wave_index / 2) as usize];
        assert(((byte & 0xF0u8) >> 4u8) == byte / 16) by { lemma_byte(byte); }
        assert((byte & 0x0Fu8) == byte % 16) by { lemma_byte(byte); }
        let raw = if self.wave_index % 2 == 0 {
            (byte & 0xF0) >> 4
        } else {
            byte & 0x0F
        };
        let nrx2 = self.reg.nrx2;
        assert(((nrx2 & 0x60u8) >> 5u8) == (nrx2 / 32) % 4) by { lemma_byte(nrx2); }
        assert((raw >> 1u8) == raw / 2) by { lemma_byte(raw); }
        assert((raw >> 2u8) == raw / 4) by { lemma_byte(raw); }
        let code = (self.reg.nrx2 & 0x60) >> 5;
        if code == 0 {
            0
        } else if code == 1 {
            raw
        } else if code == 2 {
            raw >> 1
        } else {
            raw >> 2
        }
    }

    /// The channel after one DIV-APU step: only the length counter is clocked.
    pub open spec fn clocked(self, div_apu: u8) -> WaveChannel {
        let (len1, active1) = length_clock(div_apu, length_enabled(self.reg), self.len_timer as int, self.active);
        WaveChannel { len_timer: len1 as u16, active: active1, ..self }
    }

    /// Clocks the length counter for one DIV-APU step.
    pub fn tick(&mut self, div_apu: u8)
        requires
            old(self).wf(),
        ensures
            final(self).wf(),
            *final(self) == old(self).clocked(div_apu),
    {
        if div_apu % 2 == 0 && length_bit(&self.reg) && self.len_timer > 0 {
            self.len_timer = self.len_timer - 1;
            if self.len_timer == 0 {
                self.active = false;
            }
        }
    }

    /// Reads register NR3`register` as the CPU sees it.
    pub fn get_reg(&self, register: u8) -> (v: u8)
        requires
            register <= 4,
        ensures
            register == 0 ==> v == self.reg.nrx0 | 0x7F,
            register == 1 ==> v == 0xFF,
            register == 2 ==> v == self.reg.nrx2 | 0x9F,
            register == 3 ==> v == 0xFF,
            register == 4 ==> v == self.reg.nrx4 | 0xBF,
    {
        let a = self.reg.nrx1;
        let b = self.reg.nrx3;
        assert(a | 0xFFu8 == 0xFFu8) by { lemma_byte(a); }
        assert(b | 0xFFu8 == 0xFFu8) by { lemma_byte(b); }
        match register {
            0 => self.reg.nrx0 | 0x7F,
            1 => self.reg.nrx1 | 0xFF,
            2 => self.reg.nrx2 | 0x9F,
            3 => self.reg.nrx3 | 0xFF,
            _ => self.reg.nrx4 | 0xBF,
        }
    }

    /// The channel as the trigger (bit 7 of NR34) leaves it.
    pub open spec fn triggered(self) -> WaveChannel {
        WaveChannel {
            len_timer: if self.len_timer == 0 { 256 } else { self.len_timer },
            frequency_timer: ((2048 - period_of(self.reg)) * 2) as u16,
            wave_index: 1,
            active: self.active || self.reg.nrx0 >= 128,
            ..self
        }
    }

    /// The channel after the CPU writes `value` to NR3`register`.
    pub open spec fn written(self, register: u8, value: u8) -> WaveChannel {
        if register == 0 {
            WaveChannel {
                reg: SoundRegisters { nrx0: value, ..self.reg },
                active: self.active && value >= 128,
                ..self
            }
        } else if register == 1 {
            WaveChannel {
                reg: SoundRegisters { nrx1: value, ..self.reg },
                len_timer: (256 - value) as u16,
                ..self
            }
        } else if register == 2 {
            WaveChannel { reg: SoundRegisters { nrx2: value, ..self.reg }, ..self }
        } else if register == 3 {
            WaveChannel { reg: SoundRegisters { nrx3: value, ..self.reg }, ..self }
        } else {
            let c = WaveChannel { reg: SoundRegisters { nrx4: value, ..self.reg }, ..self };
            if triggers(value) { c.triggered() } else { c }
        }
    }

    /// Writes register NR3`register`.
    pub fn set_reg(&mut self, register: u8, value: u8)
        requires
            old(self).wf(),
            register <= 4,
        ensures
            final(self).wf(),
            *final(self) == old(self).written(register, value),
    {
        assert((((value >> 7u8) & 1u8) == 1u8) == (value >= 128)) by { lemma_byte(value); }
        match register {
            0 => {
                self.reg.nrx0 = value;
                if !self.dac_status() {
                    self.active = false;
                }
            },
            1 => {
                self.reg.nrx1 = value;
                self.len_timer = 256 - (value as u16);
            },
            2 => self.reg.nrx2 = value,
            3 => self.reg.nrx3 = value,
            _ => {
                self.reg.nrx4 = value;
                if (self.reg.nrx4 >> 7) & 0x01 == 1 {
                    self.trigger();
                }
            },
        }
    }

    /// The DAC is on when bit 7 of NR30 is set.
    pub fn dac_status(&self) -> (b: bool)
        ensures
            b == self.dac_on(),
    {
        let v = self.reg.nrx0;
        assert((((v >> 7u8) & 1u8) == 1u8) == (v >= 128)) by { lemma_byte(v); }
        (self.reg.nrx0 >> 7) & 0x1 == 1
    }

    /// The channel with its registers cleared and switched off.
    pub open spec fn cleared(self) -> WaveChannel {
        WaveChannel { reg: SoundRegisters { nrx0: 0, nrx1: 0, nrx2: 0, nrx3: 0, nrx4: 0 }, active: false, ..self }
    }

    /// Clears the registers and switches the channel off.
    pub fn clear(&mut self)
        requires
            old(self).wf(),
        ensures
            final(self).wf(),
            *final(self) == old(self).cleared(),
            final(self).reg.is_zero(),
            !final(self).active,
            final(self).wave_pattern == old(self).wave_pattern,
            final(self).wave_index == old(self).wave_index,
            final(self).frequency_timer == old(self).frequency_timer,
            final(self).len_timer == old(self).len_timer,
    {
        self.reg.clear();
        self.active = false;
    }

    fn trigger(&mut self)
        requires
            old(self).wf(),
        ensures
            final(self).wf(),
            *final(self) == old(self).triggered(),
    {
        if self.len_timer == 0 {
            self.len_timer = 256;
        }
        self.frequency_timer = (2048 - get_period(&self.reg)) * 2;
        self.wave_index = 1;
        if self.dac_status() {
            self.active = true;
        }
    }
}

/// The noise channel.
#[derive(Clone, Copy, Debug)]
pub struct NoiseChannel {
    pub reg: SoundRegisters,
    pub lsfr: u16,
    pub len_timer: u8,
    pub frequency_timer: u16,
    pub volume: u8,
    pub volume_timer: u8,
    pub active: bool,
}

/// The clock divisor chosen by the low three bits of NR43.
pub open spec fn noise_divisor(nrx3: u8) -> u16 {
    if nrx3 % 8 == 0 { 8 } else { ((nrx3 % 8) * 16) as u16 }
}

/// One step of the linear-feedback shift register; `short_mode` also copies the feedback
/// bit into bit 6.
pub open spec fn lfsr_step(l: u16, short_mode: bool) -> u16 {
    let x: u16 = (l & 1) ^ ((l >> 1) & 1);
    let l1: u16 = ((l >> 1) & !(1u16 << 14u16)) | (x << 14u16);
    if short_mode { (l1 & !(1u16 << 6u16)) | (x << 6u16) } else { l1 }
}

impl NoiseChannel {
    pub open spec fn wf(&self) -> bool {
        self.volume <= 15
    }

    pub open spec fn dac_on(&self) -> bool {
        self.reg.nrx2 >= 8
    }

    /// The power-on state of the noise channel.
    pub open spec fn initial() -> NoiseChannel {
        NoiseChannel {
            reg: SoundRegisters { nrx0: 0, nrx1: 0xFF, nrx2: 0, nrx3: 0, nrx4: 0xBF },
            lsfr: 0,
            len_timer: 0,
            frequency_timer: 112,
            volume: 0,
            volume_timer: 0,
            active: false,
        }
    }

    pub fn new() -> (c: NoiseChannel)
        ensures
            c.wf(),
            c == NoiseChannel::initial(),
            c.reg.nrx0 == 0 && c.reg.nrx1 == 0xFF && c.reg.nrx2 == 0 && c.reg.nrx3 == 0
                && c.reg.nrx4 == 0xBF,
            c.lsfr == 0,
            c.len_timer == 0,
            c.frequency_timer == 112,
            c.volume == 0,
            c.volume_timer == 0,
            !c.active,
    {
        let reg = SoundRegisters { nrx0: 0, nrx1: 0xFF, nrx2: 0x00, nrx3: 0x00, nrx4: 0xBF };
        // The initial divisor is taken from the low bits of NR44 (7), times 16, shifted by
        // the clock shift in NR43 (0).
        let base_divisor: u16 = if reg.nrx4 & 0b111 == 0 {
            8
        } else {
            (reg.nrx4 as u16 & 0b111) * 16
        };
        let shift_amount = (reg.nrx3 & 0xF0) >> 4;
        assert((0xBFu8 & 7u8) == 7u8) by (bit_vector);
        assert((0xBFu16 & 7u16) == 7u16) by (bit_vector);
        assert(((0u8 & 0xF0u8) >> 4u8) == 0u8) by (bit_vector);
        assert((112u16 << 0u16) == 112u16) by (bit_vector);
        let frequency_timer = base_divisor << (shift_amount as u16);
        NoiseChannel {
            reg,
            lsfr: 0,
            len_timer: 0,
            frequency_timer,
            volume: 0,
            volume_timer: 0,
            active: false,
        }
    }

    fn get_divisor(&self) -> (d: u16)
        ensures
            d == noise_divisor(self.reg.nrx3),
    {
        let v = self.reg.nrx3;
        assert((v & 7u8) == v % 8) by { lemma_byte(v); }
        assert((v as u16 & 7u16) == (v % 8) as u16) by (bit_vector);
        if self.reg.nrx3 & 0b111 == 0 {
            8
        } else {
            (self.reg.nrx3 as u16 & 0b111) * 16
        }
    }

    fn shift_amount(&self) -> (s: u16)
        ensures
            s == (self.reg.nrx3 / 16) as u16,
            s < 16,
    {
        let v = self.reg.nrx3;
        assert(((v & 0xF0u8) >> 4u8) == v / 16) by { lemma_byte(v); }
        ((self.reg.nrx3 & 0xF0) >> 4) as u16
    }

    /// The channel one T-cycle later: the period timer counts down (wrapping) and, when it
    /// reaches zero, is reloaded while the shift register steps once.
    pub open spec fn stepped(self) -> NoiseChannel {
        if self.frequency_timer == 1 {
            NoiseChannel {
                frequency_timer: noise_divisor(self.reg.nrx3) << ((self.reg.nrx3 / 16) as u16),
                lsfr: lfsr_step(self.lsfr, (self.reg.nrx3 / 8) % 2 == 1),
                ..self
            }
        } else {
            NoiseChannel { frequency_timer: ((self.frequency_timer + 0xFFFF) % 0x10000) as u16, ..self }
        }
    }

    /// Advances the period timer by one T-cycle.
    pub fn duty_cycle(&mut self)
        requires
            old(self).wf(),
        ensures
            final(self).wf(),
            *final(self) == old(self).stepped(),
    {
        self.frequency_timer = self.frequency_timer.wrapping_sub(1);
        if self.frequency_timer == 0 {
            let base_divisor = self.get_divisor();
            let shift_amount = self.shift_amount();
            self.frequency_timer = base_divisor << shift_amount;

            let l = self.lsfr;
            let xor_result = (l & 0b01) ^ ((l & 0b10) >> 1);
            let mut n = (l >> 1) & !(1u16 << 14);
            n = n | (xor_result << 14);
            let nrx3 = self.reg.nrx3;
            assert(((nrx3 & 8u8) != 0u8) == ((nrx3 / 8) % 2 == 1)) by { lemma_byte(nrx3); }
            assert(((l & 1u16) ^ ((l & 2u16) >> 1u16)) == ((l & 1u16) ^ ((l >> 1u16) & 1u16))) by (bit_vector);
            if self.reg.nrx3 & 0x08 != 0 {
                n = n & !(1u16 << 6);
                n = n | (xor_result << 6);
            }
            self.lsfr = n;
        }
    }

    /// The channel after one DIV-APU step: the length counter and the volume envelope are
    /// clocked.
    pub open spec fn clocked(self, div_apu: u8) -> NoiseChannel {
        let (len1, active1) = length_clock(div_apu, length_enabled(self.reg), self.len_timer as int, self.active);
        let env = envelope_clock(div_apu, self.reg.nrx2, self.volume_timer, self.volume);
        NoiseChannel { len_timer: len1 as u8, active: active1, volume_timer: env.0, volume: env.1, ..self }
    }

    /// Clocks the length counter and the volume envelope for one DIV-APU step.
    pub fn tick(&mut self, div_apu: u8)
        requires
            old(self).wf(),
        ensures
            final(self).wf(),
            *final(self) == old(self).clocked(div_apu),
    {
        if div_apu % 2 == 0 && length_bit(&self.reg) && self.len_timer > 0 {
            self.len_timer = self.len_timer - 1;
            if self.len_timer == 0 {
                self.active = false;
            }
        }
        let (vt, v) = envelope_step(div_apu, self.reg.nrx2, self.volume_timer, self.volume);
        self.volume_timer = vt;
        self.volume = v;
    }

    /// The output level: the volume while bit 0 of the shift register is clear, else zero.
    pub open spec fn output_level(self) -> u8 {
        if self.lsfr % 2 == 0 { self.volume } else { 0 }
    }

    /// The digital output level: the volume while bit 0 of the shift register is clear,
    /// zero otherwise; the frontend turns it into an analog sample when the DAC is on.
    pub fn level(&self) -> (l: u8)
        requires
            self.wf(),
        ensures
            l == self.output_level(),
    {
        let l = self.lsfr;
        assert((((!l) as u8) & 1u8) == (if l % 2 == 0 { 1u8 } else { 0u8 })) by (bit_vector);
        let bit = (!self.lsfr) as u8 & 0x01;
        bit * self.volume
    }

    /// Reads register NR4`register` as the CPU sees it.
    pub fn get_reg(&self, register: u8) -> (v: u8)
        requires
            register <= 4,
        ensures
            register == 0 ==> v == 0xFF,
            register == 1 ==> v == 0xFF,
            register == 2 ==> v == self.reg.nrx2,
            register == 3 ==> v == self.reg.nrx3,
            register == 4 ==> v == self.reg.nrx4 | 0xBF,
    {
        let a = self.reg.nrx1;
        let b = self.reg.nrx2;
        let c = self.reg.nrx3;
        assert(a | 0xFFu8 == 0xFFu8) by { lemma_byte(a); }
        assert(b | 0u8 == b) by { lemma_byte(b); }
        assert(c | 0u8 == c) by { lemma_byte(c); }
        match register {
            0 => 0xFF,
            1 => self.reg.nrx1 | 0xFF,
            2 => self.reg.nrx2 | 0x00,
            3 => self.reg.nrx3 | 0x00,
            _ => self.reg.nrx4 | 0xBF,
        }
    }

    /// The channel as the trigger (bit 7 of NR44) leaves it.
    pub open spec fn triggered(self) -> NoiseChannel {
        NoiseChannel {
            len_timer: if self.len_timer == 0 { 64 } else { self.len_timer },
            lsfr: 0xFFFF,
            volume_timer: self.reg.nrx2 % 8,
            volume: self.reg.nrx2 / 16,
            frequency_timer: noise_divisor(self.reg.nrx3) << ((self.reg.nrx3 / 16) as u16),
            active: self.active || self.reg.nrx2 >= 8,
            ..self
        }
    }

    /// The channel after the CPU writes `value` to NR4`register`.
    pub open spec fn written(self, register: u8, value: u8) -> NoiseChannel {
        if register == 0 {
            self
        } else if register == 1 {
            NoiseChannel {
                reg: SoundRegisters { nrx1: value, ..self.reg },
                len_timer: (64 - value % 64) as u8,
                ..self
            }
        } else if register == 2 {
            NoiseChannel {
                reg: SoundRegisters { nrx2: value, ..self.reg },
                active: self.active && value >= 8,
                ..self
            }
        } else if register == 3 {
            NoiseChannel { reg: SoundRegisters { nrx3: value, ..self.reg }, ..self }
        } else {
            let c = NoiseChannel { reg: SoundRegisters { nrx4: value, ..self.reg }, ..self };
            if triggers(value) { c.triggered() } else { c }
        }
    }

    /// Writes register NR4`register`.
    pub fn set_reg(&mut self, register: u8, value: u8)
        requires
            old(self).wf(),
            register <= 4,
        ensures
            final(self).wf(),
            *final(self) == old(self).written(register, value),
    {
        assert((value & 0x3Fu8) == value % 64) by { lemma_byte(value); }
        assert((((value >> 7u8) & 1u8) == 1u8) == (value >= 128)) by { lemma_byte(value); }
        match register {
            0 => (),
            1 => {
                self.reg.nrx1 = value;
                let six_bits = value & 0x3F;
                self.len_timer = 64 - six_bits;
            },
            2 => {
                self.reg.nrx2 = value;
                if !self.dac_status() {
                    self.active = false;
                }
            },
            3 => self.reg.nrx3 = value,
            _ => {
                self.reg.nrx4 = value;
                if (self.reg.nrx4 >> 7) & 0x01 == 1 {
                    self.trigger();
                }
            },
        }
    }

    /// The DAC is on when the upper five bits of NR42 are not all zero.
    pub fn dac_status(&self) -> (b: bool)
        ensures
            b == self.dac_on(),
    {
        let v = self.reg.nrx2;
        assert((v & 0xF8u8 != 0u8) == (v >= 8)) by { lemma_byte(v); }
        self.reg.nrx2 & 0xF8 != 0
    }

    /// The channel with its registers cleared and switched off.
    pub open spec fn cleared(self) -> NoiseChannel {
        NoiseChannel { reg: SoundRegisters { nrx0: 0, nrx1: 0, nrx2: 0, nrx3: 0, nrx4: 0 }, active: false, ..self }
    }

    /// Clears the registers and switches the channel off.
    pub fn clear(&mut self)
        requires
            old(self).wf(),
        ensures
            final(self).wf(),
            *final(self) == old(self).cleared(),
            final(self).reg.is_zero(),
            !final(self).active,
            final(self).lsfr == old(self).lsfr,
            final(self).len_timer == old(self).len_timer,
            final(self).frequency_timer == old(self).frequency_timer,
            final(self).volume == old(self).volume,
            final(self).volume_timer == old(self).volume_timer,
    {
        self.reg.clear();
        self.active = false;
    }

    fn trigger(&mut self)
        requires
            old(self).wf(),
        ensures
            final(self).wf(),
            *final(self) == old(self).triggered(),
    {
        if self.len_timer == 0 {
            self.len_timer = 64;
        }
        self.lsfr = 0xFFFF;
        let nrx2 = self.reg.nrx2;
        assert((nrx2 & 7u8) == nrx2 % 8) by { lemma_byte(nrx2); }
        assert(((nrx2 & 0xF0u8) >> 4u8) == nrx2 / 16) by { lemma_byte(nrx2); }
        self.volume_timer = self.reg.nrx2 & 0b111;
        self.volume = (self.reg.nrx2 & 0xF0) >> 4;
        let base_divisor = self.get_divisor();
        let shift_amount = self.shift_amount();
        self.frequency_timer = base_divisor << shift_amount;
        if self.dac_status() {
            self.active = true;
        }
    }
}

} // verus!
