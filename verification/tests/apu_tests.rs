use rugby::apu::channels::{ChannelType, NoiseChannel, PulseChannel, WaveChannel};
use rugby::apu::{SampleFrame, APU, SAMPLE_PERIOD};

const SILENT: SampleFrame = SampleFrame { ch1: None, ch2: None, ch3: None, ch4: None };

#[test]
fn power_on_registers() {
    let apu = APU::new();
    assert_eq!(apu.get_byte(0xFF24), 0x77);
    assert_eq!(apu.get_byte(0xFF25), 0xF3);
    assert_eq!(apu.get_byte(0xFF26), 0xF0);
    assert_eq!(apu.get_byte(0xFF10), 0x80);
    assert_eq!(apu.get_byte(0xFF11), 0xBF);
    assert_eq!(apu.get_byte(0xFF12), 0xF3);
    assert_eq!(apu.get_byte(0xFF13), 0xFF);
    assert_eq!(apu.get_byte(0xFF1A), 0x7F);
    assert_eq!(apu.get_byte(0xFF1C), 0x9F);
    assert_eq!(apu.get_byte(0xFF27), 0xFF);
}

#[test]
fn a_sample_every_sample_period_plus_one_ticks() {
    let mut apu = APU::new();
    for _ in 0..SAMPLE_PERIOD {
        apu.tick(0);
    }
    assert!(apu.samples.is_empty());
    apu.tick(0);
    assert_eq!(apu.samples.len(), 1);
    assert_eq!(apu.samples[0], SILENT);
    for _ in 0..SAMPLE_PERIOD {
        apu.tick(0);
    }
    assert_eq!(apu.samples.len(), 2);
}

#[test]
fn triggering_a_channel_makes_it_active() {
    let mut apu = APU::new();
    apu.set_byte(0xFF12, 0xF0);
    apu.set_byte(0xFF11, 0x80);
    apu.set_byte(0xFF14, 0x80);
    assert!(apu.channel1.active);
    assert_eq!(apu.channel1.volume, 15);
    assert_eq!(apu.channel1.len_timer, 64);
    assert_eq!(apu.get_byte(0xFF26), 0xF1);
    for _ in 0..=SAMPLE_PERIOD {
        apu.tick(0);
    }
    let sample = apu.samples[0];
    assert!(sample.ch1.is_some());
    assert_eq!(sample.ch2, None);
}

#[test]
fn muting_silences_the_output() {
    let mut apu = APU::new();
    apu.set_byte(0xFF12, 0xF0);
    apu.set_byte(0xFF14, 0x80);
    apu.toggle_channel(0);
    assert!(apu.mute_channels[0]);
    for _ in 0..=SAMPLE_PERIOD {
        apu.tick(0);
    }
    assert_eq!(apu.samples[0].ch1, None);
    apu.toggle_channel(0);
    apu.toggle_mute();
    assert!(apu.is_mute);
    for _ in 0..SAMPLE_PERIOD {
        apu.tick(0);
    }
    assert_eq!(apu.samples[1], SILENT);
}

#[test]
fn powering_off_clears_and_ignores_writes() {
    let mut apu = APU::new();
    apu.set_byte(0xFF12, 0xF0);
    apu.set_byte(0xFF14, 0x80);
    apu.set_byte(0xFF26, 0x00);
    assert_eq!(apu.get_byte(0xFF26), 0x70);
    assert!(!apu.channel1.active);
    assert_eq!(apu.get_byte(0xFF24), 0x00);
    apu.set_byte(0xFF24, 0x55);
    apu.set_byte(0xFF12, 0xF0);
    assert_eq!(apu.get_byte(0xFF24), 0x00);
    assert_eq!(apu.get_byte(0xFF12), 0x00);
    apu.set_byte(0xFF26, 0x80);
    apu.set_byte(0xFF24, 0x55);
    assert_eq!(apu.get_byte(0xFF24), 0x55);
}

#[test]
fn wave_ram_round_trip() {
    let mut apu = APU::new();
    apu.set_byte(0xFF30, 0xAB);
    apu.set_byte(0xFF3F, 0xCD);
    assert_eq!(apu.get_byte(0xFF30), 0xAB);
    assert_eq!(apu.get_byte(0xFF3F), 0xCD);
}

#[test]
fn frame_sequencer_follows_div_bit_four() {
    let mut apu = APU::new();
    apu.tick(0x10);
    assert_eq!(apu.div_apu, 0);
    apu.tick(0x20);
    assert_eq!(apu.div_apu, 1);
    apu.tick(0x20);
    assert_eq!(apu.div_apu, 1);
}

#[test]
fn reset_keeps_the_mute_settings() {
    let mut apu = APU::new();
    apu.toggle_channel(2);
    apu.set_byte(0xFF24, 0x11);
    apu.reset();
    assert!(apu.mute_channels[2]);
    assert_eq!(apu.nr50, 0x77);
}

#[test]
fn pulse_channel_level_follows_the_duty_waveform() {
    let mut ch = PulseChannel::new(ChannelType::Pulse2);
    ch.set_reg(2, 0xA0);
    ch.set_reg(1, 0xC0);
    ch.set_reg(4, 0x80);
    assert!(ch.active);
    assert!(ch.dac_status());
    assert_eq!(ch.duty_step, 0);
    assert_eq!(ch.level(), 0);
    ch.duty_step = 1;
    assert_eq!(ch.level(), 10);
    assert_eq!(ch.get_reg(0), 0xFF);
    assert_eq!(ch.get_reg(1), 0xFF);
    ch.clear();
    assert!(!ch.active);
    assert_eq!(ch.reg.nrx2, 0);
}

#[test]
fn pulse_length_counter_stops_the_channel() {
    let mut ch = PulseChannel::new(ChannelType::Pulse1);
    ch.set_reg(2, 0xF0);
    ch.set_reg(1, 0x3F);
    assert_eq!(ch.len_timer, 1);
    ch.set_reg(4, 0xC0);
    assert!(ch.active);
    ch.tick(2);
    assert!(!ch.active);
}

#[test]
fn wave_channel_plays_nibbles() {
    let mut ch = WaveChannel::new();
    ch.wave_pattern[0] = 0xA5;
    ch.set_reg(0, 0x80);
    ch.set_reg(2, 0x20);
    assert!(ch.dac_status());
    assert_eq!(ch.level(), 0x0A);
    ch.wave_index = 1;
    assert_eq!(ch.level(), 0x05);
    ch.set_reg(2, 0x40);
    assert_eq!(ch.level(), 0x02);
    ch.set_reg(2, 0x00);
    assert_eq!(ch.level(), 0);
}

#[test]
fn noise_channel_shift_register() {
    let mut ch = NoiseChannel::new();
    assert_eq!(ch.frequency_timer, 112);
    ch.frequency_timer = 1;
    ch.lsfr = 0x0001;
    ch.duty_cycle();
    assert_eq!(ch.lsfr, 0x4000);
    assert_eq!(ch.frequency_timer, 8);
    ch.set_reg(2, 0xF0);
    ch.set_reg(4, 0x80);
    assert!(ch.active);
    assert_eq!(ch.volume, 15);
}
