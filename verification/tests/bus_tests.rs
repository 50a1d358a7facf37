use rugby::bus::Bus;
use rugby::cartridge::{load, SaveFiles};
use rugby::gb_mode::GBMode;
use rugby::input::Input;

fn booted_bus(gb_mode: GBMode) -> Bus {
    let (cartridge, _) = load(None, SaveFiles { ram: None, rtc: None });
    let mut bus = Bus::new(cartridge);
    bus.initialize(gb_mode);
    bus
}

#[test]
fn work_ram_round_trip_and_echo() {
    let mut bus = booted_bus(GBMode::DMG);
    bus.set_byte(0xC123, 0x5A);
    assert_eq!(bus.get_byte(0xC123), 0x5A);
    assert_eq!(bus.get_byte(0xE123), 0x5A);
    assert_eq!(bus.get_byte(0xC124), 0x00);
    bus.set_byte(0xDFFF, 0x11);
    assert_eq!(bus.get_byte(0xDFFF), 0x11);
}

#[test]
fn echo_writes_are_ignored() {
    let mut bus = booted_bus(GBMode::DMG);
    bus.set_byte(0xE010, 0x77);
    assert_eq!(bus.get_byte(0xC010), 0x00);
    assert_eq!(bus.get_byte(0xE010), 0x00);
}

#[test]
fn high_ram_video_ram_and_oam_round_trip() {
    let mut bus = booted_bus(GBMode::DMG);
    bus.set_byte(0xFF80, 0x01);
    bus.set_byte(0xFFFE, 0x02);
    bus.set_byte(0x8000, 0x03);
    bus.set_byte(0x9FFF, 0x04);
    bus.set_byte(0xFE00, 0x05);
    bus.set_byte(0xFE9F, 0x06);
    assert_eq!(bus.get_byte(0xFF80), 0x01);
    assert_eq!(bus.get_byte(0xFFFE), 0x02);
    assert_eq!(bus.get_byte(0x8000), 0x03);
    assert_eq!(bus.get_byte(0x9FFF), 0x04);
    assert_eq!(bus.get_byte(0xFE00), 0x05);
    assert_eq!(bus.get_byte(0xFE9F), 0x06);
    assert_eq!(bus.ppu.vram[0], 0x03);
    assert_eq!(bus.ppu.oam[0x9F], 0x06);
}

#[test]
fn words_are_little_endian() {
    let mut bus = booted_bus(GBMode::DMG);
    bus.set_byte(0xC000, 0x34);
    bus.set_byte(0xC001, 0x12);
    assert_eq!(bus.get_word(0xC000), 0x1234);
}

#[test]
fn oam_dma_copies_a_page() {
    let mut bus = booted_bus(GBMode::DMG);
    for i in 0..0xA0u16 {
        bus.set_byte(0xC100 + i, i as u8 ^ 0x55);
    }
    assert!(bus.can_write(0xFF46, 0xC1));
    bus.set_byte(0xFF46, 0xC1);
    for i in 0..0xA0usize {
        assert_eq!(bus.ppu.oam[i], i as u8 ^ 0x55);
    }
    assert!(!bus.dma_active);
}

#[test]
fn oam_dma_from_an_unreadable_page_is_not_writable() {
    // An MBC1 cartridge without RAM: once RAM is enabled, external RAM cannot be read.
    let mut rom = vec![0u8; 0x8000];
    rom[0x147] = 0x01;
    let (cartridge, _) = load(Some(rom), SaveFiles { ram: None, rtc: None });
    let mut bus = Bus::new(cartridge);
    bus.initialize(GBMode::DMG);
    assert!(bus.can_write(0xFF46, 0xA0));
    bus.set_byte(0x0000, 0x0A);
    assert!(!bus.can_read(0xA000));
    assert!(!bus.can_write(0xFF46, 0xA0));
    assert!(bus.can_write(0xFF46, 0x80));
    assert!(bus.can_write(0xFF46, 0xFE));
}

#[test]
fn serial_port_sends_the_buffered_byte() {
    let mut bus = booted_bus(GBMode::DMG);
    bus.set_byte(0xFF01, b'H');
    bus.set_byte(0xFF02, 0x81);
    bus.set_byte(0xFF01, b'i');
    bus.set_byte(0xFF02, 0x81);
    assert_eq!(bus.take_serial_output(), b"Hi".to_vec());
    assert!(bus.take_serial_output().is_empty());
}

#[test]
fn writing_div_resets_the_timer() {
    let mut bus = booted_bus(GBMode::DMG);
    assert_eq!(bus.get_byte(0xFF04), 0xAB);
    bus.set_byte(0xFF04, 0x42);
    assert_eq!(bus.get_byte(0xFF04), 0x00);
    assert_eq!(bus.mmu.timer.internal_timer, 0);
}

#[test]
fn timer_registers_are_routed_to_the_timer() {
    let mut bus = booted_bus(GBMode::DMG);
    bus.set_byte(0xFF05, 0x10);
    bus.set_byte(0xFF06, 0x20);
    bus.set_byte(0xFF07, 0x05);
    assert_eq!(bus.mmu.timer.tima, 0x10);
    assert_eq!(bus.mmu.timer.tma, 0x20);
    assert_eq!(bus.mmu.timer.tac, 0x05);
    assert_eq!(bus.get_byte(0xFF07), 0x05);
}

#[test]
fn joypad_register_reads_the_selected_buttons() {
    let mut bus = booted_bus(GBMode::DMG);
    let mut input = Input::new();
    input.right = true;
    input.start = true;
    bus.mmu.store_input(input);
    bus.set_byte(0xFF00, 0x20);
    assert_eq!(bus.get_byte(0xFF00), 0x2E);
    bus.set_byte(0xFF00, 0x10);
    assert_eq!(bus.get_byte(0xFF00), 0x17);
    bus.set_byte(0xFF00, 0x30);
    assert_eq!(bus.get_byte(0xFF00), 0x3F);
    bus.set_byte(0xFF00, 0x00);
    assert_eq!(bus.get_byte(0xFF00), 0x06);
}

#[test]
fn lcd_registers_are_routed_to_the_ppu() {
    let mut bus = booted_bus(GBMode::DMG);
    assert_eq!(bus.get_byte(0xFF40), 0x91);
    assert_eq!(bus.get_byte(0xFF47), 0xFC);
    bus.set_byte(0xFF42, 0x12);
    bus.set_byte(0xFF43, 0x34);
    bus.set_byte(0xFF45, 0x56);
    bus.set_byte(0xFF4A, 0x78);
    bus.set_byte(0xFF4B, 0x9A);
    assert_eq!(bus.ppu.scy, 0x12);
    assert_eq!(bus.ppu.scx, 0x34);
    assert_eq!(bus.ppu.lyc, 0x56);
    assert_eq!(bus.ppu.wy, 0x78);
    assert_eq!(bus.ppu.wx, 0x9A);
    assert_eq!(bus.get_byte(0xFF44), bus.ppu.ly);
}

#[test]
fn color_registers_read_as_ones_on_the_monochrome_console() {
    let mut bus = booted_bus(GBMode::DMG);
    assert_eq!(bus.get_byte(0xFF4D), 0xFF);
    bus.set_byte(0xFF51, 0x12);
    assert_eq!(bus.get_byte(0xFF51), 0xFF);
    assert_eq!(bus.get_byte(0xFF55), 0xFF);
    assert_eq!(bus.get_byte(0xFF68), 0xFF);
    bus.set_byte(0xFF4F, 0x03);
    assert_eq!(bus.get_byte(0xFF4F), 0xFF);
}

#[test]
fn color_registers_on_the_color_console() {
    let mut bus = booted_bus(GBMode::CGB);
    assert_eq!(bus.get_byte(0xFF4D), 0x7E);
    bus.set_byte(0xFF4D, 0x01);
    assert_eq!(bus.get_byte(0xFF4D), 0x7F);
    bus.set_byte(0xFF4F, 0x02);
    assert_eq!(bus.get_byte(0xFF4F), 0xFE);
    bus.set_byte(0xFF68, 0x85);
    assert_eq!(bus.get_byte(0xFF68), 0x85);
    bus.set_byte(0xFF6A, 0x03);
    assert_eq!(bus.get_byte(0xFF6A), 0x03);
}

#[test]
fn general_purpose_vram_dma_copies_at_once() {
    let mut bus = booted_bus(GBMode::CGB);
    for i in 0..0x20u16 {
        bus.set_byte(0xC200 + i, (i as u8).wrapping_mul(3));
    }
    bus.set_byte(0xFF51, 0xC2);
    bus.set_byte(0xFF52, 0x0F);
    bus.set_byte(0xFF53, 0x81);
    bus.set_byte(0xFF54, 0x0F);
    assert!(bus.can_write(0xFF55, 0x01));
    bus.set_byte(0xFF55, 0x01);
    for i in 0..0x20usize {
        assert_eq!(bus.ppu.vram[0x100 + i], (i as u8).wrapping_mul(3));
    }
    assert_eq!(bus.ppu.vram[0x120], 0);
    assert_eq!(bus.get_byte(0xFF55), 0xFF);
}

#[test]
fn hblank_vram_dma_is_armed_and_stopped() {
    let mut bus = booted_bus(GBMode::CGB);
    bus.set_byte(0xFF51, 0xC0);
    bus.set_byte(0xFF52, 0x00);
    bus.set_byte(0xFF53, 0x00);
    bus.set_byte(0xFF54, 0x00);
    bus.set_byte(0xFF55, 0x83);
    assert!(bus.hdma_struct.hdma_active);
    assert_eq!(bus.hdma_struct.hdma_length, 0x40);
    assert_eq!(bus.get_byte(0xFF55), 0x03);
    bus.set_byte(0xFF55, 0x00);
    assert!(!bus.hdma_struct.hdma_active);
}

#[test]
fn one_tick_runs_four_dots() {
    let mut bus = booted_bus(GBMode::DMG);
    let before = bus.ppu.current_clock;
    bus.tick();
    assert_eq!(bus.ppu.current_clock, before + 4);
    assert_eq!(bus.mmu.timer.internal_timer, 0xAB04);
}

#[test]
fn palette_data_goes_to_the_indexed_byte() {
    let mut bus = booted_bus(GBMode::CGB);
    // Background index 0x3F with auto-increment: two writes fill 0x3F, then wrap to 0.
    bus.set_byte(0xFF68, 0xBF);
    bus.set_byte(0xFF69, 0x11);
    bus.set_byte(0xFF69, 0x22);
    assert_eq!(bus.bg_palette[0x3F], 0x11);
    assert_eq!(bus.bg_palette[0], 0x22);
    assert_eq!(bus.bgpi, 0x81);
    // Object index 5 without auto-increment: the same byte is written twice.
    bus.set_byte(0xFF6A, 0x05);
    bus.set_byte(0xFF6B, 0x33);
    bus.set_byte(0xFF6B, 0x44);
    assert_eq!(bus.obj_palette[5], 0x44);
    assert_eq!(bus.obpi, 0x05);
    assert_eq!(bus.bg_palette[5], 0x00);
}

#[test]
fn hblank_dma_copies_one_block_per_hblank() {
    let mut bus = booted_bus(GBMode::CGB);
    for i in 0..32u16 {
        bus.set_byte(0xC000 + i, (i + 1) as u8);
    }
    // Source 0xC000, destination 0x8000, two blocks, HBlank mode.
    bus.set_byte(0xFF51, 0xC0);
    bus.set_byte(0xFF52, 0x00);
    bus.set_byte(0xFF53, 0x00);
    bus.set_byte(0xFF54, 0x00);
    bus.set_byte(0xFF55, 0x81);
    assert!(bus.hdma_struct.hdma_active);
    assert_eq!(bus.get_byte(0xFF55), 0x01);
    let mut ticks = 0;
    while bus.hdma_struct.hdma_index == 0 && ticks < 1000 {
        bus.tick();
        ticks += 1;
    }
    for i in 0..16 {
        assert_eq!(bus.ppu.vram[i], (i + 1) as u8);
    }
    assert_eq!(bus.ppu.vram[16], 0);
    assert!(bus.hdma_struct.hdma_active);
    while bus.hdma_struct.hdma_active && ticks < 2000 {
        bus.tick();
        ticks += 1;
    }
    for i in 0..32 {
        assert_eq!(bus.ppu.vram[i], (i + 1) as u8);
    }
    assert_eq!(bus.get_byte(0xFF55), 0xFF);
}

#[test]
fn an_hblank_dma_past_the_end_of_vram_is_refused() {
    let mut bus = booted_bus(GBMode::CGB);
    bus.set_byte(0xFF53, 0x1F);
    bus.set_byte(0xFF54, 0xF0);
    assert!(bus.can_write(0xFF55, 0x80));
    assert!(!bus.can_write(0xFF55, 0x81));
}
