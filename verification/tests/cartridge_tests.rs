use rugby::cartridge::mbc1::MBC1;
use rugby::cartridge::mbc2::MBC2;
use rugby::cartridge::mbc3::{Clock, SavedMbc3, MBC3};
use rugby::cartridge::mbc5::MBC5;
use rugby::cartridge::romonly::RomOnly;
use rugby::cartridge::{bank_mask, load, AnyCartridge, Cartridge, SaveFiles};
use rugby::gb_mode::GBMode;

/// A ROM of `banks` 16 KiB banks whose every byte holds its bank number.
fn banked_rom(banks: usize) -> Vec<u8> {
    let mut rom = Vec::new();
    for bank in 0..banks {
        rom.extend(std::iter::repeat(bank as u8).take(0x4000));
    }
    rom
}

fn no_saves() -> SaveFiles {
    SaveFiles { ram: None, rtc: None }
}

#[test]
fn rom_only_reads_the_rom_and_ignores_writes() {
    let mut rom = vec![0u8; 0x200];
    rom[0x150] = 0x42;
    let mut cart = RomOnly::new(&rom);
    assert_eq!(cart.read(0x150), 0x42);
    assert_eq!(cart.read(0x7FFF), 0x00);
    assert_eq!(cart.read(0xA000), 0xFF);
    cart.write(0x150, 0x99);
    assert_eq!(cart.read(0x150), 0x42);
}

#[test]
fn bank_masks() {
    assert_eq!(bank_mask(0), 0);
    assert_eq!(bank_mask(1), 0);
    assert_eq!(bank_mask(2), 1);
    assert_eq!(bank_mask(3), 3);
    assert_eq!(bank_mask(4), 3);
    assert_eq!(bank_mask(64), 63);
}

#[test]
fn mbc1_switches_rom_banks() {
    let mut cart = MBC1::new(&banked_rom(8), 0, None);
    assert_eq!(cart.read(0x0000), 0);
    assert_eq!(cart.read(0x4000), 1);
    cart.write(0x2000, 3);
    assert_eq!(cart.read(0x4000), 3);
    assert_eq!(cart.read(0x7FFF), 3);
    cart.write(0x2000, 0);
    assert_eq!(cart.read(0x4000), 1);
    cart.write(0x2000, 0x0A);
    assert_eq!(cart.read(0x4000), 2);
}

#[test]
fn mbc1_ram_needs_enabling() {
    let mut cart = MBC1::new(&banked_rom(2), 1, None);
    assert_eq!(cart.read(0xA000), 0xFF);
    cart.write(0xA000, 0x12);
    cart.write(0x0000, 0x0A);
    assert_eq!(cart.read(0xA000), 0x00);
    cart.write(0xA000, 0x12);
    assert_eq!(cart.read(0xA000), 0x12);
    cart.write(0x0000, 0x00);
    assert_eq!(cart.read(0xA000), 0xFF);
    assert_eq!(cart.ram[0], 0x12);
}

#[test]
fn mbc1_advanced_mode_banks_the_ram() {
    let mut cart = MBC1::new(&banked_rom(2), 4, None);
    cart.write(0x0000, 0x0A);
    cart.write(0x6000, 0x01);
    cart.write(0x4000, 0x02);
    cart.write(0xA005, 0x77);
    assert_eq!(cart.ram[2 * 0x2000 + 5], 0x77);
    assert_eq!(cart.read(0xA005), 0x77);
    cart.write(0x4000, 0x00);
    assert_eq!(cart.read(0xA005), 0x00);
}

#[test]
fn mbc1_keeps_saved_ram() {
    let cart = MBC1::new(&banked_rom(2), 1, Some(vec![9u8; 0x2000]));
    assert_eq!(cart.ram.len(), 0x2000);
    assert_eq!(cart.ram[100], 9);
}

#[test]
fn mbc2_ram_keeps_four_bits() {
    let mut cart = MBC2::new(&banked_rom(4), None);
    cart.write(0x0000, 0x0A);
    cart.write(0xA010, 0x05);
    assert_eq!(cart.read(0xA010), 0xF5);
    assert_eq!(cart.read(0xA210), 0xF5);
    cart.write(0x0100, 0x02);
    assert_eq!(cart.read(0x4000), 2);
    cart.write(0x0000, 0x00);
    assert_eq!(cart.read(0xA010), 0xFF);
}

#[test]
fn mbc2_restores_the_first_bytes_of_a_save() {
    let cart = MBC2::new(&banked_rom(2), Some(vec![0xF3u8; 600]));
    assert_eq!(cart.ram[0], 0xF3);
    assert_eq!(cart.ram[511], 0xF3);
    let short = MBC2::new(&banked_rom(2), Some(vec![0xF1u8; 10]));
    assert_eq!(short.ram[9], 0xF1);
    assert_eq!(short.ram[10], 0x00);
}

#[test]
fn mbc3_banks_rom_and_ram() {
    let mut cart = MBC3::new(&banked_rom(8), 4, None, false);
    assert_eq!(cart.read(0x4000), 1);
    cart.write(0x2000, 5);
    assert_eq!(cart.read(0x4000), 5);
    cart.write(0x0000, 0x0A);
    cart.write(0x4000, 0x03);
    cart.write(0xA001, 0x66);
    assert_eq!(cart.read(0xA001), 0x66);
    assert_eq!(cart.ram[3 * 0x2000 + 1], 0x66);
}

#[test]
fn mbc3_clock_registers_latch_the_second_count() {
    let saved = SavedMbc3 { ram: vec![0u8; 0x2000], clock: Some(vec![0, 0, 0, 0, 0, 0x01, 0x51, 0x81]) };
    let mut cart = MBC3::new(&banked_rom(2), 1, Some(saved), true);
    // 0x15181 = 86401 seconds: one day and one second.
    assert_eq!(cart.clock.as_ref().unwrap().base, 86401);
    cart.write(0x0000, 0x0A);
    cart.write(0x6000, 0x00);
    cart.write(0x6000, 0x01);
    cart.write(0x4000, 0x08);
    assert_eq!(cart.read(0xA000), 1);
    cart.write(0x4000, 0x0B);
    assert_eq!(cart.read(0xA000), 1);
    cart.write(0x4000, 0x0A);
    assert_eq!(cart.read(0xA000), 0);
}

#[test]
fn mbc3_clock_counts_seconds_unless_halted() {
    let mut cart = MBC3::new(&banked_rom(2), 1, None, true);
    cart.update_clock();
    cart.update_clock();
    assert_eq!(cart.clock.as_ref().unwrap().base, 2);
    cart.write(0x0000, 0x0A);
    cart.write(0x4000, 0x0C);
    cart.write(0xA000, 0x40);
    let base = cart.clock.as_ref().unwrap().base;
    cart.update_clock();
    assert_eq!(cart.clock.as_ref().unwrap().base, base);
}

#[test]
fn writing_clock_registers_recomputes_the_count() {
    let mut clock = Clock::new(None);
    clock.seconds = 5;
    clock.minutes = 2;
    clock.hours = 1;
    clock.days_l = 1;
    clock.update_base();
    assert_eq!(clock.base, 5 + 120 + 3600 + 86400);
    clock.update();
    assert_eq!((clock.seconds, clock.minutes, clock.hours, clock.days_l, clock.days_h), (5, 2, 1, 1, 0));
}

#[test]
fn latching_a_large_day_count_sets_the_carry() {
    let mut clock = Clock::new(None);
    clock.base = 600 * 86400;
    clock.update();
    assert_eq!(clock.days_l, (600 % 256) as u8);
    assert_eq!(clock.days_h & 0x81, 0x80);
    let mut clock = Clock::new(None);
    clock.base = 300 * 86400;
    clock.update();
    assert_eq!(clock.days_h & 0x01, 0x01);
}

#[test]
fn mbc5_nine_bit_rom_bank() {
    let mut cart = MBC5::new(&banked_rom(4), 1, None);
    assert_eq!(cart.read(0x4000), 1);
    cart.write(0x2000, 0x02);
    assert_eq!(cart.read(0x4000), 2);
    cart.write(0x2000, 0x00);
    assert_eq!(cart.read(0x4000), 0);
    cart.write(0x3000, 0x01);
    assert_eq!(cart.rom_bank_number, 0x100);
    cart.write(0x0000, 0x0A);
    cart.write(0xA100, 0x31);
    assert_eq!(cart.read(0xA100), 0x31);
}

#[test]
fn loading_picks_the_controller_from_the_header() {
    let mut rom = banked_rom(4);
    rom[0x147] = 0x03;
    rom[0x149] = 0x02;
    rom[0x143] = 0x80;
    let (cart, mode) = load(Some(rom.clone()), SaveFiles { ram: Some(vec![7u8; 0x2000]), rtc: None });
    assert_eq!(mode, GBMode::CGB);
    match cart {
        AnyCartridge::MBC1(c) => assert_eq!(c.ram[0], 7),
        _ => panic!("expected an MBC1 cartridge"),
    }
    rom[0x147] = 0x01;
    rom[0x143] = 0x00;
    let (cart, mode) = load(Some(rom.clone()), SaveFiles { ram: Some(vec![7u8; 0x2000]), rtc: None });
    assert_eq!(mode, GBMode::DMG);
    match cart {
        AnyCartridge::MBC1(c) => {
            assert_eq!(c.ram.len(), 0x2000);
            assert_eq!(c.ram[0], 0);
        }
        _ => panic!("expected an MBC1 cartridge"),
    }
    rom[0x147] = 0x05;
    assert!(matches!(load(Some(rom.clone()), no_saves()).0, AnyCartridge::MBC2(_)));
    rom[0x147] = 0x10;
    match load(Some(rom.clone()), no_saves()).0 {
        AnyCartridge::MBC3(c) => assert!(c.clock.is_some()),
        _ => panic!("expected an MBC3 cartridge"),
    }
    rom[0x147] = 0x11;
    match load(Some(rom.clone()), no_saves()).0 {
        AnyCartridge::MBC3(c) => assert!(c.clock.is_none()),
        _ => panic!("expected an MBC3 cartridge"),
    }
    rom[0x147] = 0x19;
    assert!(matches!(load(Some(rom.clone()), no_saves()).0, AnyCartridge::MBC5(_)));
}

#[test]
fn loading_without_a_rom_gives_an_empty_cartridge() {
    let (cart, mode) = load(None, no_saves());
    assert_eq!(mode, GBMode::DMG);
    match cart {
        AnyCartridge::RomOnly(c) => assert!(c.rom.iter().all(|&b| b == 0)),
        _ => panic!("expected a ROM-only cartridge"),
    }
}
