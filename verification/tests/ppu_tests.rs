use rugby::cartridge::SaveFiles;
use rugby::color::{Color, LogicalColor};
use rugby::emulator::Emulator;
use rugby::ppu::{Mode, GB_WIDTH, PPU};

const WHITE: Color = Color::Logical(LogicalColor::White);
const LIGHT_GRAY: Color = Color::Logical(LogicalColor::LightGray);
const DARK_GRAY: Color = Color::Logical(LogicalColor::DarkGray);
const BLACK: Color = Color::Logical(LogicalColor::Black);

fn booted_ppu() -> PPU {
    let mut ppu = PPU::new();
    ppu.initialize();
    ppu
}

fn run_dots(ppu: &mut PPU, n: usize) {
    for _ in 0..n {
        ppu.dot();
    }
}

#[test]
fn post_boot_registers() {
    let ppu = booted_ppu();
    assert_eq!(ppu.lcdc, 0x91);
    assert_eq!(ppu.stat, 0x85);
    assert_eq!(ppu.bgp, 0xFC);
    assert_eq!(ppu.mode, Mode::OAMSearch);
    assert_eq!(ppu.get_screen_buffer()[0], BLACK);
}

#[test]
fn modes_follow_the_line_clock() {
    let mut ppu = booted_ppu();
    run_dots(&mut ppu, 78);
    assert_eq!(ppu.mode, Mode::OAMSearch);
    run_dots(&mut ppu, 1);
    assert_eq!(ppu.mode, Mode::PixelTransfer);
    run_dots(&mut ppu, 172);
    assert_eq!(ppu.mode, Mode::HBlank);
    assert_eq!(ppu.stat & 0x03, 0);
    run_dots(&mut ppu, 203);
    assert_eq!(ppu.ly, 0);
    run_dots(&mut ppu, 1);
    assert_eq!(ppu.ly, 1);
    assert_eq!(ppu.mode, Mode::OAMSearch);
    assert_eq!(ppu.current_clock, 0);
}

#[test]
fn a_frame_takes_144_lines_then_vblank() {
    let mut ppu = booted_ppu();
    run_dots(&mut ppu, 144 * 455 - 1);
    assert!(!ppu.frame_ready);
    assert_eq!(ppu.ly, 143);
    run_dots(&mut ppu, 1);
    assert!(ppu.frame_ready);
    assert!(ppu.vblank_interrupt);
    assert_eq!(ppu.ly, 144);
    assert_eq!(ppu.mode, Mode::VBlank);
    run_dots(&mut ppu, 10 * 455);
    assert_eq!(ppu.ly, 0);
    assert_eq!(ppu.mode, Mode::OAMSearch);
}

#[test]
fn background_line_is_drawn_through_bgp() {
    let mut ppu = booted_ppu();
    ppu.bgp = 0xE4;
    ppu.set_vram(0, 0xFF);
    ppu.set_vram(3, 0xFF);
    run_dots(&mut ppu, 455 + 252);
    let screen = ppu.get_screen_buffer();
    for x in 0..GB_WIDTH {
        assert_eq!(screen[x], LIGHT_GRAY);
        assert_eq!(screen[GB_WIDTH + x], DARK_GRAY);
    }
    assert_eq!(screen[2 * GB_WIDTH], BLACK);
}

#[test]
fn background_off_draws_white() {
    let mut ppu = booted_ppu();
    ppu.lcdc = 0x90;
    ppu.set_vram(0, 0xFF);
    run_dots(&mut ppu, 252);
    assert_eq!(ppu.get_screen_buffer()[0], WHITE);
}

#[test]
fn scrolling_moves_the_background() {
    let mut ppu = booted_ppu();
    ppu.bgp = 0xE4;
    // Tile 1 is solid color 3; map entry (1, 0) uses it.
    for i in 0..16 {
        ppu.set_vram(16 + i, 0xFF);
    }
    ppu.set_vram(0x1801, 1);
    ppu.scx = 4;
    run_dots(&mut ppu, 252);
    let screen = ppu.get_screen_buffer();
    assert_eq!(screen[3], WHITE);
    assert_eq!(screen[4], BLACK);
    assert_eq!(screen[11], BLACK);
    assert_eq!(screen[12], WHITE);
}

#[test]
fn objects_cover_the_background() {
    let mut ppu = booted_ppu();
    ppu.lcdc = 0x93;
    ppu.bgp = 0xE4;
    ppu.obp0 = 0xE4;
    ppu.set_vram(16, 0xFF);
    ppu.set_vram(17, 0xFF);
    ppu.set_oam(0, 16);
    ppu.set_oam(1, 8);
    ppu.set_oam(2, 1);
    ppu.set_oam(3, 0);
    run_dots(&mut ppu, 252);
    assert_eq!(ppu.object_buffer.len(), 1);
    let screen = ppu.get_screen_buffer();
    for x in 0..8 {
        assert_eq!(screen[x], BLACK);
    }
    assert_eq!(screen[8], WHITE);
}

#[test]
fn objects_behind_the_background_show_only_over_color_zero() {
    let mut ppu = booted_ppu();
    ppu.lcdc = 0x93;
    ppu.bgp = 0xE4;
    ppu.obp0 = 0xE4;
    ppu.set_vram(0, 0x0F);
    ppu.set_vram(16, 0xFF);
    ppu.set_vram(17, 0xFF);
    ppu.set_oam(0, 16);
    ppu.set_oam(1, 8);
    ppu.set_oam(2, 1);
    ppu.set_oam(3, 0x80);
    run_dots(&mut ppu, 252);
    let screen = ppu.get_screen_buffer();
    assert_eq!(screen[0], BLACK);
    assert_eq!(screen[4], LIGHT_GRAY);
}

#[test]
fn at_most_ten_objects_per_line() {
    let mut ppu = booted_ppu();
    ppu.lcdc = 0x93;
    for i in 0..12usize {
        ppu.set_oam(4 * i, 16);
        ppu.set_oam(4 * i + 1, 8 + i as u8);
    }
    run_dots(&mut ppu, 2);
    assert_eq!(ppu.object_buffer.len(), 10);
    assert_eq!(ppu.object_buffer[9].x_position, 17);
}

#[test]
fn lyc_coincidence_raises_the_stat_interrupt() {
    let mut ppu = booted_ppu();
    ppu.stat = 0x40;
    ppu.lyc = 2;
    run_dots(&mut ppu, 2 * 455 - 1);
    assert!(!ppu.stat_interrupt);
    run_dots(&mut ppu, 1);
    assert!(ppu.stat_interrupt);
    assert_eq!(ppu.stat & 0x04, 0x04);
}

#[test]
fn switching_the_lcd_off_and_on_restarts_the_frame() {
    let mut ppu = booted_ppu();
    run_dots(&mut ppu, 3 * 455 + 10);
    ppu.lcdc = 0x11;
    run_dots(&mut ppu, 1);
    assert!(ppu.ppu_disabled);
    ppu.lcdc = 0x91;
    run_dots(&mut ppu, 1);
    assert!(!ppu.ppu_disabled);
    assert_eq!(ppu.ly, 0);
    assert_eq!(ppu.current_clock, 1);
    assert_eq!(ppu.mode, Mode::OAMSearch);
}

#[test]
fn tilemap_shows_each_tile_in_the_debug_palette() {
    let mut ppu = booted_ppu();
    ppu.set_vram(16, 0xF0);
    ppu.set_vram(17, 0x0F);
    let tiles = ppu.get_tilemap();
    assert_eq!(tiles.len(), 384 * 64);
    assert_eq!(tiles[0], WHITE);
    assert_eq!(tiles[64], LIGHT_GRAY);
    assert_eq!(tiles[64 + 4], DARK_GRAY);
    assert_eq!(tiles[64 + 8], WHITE);
}

#[test]
fn background_maps_use_the_selected_addressing() {
    let mut ppu = booted_ppu();
    // Tile 0 at 0x0000 row 0 is color 3; tile 0 of the signed range (0x1000) row 0 is color 1.
    ppu.set_vram(0, 0xFF);
    ppu.set_vram(1, 0xFF);
    ppu.set_vram(0x1000, 0xFF);
    let unsigned = ppu.get_bg_map(0);
    assert_eq!(unsigned.len(), 1024 * 64);
    assert_eq!(unsigned[0], BLACK);
    assert_eq!(unsigned[8], WHITE);
    let signed = ppu.get_bg_map(2);
    assert_eq!(signed[0], LIGHT_GRAY);
}

#[test]
fn emulator_frame_takes_16380_machine_cycles() {
    let mut emulator = Emulator::new(Some(vec![0u8; 0x8000]), SaveFiles { ram: None, rtc: None });
    for _ in 0..16379 {
        emulator.step().unwrap();
    }
    assert!(!emulator.frame_ready());
    emulator.step().unwrap();
    assert!(emulator.frame_ready());
    assert_eq!(emulator.bus.get_byte(0xFF0F) & 0x01, 0x01);
    emulator.finish_frame();
    assert!(!emulator.frame_ready());
}

#[test]
fn a_hidden_background_layer_draws_white() {
    let mut shown = booted_ppu();
    shown.bgp = 0xFF;
    run_dots(&mut shown, 252);
    assert_eq!(shown.get_screen_buffer()[0], BLACK);

    let mut hidden = booted_ppu();
    hidden.bgp = 0xFF;
    hidden.toggle_layer(0);
    assert_eq!(hidden.active_layers, [false, true, true]);
    run_dots(&mut hidden, 252);
    assert_eq!(hidden.get_screen_buffer()[0], WHITE);
    hidden.toggle_layer(0);
    assert_eq!(hidden.active_layers, [true, true, true]);
}
