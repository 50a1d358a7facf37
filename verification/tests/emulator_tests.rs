use rugby::bits::{get_bit, set_bit};
use rugby::cartridge::SaveFiles;
use rugby::color::{shade, LogicalColor};
use rugby::color::Color;
use rugby::emulator::{ConfigAction, Emulator, RewindFrame};
use rugby::input::{EmulatorInput, Input};
use rugby::rewind::{History, REWIND_STACK_CAPACITY};

fn no_saves() -> SaveFiles {
    SaveFiles { ram: None, rtc: None }
}

#[test]
fn bit_helpers() {
    assert_eq!(get_bit(0b1010_0000, 7), 1);
    assert_eq!(get_bit(0b1010_0000, 6), 0);
    assert_eq!(set_bit(0x00, 3, 1), 0x08);
    assert_eq!(set_bit(0xFF, 0, 0), 0xFE);
    assert_eq!(set_bit(0x08, 3, 1), 0x08);
}

#[test]
fn shades_of_two_bit_colors() {
    assert_eq!(shade(0), LogicalColor::White);
    assert_eq!(shade(1), LogicalColor::LightGray);
    assert_eq!(shade(2), LogicalColor::DarkGray);
    assert_eq!(shade(3), LogicalColor::Black);
}

#[test]
fn an_emulator_without_rom_is_inactive() {
    let emulator = Emulator::new(None, no_saves());
    assert!(!emulator.emulator_active);
    assert_eq!(emulator.cpu.pc, 0x100);
    assert_eq!(emulator.current_bg_map, 0);
}

#[test]
fn loading_a_rom_restarts_the_console() {
    let mut emulator = Emulator::new(None, no_saves());
    emulator.step().unwrap();
    assert_eq!(emulator.cpu.pc, 0x101);
    let mut rom = vec![0u8; 0x8000];
    rom[0x100] = 0x3C;
    emulator.load(Some(rom), no_saves());
    assert!(emulator.emulator_active);
    assert_eq!(emulator.cpu.pc, 0x100);
    emulator.step().unwrap();
    assert_eq!(emulator.cpu.cpu_registers[0], 0x02);
}

#[test]
fn config_requests_become_actions_in_order() {
    let mut emulator = Emulator::new(None, no_saves());
    let mut input = EmulatorInput::new();
    assert!(emulator.update_config(input).is_empty());
    input.exit = true;
    input.load_state = true;
    input.select_save_state = (true, 3);
    let actions = emulator.update_config(input);
    assert_eq!(actions, vec![ConfigAction::Exit, ConfigAction::LoadState(None), ConfigAction::SaveState(Some(3))]);
    let mut input = EmulatorInput::new();
    input.save_state = true;
    input.select_load_state = (true, 7);
    assert_eq!(emulator.update_config(input), vec![ConfigAction::SaveState(None), ConfigAction::LoadState(Some(7))]);
}

#[test]
fn background_map_selection_wraps() {
    let mut emulator = Emulator::new(None, no_saves());
    let mut prev = EmulatorInput::new();
    prev.prev_bg_map = true;
    let mut next = EmulatorInput::new();
    next.next_bg_map = true;
    emulator.update_config(next);
    assert_eq!(emulator.current_bg_map, 3);
    emulator.update_config(prev);
    assert_eq!(emulator.current_bg_map, 0);
    emulator.update_config(prev);
    emulator.update_config(prev);
    assert_eq!(emulator.current_bg_map, 2);
    let mut both = EmulatorInput::new();
    both.prev_bg_map = true;
    both.next_bg_map = true;
    emulator.update_config(both);
    assert_eq!(emulator.current_bg_map, 2);
    assert_eq!(emulator.get_bg_map().len(), 1024 * 64);
    assert_eq!(emulator.get_tilemap().len(), 384 * 64);
}

#[test]
fn sound_toggles_flip_the_mutes() {
    let mut emulator = Emulator::new(None, no_saves());
    let mut input = EmulatorInput::new();
    input.toggle_mute = true;
    input.toggle_channel = [true, false, true, false];
    emulator.apply_sound_toggles(input);
    assert!(emulator.bus.apu.is_mute);
    assert_eq!(emulator.bus.apu.mute_channels, [true, false, true, false]);
    emulator.apply_sound_toggles(input);
    assert!(!emulator.bus.apu.is_mute);
    assert_eq!(emulator.bus.apu.mute_channels, [false; 4]);
}

#[test]
fn buttons_reach_the_joypad_register() {
    let mut emulator = Emulator::new(None, no_saves());
    emulator.bus.set_byte(0xFF00, 0x20);
    let mut input = Input::new();
    input.right = true;
    emulator.store_input(input);
    assert_eq!(emulator.bus.mmu.input, input);
    assert_eq!(emulator.bus.get_byte(0xFF00), 0x2E);
}

#[test]
fn the_screen_is_the_ppu_buffer() {
    let emulator = Emulator::new(None, no_saves());
    assert_eq!(emulator.get_screen().len(), 160 * 144);
    assert_eq!(emulator.get_screen()[0], emulator.bus.ppu.screen_buffer[0]);
}

#[test]
fn history_forgets_the_oldest_frame_when_full() {
    let mut history: History<u32> = History::new(3);
    assert_eq!(history.pop(), None);
    history.push(1);
    history.push(2);
    history.push(3);
    history.push(4);
    assert_eq!(history.len(), 3);
    assert_eq!(history.pop(), Some(4));
    assert_eq!(history.pop(), Some(3));
    assert_eq!(history.pop(), Some(2));
    assert_eq!(history.pop(), None);
    assert_eq!(REWIND_STACK_CAPACITY, 300);
}

#[test]
fn push_then_pop_gives_the_frame_back() {
    let mut history: History<&str> = History::new(2);
    history.push("a");
    history.push("b");
    assert_eq!(history.pop(), Some("b"));
    assert_eq!(history.entries, vec!["a"]);
}

#[test]
fn cpu_state_round_trip() {
    let mut rom = vec![0u8; 0x8000];
    rom[0x100] = 0x3E;
    rom[0x101] = 0x99;
    let mut emulator = Emulator::new(Some(rom), no_saves());
    let saved = emulator.cpu.create_state();
    assert!(saved.is_valid());
    emulator.step().unwrap();
    assert_eq!(emulator.cpu.cpu_registers[0], 0x99);
    emulator.cpu.load_state(saved);
    assert_eq!(emulator.cpu.pc, 0x100);
    assert_eq!(emulator.cpu.cpu_registers[0], 0x01);
}

#[test]
fn bus_state_round_trip() {
    let mut emulator = Emulator::new(None, no_saves());
    emulator.bus.set_byte(0xC000, 0x11);
    emulator.bus.set_byte(0x8000, 0x22);
    let saved = emulator.bus.create_state();
    assert!(saved.is_valid());
    emulator.bus.set_byte(0xC000, 0x33);
    emulator.bus.set_byte(0x8000, 0x44);
    emulator.bus.load_state(saved);
    assert_eq!(emulator.bus.get_byte(0xC000), 0x11);
    assert_eq!(emulator.bus.get_byte(0x8000), 0x22);
}

#[test]
fn invalid_snapshots_are_detected() {
    let emulator = Emulator::new(None, no_saves());
    let mut cpu_state = emulator.cpu.create_state();
    cpu_state.rtc_oscillator = rugby::cpu::RTC_PERIOD;
    assert!(!cpu_state.is_valid());
    let mut bus_state = emulator.bus.create_state();
    bus_state.ppu_state.ly = 150;
    assert!(!bus_state.is_valid());
}

fn rom_with_program(program: &[u8]) -> Vec<u8> {
    let mut rom = vec![0u8; 0x8000];
    rom[0x100..0x100 + program.len()].copy_from_slice(program);
    rom
}

#[test]
fn rewinding_takes_the_console_back_to_the_newest_frame() {
    // INC A, forever.
    let mut emulator = Emulator::new(Some(rom_with_program(&[0x3C, 0x18, 0xFD])), no_saves());
    let mut history: History<RewindFrame> = History::new(2);
    emulator.record_frame(&mut history, "first".to_string());
    let recorded_pc = emulator.cpu.pc;
    let recorded_a = emulator.cpu.cpu_registers[0];
    let recorded_screen = emulator.bus.ppu.screen_buffer;
    emulator.step().unwrap();
    emulator.step().unwrap();
    emulator.bus.ppu.screen_buffer[0] = Color::Logical(LogicalColor::White);
    emulator.bus.ppu.frame_ready = true;
    assert_ne!(emulator.cpu.cpu_registers[0], recorded_a);

    assert_eq!(emulator.rewind(&mut history), Some("first".to_string()));
    assert_eq!(history.len(), 0);
    assert_eq!(emulator.cpu.pc, recorded_pc);
    assert_eq!(emulator.cpu.cpu_registers[0], recorded_a);
    assert!(emulator.bus.ppu.screen_buffer == recorded_screen);
    assert!(!emulator.frame_ready());
}

#[test]
fn rewinding_an_empty_history_only_clears_the_frame() {
    let mut emulator = Emulator::new(Some(rom_with_program(&[0x3C, 0x18, 0xFD])), no_saves());
    let mut history: History<RewindFrame> = History::new(REWIND_STACK_CAPACITY);
    emulator.step().unwrap();
    emulator.bus.ppu.frame_ready = true;
    let pc = emulator.cpu.pc;
    assert_eq!(emulator.rewind(&mut history), None);
    assert_eq!(emulator.cpu.pc, pc);
    assert!(!emulator.frame_ready());
}

#[test]
fn recording_keeps_only_the_newest_frames() {
    let mut emulator = Emulator::new(Some(rom_with_program(&[0x3C, 0x18, 0xFD])), no_saves());
    let mut history: History<RewindFrame> = History::new(2);
    for name in ["a", "b", "c"] {
        emulator.record_frame(&mut history, name.to_string());
        emulator.step().unwrap();
    }
    assert_eq!(history.len(), 2);
    assert_eq!(history.entries[0].cartridge_json, "b");
    assert_eq!(history.entries[1].cartridge_json, "c");
    assert!(history.entries[1].is_valid());
}

#[test]
fn a_saved_state_loads_back() {
    let mut emulator = Emulator::new(Some(rom_with_program(&[0x3C, 0x18, 0xFD])), no_saves());
    let mut saves = rugby::emulator::SaveSlots::new();
    // Nothing saved: loading changes nothing.
    assert_eq!(emulator.load_state(&saves, Some(2)), None);
    assert_eq!(emulator.load_state(&saves, None), None);
    emulator.step().unwrap();
    emulator.save_state(&mut saves, Some(2), "slot".to_string());
    emulator.save_state(&mut saves, None, "stack".to_string());
    let a = emulator.cpu.cpu_registers[0];
    let pc = emulator.cpu.pc;
    emulator.step().unwrap();
    emulator.step().unwrap();
    emulator.bus.set_byte(0xC000, 0x99);
    assert_ne!(emulator.cpu.cpu_registers[0], a);
    assert_eq!(emulator.load_state(&saves, Some(2)), Some("slot".to_string()));
    assert_eq!(emulator.cpu.cpu_registers[0], a);
    assert_eq!(emulator.cpu.pc, pc);
    assert_eq!(emulator.bus.get_byte(0xC000), 0x00);
    assert!(saves.slots[2].is_some());
    assert!(saves.slots[1].is_none());
    emulator.step().unwrap();
    assert_eq!(emulator.load_state(&saves, None), Some("stack".to_string()));
    assert_eq!(emulator.cpu.pc, pc);
    assert_eq!(saves.stack.len(), 1);
}

#[test]
fn layer_requests_flip_the_layers() {
    let mut emulator = Emulator::new(None, no_saves());
    let mut input = EmulatorInput::new();
    input.toggle_layer = [true, false, true];
    assert!(emulator.update_config(input).is_empty());
    assert_eq!(emulator.bus.ppu.active_layers, [false, true, false]);
    input.toggle_layer = [false, true, true];
    emulator.update_config(input);
    assert_eq!(emulator.bus.ppu.active_layers, [false, false, true]);
}

#[test]
fn a_frame_that_cannot_be_resumed_only_shows_its_screen() {
    let mut emulator = Emulator::new(Some(rom_with_program(&[0x3C, 0x18, 0xFD])), no_saves());
    let mut history: History<RewindFrame> = History::new(4);
    emulator.bus.ppu.screen_buffer[0] = Color::Logical(LogicalColor::DarkGray);
    emulator.record_frame(&mut history, "frame".to_string());
    history.entries[0].cpu.rtc_oscillator = u64::MAX;
    assert!(!history.entries[0].is_valid());
    emulator.step().unwrap();
    emulator.bus.ppu.screen_buffer[0] = Color::Logical(LogicalColor::White);
    let pc = emulator.cpu.pc;
    assert_eq!(emulator.rewind(&mut history), None);
    assert_eq!(history.len(), 0);
    assert_eq!(emulator.cpu.pc, pc);
    assert_eq!(emulator.bus.ppu.screen_buffer[0], Color::Logical(LogicalColor::DarkGray));
    assert!(!emulator.frame_ready());
}

#[test]
fn running_until_a_frame_is_ready() {
    // JR -2, forever.
    let mut emulator = Emulator::new(Some(rom_with_program(&[0x18, 0xFE])), no_saves());
    assert_eq!(emulator.run_until_frame(10), Ok(false));
    assert!(!emulator.frame_ready());
    assert_eq!(emulator.run_until_frame(100_000), Ok(true));
    assert!(emulator.frame_ready());
    let pc = emulator.cpu.pc;
    assert_eq!(emulator.run_until_frame(5), Ok(true));
    assert_eq!(emulator.cpu.pc, pc);

    let mut emulator = Emulator::new(Some(rom_with_program(&[0x00, 0xD3])), no_saves());
    assert_eq!(emulator.run_until_frame(100), Err(rugby::cpu::CpuError::UnimplementedOpcode(0xD3)));
    assert_eq!(emulator.cpu.pc, 0x101);
}
