use rugby::cartridge::SaveFiles;
use rugby::cpu::opcodes::implemented_opcode;
use rugby::cpu::{CpuError, CPU, REG_A, REG_B, REG_F, REG_H, REG_S};
use rugby::emulator::Emulator;

fn rom_with_program(program: &[u8]) -> Vec<u8> {
    let mut rom = vec![0u8; 0x8000];
    rom[0x100..0x100 + program.len()].copy_from_slice(program);
    rom
}

fn no_saves() -> SaveFiles {
    SaveFiles { ram: None, rtc: None }
}

fn emulator_with_program(program: &[u8]) -> Emulator {
    Emulator::new(Some(rom_with_program(program)), no_saves())
}

#[test]
fn registers_after_boot() {
    let emulator = emulator_with_program(&[]);
    assert_eq!(emulator.cpu.pc, 0x100);
    assert_eq!(emulator.cpu.cpu_registers, [0x01, 0xB0, 0x00, 0x13, 0x00, 0xD8, 0x01, 0x4D, 0xFF, 0xFE]);
    assert_eq!(emulator.cpu.double_register_value(REG_S), 0xFFFE);
    assert_eq!(emulator.cpu.double_register_value(REG_H), 0x014D);
    assert_eq!(emulator.cpu.get_flag(7), 1);
    assert_eq!(emulator.cpu.get_flag(6), 0);
}

#[test]
fn register_pair_round_trip() {
    let mut cpu = CPU::new();
    cpu.set_double_register(REG_B, 0xBEEF);
    assert_eq!(cpu.double_register_value(REG_B), 0xBEEF);
    assert_eq!(cpu.cpu_registers[REG_B], 0xBE);
    assert_eq!(cpu.cpu_registers[REG_B + 1], 0xEF);
    assert_eq!(cpu.cpu_registers[REG_A], 0);
    assert_eq!(cpu.cpu_registers[REG_H], 0);
}

#[test]
fn runs_a_small_program_until_halt() {
    // LD A,5; LD B,3; ADD A,B; SWAP A; HALT
    let mut emulator = emulator_with_program(&[0x3E, 0x05, 0x06, 0x03, 0x80, 0xCB, 0x37, 0x76]);
    emulator.step().unwrap();
    assert_eq!(emulator.cpu.cpu_registers[REG_A], 0x05);
    assert_eq!(emulator.cpu.pc, 0x102);
    emulator.step().unwrap();
    assert_eq!(emulator.cpu.cpu_registers[REG_B], 0x03);
    emulator.step().unwrap();
    assert_eq!(emulator.cpu.cpu_registers[REG_A], 0x08);
    assert_eq!(emulator.cpu.cpu_registers[REG_F], 0x00);
    emulator.step().unwrap();
    assert_eq!(emulator.cpu.cpu_registers[REG_A], 0x80);
    assert_eq!(emulator.cpu.pc, 0x107);
    assert_eq!(emulator.step(), Err(CpuError::UnimplementedOpcode(0x76)));
    assert_eq!(emulator.cpu.pc, 0x107);
}

#[test]
fn unimplemented_opcodes_are_reported() {
    for op in [0x10u8, 0x76, 0xD3, 0xDB, 0xDD, 0xE3, 0xE4, 0xEB, 0xEC, 0xED, 0xF4, 0xFC, 0xFD] {
        assert!(!implemented_opcode(op));
        let mut emulator = emulator_with_program(&[op]);
        assert_eq!(emulator.step(), Err(CpuError::UnimplementedOpcode(op)));
    }
    assert!(!implemented_opcode(0xCB));
    assert!(implemented_opcode(0x00));
    assert!(implemented_opcode(0xC3));
}

#[test]
fn shift_left_of_a_register_with_bit_seven_set_is_refused() {
    // LD B,0x80; SLA B
    let mut emulator = emulator_with_program(&[0x06, 0x80, 0xCB, 0x20]);
    emulator.step().unwrap();
    assert_eq!(emulator.step(), Err(CpuError::InvalidFlag));
}

#[test]
fn jumps_calls_and_returns() {
    // JP 0x0150 ; at 0x150: CALL 0x0160 ; LD A,0x42 ; at 0x160: RET
    let mut program = vec![0u8; 0x70];
    program[0..3].copy_from_slice(&[0xC3, 0x50, 0x01]);
    program[0x50..0x53].copy_from_slice(&[0xCD, 0x60, 0x01]);
    program[0x53..0x55].copy_from_slice(&[0x3E, 0x42]);
    program[0x60] = 0xC9;
    let mut emulator = emulator_with_program(&program);
    emulator.step().unwrap();
    assert_eq!(emulator.cpu.pc, 0x150);
    emulator.step().unwrap();
    assert_eq!(emulator.cpu.pc, 0x160);
    assert_eq!(emulator.cpu.double_register_value(REG_S), 0xFFFC);
    assert_eq!(emulator.bus.get_byte(0xFFFD), 0x01);
    assert_eq!(emulator.bus.get_byte(0xFFFC), 0x53);
    emulator.step().unwrap();
    assert_eq!(emulator.cpu.pc, 0x153);
    assert_eq!(emulator.cpu.double_register_value(REG_S), 0xFFFE);
    emulator.step().unwrap();
    assert_eq!(emulator.cpu.cpu_registers[REG_A], 0x42);
}

#[test]
fn memory_loads_and_stores_through_hl() {
    // LD HL,0xC000 ; LD (HL),0x5A ; LD A,(HL) ; INC (HL)
    let mut emulator = emulator_with_program(&[0x21, 0x00, 0xC0, 0x36, 0x5A, 0x7E, 0x34]);
    emulator.step().unwrap();
    assert_eq!(emulator.cpu.double_register_value(REG_H), 0xC000);
    emulator.step().unwrap();
    assert_eq!(emulator.bus.get_byte(0xC000), 0x5A);
    emulator.step().unwrap();
    assert_eq!(emulator.cpu.cpu_registers[REG_A], 0x5A);
    emulator.step().unwrap();
    assert_eq!(emulator.bus.get_byte(0xC000), 0x5B);
}

#[test]
fn push_and_pop_round_trip() {
    let mut emulator = emulator_with_program(&[]);
    let cpu = &mut emulator.cpu;
    cpu.push_stack(&mut emulator.bus, 0x1234).unwrap();
    assert_eq!(cpu.double_register_value(REG_S), 0xFFFC);
    assert_eq!(emulator.bus.get_byte(0xFFFD), 0x12);
    assert_eq!(emulator.bus.get_byte(0xFFFC), 0x34);
    assert_eq!(cpu.pop_stack(&mut emulator.bus), Ok(0x1234));
    assert_eq!(cpu.double_register_value(REG_S), 0xFFFE);
}

#[test]
fn vblank_interrupt_is_dispatched() {
    let mut emulator = emulator_with_program(&[]);
    emulator.bus.set_byte(0xFFFF, 0x01);
    assert_eq!(emulator.bus.get_byte(0xFF0F), 0xE1);
    emulator.cpu.ime = 1;
    emulator.cpu.handle_interrupts(&mut emulator.bus).unwrap();
    assert_eq!(emulator.cpu.pc, 0x40);
    assert_eq!(emulator.cpu.ime, 0);
    assert_eq!(emulator.cpu.double_register_value(REG_S), 0xFFFC);
    assert_eq!(emulator.bus.get_byte(0xFFFD), 0x01);
    assert_eq!(emulator.bus.get_byte(0xFFFC), 0x00);
    assert_eq!(emulator.bus.get_byte(0xFF0F), 0xE0);
}

#[test]
fn interrupts_wait_while_ime_is_clear() {
    let mut emulator = emulator_with_program(&[]);
    emulator.bus.set_byte(0xFFFF, 0x01);
    emulator.cpu.ime = 0;
    emulator.cpu.halt_mode = true;
    emulator.cpu.handle_interrupts(&mut emulator.bus).unwrap();
    assert_eq!(emulator.cpu.pc, 0x100);
    assert!(!emulator.cpu.halt_mode);
    assert_eq!(emulator.bus.get_byte(0xFF0F), 0xE1);
}

#[test]
fn scheduled_ime_takes_effect_after_the_check() {
    let mut emulator = emulator_with_program(&[]);
    emulator.cpu.ime_scheduled = true;
    emulator.cpu.handle_interrupts(&mut emulator.bus).unwrap();
    assert_eq!(emulator.cpu.ime, 1);
    assert!(!emulator.cpu.ime_scheduled);
}

#[test]
fn an_enabled_request_in_the_upper_bits_is_refused() {
    let mut emulator = emulator_with_program(&[]);
    emulator.bus.set_byte(0xFFFF, 0x20);
    emulator.cpu.ime = 1;
    assert_eq!(emulator.cpu.handle_interrupts(&mut emulator.bus), Err(CpuError::UnknownInterrupt(5)));
}

#[test]
fn fetching_from_the_unusable_area_is_refused() {
    let mut emulator = emulator_with_program(&[]);
    emulator.cpu.pc = 0xFEA0;
    assert_eq!(emulator.step(), Err(CpuError::InvalidRead(0xFEA0)));
}

#[test]
fn high_page_loads_and_the_ly_quirk() {
    // LD A,0x5A; LDH (0x90),A; LD A,0; LDH A,(0x90); LDH A,(0x44)
    let mut emulator = emulator_with_program(&[0x3E, 0x5A, 0xE0, 0x90, 0x3E, 0x00, 0xF0, 0x90, 0xF0, 0x44]);
    emulator.step().unwrap();
    emulator.step().unwrap();
    assert_eq!(emulator.bus.get_byte(0xFF90), 0x5A);
    emulator.step().unwrap();
    emulator.step().unwrap();
    assert_eq!(emulator.cpu.cpu_registers[REG_A], 0x5A);
    emulator.step().unwrap();
    assert_eq!(emulator.cpu.cpu_registers[REG_A], 0x90);
    assert_eq!(emulator.cpu.pc, 0x10A);
}

#[test]
fn stack_pointer_store_and_arithmetic() {
    // LD (0xC010),SP; ADD SP,-2; LD HL,SP+3
    let mut emulator = emulator_with_program(&[0x08, 0x10, 0xC0, 0xE8, 0xFE, 0xF8, 0x03]);
    emulator.step().unwrap();
    assert_eq!(emulator.bus.get_byte(0xC010), 0xFE);
    assert_eq!(emulator.bus.get_byte(0xC011), 0xFF);
    emulator.step().unwrap();
    assert_eq!(emulator.cpu.double_register_value(REG_S), 0xFFFC);
    emulator.step().unwrap();
    assert_eq!(emulator.cpu.double_register_value(REG_H), 0xFFFF);
    assert_eq!(emulator.cpu.double_register_value(REG_S), 0xFFFC);
}

#[test]
fn restart_pushes_the_return_address() {
    let mut emulator = emulator_with_program(&[0xEF]);
    emulator.step().unwrap();
    assert_eq!(emulator.cpu.pc, 0x28);
    assert_eq!(emulator.cpu.double_register_value(REG_S), 0xFFFC);
    assert_eq!(emulator.bus.get_byte(0xFFFD), 0x01);
    assert_eq!(emulator.bus.get_byte(0xFFFC), 0x01);
}

#[test]
fn conditional_jumps_follow_the_flags() {
    // Z is set after boot (F = 0xB0): JR NZ is not taken, JR Z jumps back by 4.
    let mut emulator = emulator_with_program(&[0x00, 0x00, 0x20, 0x05, 0x28, 0xFC]);
    emulator.step().unwrap();
    emulator.step().unwrap();
    emulator.step().unwrap();
    assert_eq!(emulator.cpu.pc, 0x104);
    emulator.step().unwrap();
    assert_eq!(emulator.cpu.pc, 0x102);
    // CALL NZ is not taken either.
    let mut emulator = emulator_with_program(&[0xC4, 0x00, 0x20]);
    emulator.step().unwrap();
    assert_eq!(emulator.cpu.pc, 0x103);
    assert_eq!(emulator.cpu.double_register_value(REG_S), 0xFFFE);
}

#[test]
fn pop_af_clears_the_low_nibble_of_f() {
    // LD BC,0x12FF; PUSH BC; POP AF
    let mut emulator = emulator_with_program(&[0x01, 0xFF, 0x12, 0xC5, 0xF1]);
    emulator.step().unwrap();
    emulator.step().unwrap();
    emulator.step().unwrap();
    assert_eq!(emulator.cpu.cpu_registers[REG_A], 0x12);
    assert_eq!(emulator.cpu.cpu_registers[REG_F], 0xF0);
    assert_eq!(emulator.cpu.double_register_value(REG_S), 0xFFFE);
}

#[test]
fn loads_through_hl_step_the_pointer() {
    // LD HL,0xC000; LD (HL+),A; LD (HL-),A; LD A,(HL+)
    let mut emulator = emulator_with_program(&[0x21, 0x00, 0xC0, 0x22, 0x32, 0x2A]);
    emulator.step().unwrap();
    emulator.step().unwrap();
    assert_eq!(emulator.bus.get_byte(0xC000), 0x01);
    assert_eq!(emulator.cpu.double_register_value(REG_H), 0xC001);
    emulator.step().unwrap();
    assert_eq!(emulator.bus.get_byte(0xC001), 0x01);
    assert_eq!(emulator.cpu.double_register_value(REG_H), 0xC000);
    emulator.step().unwrap();
    assert_eq!(emulator.cpu.cpu_registers[REG_A], 0x01);
    assert_eq!(emulator.cpu.double_register_value(REG_H), 0xC001);
}

#[test]
fn bit_operations_on_memory() {
    // LD HL,0xC000; SET 7,(HL); BIT 7,(HL); RES 7,(HL); BIT 7,(HL)
    let mut emulator = emulator_with_program(&[0x21, 0x00, 0xC0, 0xCB, 0xFE, 0xCB, 0x7E, 0xCB, 0xBE, 0xCB, 0x7E]);
    emulator.step().unwrap();
    emulator.step().unwrap();
    assert_eq!(emulator.bus.get_byte(0xC000), 0x80);
    emulator.step().unwrap();
    assert_eq!(emulator.cpu.cpu_registers[REG_F] & 0x80, 0x00);
    emulator.step().unwrap();
    assert_eq!(emulator.bus.get_byte(0xC000), 0x00);
    emulator.step().unwrap();
    assert_eq!(emulator.cpu.cpu_registers[REG_F] & 0xE0, 0xA0);
}

#[test]
fn interrupt_enable_and_disable() {
    let mut emulator = emulator_with_program(&[0xFB, 0xF3]);
    emulator.step().unwrap();
    assert_eq!(emulator.cpu.ime, 1);
    emulator.step().unwrap();
    assert_eq!(emulator.cpu.ime, 0);
}

#[test]
fn jump_to_hl() {
    // LD HL,0x0200; JP (HL)
    let mut emulator = emulator_with_program(&[0x21, 0x00, 0x02, 0xE9]);
    emulator.step().unwrap();
    emulator.step().unwrap();
    assert_eq!(emulator.cpu.pc, 0x200);
}

#[test]
fn writing_missing_cartridge_ram_is_refused() {
    // An MBC1 cartridge without RAM: LD A,0x0A; LD (0x0000),A enables RAM; LD (0xA000),A fails.
    let mut rom = rom_with_program(&[0x3E, 0x0A, 0xEA, 0x00, 0x00, 0xEA, 0x00, 0xA0]);
    rom[0x147] = 0x01;
    let mut emulator = Emulator::new(Some(rom), no_saves());
    emulator.step().unwrap();
    emulator.step().unwrap();
    assert_eq!(emulator.step(), Err(CpuError::InvalidWrite(0xA000)));
}

#[test]
fn a_call_that_cannot_push_stops_after_its_operand() {
    // An MBC1 cartridge without RAM: LD A,0x0A; LD (0x0000),A enables RAM; LD SP,0xA002;
    // CALL 0x2000 would push its return address to 0xA001, which takes no writes.
    let mut rom = rom_with_program(&[0x3E, 0x0A, 0xEA, 0x00, 0x00, 0x31, 0x02, 0xA0, 0xCD, 0x00, 0x20]);
    rom[0x147] = 0x01;
    let mut emulator = Emulator::new(Some(rom), no_saves());
    for _ in 0..3 {
        emulator.step().unwrap();
    }
    assert_eq!(emulator.cpu.double_register_value(REG_S), 0xA002);
    assert_eq!(emulator.step(), Err(CpuError::InvalidWrite(0xA001)));
    assert_eq!(emulator.cpu.pc, 0x10B);
    assert_eq!(emulator.cpu.double_register_value(REG_S), 0xA002);
}

#[test]
fn stores_through_an_immediate_address() {
    // LD A,0x5A; LD (0xC123),A; LD A,0; LD A,(0xC123); LD SP,0xCFFE; LD (0xC200),SP
    let mut emulator = emulator_with_program(&[
        0x3E, 0x5A, 0xEA, 0x23, 0xC1, 0x3E, 0x00, 0xFA, 0x23, 0xC1, 0x31, 0xFE, 0xCF, 0x08, 0x00, 0xC2,
    ]);
    for _ in 0..6 {
        emulator.step().unwrap();
    }
    assert_eq!(emulator.bus.get_byte(0xC123), 0x5A);
    assert_eq!(emulator.cpu.cpu_registers[0], 0x5A);
    assert_eq!(emulator.bus.get_byte(0xC200), 0xFE);
    assert_eq!(emulator.bus.get_byte(0xC201), 0xCF);
    assert_eq!(emulator.cpu.pc, 0x110);
}
