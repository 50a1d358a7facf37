use vstd::prelude::*;

use super::alu::{
    add16, add16_spec, add_sp, add_sp_spec, alu, alu_spec, b2u, carry, daa, daa_spec, dec, dec_spec, flags,
    inc, inc_spec, rotate_a_spec, set_flags, shift, shift_spec, shift_value,
};
use super::{pair_value, with_pair, CpuError, CPU, REG_A, REG_F, REG_H, REG_S};
use crate::bus::{aliases, plain_memory, stable_address};
use crate::bits::{bit8, get_bit, lemma_byte, lemma_word};
use crate::bus::Bus;

verus! {

/// The register-file index of three-bit register code `code` (B, C, D, E, H, L, -, A).
pub open spec fn reg_index(code: u8) -> int {
    if code == 7 { 0 } else { code + 2 }
}

/// The register-file index of the high byte of pair code `code` (BC, DE, HL, SP).
pub open spec fn pair_index(code: u8) -> int {
    2 * code + 2
}

/// Returns the register-file index of register code `code`.
fn reg_index_of(code: u8) -> (i: usize)
    requires
        code <= 7,
        code != 6,
    ensures
        i == reg_index(code),
        i < 10,
        i != REG_F,
{
    if code == 7 { 0 } else { code as usize + 2 }
}

/// The opcodes of the main page this CPU implements: all but HALT, STOP, the 0xCB prefix and
/// the eleven unused ones.
pub open spec fn implemented(op: u8) -> bool {
    !(op == 0x10 || op == 0x76 || op == 0xCB || op == 0xD3 || op == 0xDB || op == 0xDD || op == 0xE3
        || op == 0xE4 || op == 0xEB || op == 0xEC || op == 0xED || op == 0xF4 || op == 0xFC || op == 0xFD)
}

/// Returns whether opcode `op` of the main page is implemented.
pub fn implemented_opcode(op: u8) -> (b: bool)
    ensures
        b == implemented(op),
{
    !(op == 0x10 || op == 0x76 || op == 0xCB || op == 0xD3 || op == 0xDB || op == 0xDD || op == 0xE3
        || op == 0xE4 || op == 0xEB || op == 0xEC || op == 0xED || op == 0xF4 || op == 0xFC || op == 0xFD)
}

/// The opcodes that only work on registers (no memory access beyond the opcode fetch, PC
/// and the interrupt state untouched).
pub open spec fn register_opcode(op: u8) -> bool {
    if op < 0x40 {
        let y = op % 8;
        ||| (y == 4 || y == 5) && op / 8 != 6
        ||| op % 16 == 3 || op % 16 == 11 || op % 16 == 9
        ||| op == 0x00 || op == 0x07 || op == 0x0F || op == 0x17 || op == 0x1F
        ||| op == 0x27 || op == 0x2F || op == 0x37 || op == 0x3F
    } else if op < 0x80 {
        (op / 8) % 8 != 6 && op % 8 != 6
    } else if op < 0xC0 {
        op % 8 != 6
    } else {
        op == 0xF9
    }
}

/// The register file after register-only opcode `op`.
pub open spec fn register_op(regs: Seq<u8>, op: u8) -> Seq<u8> {
    let x = (op / 8) % 8;
    let y = op % 8;
    let a = regs[0];
    let f = regs[1];
    if op < 0x40 {
        if y == 4 {
            let r = inc_spec(regs[reg_index(x)], f);
            regs.update(reg_index(x), r.0).update(1, r.1)
        } else if y == 5 {
            let r = dec_spec(regs[reg_index(x)], f);
            regs.update(reg_index(x), r.0).update(1, r.1)
        } else if op % 16 == 3 {
            let p = pair_index(op / 16);
            with_pair(regs, p, ((pair_value(regs, p) + 1) % 0x10000) as u16)
        } else if op % 16 == 11 {
            let p = pair_index(op / 16);
            with_pair(regs, p, ((pair_value(regs, p) + 0xFFFF) % 0x10000) as u16)
        } else if op % 16 == 9 {
            let r = add16_spec(pair_value(regs, 6), pair_value(regs, pair_index(op / 16)), f);
            with_pair(regs, 6, r.0).update(1, r.1)
        } else if op == 0x07 || op == 0x0F || op == 0x17 || op == 0x1F {
            let r = rotate_a_spec(x, a, f);
            regs.update(0, r.0).update(1, r.1)
        } else if op == 0x27 {
            let r = daa_spec(a, f);
            regs.update(0, r.0).update(1, r.1)
        } else if op == 0x2F {
            regs.update(0, !a).update(1, flags(f, bit8(f, 7), 1, 1, carry(f)))
        } else if op == 0x37 {
            regs.update(1, flags(f, bit8(f, 7), 0, 0, 1))
        } else if op == 0x3F {
            regs.update(1, flags(f, bit8(f, 7), 0, 0, (1 - carry(f)) as u8))
        } else {
            regs
        }
    } else if op < 0x80 {
        regs.update(reg_index(x), regs[reg_index(y)])
    } else if op < 0xC0 {
        let r = alu_spec(x, a, regs[reg_index(y)], f);
        regs.update(0, r.0).update(1, r.1)
    } else {
        with_pair(regs, 8, pair_value(regs, 6))
    }
}

/// The machine cycles that register-only opcode `op` records.
pub open spec fn register_op_cycles(op: u8) -> u8 {
    if op < 0x40 && (op % 16 == 3 || op % 16 == 11 || op % 16 == 9) {
        2
    } else if op == 0xF9 {
        2
    } else {
        1
    }
}

/// The register file after 0xCB-page opcode `op` on a register operand (`op % 8 != 6`):
/// rotates and shifts, BIT, RES and SET.
pub open spec fn cb_register_op(regs: Seq<u8>, op: u8) -> Seq<u8> {
    let r = reg_index(op % 8);
    let v = regs[r];
    let b = (op / 8) % 8;
    let f = regs[1];
    if op < 0x40 {
        let s = shift_spec(op / 8, v, f);
        regs.update(r, s.0).update(1, s.1)
    } else if op < 0x80 {
        regs.update(1, flags(f, b2u(bit8(v, b) == 0), 0, 1, carry(f)))
    } else if op < 0xC0 {
        regs.update(r, v & !(1u8 << b))
    } else {
        regs.update(r, v | (1u8 << b))
    }
}

/// Whether branch condition `cc` (0 NZ, 1 Z, 2 NC, 3 C) holds for flag register `f`.
pub open spec fn condition(cc: u8, f: u8) -> bool {
    if cc == 0 {
        bit8(f, 7) == 0
    } else if cc == 1 {
        bit8(f, 7) == 1
    } else if cc == 2 {
        bit8(f, 4) == 0
    } else {
        bit8(f, 4) == 1
    }
}

impl CPU {
    /// Whether branch condition `cc` (0 NZ, 1 Z, 2 NC, 3 C) holds.
    fn check_condition(&self, cc: u8) -> (b: bool)
        requires
            cc <= 3,
        ensures
            b == condition(cc, self.cpu_registers[REG_F as int]),
    {
        if cc == 0 {
            self.get_flag(7) == 0
        } else if cc == 1 {
            self.get_flag(7) == 1
        } else if cc == 2 {
            self.get_flag(4) == 0
        } else {
            self.get_flag(4) == 1
        }
    }

    /// The register-only opcodes of the first quarter of the main page.
    fn execute_low_register_op(&mut self, op: u8)
        requires
            op < 0x40,
            register_opcode(op),
        ensures
            final(self).cpu_registers@ == register_op(old(self).cpu_registers@, op),
            *final(self) == (CPU { cpu_registers: final(self).cpu_registers, mcycles: register_op_cycles(op), ..*old(self) }),
    {
        let x = (op / 8) % 8;
        let y = op % 8;
        let a = self.cpu_registers[REG_A];
        let f = self.cpu_registers[REG_F];
        if y == 4 {
            let i = reg_index_of(x);
            let (r, nf) = inc(self.cpu_registers[i], f);
            self.cpu_registers[i] = r;
            self.cpu_registers[REG_F] = nf;
            self.mcycles = 1;
        } else if y == 5 {
            let i = reg_index_of(x);
            let (r, nf) = dec(self.cpu_registers[i], f);
            self.cpu_registers[i] = r;
            self.cpu_registers[REG_F] = nf;
            self.mcycles = 1;
        } else if op % 16 == 3 {
            let p = (op / 16) as usize * 2 + 2;
            let v = self.double_register_value(p);
            self.set_double_register(p, v.wrapping_add(1));
            self.mcycles = 2;
        } else if op % 16 == 11 {
            let p = (op / 16) as usize * 2 + 2;
            let v = self.double_register_value(p);
            self.set_double_register(p, v.wrapping_sub(1));
            self.mcycles = 2;
        } else if op % 16 == 9 {
            let p = (op / 16) as usize * 2 + 2;
            let hl = self.double_register_value(REG_H);
            let v = self.double_register_value(p);
            let (r, nf) = add16(hl, v, f);
            self.set_double_register(REG_H, r);
            self.cpu_registers[REG_F] = nf;
            self.mcycles = 2;
        } else if op == 0x07 || op == 0x0F || op == 0x17 || op == 0x1F {
            let (r, c) = shift(x, a, f);
            self.cpu_registers[REG_A] = r;
            self.cpu_registers[REG_F] = set_flags(f, 0, 0, 0, c);
            self.mcycles = 1;
        } else if op == 0x27 {
            let (r, nf) = daa(a, f);
            self.cpu_registers[REG_A] = r;
            self.cpu_registers[REG_F] = nf;
            self.mcycles = 1;
        } else if op == 0x2F {
            self.cpu_registers[REG_A] = !a;
            self.cpu_registers[REG_F] = set_flags(f, get_bit(f, 7), 1, 1, get_bit(f, 4));
            self.mcycles = 1;
        } else if op == 0x37 {
            self.cpu_registers[REG_F] = set_flags(f, get_bit(f, 7), 0, 0, 1);
            self.mcycles = 1;
        } else if op == 0x3F {
            let c = get_bit(f, 4);
            self.cpu_registers[REG_F] = set_flags(f, get_bit(f, 7), 0, 0, 1 - c);
            self.mcycles = 1;
        } else {
            self.mcycles = 1;
        }
    }

    /// Runs register-only opcode `op`.
    pub fn execute_register_op(&mut self, op: u8)
        requires
            register_opcode(op),
        ensures
            final(self).cpu_registers@ == register_op(old(self).cpu_registers@, op),
            *final(self) == (CPU { cpu_registers: final(self).cpu_registers, mcycles: register_op_cycles(op), ..*old(self) }),
    {
        if op < 0x40 {
            self.execute_low_register_op(op);
        } else if op < 0x80 {
            let src = reg_index_of(op % 8);
            let dest = reg_index_of((op / 8) % 8);
            self.cpu_registers[dest] = self.cpu_registers[src];
            self.mcycles = 1;
        } else if op < 0xC0 {
            let src = reg_index_of(op % 8);
            let (r, nf) = alu((op / 8) % 8, self.cpu_registers[REG_A], self.cpu_registers[src], self.cpu_registers[REG_F]);
            self.cpu_registers[REG_A] = r;
            self.cpu_registers[REG_F] = nf;
            self.mcycles = 1;
        } else {
            let hl = self.double_register_value(REG_H);
            self.set_double_register(REG_S, hl);
            self.mcycles = 2;
        }
    }
}


impl CPU {
    /// Reads operand `code` (a register, or the byte at HL for code 6).
    fn read_operand(&mut self, bus: &mut Bus, code: u8) -> (r: Result<u8, CpuError>)
        requires
            old(self).wf(),
            old(bus).wf(),
            code <= 7,
        ensures
            final(self).wf(),
            final(bus).wf(),
            final(self).cpu_registers == old(self).cpu_registers,
            final(self).pc == old(self).pc,
            final(self).ime == old(self).ime,
            final(self).mcycles == old(self).mcycles,
            final(self).halt_mode == old(self).halt_mode,
            final(self).ime_scheduled == old(self).ime_scheduled,
            code != 6 ==> r == Ok::<u8, CpuError>(old(self).cpu_registers[reg_index(code)]) && *final(bus) == *old(bus)
                && *final(self) == *old(self),
            code == 6 ==> r == (if old(bus).readable(pair_value(old(self).cpu_registers@, 6)) {
                Ok(old(bus).read_value(pair_value(old(self).cpu_registers@, 6)))
            } else {
                Err(CpuError::InvalidRead(pair_value(old(self).cpu_registers@, 6)))
            }),
            code == 6 && r is Ok ==> old(self).tick_result(*old(bus), *final(self), *final(bus)),
            r is Err ==> *final(self) == *old(self) && *final(bus) == *old(bus),
            old(bus).same_stable(*final(bus)),
    {
        if code == 6 {
            let hl = self.double_register_value(REG_H);
            self.get_byte(bus, hl)
        } else {
            Ok(self.cpu_registers[reg_index_of(code)])
        }
    }

    /// Writes operand `code` (a register, or the byte at HL for code 6).
    fn write_operand(&mut self, bus: &mut Bus, code: u8, value: u8) -> (r: Result<(), CpuError>)
        requires
            old(self).wf(),
            old(bus).wf(),
            code <= 7,
        ensures
            final(self).wf(),
            final(bus).wf(),
            final(self).pc == old(self).pc,
            final(self).ime == old(self).ime,
            final(self).mcycles == old(self).mcycles,
            final(self).halt_mode == old(self).halt_mode,
            final(self).ime_scheduled == old(self).ime_scheduled,
            code != 6 ==> r is Ok && *final(bus) == *old(bus)
                && final(self).cpu_registers@ == old(self).cpu_registers@.update(reg_index(code), value)
                && *final(self) == (CPU { cpu_registers: final(self).cpu_registers, ..*old(self) }),
            code == 6 ==> {
                let hl = pair_value(old(self).cpu_registers@, 6);
                &&& final(self).cpu_registers == old(self).cpu_registers
                &&& (r is Ok <==> old(bus).writable(hl, value))
                &&& r is Err ==> r == Err::<(), CpuError>(CpuError::InvalidWrite(hl)) && *final(bus) == *old(bus)
                    && *final(self) == *old(self)
                &&& r is Ok && plain_memory(hl) ==> old(bus).stored_at(hl, value, *final(bus))
                &&& r is Ok ==> old(self).stored_then_ticked(*old(bus), hl, value, *final(self), *final(bus))
            },
    {
        if code == 6 {
            let hl = self.double_register_value(REG_H);
            self.set_byte(bus, hl, value)
        } else {
            let i = reg_index_of(code);
            self.cpu_registers[i] = value;
            Ok(())
        }
    }

    /// LD (nn),SP: stores SP at the address that follows the opcode, low byte first.
    #[verifier::rlimit(40)]
    fn store_stack_pointer(&mut self, bus: &mut Bus) -> (r: Result<(), CpuError>)
        requires
            old(self).wf(),
            old(bus).wf(),
        ensures
            final(self).wf(),
            final(bus).wf(),
            low_memory_result(*old(self), *old(bus), 0x08, *final(self), *final(bus), r),
            r is Ok ==> final(self).mcycles == 5,
    {
        proof {
            reveal(CPU::word_fetched_then_stored_twice);
            reveal(CPU::stored_twice);
        }
        let nn = self.fetch_word(bus)?;
        let ghost c2 = CPU { pc: old(self).pc, ..*self };
        let ghost b2f = *bus;
        let sp = self.double_register_value(REG_S);
        proof {
            lemma_word(sp);
            assert(old(self).ticked_twice(*old(bus), c2, b2f));
        }
        self.set_byte(bus, nn, (sp & 0xFF) as u8)?;
        let ghost c3 = *self;
        let ghost b2 = *bus;
        let next = nn.wrapping_add(1);
        assert(next == crate::bus::add16(nn, 1));
        proof {
            assert((CPU { pc: crate::bus::add16(old(self).pc, 2), ..c2 }).stored_then_ticked(b2f, nn, (sp % 256) as u8, c3, b2));
        }
        self.set_byte(bus, next, ((sp & 0xFF00) >> 8) as u8)?;
        proof {
            if plain_memory(nn) && plain_memory(next) {
                assert(b2.read_value(nn) == (sp % 256) as u8);
                assert(!aliases(nn, next));
                assert(bus.read_value(next) == (sp / 256) as u8);
                assert(bus.read_value(nn) == b2.read_value(nn));
            }
        }
        self.mcycles = 5;
        Ok(())
    }

    /// INC (HL) and DEC (HL) (`op` 0x34, 0x35).
    fn step_memory_at_hl(&mut self, bus: &mut Bus, op: u8) -> (r: Result<(), CpuError>)
        requires
            old(self).wf(),
            old(bus).wf(),
            op == 0x34 || op == 0x35,
        ensures
            final(self).wf(),
            final(bus).wf(),
            low_memory_result(*old(self), *old(bus), op, *final(self), *final(bus), r),
            r is Ok ==> final(self).mcycles == 3,
    {
        let y = op % 8;
        let hl = self.double_register_value(REG_H);
        proof {
            reveal(CPU::loaded_then_stored);
        }
        let v = self.get_byte(bus, hl)?;
        let ghost c1 = *self;
        let ghost b1 = *bus;
        let f = self.cpu_registers[REG_F];
        let (result, nf) = if y == 4 { inc(v, f) } else { dec(v, f) };
        proof {
            assert(old(self).tick_result(*old(bus), c1, b1));
            assert((CPU { pc: old(self).pc, ..c1 }) == c1);
        }
        self.set_byte(bus, hl, result)?;
        self.cpu_registers[REG_F] = nf;
        self.mcycles = 3;
        Ok(())
    }

    /// LD r,n and LD (HL),n (`op` 0x06, 0x0E, ..., 0x3E).
    fn load_immediate(&mut self, bus: &mut Bus, op: u8) -> (r: Result<(), CpuError>)
        requires
            old(self).wf(),
            old(bus).wf(),
            op < 0x40,
            op % 8 == 6,
        ensures
            final(self).wf(),
            final(bus).wf(),
            low_memory_result(*old(self), *old(bus), op, *final(self), *final(bus), r),
            r is Ok ==> final(self).mcycles == (if op == 0x36 { 3u8 } else { 2u8 }),
    {
        let x = (op / 8) % 8;
        proof {
            reveal(CPU::loaded_then_stored);
        }
        let n = self.fetch_byte(bus)?;
        let ghost c1 = CPU { pc: old(self).pc, ..*self };
        let ghost b1 = *bus;
        proof {
            assert(old(self).tick_result(*old(bus), c1, b1));
        }
        self.write_operand(bus, x, n)?;
        self.mcycles = if x == 6 { 3 } else { 2 };
        Ok(())
    }

    /// The opcodes of the first quarter of the main page that touch memory or PC.
    #[verifier::rlimit(50)]
    #[verifier::spinoff_prover]
    fn execute_low_memory_op(&mut self, bus: &mut Bus, op: u8) -> (r: Result<(), CpuError>)
        requires
            old(self).wf(),
            old(bus).wf(),
            op < 0x40,
            !register_opcode(op),
            implemented(op),
        ensures
            final(self).wf(),
            final(bus).wf(),
            low_memory_result(*old(self), *old(bus), op, *final(self), *final(bus), r),
            r is Ok ==> final(self).mcycles == memory_op_cycles(*old(self), op),
    {
        let x = (op / 8) % 8;
        let y = op % 8;
        if op % 16 == 1 {
            let nn = self.fetch_word(bus)?;
            self.set_double_register((op / 16) as usize * 2 + 2, nn);
            self.mcycles = 3;
        } else if op == 0x02 || op == 0x12 || op == 0x22 || op == 0x32 {
            let p: usize = if op == 0x02 { 2 } else if op == 0x12 { 4 } else { REG_H };
            let mem = self.double_register_value(p);
            let a = self.cpu_registers[REG_A];
            self.set_byte(bus, mem, a)?;
            if op == 0x22 {
                self.set_double_register(REG_H, mem.wrapping_add(1));
            } else if op == 0x32 {
                self.set_double_register(REG_H, mem.wrapping_sub(1));
            }
            self.mcycles = 2;
        } else if op == 0x0A || op == 0x1A || op == 0x2A || op == 0x3A {
            let p: usize = if op == 0x0A { 2 } else if op == 0x1A { 4 } else { REG_H };
            let mem = self.double_register_value(p);
            let ghost regs = self.cpu_registers@;
            let v = self.get_byte(bus, mem)?;
            self.cpu_registers[REG_A] = v;
            if op == 0x2A {
                self.set_double_register(REG_H, mem.wrapping_add(1));
            } else if op == 0x3A {
                self.set_double_register(REG_H, mem.wrapping_sub(1));
            }
            assert(self.cpu_registers@ =~= hl_stepped(regs, op).update(0, v));
            self.mcycles = 2;
        } else if y == 4 || y == 5 {
            self.step_memory_at_hl(bus, op)?;
        } else if y == 6 {
            self.load_immediate(bus, op)?;
        } else if op == 0x08 {
            self.store_stack_pointer(bus)?;
        } else if op == 0x18 {
            let dd = self.fetch_byte(bus)?;
            self.pc = jump_relative(self.pc, dd);
            self.mcycles = 3;
        } else {
            let dd = self.fetch_byte(bus)?;
            if self.check_condition(x - 4) {
                self.pc = jump_relative(self.pc, dd);
                self.mcycles = 3;
            } else {
                self.mcycles = 2;
            }
        }
        Ok(())
    }

    /// The opcodes 0x40..0xBF with an (HL) operand.
    fn execute_hl_operand_op(&mut self, bus: &mut Bus, op: u8) -> (r: Result<(), CpuError>)
        requires
            old(self).wf(),
            old(bus).wf(),
            0x40 <= op < 0xC0,
            !register_opcode(op),
            implemented(op),
        ensures
            final(self).wf(),
            final(bus).wf(),
            hl_operand_result(*old(self), *old(bus), op, *final(self), *final(bus), r),
            r is Ok ==> final(self).mcycles == memory_op_cycles(*old(self), op),
    {
        let x = (op / 8) % 8;
        let y = op % 8;
        if op < 0x80 {
            if y == 6 {
                let v = self.read_operand(bus, 6)?;
                let i = reg_index_of(x);
                self.cpu_registers[i] = v;
            } else {
                let v = self.cpu_registers[reg_index_of(y)];
                self.write_operand(bus, 6, v)?;
            }
            self.mcycles = 2;
        } else {
            let v = self.read_operand(bus, 6)?;
            let (r, nf) = alu(x, self.cpu_registers[REG_A], v, self.cpu_registers[REG_F]);
            self.cpu_registers[REG_A] = r;
            self.cpu_registers[REG_F] = nf;
            if x != 4 {
                self.mcycles = 2;
            }
        }
        Ok(())
    }
}

/// PC moved by the signed displacement `dd`.
pub open spec fn relative_target(pc: u16, dd: u8) -> u16 {
    ((pc + crate::cpu::alu::signed8(dd) + 0x10000) % 0x10000) as u16
}

/// Whether `nc` is CPU `c` with registers `regs` and program counter `pc`, its interrupt
/// state kept.
pub open spec fn moved_to(c: CPU, nc: CPU, regs: Seq<u8>, pc: u16) -> bool {
    &&& nc.cpu_registers@ == regs
    &&& nc.pc == pc
    &&& nc.ime == c.ime
    &&& nc.ime_scheduled == c.ime_scheduled
    &&& nc.halt_mode == c.halt_mode
}

/// The address that LD (rr),A and LD A,(rr) (`op` 0x02, 0x0A, 0x12, 0x1A, 0x22, 0x2A, 0x32,
/// 0x3A) use: BC, DE, or HL.
pub open spec fn indirect_address(regs: Seq<u8>, op: u8) -> u16 {
    if op / 16 == 0 { pair_value(regs, 2) } else if op / 16 == 1 { pair_value(regs, 4) } else { pair_value(regs, 6) }
}

/// The registers after the HL increment (0x22, 0x2A) or decrement (0x32, 0x3A) of those loads.
pub open spec fn hl_stepped(regs: Seq<u8>, op: u8) -> Seq<u8> {
    if op / 16 == 2 {
        with_pair(regs, 6, crate::bus::add16(pair_value(regs, 6), 1))
    } else if op / 16 == 3 {
        with_pair(regs, 6, crate::bus::add16(pair_value(regs, 6), -1))
    } else {
        regs
    }
}

/// Whether bus `nb` holds `value` on the stack below `sp` (high byte at SP - 1, low byte at
/// SP - 2), wherever those two bytes are plain memory.
pub open spec fn pushed(nb: Bus, sp: u16, value: u16) -> bool {
    plain_memory(crate::bus::add16(sp, -1)) && plain_memory(crate::bus::add16(sp, -2)) ==> {
        &&& nb.read_value(crate::bus::add16(sp, -1)) == (value / 256) as u8
        &&& nb.read_value(crate::bus::add16(sp, -2)) == (value % 256) as u8
    }
}

/// What is known of running opcode `op` (0x00..0x3F, not register-only) from CPU `c` and bus
/// `b`, given the CPU `nc`, bus `nb` and result `r` it ends with: loads with 16-bit
/// immediates and through BC, DE, HL+ and HL-, INC and DEC of (HL), loads of immediates,
/// LD (nn),SP, and the relative jumps.
pub open spec fn low_memory_result(c: CPU, b: Bus, op: u8, nc: CPU, nb: Bus, r: Result<(), CpuError>) -> bool {
    let regs = c.cpu_registers@;
    let pc = c.pc;
    let n8 = b.read_value(pc);
    let hl = pair_value(regs, 6);
    let x = (op / 8) % 8;
    if op % 16 == 1 {
        &&& (r is Ok <==> b.readable(pc) && b.readable(crate::bus::add16(pc, 1)))
        &&& r is Ok ==> moved_to(c, nc, with_pair(regs, pair_index(op / 16), b.word_value(pc)), crate::bus::add16(pc, 2))
        &&& c.word_fetched(b, CPU { cpu_registers: c.cpu_registers, pc, mcycles: c.mcycles, ..nc }, nb, r)
    } else if op % 16 == 2 {
        let addr = indirect_address(regs, op);
        &&& (r is Ok <==> b.writable(addr, regs[0]))
        &&& r is Ok ==> moved_to(c, nc, hl_stepped(regs, op), pc)
        &&& c.stored(b, addr, regs[0], CPU { cpu_registers: c.cpu_registers, mcycles: c.mcycles, ..nc }, nb, r)
        &&& r is Ok && plain_memory(addr) ==> b.stored_at(addr, regs[0], nb)
    } else if op % 16 == 10 {
        let addr = indirect_address(regs, op);
        &&& (r is Ok <==> b.readable(addr))
        &&& r is Ok ==> moved_to(c, nc, hl_stepped(regs, op).update(0, b.read_value(addr)), pc)
        &&& c.loaded(b, addr, CPU { cpu_registers: c.cpu_registers, mcycles: c.mcycles, ..nc }, nb, r, nc.cpu_registers@[0])
    } else if op == 0x34 || op == 0x35 {
        let v = b.read_value(hl);
        let res = if op == 0x34 { inc_spec(v, regs[1]) } else { dec_spec(v, regs[1]) };
        &&& (!b.readable(hl) ==> r == Err::<(), CpuError>(CpuError::InvalidRead(hl)))
        &&& r is Ok ==> moved_to(c, nc, regs.update(1, res.1), pc)
        &&& c.loaded_then_stored(b, hl, pc, hl, res.0, CPU { cpu_registers: c.cpu_registers, mcycles: c.mcycles, ..nc }, nb, r)
        &&& r is Ok && plain_memory(hl) ==> b.stored_at(hl, res.0, nb)
    } else if op == 0x36 {
        &&& (!b.readable(pc) ==> r == Err::<(), CpuError>(CpuError::InvalidRead(pc)))
        &&& r is Ok ==> moved_to(c, nc, regs, crate::bus::add16(pc, 1))
        &&& c.loaded_then_stored(b, pc, crate::bus::add16(pc, 1), hl, n8, CPU { mcycles: c.mcycles, ..nc }, nb, r)
        &&& r is Ok && plain_memory(hl) ==> b.stored_at(hl, n8, nb)
    } else if op % 8 == 6 {
        &&& (r is Ok <==> b.readable(pc))
        &&& r is Ok ==> moved_to(c, nc, regs.update(reg_index(x), n8), crate::bus::add16(pc, 1))
        &&& c.loaded(b, pc, CPU { cpu_registers: c.cpu_registers, pc, mcycles: c.mcycles, ..nc }, nb, r, n8)
    } else if op == 0x08 {
        let nn = b.word_value(pc);
        let sp = pair_value(regs, 8);
        &&& (!b.readable(pc) ==> r == Err::<(), CpuError>(CpuError::InvalidRead(pc)))
        &&& r is Ok ==> moved_to(c, nc, regs, crate::bus::add16(pc, 2))
        &&& r is Ok && plain_memory(nn) && plain_memory(crate::bus::add16(nn, 1)) ==> {
            &&& nb.read_value(nn) == (sp % 256) as u8
            &&& nb.read_value(crate::bus::add16(nn, 1)) == (sp / 256) as u8
        }
        &&& c.word_fetched_then_stored_twice(b, nn, (sp % 256) as u8, crate::bus::add16(nn, 1), (sp / 256) as u8,
            CPU { mcycles: c.mcycles, ..nc }, nb, r)
    } else if op == 0x18 {
        &&& (r is Ok <==> b.readable(pc))
        &&& r is Ok ==> moved_to(c, nc, regs, relative_target(crate::bus::add16(pc, 1), n8))
        &&& c.loaded(b, pc, CPU { pc, mcycles: c.mcycles, ..nc }, nb, r, n8)
    } else {
        &&& (r is Ok <==> b.readable(pc))
        &&& r is Ok ==> moved_to(c, nc, regs, if condition((x - 4) as u8, regs[1]) {
            relative_target(crate::bus::add16(pc, 1), n8)
        } else {
            crate::bus::add16(pc, 1)
        })
        &&& c.loaded(b, pc, CPU { pc, mcycles: c.mcycles, ..nc }, nb, r, n8)
    }
}

/// What is known of running opcode `op` (0x40..0xBF with an (HL) operand) from CPU `c` and
/// bus `b`: LD r,(HL), LD (HL),r and the arithmetic with (HL).
pub open spec fn hl_operand_result(c: CPU, b: Bus, op: u8, nc: CPU, nb: Bus, r: Result<(), CpuError>) -> bool {
    let regs = c.cpu_registers@;
    let hl = pair_value(regs, 6);
    let v = b.read_value(hl);
    let x = (op / 8) % 8;
    let y = op % 8;
    if op < 0x80 && y == 6 {
        &&& (r is Ok <==> b.readable(hl))
        &&& r is Ok ==> moved_to(c, nc, regs.update(reg_index(x), v), c.pc)
        &&& c.loaded(b, hl, CPU { cpu_registers: c.cpu_registers, mcycles: c.mcycles, ..nc }, nb, r, v)
    } else if op < 0x80 {
        &&& (r is Ok <==> b.writable(hl, regs[reg_index(y)]))
        &&& r is Ok ==> moved_to(c, nc, regs, c.pc)
        &&& c.stored(b, hl, regs[reg_index(y)], CPU { mcycles: c.mcycles, ..nc }, nb, r)
        &&& r is Ok && plain_memory(hl) ==> b.stored_at(hl, regs[reg_index(y)], nb)
    } else {
        let res = alu_spec(x, regs[0], v, regs[1]);
        &&& (r is Ok <==> b.readable(hl))
        &&& r is Ok ==> moved_to(c, nc, regs.update(0, res.0).update(1, res.1), c.pc)
        &&& c.loaded(b, hl, CPU { cpu_registers: c.cpu_registers, mcycles: c.mcycles, ..nc }, nb, r, v)
    }
}

/// What is known of running opcode `op` (0xC0..0xFF, not LD SP,HL nor one of those of
/// `high_misc_result`) from CPU `c` and bus `b`: returns, pops, jumps, calls, pushes, the
/// arithmetic with an immediate, and the restarts.
pub open spec fn high_result(c: CPU, b: Bus, op: u8, nc: CPU, nb: Bus, r: Result<(), CpuError>) -> bool {
    let regs = c.cpu_registers@;
    let pc = c.pc;
    let f = regs[1];
    let sp = pair_value(regs, 8);
    let x = (op / 8) % 8;
    let y = op % 8;
    let n8 = b.read_value(pc);
    let nn = b.word_value(pc);
    let popped = stable_address(sp) && stable_address(crate::bus::add16(sp, 1));
    let after_pop = with_pair(regs, 8, crate::bus::add16(sp, 2));
    let after_push = with_pair(regs, 8, crate::bus::add16(sp, -2));
    if y == 0 && x < 4 {
        if condition(x, f) {
            &&& (!b.readable(sp) ==> r == Err::<(), CpuError>(CpuError::InvalidRead(sp)))
            &&& r is Ok ==> moved_to(c, nc, after_pop, nc.pc)
            &&& r is Ok ==> nc.pc % 256 == b.read_value(sp)
            &&& c.loaded_then_loaded(b, sp, pc, crate::bus::add16(sp, 1),
                CPU { cpu_registers: c.cpu_registers, pc, mcycles: c.mcycles, ..nc }, nb, r, (nc.pc / 256) as u8)
            &&& r is Ok && popped ==> nc.pc == b.word_value(sp)
        } else {
            r is Ok && moved_to(c, nc, regs, pc) && nb == b
        }
    } else if y == 1 && x % 2 == 0 {
        let p = if op == 0xF1 { 0 } else { pair_index(x / 2) };
        let w = if op == 0xF1 { b.word_value(sp) & 0xFFF0 } else { b.word_value(sp) };
        &&& (!b.readable(sp) ==> r == Err::<(), CpuError>(CpuError::InvalidRead(sp)))
        &&& r is Ok ==> nc.pc == pc && nc.ime == c.ime && nc.ime_scheduled == c.ime_scheduled && nc.halt_mode == c.halt_mode
        &&& r is Ok ==> {
            let hi = nc.cpu_registers@[p];
            let lo = nc.cpu_registers@[p + 1];
            &&& nc.cpu_registers@ == with_pair(after_pop, p, pair_value(nc.cpu_registers@, p))
            &&& lo == if op == 0xF1 { b.read_value(sp) & 0xF0 } else { b.read_value(sp) }
        }
        &&& c.loaded_then_loaded(b, sp, pc, crate::bus::add16(sp, 1), CPU { cpu_registers: c.cpu_registers, mcycles: c.mcycles, ..nc },
            nb, r, nc.cpu_registers@[p])
        &&& r is Ok && popped ==> moved_to(c, nc, with_pair(after_pop, p, w), pc)
    } else if (y == 2 && x < 4) || op == 0xC3 {
        &&& (r is Ok <==> b.readable(pc) && b.readable(crate::bus::add16(pc, 1)))
        &&& r is Ok ==> moved_to(c, nc, regs, if op == 0xC3 || condition(x, f) { nn } else { crate::bus::add16(pc, 2) })
        &&& c.word_fetched(b, CPU { pc, mcycles: c.mcycles, ..nc }, nb, r)
    } else if (y == 4 && x < 4) || op == 0xCD {
        let taken = op == 0xCD || condition(x, f);
        let fetched = b.readable(pc) && b.readable(crate::bus::add16(pc, 1));
        &&& (!b.readable(pc) ==> r == Err::<(), CpuError>(CpuError::InvalidRead(pc)))
        &&& r is Ok ==> moved_to(c, nc, if taken { after_push } else { regs }, if taken { nn } else { crate::bus::add16(pc, 2) })
        &&& r is Ok && taken ==> pushed(nb, sp, crate::bus::add16(pc, 2))
        &&& taken ==> c.word_fetched_then_stored_twice(b, crate::bus::add16(sp, -1), (crate::bus::add16(pc, 2) / 256) as u8,
            crate::bus::add16(sp, -2), (crate::bus::add16(pc, 2) % 256) as u8,
            CPU { cpu_registers: c.cpu_registers, pc: if fetched { crate::bus::add16(pc, 2) } else { pc }, mcycles: c.mcycles, ..nc },
            nb, r)
        &&& !taken ==> c.word_fetched(b, CPU { pc, mcycles: c.mcycles, ..nc }, nb, r)
    } else if y == 5 && x % 2 == 0 {
        let value = pair_value(regs, if op == 0xF5 { 0 } else { pair_index(x / 2) });
        &&& (!b.writable(crate::bus::add16(sp, -1), (value / 256) as u8) ==> r == Err::<(), CpuError>(
            CpuError::InvalidWrite(crate::bus::add16(sp, -1))))
        &&& r is Ok ==> moved_to(c, nc, after_push, pc)
        &&& r is Ok ==> pushed(nb, sp, value)
        &&& c.stored_twice(b, crate::bus::add16(sp, -1), (value / 256) as u8, crate::bus::add16(sp, -2), (value % 256) as u8,
            CPU { cpu_registers: c.cpu_registers, mcycles: c.mcycles, ..nc }, nb, r)
    } else if y == 6 {
        let res = alu_spec(x, regs[0], n8, f);
        &&& (r is Ok <==> b.readable(pc))
        &&& r is Ok ==> moved_to(c, nc, regs.update(0, res.0).update(1, res.1), crate::bus::add16(pc, 1))
        &&& c.loaded(b, pc, CPU { cpu_registers: c.cpu_registers, pc, mcycles: c.mcycles, ..nc }, nb, r, n8)
    } else if y == 7 {
        &&& (!b.writable(crate::bus::add16(sp, -1), (pc / 256) as u8) ==> r == Err::<(), CpuError>(
            CpuError::InvalidWrite(crate::bus::add16(sp, -1))))
        &&& r is Ok ==> moved_to(c, nc, after_push, (x * 8) as u16)
        &&& r is Ok ==> pushed(nb, sp, pc)
        &&& c.stored_twice(b, crate::bus::add16(sp, -1), (pc / 256) as u8, crate::bus::add16(sp, -2), (pc % 256) as u8,
            CPU { cpu_registers: c.cpu_registers, pc, mcycles: c.mcycles, ..nc }, nb, r)
    } else {
        &&& (!b.readable(sp) ==> r == Err::<(), CpuError>(CpuError::InvalidRead(sp)))
        &&& r is Ok ==> nc.cpu_registers@ == after_pop && nc.ime_scheduled == c.ime_scheduled && nc.halt_mode == c.halt_mode
            && nc.ime == (if op == 0xD9 { 1 } else { c.ime })
        &&& r is Ok ==> nc.pc % 256 == b.read_value(sp)
        &&& (if op == 0xD9 { CPU { ime: 1, ..c } } else { c }).loaded_then_loaded(b, sp, pc, crate::bus::add16(sp, 1),
            CPU { cpu_registers: c.cpu_registers, pc, mcycles: c.mcycles, ..nc }, nb, r, (nc.pc / 256) as u8)
        &&& r is Ok && popped ==> nc.pc == b.word_value(sp)
    }
}

/// Whether `op` is one of LDH, LD (C),A, LD A,(C), the stack-pointer arithmetic, JP HL, the
/// loads through an immediate address, DI and EI.
pub open spec fn misc_opcode(op: u8) -> bool {
    op == 0xE0 || op == 0xF0 || op == 0xE2 || op == 0xF2 || op == 0xE8 || op == 0xF8 || op == 0xE9 || op == 0xEA
        || op == 0xFA || op == 0xF3 || op == 0xFB
}

/// What is known of running opcode `op` (a `misc_opcode`) from CPU `c` and bus `b`. LDH A,(n)
/// of LY (0xFF44) loads 0x90.
pub open spec fn high_misc_result(c: CPU, b: Bus, op: u8, nc: CPU, nb: Bus, r: Result<(), CpuError>) -> bool {
    let regs = c.cpu_registers@;
    let pc = c.pc;
    let f = regs[1];
    let sp = pair_value(regs, 8);
    let n8 = b.read_value(pc);
    let nn = b.word_value(pc);
    let high = (0xFF00 + n8) as u16;
    let via_c = (0xFF00 + regs[3]) as u16;
    if op == 0xE0 {
        &&& (!b.readable(pc) ==> r == Err::<(), CpuError>(CpuError::InvalidRead(pc)))
        &&& r is Ok ==> moved_to(c, nc, regs, crate::bus::add16(pc, 1))
        &&& c.loaded_then_stored(b, pc, crate::bus::add16(pc, 1), high, regs[0], CPU { mcycles: c.mcycles, ..nc }, nb, r)
        &&& r is Ok && n8 >= 0x80 ==> b.stored_at(high, regs[0], nb)
    } else if op == 0xF0 {
        &&& (!b.readable(pc) ==> r == Err::<(), CpuError>(CpuError::InvalidRead(pc)))
        &&& r is Ok ==> moved_to(c, nc, regs.update(0, nc.cpu_registers[0]), crate::bus::add16(pc, 1))
        &&& r is Ok && n8 >= 0x80 ==> nc.cpu_registers[0] == b.read_value(high)
        &&& n8 != 0x44 ==> c.loaded_then_loaded(b, pc, crate::bus::add16(pc, 1), high,
            CPU { cpu_registers: c.cpu_registers, mcycles: c.mcycles, ..nc }, nb, r, nc.cpu_registers[0])
        &&& n8 == 0x44 ==> exists|v: u8| #[trigger] c.loaded_then_loaded(b, pc, crate::bus::add16(pc, 1), high,
            CPU { cpu_registers: c.cpu_registers, mcycles: c.mcycles, ..nc }, nb, r, v)
        &&& r is Ok && n8 == 0x44 ==> nc.cpu_registers[0] == 0x90
    } else if op == 0xE2 {
        &&& (r is Ok <==> b.writable(via_c, regs[0]))
        &&& r is Ok ==> moved_to(c, nc, regs, pc)
        &&& c.stored(b, via_c, regs[0], CPU { mcycles: c.mcycles, ..nc }, nb, r)
        &&& r is Ok && regs[3] >= 0x80 ==> b.stored_at(via_c, regs[0], nb)
    } else if op == 0xF2 {
        &&& (r is Ok <==> b.readable(via_c))
        &&& r is Ok ==> moved_to(c, nc, regs.update(0, b.read_value(via_c)), pc)
        &&& c.loaded(b, via_c, CPU { cpu_registers: c.cpu_registers, mcycles: c.mcycles, ..nc }, nb, r, nc.cpu_registers[0])
    } else if op == 0xE8 || op == 0xF8 {
        let res = add_sp_spec(sp, n8, f);
        &&& (r is Ok <==> b.readable(pc))
        &&& r is Ok ==> moved_to(c, nc, with_pair(regs, if op == 0xE8 { 8int } else { 6int }, res.0).update(1, res.1),
            crate::bus::add16(pc, 1))
        &&& c.loaded(b, pc, CPU { cpu_registers: c.cpu_registers, pc, mcycles: c.mcycles, ..nc }, nb, r, n8)
    } else if op == 0xE9 {
        r is Ok && moved_to(c, nc, regs, pair_value(regs, 6)) && nb == b
    } else if op == 0xEA {
        &&& (!b.readable(pc) ==> r == Err::<(), CpuError>(CpuError::InvalidRead(pc)))
        &&& r is Ok ==> moved_to(c, nc, regs, crate::bus::add16(pc, 2))
        &&& r is Ok && plain_memory(nn) ==> b.stored_at(nn, regs[0], nb)
        &&& c.word_fetched_then_stored(b, nn, regs[0], CPU { mcycles: c.mcycles, ..nc }, nb, r)
    } else if op == 0xFA {
        &&& (!b.readable(pc) ==> r == Err::<(), CpuError>(CpuError::InvalidRead(pc)))
        &&& r is Ok ==> moved_to(c, nc, regs.update(0, nc.cpu_registers[0]), crate::bus::add16(pc, 2))
        &&& r is Ok && stable_address(nn) ==> nc.cpu_registers[0] == b.read_value(nn)
        &&& c.word_fetched_then_loaded(b, nn, CPU { cpu_registers: c.cpu_registers, mcycles: c.mcycles, ..nc }, nb, r,
            nc.cpu_registers[0])
    } else {
        &&& r is Ok && nb == b
        &&& nc.cpu_registers == c.cpu_registers && nc.pc == pc && nc.ime_scheduled == c.ime_scheduled
        &&& nc.halt_mode == c.halt_mode && nc.ime == (if op == 0xF3 { 0u8 } else { 1u8 })
    }
}

/// What is known of running an implemented opcode `op` of the main page that is not
/// register-only, from CPU `c` and bus `b`, given the CPU `nc`, bus `nb` and result `r`.
pub open spec fn memory_op_result(c: CPU, b: Bus, op: u8, nc: CPU, nb: Bus, r: Result<(), CpuError>) -> bool {
    &&& r is Ok ==> nc.mcycles == memory_op_cycles(c, op)
    &&& if op < 0x40 {
        low_memory_result(c, b, op, nc, nb, r)
    } else if op < 0xC0 {
        hl_operand_result(c, b, op, nc, nb, r)
    } else if misc_opcode(op) {
        high_misc_result(c, b, op, nc, nb, r)
    } else {
        high_result(c, b, op, nc, nb, r)
    }
}

/// The machine cycles that opcode `op` (implemented, not register-only) records when it runs
/// from CPU `c`; the conditional jumps, calls and returns record fewer when not taken, and
/// AND (HL) and RST record none, keeping the previous count.
pub open spec fn memory_op_cycles(c: CPU, op: u8) -> u8 {
    let x = (op / 8) % 8;
    let y = op % 8;
    let f = c.cpu_registers@[1];
    if op < 0x40 {
        if op % 16 == 1 {
            3
        } else if op % 16 == 2 || op % 16 == 10 {
            2
        } else if op == 0x34 || op == 0x35 || op == 0x36 {
            3
        } else if y == 6 {
            2
        } else if op == 0x08 {
            5
        } else if op == 0x18 {
            3
        } else if condition((x - 4) as u8, f) {
            3
        } else {
            2
        }
    } else if op < 0xC0 {
        if op == 0xA6 { c.mcycles } else { 2 }
    } else if misc_opcode(op) {
        if op == 0xE0 || op == 0xF0 {
            3
        } else if op == 0xE2 || op == 0xF2 {
            2
        } else if op == 0xE8 || op == 0xF8 || op == 0xEA || op == 0xFA {
            4
        } else {
            1
        }
    } else if y == 0 && x < 4 {
        if condition(x, f) { 5 } else { 2 }
    } else if y == 1 && x % 2 == 0 {
        3
    } else if y == 2 && x < 4 {
        if condition(x, f) { 4 } else { 3 }
    } else if op == 0xC3 {
        4
    } else if y == 4 && x < 4 {
        if condition(x, f) { 6 } else { 3 }
    } else if y == 5 && x % 2 == 0 {
        4
    } else if y == 6 {
        2
    } else if y == 7 {
        c.mcycles
    } else if op == 0xC9 || op == 0xD9 {
        4
    } else {
        6
    }
}

/// What is known of running 0xCB-page opcode `op` on the (HL) operand (`op % 8 == 6`) from CPU
/// `c` and bus `b`: the byte at HL is read; rotates, shifts, RES and SET store their result
/// back, BIT only sets the flags.
pub open spec fn cb_hl_result(c: CPU, b: Bus, op: u8, nc: CPU, nb: Bus, r: Result<(), CpuError>) -> bool {
    let regs = c.cpu_registers@;
    let hl = pair_value(regs, 6);
    let v = b.read_value(hl);
    let f = regs[1];
    let k = (op / 8) % 8;
    &&& (!b.readable(hl) ==> r == Err::<(), CpuError>(CpuError::InvalidRead(hl)))
    &&& r is Ok ==> nc.mcycles == if op < 0x80 { 4 } else { c.mcycles }
    &&& if op < 0x40 {
        let s = shift_spec(op / 8, v, f);
        &&& r is Ok ==> moved_to(c, nc, regs.update(1, s.1), c.pc)
        &&& c.loaded_then_stored(b, hl, c.pc, hl, s.0, CPU { cpu_registers: c.cpu_registers, mcycles: c.mcycles, ..nc }, nb, r)
        &&& r is Ok && plain_memory(hl) ==> b.stored_at(hl, s.0, nb)
    } else if op < 0x80 {
        &&& (r is Ok <==> b.readable(hl))
        &&& r is Ok ==> moved_to(c, nc, regs.update(1, flags(f, b2u(bit8(v, k) == 0), 0, 1, carry(f))), c.pc)
        &&& c.loaded(b, hl, CPU { cpu_registers: c.cpu_registers, mcycles: c.mcycles, ..nc }, nb, r, v)
    } else {
        let w = if op < 0xC0 { v & !(1u8 << k) } else { v | (1u8 << k) };
        &&& r is Ok ==> moved_to(c, nc, regs, c.pc)
        &&& c.loaded_then_stored(b, hl, c.pc, hl, w, CPU { mcycles: c.mcycles, ..nc }, nb, r)
        &&& r is Ok && plain_memory(hl) ==> b.stored_at(hl, w, nb)
    }
}

/// What running 0xCB-page opcode `op` from CPU `c` and bus `b` gives: on a register, the
/// register operation (SLA of a register whose bit 7 is set is refused and changes nothing);
/// on (HL), what `cb_hl_result` describes.
pub open spec fn cb_op_result(c: CPU, b: Bus, op: u8, nc: CPU, nb: Bus, r: Result<(), CpuError>) -> bool {
    if op % 8 != 6 {
        if 0x20 <= op < 0x28 && c.cpu_registers[reg_index(op % 8)] >= 0x80 {
            r == Err::<(), CpuError>(CpuError::InvalidFlag) && nc == c && nb == b
        } else {
            &&& r is Ok
            &&& nc.cpu_registers@ == cb_register_op(c.cpu_registers@, op)
            &&& nc == (CPU { cpu_registers: nc.cpu_registers, mcycles: 2, ..c })
            &&& nb == b
        }
    } else {
        cb_hl_result(c, b, op, nc, nb, r)
    }
}

/// What running opcode `op` of the main page from CPU `c` and bus `b` gives: an unimplemented
/// opcode is refused and changes nothing, a register-only opcode changes the registers as
/// `register_op` says, the others are described by `memory_op_result`.
pub open spec fn opcode_result(c: CPU, b: Bus, op: u8, nc: CPU, nb: Bus, r: Result<(), CpuError>) -> bool {
    if !implemented(op) {
        r == Err::<(), CpuError>(CpuError::UnimplementedOpcode(op)) && nc == c && nb == b
    } else if register_opcode(op) {
        &&& r is Ok
        &&& nc.cpu_registers@ == register_op(c.cpu_registers@, op)
        &&& nc == (CPU { cpu_registers: nc.cpu_registers, mcycles: register_op_cycles(op), ..c })
        &&& nb == b
    } else {
        memory_op_result(c, b, op, nc, nb, r)
    }
}

/// Returns PC moved by the signed displacement `dd`.
fn jump_relative(pc: u16, dd: u8) -> (r: u16)
    ensures
        r == relative_target(pc, dd),
{
    if dd < 128 {
        pc.wrapping_add(dd as u16)
    } else {
        pc.wrapping_sub(256 - dd as u16)
    }
}


impl CPU {
    /// The opcodes 0xC0..0xFF (but LD SP, HL).
    #[verifier::rlimit(40)]
    fn execute_high_op(&mut self, bus: &mut Bus, op: u8) -> (r: Result<(), CpuError>)
        requires
            old(self).wf(),
            old(bus).wf(),
            op >= 0xC0,
            op != 0xF9,
            implemented(op),
        ensures
            final(self).wf(),
            final(bus).wf(),
            misc_opcode(op) ==> high_misc_result(*old(self), *old(bus), op, *final(self), *final(bus), r),
            !misc_opcode(op) ==> high_result(*old(self), *old(bus), op, *final(self), *final(bus), r),
            r is Ok ==> final(self).mcycles == memory_op_cycles(*old(self), op),
    {
        let x = (op / 8) % 8;
        let y = op % 8;
        proof {
            reveal(CPU::word_fetched_then_stored_twice);
        }
        if y == 0 && x < 4 {
            if self.check_condition(x) {
                proof {
                    reveal(CPU::loaded_then_loaded);
                }
                self.pc = self.pop_stack(bus)?;
                self.mcycles = 5;
            } else {
                self.mcycles = 2;
            }
        } else if y == 1 && x % 2 == 0 {
            proof {
                reveal(CPU::loaded_then_loaded);
            }
            let popped = self.pop_stack(bus)?;
            let p: usize = if op == 0xF1 { REG_A } else { ((op - 0xC0) / 16) as usize * 2 + 2 };
            let value = if op == 0xF1 { popped & 0xFFF0 } else { popped };
            assert((popped & 0xFFF0) / 256 == popped / 256 && (popped & 0xFFF0) % 256 == ((popped % 256) as u8 & 0xF0) as u16)
                by (bit_vector);
            let ghost regs = self.cpu_registers@;
            self.set_double_register(p, value);
            assert(self.cpu_registers@ =~= with_pair(regs, p as int, pair_value(self.cpu_registers@, p as int)));
            self.mcycles = 3;
        } else if y == 2 && x < 4 {
            let nn = self.fetch_word(bus)?;
            if self.check_condition(x) {
                self.pc = nn;
                self.mcycles = 4;
            } else {
                self.mcycles = 3;
            }
        } else if op == 0xC3 {
            let nn = self.fetch_word(bus)?;
            self.pc = nn;
            self.mcycles = 4;
        } else if y == 4 && x < 4 {
            let nn = self.fetch_word(bus)?;
            proof {
                assert(old(self).ticked_twice(*old(bus), CPU { pc: old(self).pc, ..*self }, *bus));
            }
            if self.check_condition(x) {
                let pc = self.pc;
                self.push_stack(bus, pc)?;
                self.pc = nn;
                self.mcycles = 6;
            } else {
                self.mcycles = 3;
            }
        } else if y == 5 && x % 2 == 0 {
            let p: usize = if op == 0xF5 { REG_A } else { ((op - 0xC0) / 16) as usize * 2 + 2 };
            let value = self.double_register_value(p);
            self.push_stack(bus, value)?;
            self.mcycles = 4;
        } else if y == 6 {
            let n = self.fetch_byte(bus)?;
            let (r, nf) = alu(x, self.cpu_registers[REG_A], n, self.cpu_registers[REG_F]);
            self.cpu_registers[REG_A] = r;
            self.cpu_registers[REG_F] = nf;
            self.mcycles = 2;
        } else if y == 7 {
            let pc = self.pc;
            self.push_stack(bus, pc)?;
            proof {
                lemma_byte(op);
            }
            self.pc = (op & 0x38) as u16;
        } else if op == 0xC9 || op == 0xD9 {
            if op == 0xD9 {
                self.ime = 1;
            }
            proof {
                reveal(CPU::loaded_then_loaded);
            }
            self.pc = self.pop_stack(bus)?;
            self.mcycles = 4;
        } else if op == 0xCD {
            let nn = self.fetch_word(bus)?;
            proof {
                assert(old(self).ticked_twice(*old(bus), CPU { pc: old(self).pc, ..*self }, *bus));
            }
            let pc = self.pc;
            self.push_stack(bus, pc)?;
            self.pc = nn;
            self.mcycles = 6;
        } else {
            self.execute_high_misc_op(bus, op)?;
        }
        Ok(())
    }

    /// LDH, the 16-bit immediate loads, the stack-pointer arithmetic, JP HL, DI and EI.
    fn execute_high_misc_op(&mut self, bus: &mut Bus, op: u8) -> (r: Result<(), CpuError>)
        requires
            old(self).wf(),
            old(bus).wf(),
            misc_opcode(op),
        ensures
            final(self).wf(),
            final(bus).wf(),
            high_misc_result(*old(self), *old(bus), op, *final(self), *final(bus), r),
            r is Ok ==> final(self).mcycles == memory_op_cycles(*old(self), op),
    {
        let ghost regs = self.cpu_registers@;
        if op == 0xE0 {
            proof {
                reveal(CPU::loaded_then_stored);
            }
            let n = self.fetch_byte(bus)?;
            let ghost c1 = CPU { pc: old(self).pc, ..*self };
            let ghost b1 = *bus;
            let a = self.cpu_registers[REG_A];
            proof {
                assert(old(self).tick_result(*old(bus), c1, b1));
            }
            self.set_byte(bus, 0xFF00 + n as u16, a)?;
            self.mcycles = 3;
        } else if op == 0xF0 {
            proof {
                reveal(CPU::loaded_then_loaded);
            }
            let n = self.fetch_byte(bus)?;
            let ghost c1 = CPU { pc: old(self).pc, ..*self };
            let ghost b1 = *bus;
            let mem = 0xFF00 + n as u16;
            proof {
                assert(old(self).tick_result(*old(bus), c1, b1));
            }
            let value = self.get_byte(bus, mem)?;
            proof {
                assert(old(self).loaded_then_loaded(*old(bus), old(self).pc, crate::bus::add16(old(self).pc, 1), mem,
                    CPU { mcycles: old(self).mcycles, ..*self }, *bus, Ok(()), value));
            }
            self.cpu_registers[REG_A] = value;
            if mem == 0xFF44 {
                self.cpu_registers[REG_A] = 0x90;
            }
            assert(self.cpu_registers@ =~= regs.update(0, self.cpu_registers[0]));
            self.mcycles = 3;
        } else if op == 0xE2 {
            let mem = 0xFF00 + self.cpu_registers[3] as u16;
            let a = self.cpu_registers[REG_A];
            self.set_byte(bus, mem, a)?;
            self.mcycles = 2;
        } else if op == 0xF2 {
            let mem = 0xFF00 + self.cpu_registers[3] as u16;
            let value = self.get_byte(bus, mem)?;
            self.cpu_registers[REG_A] = value;
            assert(self.cpu_registers@ =~= regs.update(0, value));
            self.mcycles = 2;
        } else if op == 0xE8 || op == 0xF8 {
            let dd = self.fetch_byte(bus)?;
            let sp = self.double_register_value(REG_S);
            let (result, nf) = add_sp(sp, dd, self.cpu_registers[REG_F]);
            self.set_double_register(if op == 0xE8 { REG_S } else { REG_H }, result);
            self.cpu_registers[REG_F] = nf;
            assert(self.cpu_registers@ =~= with_pair(regs, if op == 0xE8 { 8int } else { 6int }, result).update(1, nf));
            self.mcycles = 4;
        } else if op == 0xE9 {
            self.pc = self.double_register_value(REG_H);
            self.mcycles = 1;
        } else if op == 0xEA {
            proof {
                reveal(CPU::word_fetched_then_stored);
            }
            let nn = self.fetch_word(bus)?;
            let a = self.cpu_registers[REG_A];
            proof {
                assert(old(self).ticked_twice(*old(bus), CPU { pc: old(self).pc, ..*self }, *bus));
            }
            self.set_byte(bus, nn, a)?;
            self.mcycles = 4;
        } else if op == 0xFA {
            proof {
                reveal(CPU::word_fetched_then_loaded);
            }
            let nn = self.fetch_word(bus)?;
            proof {
                assert(old(self).ticked_twice(*old(bus), CPU { pc: old(self).pc, ..*self }, *bus));
            }
            let value = self.get_byte(bus, nn)?;
            self.cpu_registers[REG_A] = value;
            assert(self.cpu_registers@ =~= regs.update(0, value));
            self.mcycles = 4;
        } else if op == 0xF3 {
            self.ime = 0;
            self.mcycles = 1;
        } else {
            self.ime = 1;
            self.mcycles = 1;
        }
        Ok(())
    }

    /// Runs opcode `op` of the main page (its opcode byte already fetched).
    pub fn execute(&mut self, bus: &mut Bus, op: u8) -> (r: Result<(), CpuError>)
        requires
            old(self).wf(),
            old(bus).wf(),
        ensures
            final(self).wf(),
            final(bus).wf(),
            opcode_result(*old(self), *old(bus), op, *final(self), *final(bus), r),
    {
        if !implemented_opcode(op) {
            return Err(CpuError::UnimplementedOpcode(op));
        }
        let is_register_op = if op < 0x40 {
            let y = op % 8;
            ((y == 4 || y == 5) && op / 8 != 6) || op % 16 == 3 || op % 16 == 11 || op % 16 == 9 || op == 0x00
                || op == 0x07 || op == 0x0F || op == 0x17 || op == 0x1F || op == 0x27 || op == 0x2F || op == 0x37
                || op == 0x3F
        } else if op < 0x80 {
            (op / 8) % 8 != 6 && op % 8 != 6
        } else if op < 0xC0 {
            op % 8 != 6
        } else {
            op == 0xF9
        };
        if is_register_op {
            self.execute_register_op(op);
            Ok(())
        } else if op < 0x40 {
            self.execute_low_memory_op(bus, op)
        } else if op < 0xC0 {
            self.execute_hl_operand_op(bus, op)
        } else {
            self.execute_high_op(bus, op)
        }
    }

    /// Runs opcode `op` of the 0xCB page: rotates and shifts, BIT, RES and SET.
    pub fn execute_cb(&mut self, bus: &mut Bus, op: u8) -> (r: Result<(), CpuError>)
        requires
            old(self).wf(),
            old(bus).wf(),
        ensures
            final(self).wf(),
            final(bus).wf(),
            cb_op_result(*old(self), *old(bus), op, *final(self), *final(bus), r),
    {
        let code = op % 8;
        let b = (op / 8) % 8;
        if code != 6 && 0x20 <= op && op < 0x28 && self.cpu_registers[reg_index_of(code)] >= 0x80 {
            return Err(CpuError::InvalidFlag);
        }
        proof {
            reveal(CPU::loaded_then_stored);
        }
        let v = self.read_operand(bus, code)?;
        let ghost c1 = *self;
        let ghost b1 = *bus;
        proof {
            if code == 6 {
                assert(old(self).tick_result(*old(bus), c1, b1));
                assert((CPU { pc: old(self).pc, ..c1 }) == c1);
            }
        }
        let f = self.cpu_registers[REG_F];
        assert(b < 8);
        if op < 0x40 {
            let (result, c) = shift(op / 8, v, f);
            self.write_operand(bus, code, result)?;
            self.cpu_registers[REG_F] = set_flags(f, if result == 0 { 1 } else { 0 }, 0, 0, c);
            self.mcycles = if code == 6 { 4 } else { 2 };
        } else if op < 0x80 {
            let bit = (v >> b) & 0x1;
            assert(bit == bit8(v, b));
            self.cpu_registers[REG_F] = set_flags(f, if bit == 0 { 1 } else { 0 }, 0, 1, get_bit(f, 4));
            self.mcycles = if code == 6 { 4 } else { 2 };
        } else if op < 0xC0 {
            self.write_operand(bus, code, v & !(1u8 << b))?;
            if code != 6 {
                self.mcycles = 2;
            }
        } else {
            self.write_operand(bus, code, v | (1u8 << b))?;
            if code != 6 {
                self.mcycles = 2;
            }
        }
        Ok(())
    }
}

/// The branch conditions read the flags: NZ and Z test the zero flag (F bit 7), NC and C the
/// carry flag (F bit 4), each condition holding exactly when its flag is clear (NZ, NC) or set
/// (Z, C).
pub proof fn lemma_conditions_read_the_flags(f: u8)
    ensures
        condition(0, f) == (f & 0x80 == 0),
        condition(1, f) == (f & 0x80 != 0),
        condition(2, f) == (f & 0x10 == 0),
        condition(3, f) == (f & 0x10 != 0),
{
    assert(((f >> 7u8) & 1 == 0) == (f & 0x80 == 0) && ((f >> 4u8) & 1 == 0) == (f & 0x10 == 0) && ((f >> 7u8) & 1 == 1)
        == (f & 0x80 != 0) && ((f >> 4u8) & 1 == 1) == (f & 0x10 != 0)) by (bit_vector);
}

/// A conditional relative jump that runs (JR NZ, JR Z, JR NC, JR C: opcodes 0x20, 0x28,
/// 0x30, 0x38) jumps by its displacement exactly when its flag test holds, and otherwise goes
/// on after its operand: JR NC jumps only with the carry flag clear, JR C only with it set.
pub proof fn lemma_conditional_jump(c: CPU, b: Bus, op: u8, nc: CPU, nb: Bus)
    requires
        op == 0x20 || op == 0x28 || op == 0x30 || op == 0x38,
        opcode_result(c, b, op, nc, nb, Ok(())),
    ensures
        ({
            let f = c.cpu_registers@[1];
            let zero = f & 0x80 != 0;
            let carry = f & 0x10 != 0;
            let taken = if op == 0x20 { !zero } else if op == 0x28 { zero } else if op == 0x30 { !carry } else { carry };
            nc.pc == if taken {
                relative_target(crate::bus::add16(c.pc, 1), b.read_value(c.pc))
            } else {
                crate::bus::add16(c.pc, 1)
            }
        }),
{
    lemma_conditions_read_the_flags(c.cpu_registers@[1]);
}

} // verus!
