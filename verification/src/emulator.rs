use vstd::prelude::*;

use crate::apu::APU;
use crate::bus::Bus;
use crate::mmu::{p1_value, MMU};
use crate::ppu::PPU;
use crate::cartridge::{gb_mode_of, load, loadable, loaded_from, AnyCartridge, SaveFiles, HEADER_CGB_FLAG};
use crate::gb_mode::GBMode;
use crate::color::Color;
use crate::cpu::opcodes::{implemented, register_op, register_opcode};
use crate::cpu::{interrupts_served, CpuError, CPU, EXPANDED_INSTRUCTION_OPCODE};
use crate::input::{EmulatorInput, Input};
use crate::ppu::SCREEN_PIXELS;
use crate::rewind::History;
use crate::save_state::{BusState, CPUState, EmulatorState, PPUState};

verus! {

/// A request of the emulator's own controls that the frontend carries out (it touches save
/// files or the saved states).
#[derive(Clone, Copy, Debug, PartialEq, Eq, Structural)]
pub enum ConfigAction {
    /// Save the cartridge and quit.
    Exit,
    /// Save the machine state, on the stack (`None`) or in slot `i`.
    SaveState(Option<usize>),
    /// Restore the machine state, from the top of the stack (`None`) or from slot `i`.
    LoadState(Option<usize>),
}

/// The console: the CPU and the bus with everything behind it.
pub struct Emulator {
    pub cpu: CPU,
    pub bus: Bus,
    /// Whether a ROM was given; without one the screen stays blank.
    pub emulator_active: bool,
    /// The background map shown by the debug view (0..3).
    pub current_bg_map: u8,
}

/// The background map after the "previous" and "next" requests.
pub open spec fn next_bg_map(current: u8, prev: bool, next: bool) -> u8 {
    let a: u8 = if prev { ((current + 1) % 4) as u8 } else { current };
    if next { if a == 0 { 3 } else { (a - 1) as u8 } } else { a }
}

/// The requests of `input` that the frontend carries out, in the order it must.
pub open spec fn config_actions(input: EmulatorInput) -> Seq<ConfigAction> {
    let s0: Seq<ConfigAction> = if input.exit { seq![ConfigAction::Exit] } else { Seq::empty() };
    let s1 = if input.save_state { s0.push(ConfigAction::SaveState(None)) } else { s0 };
    let s2 = if input.load_state { s1.push(ConfigAction::LoadState(None)) } else { s1 };
    let s3 = if input.select_save_state.0 { s2.push(ConfigAction::SaveState(Some(input.select_save_state.1))) } else { s2 };
    if input.select_load_state.0 { s3.push(ConfigAction::LoadState(Some(input.select_load_state.1))) } else { s3 }
}

/// Whether `cart` and `mode` are what loading ROM `data_buffer` with save files `saves` gives:
/// the cartridge its header describes and the console it targets, or an empty 32 KiB ROM for
/// the monochrome console when there is no ROM.
pub open spec fn loaded_cartridge(cart: AnyCartridge, mode: GBMode, data_buffer: Option<Vec<u8>>, saves: SaveFiles) -> bool {
    match data_buffer {
        Some(d) => mode == gb_mode_of(d@[HEADER_CGB_FLAG as int]) && loaded_from(cart, d@, saves),
        None => mode == GBMode::DMG && (cart matches AnyCartridge::RomOnly(c) && c.is_new(Seq::new(32768, |i: int| 0u8))),
    }
}

/// The I/O registers after boot: all zero but P1 (0xCF), SC (0x7E), DIV (0xAB), TAC (0xF8)
/// and IF (0xE1).
pub open spec fn booted_io_registers() -> Seq<u8> {
    Seq::new(128, |i: int| 0u8).update(0x00, 0xCF).update(0x02, 0x7E).update(0x04, 0xAB).update(0x07, 0xF8).update(0x0F, 0xE1)
}

/// What holds of the bus right after a cartridge is loaded and the console boots: cleared work
/// RAM, high RAM and IE, the post-boot I/O registers, timer and LCD registers, a reset APU,
/// no DMA, single speed.
pub open spec fn booted_bus(b: Bus) -> bool {
    &&& b.ppu.lcdc == 0x91 && b.ppu.stat == 0x85 && b.ppu.bgp == 0xFC
    &&& b.mmu.io_registers@ == booted_io_registers()
    &&& b.mmu.timer.internal_timer == 0xAB00 && b.mmu.timer.div == 0xAB && b.mmu.timer.tac == 0xF8
    &&& b.mmu.timer.tima == 0 && b.mmu.timer.tma == 0
    &&& forall|i: int| 0 <= i < 8192 ==> #[trigger] b.mmu.wram[i] == 0
    &&& forall|i: int| 0 <= i < 127 ==> #[trigger] b.mmu.hram[i] == 0
    &&& b.mmu.ie_register == 0
    &&& b.apu.is_reset()
    &&& forall|i: int| 0 <= i < 5 ==> #[trigger] b.hdma[i] == 0xFF
    &&& b.hdma_struct == crate::bus::Hdma::idle()
    &&& !b.dma_active && !b.double_speed && b.key1 == 0x7E
}

/// The saved states of the emulator's controls: a stack, and four numbered slots (`None`
/// where nothing was saved).
pub struct SaveSlots {
    pub stack: Vec<EmulatorState>,
    pub slots: Vec<Option<EmulatorState>>,
}

impl SaveSlots {
    /// There are four numbered slots.
    pub open spec fn wf(&self) -> bool {
        self.slots@.len() == 4
    }

    /// No state saved.
    pub fn new() -> (s: SaveSlots)
        ensures
            s.wf(),
            s.stack@.len() == 0,
            forall|i: int| 0 <= i < 4 ==> #[trigger] s.slots@[i] is None,
    {
        let mut slots: Vec<Option<EmulatorState>> = Vec::new();
        let mut i: usize = 0;
        while i < 4
            invariant
                i <= 4,
                slots@.len() == i,
                forall|j: int| 0 <= j < i ==> #[trigger] slots@[j] is None,
            decreases 4 - i,
        {
            slots.push(None);
            i += 1;
        }
        SaveSlots { stack: Vec::new(), slots }
    }

    /// The state that loading from `position` takes: slot `i`, or the top of the stack.
    pub open spec fn chosen(self, position: Option<usize>) -> Option<EmulatorState> {
        match position {
            Some(i) => self.slots@[i as int],
            None => if self.stack@.len() > 0 { Some(self.stack@.last()) } else { None },
        }
    }
}

/// One frame of the rewind history: the machine as it was when the frame was shown, the
/// cartridge as the text the frontend made of it, and the screen.
pub struct RewindFrame {
    pub cpu: CPUState,
    pub bus: BusState,
    pub cartridge_json: String,
    pub screen: [Color; 23040],
}

impl RewindFrame {
    /// Whether the machine state of the frame can be resumed.
    pub open spec fn valid(&self) -> bool {
        self.cpu.valid() && self.bus.valid()
    }

    /// Returns whether the machine state of the frame can be resumed.
    pub fn is_valid(&self) -> (b: bool)
        ensures
            b == self.valid(),
    {
        self.cpu.is_valid() && self.bus.is_valid()
    }
}

impl Emulator {
    /// Whether frame `f` records this console, its cartridge given as `cartridge_json`.
    pub open spec fn recorded_in(self, f: RewindFrame, cartridge_json: Seq<char>) -> bool {
        &&& f.cpu == self.cpu.snapshot()
        &&& f.bus.mmu_state == self.bus.mmu.snapshot()
        &&& self.bus.ppu.described_by(f.bus.ppu_state)
        &&& f.bus.apu_state == self.bus.apu.snapshot()
        &&& f.screen == self.bus.ppu.screen_buffer
        &&& f.cartridge_json@ == cartridge_json
    }

    /// Whether `new` and `r` follow from this console by one instruction (`step`): the errors
    /// of an unreadable PC and of an unimplemented opcode, the register-only opcodes, and in
    /// full the CPU step or, when halted, one machine cycle and the interrupt check.
    pub open spec fn stepped_to(self, new: Emulator, r: Result<(), CpuError>) -> bool {
        let pc = self.cpu.pc;
        let bus = self.bus;
        &&& new.emulator_active == self.emulator_active
        &&& new.current_bg_map == self.current_bg_map
        &&& !self.cpu.halt_mode && !bus.readable(pc) ==> r == Err::<(), CpuError>(CpuError::InvalidRead(pc))
        &&& !self.cpu.halt_mode && bus.readable(pc) && bus.read_value(pc) != EXPANDED_INSTRUCTION_OPCODE
            && !implemented(bus.read_value(pc)) ==> r == Err::<(), CpuError>(CpuError::UnimplementedOpcode(bus.read_value(pc)))
        &&& !self.cpu.halt_mode && self.cpu.ime != 1 && bus.readable(pc) && register_opcode(bus.read_value(pc)) ==> r is Ok
            && new.cpu.cpu_registers@ == register_op(self.cpu.cpu_registers@, bus.read_value(pc)) && new.cpu.pc
            == crate::bus::add16(pc, 1)
        &&& !self.cpu.halt_mode ==> self.cpu.stepped(bus, new.cpu, new.bus, r)
        &&& self.cpu.halt_mode ==> exists|c1: CPU, b1: Bus|
            #[trigger] self.cpu.tick_result(bus, c1, b1) && interrupts_served(c1, b1, new.cpu, new.bus, r)
    }

    /// Whether each console of `run` follows the one before by a successful step.
    pub open spec fn steps_ok(run: Seq<Emulator>) -> bool {
        forall|i: int| 0 <= i < run.len() - 1 ==> #[trigger] run[i].stepped_to(run[i + 1], Ok(()))
    }

    /// Whether the CPU and bus snapshots `cpu` and `bus` record this console.
    pub open spec fn recorded_state(self, cpu: CPUState, bus: BusState) -> bool {
        &&& cpu == self.cpu.snapshot()
        &&& bus.mmu_state == self.bus.mmu.snapshot()
        &&& self.bus.ppu.described_by(bus.ppu_state)
        &&& bus.apu_state == self.bus.apu.snapshot()
    }

    /// Whether `new` is this console with the CPU, memory map, PPU and APU restored from the
    /// snapshots `cpu` and `bus` (the cartridge, the screen and the pending samples stay).
    pub open spec fn restored_state(self, cpu: CPUState, bus: BusState, new: Emulator) -> bool {
        &&& new.cpu == self.cpu.restored(cpu)
        &&& new.bus.mmu == self.bus.mmu.restored(bus.mmu_state)
        &&& new.bus.ppu.described_by(bus.ppu_state)
        &&& new.bus.ppu.screen_buffer == self.bus.ppu.screen_buffer
        &&& new.bus.ppu.active_layers == self.bus.ppu.active_layers
        &&& new.bus.apu == self.bus.apu.restored(bus.apu_state)
        &&& new == (Emulator {
            cpu: new.cpu,
            bus: Bus { mmu: new.bus.mmu, ppu: new.bus.ppu, apu: new.bus.apu, ..self.bus },
            ..self
        })
    }

    /// Whether `new` is this console showing `screen`, with no frame ready and nothing else
    /// changed.
    #[verifier::opaque]
    pub open spec fn showing(self, screen: [Color; 23040], new: Emulator) -> bool {
        new == (Emulator {
            bus: Bus { ppu: PPU { frame_ready: false, screen_buffer: screen, ..self.bus.ppu }, ..self.bus },
            ..self
        })
    }

    /// Whether `new` is this console taken back to frame `f`: the CPU, memory map, PPU and APU
    /// restored from its states (the cartridge and the pending samples stay), its screen shown,
    /// and no frame ready.
    #[verifier::opaque]
    pub open spec fn rewound_to(self, f: RewindFrame, new: Emulator) -> bool {
        &&& new.cpu == self.cpu.restored(f.cpu)
        &&& new.bus.mmu == self.bus.mmu.restored(f.bus.mmu_state)
        &&& new.bus.ppu.described_by(PPUState { frame_ready: false, ..f.bus.ppu_state })
        &&& new.bus.ppu.screen_buffer == f.screen
        &&& new.bus.ppu.active_layers == self.bus.ppu.active_layers
        &&& new.bus.apu == self.bus.apu.restored(f.bus.apu_state)
        &&& new == (Emulator {
            cpu: new.cpu,
            bus: Bus { mmu: new.bus.mmu, ppu: new.bus.ppu, apu: new.bus.apu, ..self.bus },
            ..self
        })
    }

    /// The invariant of the console.
    pub open spec fn wf(&self) -> bool {
        self.cpu.wf() && self.bus.wf() && self.current_bg_map < 4
    }

    /// Builds the console for ROM `data_buffer` (none: an empty cartridge and a blank screen)
    /// and its save files, in its post-boot state.
    pub fn new(data_buffer: Option<Vec<u8>>, saves: SaveFiles) -> (e: Emulator)
        requires
            data_buffer matches Some(d) ==> loadable(d@, saves),
        ensures
            e.wf(),
            e.emulator_active == data_buffer is Some,
            e.current_bg_map == 0,
            e.cpu.pc == 0x100,
            e.cpu.cpu_registers@ == seq![0x01u8, 0xB0, 0x00, 0x13, 0x00, 0xD8, 0x01, 0x4D, 0xFF, 0xFE],
            e.cpu == (CPU {
                cpu_registers: e.cpu.cpu_registers,
                pc: 0x100,
                mcycles: 0,
                ime: 0,
                ime_scheduled: false,
                halt_mode: false,
                rtc_oscillator: 0,
            }),
            loaded_cartridge(e.bus.mmu.cartridge, e.bus.gb_mode, data_buffer, saves),
            booted_bus(e.bus),
            e.bus.ppu.ly == 0 && e.bus.ppu.current_clock == 0 && e.bus.ppu.mode == crate::ppu::Mode::OAMSearch,
            e.bus.serial_output@.len() == 0,
    {
        let emulator_active = data_buffer.is_some();
        let (cartridge, gb_mode) = load(data_buffer, saves);
        let mut bus = Bus::new(cartridge);
        bus.initialize(gb_mode);
        assert(bus.mmu.io_registers@ =~= booted_io_registers());
        let mut cpu = CPU::new();
        cpu.initialize();
        Emulator { cpu, bus, emulator_active, current_bg_map: 0 }
    }

    /// Loads a new ROM and restarts the console.
    pub fn load(&mut self, data_buffer: Option<Vec<u8>>, saves: SaveFiles)
        requires
            old(self).wf(),
            data_buffer matches Some(d) ==> loadable(d@, saves),
        ensures
            final(self).wf(),
            final(self).emulator_active,
            final(self).cpu.pc == 0x100,
            final(self).cpu.cpu_registers@ == seq![0x01u8, 0xB0, 0x00, 0x13, 0x00, 0xD8, 0x01, 0x4D, 0xFF, 0xFE],
            final(self).current_bg_map == old(self).current_bg_map,
            final(self).cpu == (CPU { cpu_registers: final(self).cpu.cpu_registers, pc: 0x100, ..old(self).cpu }),
            loaded_cartridge(final(self).bus.mmu.cartridge, final(self).bus.gb_mode, data_buffer, saves),
            booted_bus(final(self).bus),
            final(self).bus.ppu == (PPU { lcdc: 0x91, stat: 0x85, bgp: 0xFC, ..old(self).bus.ppu }),
    {
        self.emulator_active = true;
        let (cartridge, gb_mode) = load(data_buffer, saves);
        self.bus.load_rom(cartridge);
        self.bus.initialize(gb_mode);
        assert(self.bus.mmu.io_registers@ =~= booted_io_registers());
        self.cpu.initialize();
    }

    /// Hands the buttons to the joypad register.
    pub fn store_input(&mut self, input: Input)
        requires
            old(self).wf(),
        ensures
            final(self).wf(),
            final(self).bus.mmu.input == input,
            final(self).bus.mmu.io_registers@ == old(self).bus.mmu.io_registers@.update(0,
                p1_value(old(self).bus.mmu.io_registers[0], input)),
            final(self).bus.mmu == (MMU { input, io_registers: final(self).bus.mmu.io_registers, ..old(self).bus.mmu }),
            *final(self) == (Emulator { bus: Bus { mmu: final(self).bus.mmu, ..old(self).bus }, ..*old(self) }),
    {
        self.bus.mmu.store_input(input);
    }

    /// Runs one instruction.
    pub fn step(&mut self) -> (r: Result<(), CpuError>)
        requires
            old(self).wf(),
        ensures
            final(self).wf(),
            final(self).emulator_active == old(self).emulator_active,
            final(self).current_bg_map == old(self).current_bg_map,
            ({
                let pc = old(self).cpu.pc;
                let bus = old(self).bus;
                &&& !old(self).cpu.halt_mode && !bus.readable(pc) ==> r == Err::<(), CpuError>(CpuError::InvalidRead(pc))
                &&& !old(self).cpu.halt_mode && bus.readable(pc) && bus.read_value(pc) != EXPANDED_INSTRUCTION_OPCODE
                    && !implemented(bus.read_value(pc)) ==> r == Err::<(), CpuError>(
                    CpuError::UnimplementedOpcode(bus.read_value(pc)))
                &&& !old(self).cpu.halt_mode && old(self).cpu.ime != 1 && bus.readable(pc) && register_opcode(bus.read_value(pc))
                    ==> r is Ok && final(self).cpu.cpu_registers@ == register_op(old(self).cpu.cpu_registers@, bus.read_value(pc))
                    && final(self).cpu.pc == crate::bus::add16(pc, 1)
                &&& !old(self).cpu.halt_mode ==> old(self).cpu.stepped(bus, final(self).cpu, final(self).bus, r)
                &&& old(self).cpu.halt_mode ==> exists|c1: CPU, b1: Bus|
                    #[trigger] old(self).cpu.tick_result(bus, c1, b1) && interrupts_served(c1, b1, final(self).cpu, final(self).bus, r)
            }),
            old(self).stepped_to(*final(self), r),
    {
        self.cpu.step(&mut self.bus)
    }

    /// Runs instructions until the PPU has a frame ready, at most `max_steps` of them: `Ok(true)`
    /// once a frame is ready (at once when one already is), `Ok(false)` after `max_steps`
    /// instructions with none ready, or the error of the instruction that failed.
    pub fn run_until_frame(&mut self, max_steps: u64) -> (r: Result<bool, CpuError>)
        requires
            old(self).wf(),
        ensures
            final(self).wf(),
            exists|run: Seq<Emulator>|
                #[trigger] Emulator::steps_ok(run) && run.len() >= 1 && run[0] == *old(self) && run.len() - 1 <= max_steps
                    && (forall|i: int| 0 <= i < run.len() - 1 ==> !(#[trigger] run[i].bus.ppu.frame_ready))
                    && match r {
                    Ok(true) => run.last() == *final(self) && final(self).bus.ppu.frame_ready,
                    Ok(false) => run.last() == *final(self) && run.len() - 1 == max_steps && !final(self).bus.ppu.frame_ready,
                    Err(e) => !run.last().bus.ppu.frame_ready && run.len() - 1 < max_steps && run.last().stepped_to(
                        *final(self),
                        Err(e),
                    ),
                },
    {
        let ghost mut run: Seq<Emulator> = seq![*self];
        let mut n: u64 = 0;
        while !self.bus.ppu.frame_ready
            invariant
                self.wf(),
                run.len() == n + 1,
                run[0] == *old(self),
                run.last() == *self,
                Emulator::steps_ok(run),
                n <= max_steps,
                forall|i: int| 0 <= i < run.len() - 1 ==> !(#[trigger] run[i].bus.ppu.frame_ready),
            decreases max_steps - n,
        {
            if n == max_steps {
                return Ok(false);
            }
            let ghost before = *self;
            let stepped = self.step();
            if let Err(e) = stepped {
                proof {
                    assert(before.stepped_to(*self, Err(e)));
                }
                return Err(e);
            }
            proof {
                match stepped {
                    Ok(u) => {
                        assert(u == ());
                    },
                    Err(_) => {},
                }
                let old_run = run;
                run = run.push(*self);
                assert forall|i: int| 0 <= i < run.len() - 1 implies #[trigger] run[i].stepped_to(run[i + 1], Ok(())) by {
                    if i < old_run.len() - 1 {
                        assert(old_run[i].stepped_to(old_run[i + 1], Ok(())));
                    }
                }
                assert forall|i: int| 0 <= i < run.len() - 1 implies !(#[trigger] run[i].bus.ppu.frame_ready) by {
                    if i < old_run.len() - 1 {
                        assert(!old_run[i].bus.ppu.frame_ready);
                    }
                }
            }
            n += 1;
        }
        Ok(true)
    }

    /// Whether the PPU finished a frame since the last `finish_frame`.
    pub fn frame_ready(&self) -> (b: bool)
        ensures
            b == self.bus.ppu.frame_ready,
    {
        self.bus.ppu.frame_ready
    }

    /// Marks the current frame as shown.
    pub fn finish_frame(&mut self)
        requires
            old(self).wf(),
        ensures
            final(self).wf(),
            !final(self).bus.ppu.frame_ready,
            *final(self) == (Emulator {
                bus: Bus { ppu: PPU { frame_ready: false, ..old(self).bus.ppu }, ..old(self).bus },
                ..*old(self)
            }),
    {
        self.bus.ppu.frame_ready = false;
    }

    /// The screen, row after row.
    pub fn get_screen(&self) -> (s: &[Color; 23040])
        ensures
            *s == self.bus.ppu.screen_buffer,
    {
        self.bus.ppu.get_screen_buffer()
    }

    /// Applies the debug-view requests of `input` and returns the requests that the frontend
    /// carries out, in order.
    pub fn update_config(&mut self, input: EmulatorInput) -> (actions: Vec<ConfigAction>)
        requires
            old(self).wf(),
        ensures
            final(self).wf(),
            final(self).current_bg_map == next_bg_map(old(self).current_bg_map, input.prev_bg_map, input.next_bg_map),
            actions@ == config_actions(input),
            forall|i: int| 0 <= i < 3 ==> #[trigger] final(self).bus.ppu.active_layers[i] == (old(self).bus.ppu.active_layers[i]
                != input.toggle_layer[i]),
            *final(self) == (Emulator {
                current_bg_map: final(self).current_bg_map,
                bus: Bus { ppu: PPU { active_layers: final(self).bus.ppu.active_layers, ..old(self).bus.ppu }, ..old(self).bus },
                ..*old(self)
            }),
    {
        if input.prev_bg_map {
            self.current_bg_map = (self.current_bg_map + 1) % 4;
        }
        if input.next_bg_map {
            self.current_bg_map = if self.current_bg_map == 0 { 3 } else { self.current_bg_map - 1 };
        }
        let mut actions: Vec<ConfigAction> = Vec::new();
        if input.exit {
            actions.push(ConfigAction::Exit);
        }
        if input.save_state {
            actions.push(ConfigAction::SaveState(None));
        }
        if input.load_state {
            actions.push(ConfigAction::LoadState(None));
        }
        if input.select_save_state.0 {
            actions.push(ConfigAction::SaveState(Some(input.select_save_state.1)));
        }
        if input.select_load_state.0 {
            actions.push(ConfigAction::LoadState(Some(input.select_load_state.1)));
        }
        assert(actions@ =~= config_actions(input));
        let ghost start = self.bus.ppu.active_layers;
        let mut i: usize = 0;
        while i < 3
            invariant
                i <= 3,
                self.wf(),
                start == old(self).bus.ppu.active_layers,
                self.current_bg_map == next_bg_map(old(self).current_bg_map, input.prev_bg_map, input.next_bg_map),
                forall|j: int| 0 <= j < 3 ==> #[trigger] self.bus.ppu.active_layers[j]
                    == if j < i { start[j] != input.toggle_layer[j] } else { start[j] },
                *self == (Emulator {
                    current_bg_map: self.current_bg_map,
                    bus: Bus { ppu: PPU { active_layers: self.bus.ppu.active_layers, ..old(self).bus.ppu }, ..old(self).bus },
                    ..*old(self)
                }),
            decreases 3 - i,
        {
            if input.toggle_layer[i] {
                self.bus.ppu.toggle_layer(i);
            }
            i += 1;
        }
        actions
    }

    /// Applies the sound requests of `input`: the master mute and the four channel mutes.
    pub fn apply_sound_toggles(&mut self, input: EmulatorInput)
        requires
            old(self).wf(),
        ensures
            final(self).wf(),
            final(self).bus.apu.is_mute == (old(self).bus.apu.is_mute != input.toggle_mute),
            forall|i: int| 0 <= i < 4 ==> #[trigger] final(self).bus.apu.mute_channels[i]
                == (old(self).bus.apu.mute_channels[i] != input.toggle_channel[i]),
            *final(self) == (Emulator {
                bus: Bus {
                    apu: APU { is_mute: final(self).bus.apu.is_mute, mute_channels: final(self).bus.apu.mute_channels, ..old(self).bus.apu },
                    ..old(self).bus
                },
                ..*old(self)
            }),
    {
        if input.toggle_mute {
            self.bus.apu.toggle_mute();
        }
        let ghost start = self.bus.apu.mute_channels;
        let mut i: usize = 0;
        while i < 4
            invariant
                i <= 4,
                self.wf(),
                self.bus.apu.is_mute == (old(self).bus.apu.is_mute != input.toggle_mute),
                forall|j: int| 0 <= j < 4 ==> #[trigger] self.bus.apu.mute_channels[j]
                    == if j < i { start[j] != input.toggle_channel[j] } else { start[j] },
                start == old(self).bus.apu.mute_channels,
                *self == (Emulator {
                    bus: Bus {
                        apu: APU { is_mute: self.bus.apu.is_mute, mute_channels: self.bus.apu.mute_channels, ..old(self).bus.apu },
                        ..old(self).bus
                    },
                    ..*old(self)
                }),
            decreases 4 - i,
        {
            if input.toggle_channel[i] {
                self.bus.apu.toggle_channel(i);
            }
            i += 1;
        }
    }

    /// The tiles of VRAM in the debug palette.
    pub fn get_tilemap(&self) -> (t: Vec<Color>)
        ensures
            t@.len() == 384 * 64,
            forall|m: int| 0 <= m < 384 * 64 ==> #[trigger] t@[m] == crate::ppu::tilemap_entry(self.bus.ppu.vram@, m),
    {
        self.bus.ppu.get_tilemap()
    }

    /// The background map chosen by the debug view, in the debug palette.
    pub fn get_bg_map(&self) -> (t: Vec<Color>)
        ensures
            t@.len() == 1024 * 64,
            forall|m: int| 0 <= m < 1024 * 64 ==> #[trigger] t@[m] == crate::ppu::bg_map_entry_color(
                self.bus.ppu.vram@, self.current_bg_map, m),
    {
        self.bus.ppu.get_bg_map(self.current_bg_map)
    }

    /// Saves the machine in slot `i` (`Some(i)`) or on the stack (`None`), with the cartridge
    /// given as `cartridge_json`.
    pub fn save_state(&self, saves: &mut SaveSlots, position: Option<usize>, cartridge_json: String)
        requires
            self.wf(),
            old(saves).wf(),
            position matches Some(i) ==> i < 4,
        ensures
            final(saves).wf(),
            ({
                let saved = match position {
                    Some(i) => final(saves).slots@[i as int],
                    None => Some(final(saves).stack@.last()),
                };
                &&& saved matches Some(s) && self.recorded_state(s.cpu_state, s.bus_state) && s.cartridge_json@ == cartridge_json@
                    && s.cpu_state.valid() && s.bus_state.valid()
            }),
            position matches Some(i) ==> {
                &&& final(saves).stack@ == old(saves).stack@
                &&& forall|j: int| 0 <= j < 4 && j != i ==> #[trigger] final(saves).slots@[j] == old(saves).slots@[j]
            },
            position is None ==> {
                &&& final(saves).slots@ == old(saves).slots@
                &&& final(saves).stack@.len() == old(saves).stack@.len() + 1
                &&& final(saves).stack@.drop_last() == old(saves).stack@
            },
    {
        let state = EmulatorState { cpu_state: self.cpu.create_state(), bus_state: self.bus.create_state(), cartridge_json };
        proof {
            crate::save_state::lemma_cpu_state_valid(self.cpu);
        }
        match position {
            Some(i) => {
                saves.slots.set(i, Some(state));
            },
            None => {
                saves.stack.push(state);
                proof {
                    assert(saves.stack@.drop_last() =~= old(saves).stack@);
                }
            },
        }
    }

    /// Restores the machine from slot `i` (`Some(i)`) or from the top of the stack (`None`);
    /// an empty slot or stack changes nothing. Returns the saved cartridge text, for the
    /// frontend to restore the cartridge from.
    pub fn load_state(&mut self, saves: &SaveSlots, position: Option<usize>) -> (cartridge_json: Option<String>)
        requires
            old(self).wf(),
            saves.wf(),
            position matches Some(i) ==> i < 4,
            saves.chosen(position) matches Some(s) ==> s.cpu_state.valid() && s.bus_state.valid(),
        ensures
            final(self).wf(),
            saves.chosen(position) is None ==> cartridge_json is None && *final(self) == *old(self),
            saves.chosen(position) matches Some(s) ==> {
                &&& cartridge_json matches Some(j) && j@ == s.cartridge_json@
                &&& old(self).restored_state(s.cpu_state, s.bus_state, *final(self))
            },
    {
        let chosen: Option<&EmulatorState> = match position {
            Some(i) => match &saves.slots[i] {
                Some(s) => Some(s),
                None => None,
            },
            None => {
                let n = saves.stack.len();
                if n > 0 { Some(&saves.stack[n - 1]) } else { None }
            },
        };
        match chosen {
            None => None,
            Some(s) => {
                let bus = s.bus_state.copy();
                self.cpu.load_state(s.cpu_state);
                self.bus.load_state(bus);
                Some(s.cartridge_json.clone())
            },
        }
    }

    /// Records the frame just shown as the newest of `history` (forgetting the oldest when it
    /// is full), with the cartridge given as `cartridge_json`.
    pub fn record_frame(&self, history: &mut History<RewindFrame>, cartridge_json: String)
        requires
            self.wf(),
            old(history).wf(),
        ensures
            final(history).wf(),
            final(history).capacity == old(history).capacity,
            final(history).entries@.len() == if old(history).entries@.len() == old(history).capacity {
                old(history).capacity as int
            } else {
                old(history).entries@.len() + 1int
            },
            final(history).entries@.drop_last() == if old(history).entries@.len() == old(history).capacity {
                old(history).entries@.drop_first()
            } else {
                old(history).entries@
            },
            self.recorded_in(final(history).entries@.last(), cartridge_json@),
            final(history).entries@.last().valid(),
    {
        let frame = RewindFrame {
            cpu: self.cpu.create_state(),
            bus: self.bus.create_state(),
            cartridge_json,
            screen: self.bus.ppu.screen_buffer,
        };
        proof {
            crate::save_state::lemma_cpu_state_valid(self.cpu);
        }
        let ghost f = frame;
        history.push(frame);
        proof {
            let old_entries = old(history).entries@;
            if old_entries.len() == old(history).capacity {
                assert(history.entries@.drop_last() =~= old_entries.drop_first());
            } else {
                assert(history.entries@.drop_last() =~= old_entries);
            }
        }
    }

    /// Takes the console back to the newest frame of `history` and drops that frame; either
    /// way no frame is ready afterwards. Returns the frame's cartridge text, for the frontend to
    /// restore the cartridge from, or `None` when the history is empty. A frame whose machine
    /// state cannot be resumed only has its screen shown.
    pub fn rewind(&mut self, history: &mut History<RewindFrame>) -> (cartridge_json: Option<String>)
        requires
            old(self).wf(),
            old(history).wf(),
        ensures
            final(self).wf(),
            final(history).wf(),
            final(history).capacity == old(history).capacity,
            old(history).entries@.len() == 0 ==> {
                &&& cartridge_json is None
                &&& final(history).entries@ == old(history).entries@
                &&& *final(self) == (Emulator {
                    bus: Bus { ppu: PPU { frame_ready: false, ..old(self).bus.ppu }, ..old(self).bus },
                    ..*old(self)
                })
            },
            old(history).entries@.len() > 0 ==> final(history).entries@ == old(history).entries@.drop_last(),
            old(history).entries@.len() > 0 && old(history).entries@.last().valid() ==> {
                &&& cartridge_json matches Some(j) && j@ == old(history).entries@.last().cartridge_json@
                &&& old(self).rewound_to(old(history).entries@.last(), *final(self))
            },
            old(history).entries@.len() > 0 && !old(history).entries@.last().valid() ==> {
                &&& cartridge_json is None
                &&& old(self).showing(old(history).entries@.last().screen, *final(self))
            },
    {
        match history.pop() {
            None => {
                self.bus.ppu.frame_ready = false;
                None
            },
            Some(frame) => {
                if frame.is_valid() {
                    Some(self.restore_frame(frame))
                } else {
                    self.show_screen(frame.screen);
                    None
                }
            },
        }
    }

    /// Takes the console back to frame `f` and returns its cartridge text.
    fn restore_frame(&mut self, f: RewindFrame) -> (cartridge_json: String)
        requires
            old(self).wf(),
            f.valid(),
        ensures
            final(self).wf(),
            cartridge_json@ == f.cartridge_json@,
            old(self).rewound_to(f, *final(self)),
    {
        proof {
            reveal(Emulator::rewound_to);
        }
        let RewindFrame { cpu, bus, cartridge_json, screen } = f;
        self.cpu.load_state(cpu);
        self.bus.load_state(bus);
        self.bus.ppu.screen_buffer = screen;
        self.bus.ppu.frame_ready = false;
        cartridge_json
    }

    /// Shows `screen`, with no frame ready.
    fn show_screen(&mut self, screen: [Color; 23040])
        requires
            old(self).wf(),
        ensures
            final(self).wf(),
            old(self).showing(screen, *final(self)),
    {
        proof {
            reveal(Emulator::showing);
        }
        self.bus.ppu.screen_buffer = screen;
        self.bus.ppu.frame_ready = false;
    }
}


/// Loading a state saved from console `e` gives `e` back as far as the state holds it: the
/// same CPU, memory map but for the cartridge, APU but for the pending samples, and PPU with
/// the same objects (the screen stays as it was).
pub proof fn lemma_save_then_load(e: Emulator, s: EmulatorState, x: Emulator, y: Emulator)
    requires
        e.recorded_state(s.cpu_state, s.bus_state),
        x.restored_state(s.cpu_state, s.bus_state, y),
    ensures
        y.cpu == e.cpu,
        y.bus.mmu == (MMU { cartridge: x.bus.mmu.cartridge, ..e.bus.mmu }),
        y.bus.apu == (APU { samples: x.bus.apu.samples, ..e.bus.apu }),
        y.bus.ppu.object_buffer@ == e.bus.ppu.object_buffer@,
        y.bus.ppu == (PPU {
            object_buffer: y.bus.ppu.object_buffer,
            screen_buffer: x.bus.ppu.screen_buffer,
            active_layers: x.bus.ppu.active_layers,
            ..e.bus.ppu
        }),
{
}

/// Rewinding to a frame recorded from console `e` gives `e` back as far as the frame holds
/// it: the same CPU, memory map but for the cartridge, APU but for the pending samples, and
/// PPU with the same screen and objects and no frame ready.
pub proof fn lemma_record_then_rewind(e: Emulator, f: RewindFrame, json: Seq<char>, x: Emulator, y: Emulator)
    requires
        e.recorded_in(f, json),
        x.rewound_to(f, y),
    ensures
        y.cpu == e.cpu,
        y.bus.mmu == (MMU { cartridge: x.bus.mmu.cartridge, ..e.bus.mmu }),
        y.bus.apu == (APU { samples: x.bus.apu.samples, ..e.bus.apu }),
        y.bus.ppu.object_buffer@ == e.bus.ppu.object_buffer@,
        y.bus.ppu == (PPU {
            object_buffer: y.bus.ppu.object_buffer,
            frame_ready: false,
            active_layers: x.bus.ppu.active_layers,
            ..e.bus.ppu
        }),
{
    reveal(Emulator::rewound_to);
}

/// Stepping the debug background map forward and then back returns to the same map.
pub proof fn lemma_bg_map_steps(current: u8)
    requires
        current < 4,
    ensures
        next_bg_map(next_bg_map(current, true, false), false, true) == current,
        next_bg_map(next_bg_map(current, false, true), true, false) == current,
        next_bg_map(current, true, false) < 4,
        next_bg_map(current, false, true) < 4,
{
}

} // verus!
