use vstd::prelude::*;

pub mod apu;
pub mod bits;
pub mod bus;
pub mod cartridge;
pub mod color;
pub mod cpu;
pub mod emulator;
pub mod gb_mode;
pub mod input;
pub mod mmu;
pub mod palette;
pub mod ppu;
pub mod rewind;
pub mod save_state;
pub mod timer;

verus! {
}
