use vstd::prelude::*;

verus! {

/// Which console the cartridge targets.
#[derive(Clone, Copy, Debug, PartialEq, Eq, Structural)]
pub enum GBMode {
    /// The first, monochrome Game Boy.
    DMG,
    /// Game Boy Color.
    CGB,
}

} // verus!
