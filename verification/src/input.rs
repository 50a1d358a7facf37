use vstd::prelude::*;

verus! {

/// The state of the eight Game Boy buttons; `true` means pressed.
#[derive(Clone, Copy, Debug, PartialEq, Eq, Structural)]
pub struct Input {
    pub up: bool,
    pub down: bool,
    pub left: bool,
    pub right: bool,
    pub a: bool,
    pub b: bool,
    pub start: bool,
    pub select: bool,
}

impl Input {
    /// No button pressed.
    pub open spec fn released_all() -> Input {
        Input { up: false, down: false, left: false, right: false, a: false, b: false, start: false, select: false }
    }

    /// No button pressed.
    pub fn new() -> (i: Input)
        ensures
            i == Input::released_all(),
            !i.up && !i.down && !i.left && !i.right,
            !i.a && !i.b && !i.start && !i.select,
    {
        Input {
            up: false,
            down: false,
            left: false,
            right: false,
            a: false,
            b: false,
            start: false,
            select: false,
        }
    }
}

/// Requests that concern the emulator itself rather than the emulated console.
#[derive(Clone, Copy, Debug)]
pub struct EmulatorInput {
    pub exit: bool,
    pub toggle_mute: bool,
    pub toggle_channel: [bool; 4],
    pub save_state: bool,
    pub load_state: bool,
    pub select_save_state: (bool, usize),
    pub select_load_state: (bool, usize),
    pub prev_bg_map: bool,
    pub next_bg_map: bool,
    /// Take the console back to the newest frame of the rewind history.
    pub rewind: bool,
    /// Show or hide the background, the window and the objects.
    pub toggle_layer: [bool; 3],
}

impl EmulatorInput {
    /// No request.
    pub fn new() -> (e: EmulatorInput)
        ensures
            !e.exit,
            !e.toggle_mute,
            forall|i: int| 0 <= i < 4 ==> !e.toggle_channel[i],
            !e.save_state,
            !e.load_state,
            e.select_save_state == (false, 0usize),
            e.select_load_state == (false, 0usize),
            !e.prev_bg_map,
            !e.next_bg_map,
            !e.rewind,
            forall|i: int| 0 <= i < 3 ==> !e.toggle_layer[i],
    {
        EmulatorInput {
            exit: false,
            toggle_mute: false,
            toggle_channel: [false; 4],
            save_state: false,
            load_state: false,
            select_save_state: (false, 0),
            select_load_state: (false, 0),
            prev_bg_map: false,
            next_bg_map: false,
            rewind: false,
            toggle_layer: [false; 3],
        }
    }
}

} // verus!
