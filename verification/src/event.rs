//! Events the front end sends itself.

use vstd::prelude::*;

verus! {

#[derive(Clone, Debug, PartialEq, Eq)]
pub enum UserEvent {
    RequestResize(u32, u32),
    EmuPause,
    EmuStep,
    EmuPlay,
    /// restart, with the path of a rom to load if one was picked
    EmuReset(Option<String>),
    RequestRender,
}

/// Whether the emulation is halted and whether one step is asked for.
#[derive(Copy, Clone, Debug, PartialEq, Eq, Structural)]
pub struct DebugState {
    pub halt: bool,
    pub step: bool,
}

} // verus!
