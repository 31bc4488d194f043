//! Idle event processing: the mode that says which windows get idle events,
//! and the process-wide setting that holds it, modeled as a value.

use vstd::prelude::*;

verus! {

/// How idle events are sent.
#[derive(Clone, Copy, Debug, PartialEq, Eq, Structural)]
pub enum IdleMode {
    /// Send idle events to all windows.
    ProcessAll,
    /// Send idle events only to windows that asked for them.
    ProcessSpecified,
}

/// The mode a native mode code stands for; an unknown code reads as
/// processing all windows.
pub open spec fn idle_mode_of_code(code: i32) -> IdleMode {
    if code == 1 {
        IdleMode::ProcessSpecified
    } else {
        IdleMode::ProcessAll
    }
}

/// The native code of an idle mode.
pub open spec fn idle_mode_code(m: IdleMode) -> i32 {
    match m {
        IdleMode::ProcessAll => 0,
        IdleMode::ProcessSpecified => 1,
    }
}

impl IdleMode {
    /// Reads a native mode code; an unknown code reads as processing all
    /// windows.
    pub fn from_code(code: i32) -> (r: IdleMode)
        ensures
            r == idle_mode_of_code(code),
    {
        if code == 1 {
            IdleMode::ProcessSpecified
        } else {
            IdleMode::ProcessAll
        }
    }

    /// The native code of this mode.
    pub fn code(self) -> (r: i32)
        ensures
            r == idle_mode_code(self),
    {
        match self {
            IdleMode::ProcessAll => 0,
            IdleMode::ProcessSpecified => 1,
        }
    }
}

/// A mode's code reads back as that mode.
pub proof fn lemma_idle_mode_round_trip(m: IdleMode)
    ensures
        idle_mode_of_code(idle_mode_code(m)) == m,
{
}

/// The process-wide idle setting, held as a value: the host keeps one and
/// mirrors it into the native layer.
#[derive(Clone, Copy, Debug, PartialEq, Eq, Structural)]
pub struct IdleEvent {
    pub mode: IdleMode,
}

impl IdleEvent {
    /// The setting as a fresh process has it: idle events go to all windows.
    pub fn new() -> (r: IdleEvent)
        ensures
            r.mode == IdleMode::ProcessAll,
    {
        IdleEvent { mode: IdleMode::ProcessAll }
    }

    /// Sets how idle events will be sent.
    pub fn set_mode(&mut self, mode: IdleMode)
        ensures
            final(self).mode == mode,
    {
        self.mode = mode;
    }

    /// The current idle processing mode.
    pub fn get_mode(&self) -> (r: IdleMode)
        ensures
            r == self.mode,
    {
        self.mode
    }
}

} // verus!
