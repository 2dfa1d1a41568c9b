//! Input watcher: the one key the overlay listens to.

use vstd::prelude::*;

verus! {

/// The status a process ends with after the exit key.
pub const EXIT_CODE: i32 = 0;

/// What the keyboard saw during one tick. Space is the exit key and the
/// only key the overlay looks at.
#[derive(Clone, Copy, Debug, PartialEq, Eq)]
pub struct InputSnapshot {
    /// Space went down during this tick.
    pub space_pressed: bool,
}

/// What the orchestrator is told to do with the rest of the tick.
#[derive(Clone, Copy, Debug, PartialEq, Eq)]
pub enum TickSignal {
    /// Carry on with the tick.
    Continue,
    /// Stop at once; nothing else of this tick is to run.
    Terminate,
}

/// Looks at this tick's input and asks for termination exactly when the
/// exit key was pressed.
pub fn poll_exit(input: &InputSnapshot) -> (signal: TickSignal)
    ensures
        signal == if input.space_pressed {
            TickSignal::Terminate
        } else {
            TickSignal::Continue
        },
{
    if input.space_pressed {
        TickSignal::Terminate
    } else {
        TickSignal::Continue
    }
}

} // verus!
