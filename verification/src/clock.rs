//! When the host is to run the machine, and for how many instructions.

use vstd::prelude::*;

verus! {

/// Milliseconds that pass between two bursts of a free-running machine.
pub const BURST_INTERVAL_MILLIS: u64 = 10;

/// Instructions that a free-running machine runs in one burst.
pub const BURST_LENGTH: usize = 11;

/// How many instructions are due: none for a halted machine; in step mode
/// one for each request and none without; otherwise a burst once the
/// interval has passed since the last one.
pub open spec fn due(elapsed_millis: u64, step_mode: bool, halted: bool, step_requested: bool)
    -> nat {
    if halted {
        0
    } else if step_mode {
        if step_requested {
            1
        } else {
            0
        }
    } else if elapsed_millis >= BURST_INTERVAL_MILLIS {
        BURST_LENGTH as nat
    } else {
        0
    }
}

/// How many instructions the host is to run now. `elapsed_millis` is the
/// time since the last burst, `step_requested` whether the user has asked
/// for a single step.
pub fn instructions_due(
    elapsed_millis: u64,
    step_mode: bool,
    halted: bool,
    step_requested: bool,
) -> (count: usize)
    ensures
        count == due(elapsed_millis, step_mode, halted, step_requested),
{
    if halted {
        0
    } else if step_mode {
        if step_requested {
            1
        } else {
            0
        }
    } else if elapsed_millis >= BURST_INTERVAL_MILLIS {
        BURST_LENGTH
    } else {
        0
    }
}

} // verus!
