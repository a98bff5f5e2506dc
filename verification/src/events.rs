//! The decision rule of the idle event loop: which signals end the program.

use vstd::prelude::*;

verus! {

/// A discrete signal from the event source, reduced to what the loop
/// decides on: a request to quit, a low-memory warning, or anything else.
#[derive(Clone, Copy, Debug, PartialEq, Eq, Structural)]
pub enum Signal {
    Quit,
    LowMemory,
    Other,
}

/// The loop stops on a quit or a low-memory signal and ignores all others.
pub open spec fn terminates(s: Signal) -> bool {
    s is Quit || s is LowMemory
}

/// Decide one signal: true exactly when it ends the loop.
pub fn should_terminate(s: &Signal) -> (r: bool)
    ensures
        r == terminates(*s),
{
    match s {
        Signal::Quit => true,
        Signal::LowMemory => true,
        Signal::Other => false,
    }
}

/// Decide one polled batch of signals: true exactly when some signal in it
/// ends the loop, so a quit delivered in a poll cycle terminates the loop
/// within that cycle.
pub fn poll_decision(signals: &Vec<Signal>) -> (r: bool)
    ensures
        r == exists|i: int| 0 <= i < signals@.len() && terminates(signals@[i]),
{
    let mut k: usize = 0;
    while k < signals.len()
        invariant
            0 <= k <= signals@.len(),
            forall|i: int| 0 <= i < k ==> !terminates(signals@[i]),
        decreases signals@.len() - k,
    {
        if should_terminate(&signals[k]) {
            return true;
        }
        k = k + 1;
    }
    false
}

} // verus!
