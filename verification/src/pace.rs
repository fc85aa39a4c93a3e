//! What a polling step asks of its caller.

use vstd::prelude::*;

verus! {

/// The outcome of one wake-up of a polling loop.
#[derive(Clone, Copy, Debug, PartialEq, Eq, Structural)]
pub enum Wait {
    /// The condition waited for holds; the loop is over.
    Ready,
    /// Sleep for this many milliseconds, then step again.
    Sleep(u64),
}

impl Wait {
    /// The time this outcome asks the caller to let pass, in milliseconds.
    pub open spec fn millis(self) -> nat {
        match self {
            Wait::Ready => 0,
            Wait::Sleep(ms) => ms as nat,
        }
    }

    /// Whether the loop is over.
    pub fn is_ready(&self) -> (ready: bool)
        ensures
            ready == (*self == Wait::Ready),
    {
        match self {
            Wait::Ready => true,
            Wait::Sleep(_) => false,
        }
    }
}

} // verus!
