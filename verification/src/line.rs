//! The two kinds of digital line the controller owns.
//!
//! A line here is the controller's record of a pin: the level last seen on
//! an input, the level last driven on an output. Whoever holds the pin
//! keeps the two in step.

use vstd::prelude::*;

verus! {

/// A digital input with a pull-up: it reads high while nothing pulls it low.
#[derive(Clone, Copy, Debug)]
pub struct InputLine {
    high: bool,
}

impl View for InputLine {
    type V = bool;

    /// The level last seen: `true` for high.
    closed spec fn view(&self) -> bool {
        self.high
    }
}

impl InputLine {
    /// A line at its idle level, which the pull-up makes high.
    pub fn pull_up() -> (line: InputLine)
        ensures
            line@,
    {
        InputLine { high: true }
    }

    /// Records the level just read from the pin.
    pub fn observe(&mut self, high: bool)
        ensures
            final(self)@ == high,
    {
        self.high = high;
    }

    /// Whether the line was high when last read.
    pub fn is_high(&self) -> (high: bool)
        ensures
            high == self@,
    {
        self.high
    }
}

/// A digital output, low while inactive.
#[derive(Clone, Copy, Debug)]
pub struct OutputLine {
    high: bool,
}

impl View for OutputLine {
    type V = bool;

    /// The level last driven: `true` for high.
    closed spec fn view(&self) -> bool {
        self.high
    }
}

impl OutputLine {
    /// A line at rest: driven low.
    pub fn new() -> (line: OutputLine)
        ensures
            !line@,
    {
        OutputLine { high: false }
    }

    /// Drives the line to its active level.
    pub fn set_high(&mut self)
        ensures
            final(self)@,
    {
        self.high = true;
    }

    /// Drives the line to its inactive level.
    pub fn set_low(&mut self)
        ensures
            !final(self)@,
    {
        self.high = false;
    }

    /// Whether the line is driven high.
    pub fn is_set_high(&self) -> (high: bool)
        ensures
            high == self@,
    {
        self.high
    }
}

} // verus!
