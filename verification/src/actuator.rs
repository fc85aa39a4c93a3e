//! The relay driver: a trigger becomes one pulse of fixed length.
//!
//! A pulse is two steps with a sleep between them. `toggle` drives the line
//! high and says how long to hold it; `release` drives it low. Whatever
//! happens to the sleep, `release` is owed: it never fails, never looks at
//! how the hold ended, and always leaves the line low.

use vstd::prelude::*;
use vstd::string::*;
use crate::line::OutputLine;

verus! {

/// How long a pulse holds the line high, in milliseconds.
pub const PULSE_MS: u64 = 200;

/// The actuator as a plain value.
pub struct ActuatorModel {
    /// The logical name, by which the bus addresses the actuator.
    pub name: Seq<char>,
    /// The level of the output line: `true` while a pulse is in flight.
    pub high: bool,
}

impl ActuatorModel {
    /// The hold time that `toggle` answers with: a pulse starts only on an
    /// actuator at rest.
    pub open spec fn hold(self) -> Option<u64> {
        if self.high {
            None
        } else {
            Some(PULSE_MS)
        }
    }

    /// The actuator after `toggle`: the line is high either way.
    pub open spec fn toggled(self) -> ActuatorModel {
        ActuatorModel { name: self.name, high: true }
    }

    /// The actuator after `release`.
    pub open spec fn released(self) -> ActuatorModel {
        ActuatorModel { name: self.name, high: false }
    }
}

/// A relay on one output line, known to the bus by its logical name.
#[derive(Debug)]
pub struct Actuator {
    line: OutputLine,
    name: String,
}

impl View for Actuator {
    type V = ActuatorModel;

    closed spec fn view(&self) -> ActuatorModel {
        ActuatorModel { name: self.name@, high: self.line@ }
    }
}

impl Actuator {
    /// Takes the line over and drives it low, whatever it was before.
    pub fn new(line: OutputLine, name: &str) -> (actuator: Actuator)
        ensures
            actuator@.name == name@,
            !actuator@.high,
    {
        let mut line = line;
        line.set_low();
        Actuator { line, name: String::from_str(name) }
    }

    /// The logical name.
    pub fn name(&self) -> (name: &str)
        ensures
            name@ == self@.name,
    {
        self.name.as_str()
    }

    /// The output line as last driven.
    pub fn line(&self) -> (line: OutputLine)
        ensures
            line@ == self@.high,
    {
        self.line
    }

    /// Whether a pulse is in flight, which is to say the line is high.
    pub fn is_pulsing(&self) -> (pulsing: bool)
        ensures
            pulsing == self@.high,
    {
        self.line.is_set_high()
    }

    /// Starts a pulse: drives the line high and answers with the time to
    /// hold it, after which `release` is owed. While a pulse is in flight
    /// no second one starts: the answer is `None`, nothing changes, and the
    /// trigger has to wait for `release`.
    pub fn toggle(&mut self) -> (hold: Option<u64>)
        ensures
            hold == old(self)@.hold(),
            final(self)@ == old(self)@.toggled(),
    {
        if self.line.is_set_high() {
            None
        } else {
            self.line.set_high();
            Some(PULSE_MS)
        }
    }

    /// Ends the pulse: drives the line low. It does so from every state and
    /// however the hold ended, so that the relay is never left energised.
    pub fn release(&mut self)
        ensures
            final(self)@ == old(self)@.released(),
    {
        self.line.set_low();
    }
}

/// A pulse always ends low. From any actuator, after `toggle` and then
/// `release` the line is low and the name is untouched; this does not
/// depend on whether `toggle` started the pulse or found one in flight,
/// nor on anything that happened while the line was held.
pub proof fn lemma_pulse_ends_low(actuator: ActuatorModel)
    ensures
        !actuator.toggled().released().high,
        actuator.toggled().released().name == actuator.name,
        !actuator.released().high,
{
}

/// The line is high for one hold at most: a pulse that starts asks for
/// exactly `PULSE_MS`, and until `release` no further hold is granted.
pub proof fn lemma_one_hold_per_pulse(actuator: ActuatorModel)
    ensures
        actuator.hold() is Some ==> actuator.hold() == Some(PULSE_MS) && !actuator.high,
        actuator.toggled().hold() is None,
        actuator.released().hold() == Some(PULSE_MS),
{
}

/// Pulsing twice leaves what pulsing once leaves.
pub proof fn lemma_pulse_idempotent(actuator: ActuatorModel)
    ensures
        actuator.toggled().released().toggled().released() == actuator.toggled().released(),
{
}

} // verus!
