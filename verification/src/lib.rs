//! Event coordination core of a garage-door controller.
//!
//! Every component is a state machine that is stepped from outside: the
//! caller performs the action that a step returns (sleep, drive a line,
//! publish, associate) and hands back what happened. Nothing in here waits,
//! reads hardware or talks to the network.
//!
//! - `line`: the record of an input and of an output pin.
//! - `sensor`: the door state, the debounced wait for change, the monitor.
//! - `actuator`: the relay pulse.
//! - `mqtt`: the command router.
//! - `wifi`: the connectivity supervisor.
//! - `pace`: what a polling step answers with.
//! - `text`: comparing text that arrives as bytes.

pub mod actuator;
pub mod line;
pub mod mqtt;
pub mod pace;
pub mod sensor;
pub mod text;
pub mod wifi;
