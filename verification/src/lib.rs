//! Core of a flight warning computer simulation: a discrete-time logic engine
//! built from small stateful nodes (confirmation, monostable trigger, memory,
//! hysteresis, ...) and the sheets that derive the ground flight phases from
//! avionics signal inputs.

pub mod logic;
pub mod parameters;
pub mod phases;
