//! Protocol logic for GPIO-attached peripherals, kept free of any I/O.
//!
//! The crate decides *what* has to happen on the wires and *what the answer
//! is*; the caller owns the pins and the bus, performs each action and
//! reports what it observed.
//!
//! * [`adc0834`] walks one conversion of an ADC0834 converter, action by
//!   action, and yields its reading.
//! * [`transaction`] states the script that every conversion follows and
//!   proves what holds of it; [`steps`] gives the same script position by
//!   position.
//! * [`sample`] turns sampled line levels into a reading.
//! * [`wire`] names the actions on the converter's three-wire link.
//! * [`lcd`] works out the bus traffic of a character display.
//! * [`sequence`] holds the facts about sequences that the proofs share.

pub mod adc0834;
pub mod lcd;
pub mod sample;
pub mod sequence;
pub mod steps;
pub mod transaction;
pub mod wire;
