//! Vocabulary of the three-wire link to the converter: chip-select, clock and
//! one bidirectional data line.
//!
//! A line level is a `bool`: `true` is high, `false` is low.

use vstd::prelude::*;

verus! {

/// Which way the bidirectional data line points.
#[derive(Clone, Copy, Debug, PartialEq, Eq, Structural)]
pub enum Direction {
    /// The host drives the line.
    Output,
    /// The converter drives the line and the host samples it.
    Input,
}

/// One thing the owner of the pins has to do on the link.
#[derive(Clone, Copy, Debug, PartialEq, Eq, Structural)]
pub enum Action {
    /// Drive the chip-select line to the given level. The line is active low.
    ChipSelect(bool),
    /// Drive the clock line to the given level.
    Clock(bool),
    /// Switch the data line to the given direction.
    DataDirection(Direction),
    /// Drive the data line to the given level.
    DataWrite(bool),
    /// Sample the data line and report the level that was seen.
    DataRead,
    /// Wait for the given number of nanoseconds before doing anything else.
    Hold(u32),
}

} // verus!
