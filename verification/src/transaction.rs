//! The wire-level script of one conversion.
//!
//! What has to happen on the link does not depend on what the converter
//! answers, so one conversion is a fixed sequence of actions, determined by
//! the channel and the half clock period. This module states that sequence,
//! says how to observe a script, and proves what holds of every conversion.

use vstd::prelude::*;
use crate::sequence::{
    filter_map_nothing, repeat, repeat_empty, repeat_len, repeat_uniform, total, total_uniform,
};
use crate::steps::{direction_in_force, selection_by_parts, transaction_steps};
use crate::wire::{Action, Direction};

verus! {

/// Position of the first address bit.
pub const ADDRESS: usize = 2;

/// Position of the clock-low hold that lets the multiplexer settle.
pub const SETTLE: usize = 22;

/// Position at which the data line is handed to the converter.
pub const LISTEN: usize = 24;

/// Position at which the most-significant-first pass begins.
pub const FIRST_PASS: usize = 25;

/// Position at which the least-significant-first pass begins.
pub const SECOND_PASS: usize = 65;

/// Position at which chip-select is released.
pub const RELEASE: usize = 105;

/// Position at which the data line is taken back.
pub const RESTORE: usize = 106;

/// Number of actions in one conversion.
pub const STEPS: usize = 107;

/// Number of actions spent on one bit: a data action and a clock pulse.
pub const BEATS: usize = 5;

/// Number of holds in one conversion.
pub const HOLDS: usize = 41;

/// The ODD/SIGN address bit of a channel: its lowest bit.
pub open spec fn odd_sign(channel: u8) -> bool {
    channel % 2 == 1
}

/// The SELECT1 address bit of a channel: set for channels above 1.
pub open spec fn select1(channel: u8) -> bool {
    channel > 1
}

/// One clock pulse: high, hold, low, hold.
pub open spec fn pulse(hold: u32) -> Seq<Action> {
    seq![Action::Clock(true), Action::Hold(hold), Action::Clock(false), Action::Hold(hold)]
}

/// One bit clocked into the converter: the level is put on the data line, then
/// the clock is pulsed.
pub open spec fn drive(level: bool, hold: u32) -> Seq<Action> {
    seq![Action::DataWrite(level)] + pulse(hold)
}

/// One bit clocked out of the converter after the pulse.
pub open spec fn pulse_then_sample(hold: u32) -> Seq<Action> {
    pulse(hold) + seq![Action::DataRead]
}

/// One bit clocked out of the converter before the pulse.
pub open spec fn sample_then_pulse(hold: u32) -> Seq<Action> {
    seq![Action::DataRead] + pulse(hold)
}

/// How a conversion opens: chip-select is asserted and the host takes the
/// data line.
pub open spec fn opening() -> Seq<Action> {
    seq![Action::ChipSelect(false), Action::DataDirection(Direction::Output)]
}

/// The four bits that address a conversion: start bit, single-ended mode, and
/// the two address bits of the channel.
pub open spec fn address(channel: u8, hold: u32) -> Seq<Action> {
    drive(true, hold) + drive(true, hold) + drive(odd_sign(channel), hold) + drive(
        select1(channel),
        hold,
    )
}

/// The extra clock-low hold during which the multiplexer settles.
pub open spec fn settle(hold: u32) -> Seq<Action> {
    seq![Action::Clock(false), Action::Hold(hold)]
}

/// The data line is handed to the converter.
pub open spec fn listening() -> Seq<Action> {
    seq![Action::DataDirection(Direction::Input)]
}

/// How a conversion closes: chip-select is released, which clears the
/// converter, and the host takes the data line back.
pub open spec fn closing() -> Seq<Action> {
    seq![Action::ChipSelect(true), Action::DataDirection(Direction::Output)]
}

/// Everything that happens on the link during one conversion of `channel`,
/// with `hold` nanoseconds after every clock edge: the opening, the address,
/// the settling hold, the hand-over, eight bits sampled after their pulse,
/// eight bits sampled before their pulse, and the closing.
pub open spec fn transaction(channel: u8, hold: u32) -> Seq<Action> {
    opening() + address(channel, hold) + settle(hold) + listening() + repeat(
        pulse_then_sample(hold),
        8,
    ) + repeat(sample_then_pulse(hold), 8) + closing()
}

/// The level that an action puts on the data line, if it writes one.
pub open spec fn written(action: Action) -> Option<bool> {
    match action {
        Action::DataWrite(level) => Some(level),
        _ => None,
    }
}

/// The direction that an action gives the data line, if it switches it.
pub open spec fn switched(action: Action) -> Option<Direction> {
    match action {
        Action::DataDirection(direction) => Some(direction),
        _ => None,
    }
}

/// The time that an action waits, if it is a hold.
pub open spec fn waited(action: Action) -> Option<u32> {
    match action {
        Action::Hold(nanos) => Some(nanos),
        _ => None,
    }
}

/// The levels that a script writes to the data line, in order.
pub open spec fn driven(script: Seq<Action>) -> Seq<bool> {
    script.filter_map(|action: Action| written(action))
}

/// The directions that a script gives the data line, in order.
pub open spec fn directions(script: Seq<Action>) -> Seq<Direction> {
    script.filter_map(|action: Action| switched(action))
}

/// The holds of a script, in order, each by its length in nanoseconds.
pub open spec fn holds(script: Seq<Action>) -> Seq<u32> {
    script.filter_map(|action: Action| waited(action))
}

/// The direction of the data line just before the action at `index`. The line
/// idles as an output.
pub open spec fn direction_before(script: Seq<Action>, index: int) -> Direction
    decreases index,
{
    if index <= 0 {
        Direction::Output
    } else {
        match script[index - 1] {
            Action::DataDirection(direction) => direction,
            _ => direction_before(script, index - 1),
        }
    }
}

/// The number of samples that a script has taken before the action at `index`.
pub open spec fn samples_before(script: Seq<Action>, index: int) -> nat
    decreases index,
{
    if index <= 0 {
        0
    } else if script[index - 1] == Action::DataRead {
        samples_before(script, index - 1) + 1
    } else {
        samples_before(script, index - 1)
    }
}

/// The data line carries exactly four levels to the converter: the start bit,
/// the single-ended mode bit, then ODD/SIGN and SELECT1 of the channel.
pub proof fn address_on_the_wire(channel: u8, hold: u32)
    ensures
        driven(transaction(channel, hold)) == seq![
            true,
            true,
            odd_sign(channel),
            select1(channel),
        ],
{
    let f = |action: Action| written(action);
    selection_by_parts(channel, hold, f);
    filter_map_nothing(opening(), f);
    filter_map_nothing(pulse(hold), f);
    filter_map_nothing(settle(hold), f);
    filter_map_nothing(listening(), f);
    filter_map_nothing(seq![Action::DataRead], f);
    filter_map_nothing(closing(), f);
    Seq::lemma_filter_map_singleton(Action::DataWrite(true), f);
    Seq::lemma_filter_map_singleton(Action::DataWrite(odd_sign(channel)), f);
    Seq::lemma_filter_map_singleton(Action::DataWrite(select1(channel)), f);
    assert(Seq::<bool>::empty() + Seq::<bool>::empty() =~= Seq::<bool>::empty());
    repeat_empty::<bool>(8);
    assert(driven(transaction(channel, hold)) =~= seq![
        true,
        true,
        odd_sign(channel),
        select1(channel),
    ]);
}

/// Chip-select frames the conversion: it is asserted by the very first action
/// and released by the last action but one, and every clock edge, hold, write
/// and sample lies strictly between the two.
pub proof fn chip_select_frames_the_conversion(channel: u8, hold: u32, index: int)
    requires
        0 <= index < STEPS,
    ensures
        transaction(channel, hold)[0] == Action::ChipSelect(false),
        transaction(channel, hold)[RELEASE as int] == Action::ChipSelect(true),
        transaction(channel, hold)[index] is ChipSelect ==> index == 0 || index == RELEASE,
        transaction(channel, hold)[index] is Clock || transaction(channel, hold)[index] is Hold
            || transaction(channel, hold)[index] is DataWrite || transaction(
            channel,
            hold,
        )[index] is DataRead ==> 0 < index < RELEASE,
{
    transaction_steps(channel, hold);
}

/// The data line changes direction exactly three times: the host takes it,
/// hands it to the converter, and takes it back.
pub proof fn direction_changes(channel: u8, hold: u32)
    ensures
        directions(transaction(channel, hold)) == seq![
            Direction::Output,
            Direction::Input,
            Direction::Output,
        ],
{
    let f = |action: Action| switched(action);
    selection_by_parts(channel, hold, f);
    reveal_with_fuel(Seq::filter_map, 3);
    filter_map_nothing(pulse(hold), f);
    filter_map_nothing(settle(hold), f);
    filter_map_nothing(seq![Action::DataRead], f);
    filter_map_nothing(seq![Action::DataWrite(true)], f);
    filter_map_nothing(seq![Action::DataWrite(odd_sign(channel))], f);
    filter_map_nothing(seq![Action::DataWrite(select1(channel))], f);
    assert(Seq::<Direction>::empty() + Seq::<Direction>::empty() =~= Seq::<Direction>::empty());
    repeat_empty::<Direction>(8);
    assert(opening().filter_map(f) =~= seq![Direction::Output]);
    assert(listening().filter_map(f) =~= seq![Direction::Input]);
    assert(closing().filter_map(f) =~= seq![Direction::Output]);
    assert(directions(transaction(channel, hold)) =~= seq![
        Direction::Output,
        Direction::Input,
        Direction::Output,
    ]);
}

/// The data line is written only while the host drives it and sampled only
/// while the converter drives it.
pub proof fn data_line_discipline(channel: u8, hold: u32, index: int)
    requires
        0 <= index < STEPS,
    ensures
        transaction(channel, hold)[index] is DataWrite ==> direction_before(
            transaction(channel, hold),
            index,
        ) == Direction::Output,
        transaction(channel, hold)[index] is DataRead ==> direction_before(
            transaction(channel, hold),
            index,
        ) == Direction::Input,
{
    transaction_steps(channel, hold);
    direction_in_force(channel, hold, index);
}

/// A conversion waits exactly forty-one times, each time for the half clock
/// period, so the time it spends waiting is forty-one half periods.
pub proof fn hold_budget(channel: u8, hold: u32)
    ensures
        holds(transaction(channel, hold)).len() == HOLDS,
        forall|i: int| 0 <= i < HOLDS ==> #[trigger] holds(transaction(channel, hold))[i] == hold,
        total(holds(transaction(channel, hold))) == HOLDS * hold,
{
    let f = |action: Action| waited(action);
    let twice = seq![hold, hold];
    selection_by_parts(channel, hold, f);
    reveal_with_fuel(Seq::filter_map, 5);
    filter_map_nothing(opening(), f);
    filter_map_nothing(listening(), f);
    filter_map_nothing(closing(), f);
    filter_map_nothing(seq![Action::DataRead], f);
    filter_map_nothing(seq![Action::DataWrite(true)], f);
    filter_map_nothing(seq![Action::DataWrite(odd_sign(channel))], f);
    filter_map_nothing(seq![Action::DataWrite(select1(channel))], f);
    assert(pulse(hold).filter_map(f) =~= twice);
    assert(settle(hold).filter_map(f) =~= seq![hold]);
    assert(Seq::<u32>::empty() + twice =~= twice);
    assert(twice + Seq::<u32>::empty() =~= twice);
    repeat_len(twice, 8);
    repeat_uniform(twice, 8, hold);
    total_uniform(holds(transaction(channel, hold)), hold);
}

} // verus!
