//! The script of a conversion, position by position.
//!
//! The script is stated as a concatenation of parts. To walk it one action at
//! a time, and to prove things of single positions, it helps to know what
//! stands at each position without taking the concatenation apart every time.
//! This module gives that closed form and proves that it is the script.

use vstd::prelude::*;
use crate::sequence::{filter_map_concat, filter_map_repeat, repeat};
use crate::transaction::{
    address, closing, direction_before, drive, listening, odd_sign, opening, pulse,
    pulse_then_sample, sample_then_pulse, samples_before, select1, settle, transaction, ADDRESS,
    BEATS, FIRST_PASS, LISTEN, RELEASE, RESTORE, SECOND_PASS, SETTLE, STEPS,
};
use crate::wire::{Action, Direction};

verus! {

/// The action at one position of the script, computed from the position alone.
pub open spec fn step_at(channel: u8, hold: u32, index: int) -> Action {
    if index < ADDRESS {
        if index == 0 {
            Action::ChipSelect(false)
        } else {
            Action::DataDirection(Direction::Output)
        }
    } else if index < SETTLE {
        let bit = (index - ADDRESS) / (BEATS as int);
        let beat = (index - ADDRESS) % (BEATS as int);
        if beat != 0 {
            pulse(hold)[beat - 1]
        } else if bit < 2 {
            Action::DataWrite(true)
        } else if bit == 2 {
            Action::DataWrite(odd_sign(channel))
        } else {
            Action::DataWrite(select1(channel))
        }
    } else if index < LISTEN {
        settle(hold)[index - SETTLE]
    } else if index < FIRST_PASS {
        Action::DataDirection(Direction::Input)
    } else if index < SECOND_PASS {
        let beat = (index - FIRST_PASS) % (BEATS as int);
        if beat == BEATS - 1 {
            Action::DataRead
        } else {
            pulse(hold)[beat]
        }
    } else if index < RELEASE {
        let beat = (index - SECOND_PASS) % (BEATS as int);
        if beat == 0 {
            Action::DataRead
        } else {
            pulse(hold)[beat - 1]
        }
    } else if index == RELEASE {
        Action::ChipSelect(true)
    } else {
        Action::DataDirection(Direction::Output)
    }
}

/// The number of samples taken before a position of the script, computed from
/// the position alone: one for each bit of either pass that has been sampled.
pub open spec fn samples_by(index: int) -> nat {
    if index <= FIRST_PASS {
        0
    } else if index <= SECOND_PASS {
        ((index - FIRST_PASS) / (BEATS as int)) as nat
    } else if index <= RELEASE {
        (8 + (index - SECOND_PASS + BEATS - 1) / (BEATS as int)) as nat
    } else {
        16
    }
}

/// A block of five actions repeated: its length, and what stands where.
pub proof fn repeat_of_five(block: Seq<Action>, times: nat)
    requires
        block.len() == BEATS,
    ensures
        repeat(block, times).len() == BEATS * times,
        forall|i: int|
            0 <= i < BEATS * times ==> #[trigger] repeat(block, times)[i] == block[i % (
            BEATS as int)],
    decreases times,
{
    if times > 0 {
        repeat_of_five(block, (times - 1) as nat);
    }
}

/// The script has a fixed length, and `step_at` gives each of its actions.
pub proof fn transaction_steps(channel: u8, hold: u32)
    ensures
        transaction(channel, hold).len() == STEPS,
        forall|i: int|
            0 <= i < STEPS ==> #[trigger] transaction(channel, hold)[i] == step_at(
                channel,
                hold,
                i,
            ),
{
    repeat_of_five(pulse_then_sample(hold), 8);
    repeat_of_five(sample_then_pulse(hold), 8);
}

/// The direction of the data line before each action of the script: it points
/// at the host except between the hand-over and the take-back.
pub proof fn direction_in_force(channel: u8, hold: u32, index: int)
    requires
        0 <= index <= STEPS,
    ensures
        direction_before(transaction(channel, hold), index) == if LISTEN < index <= RESTORE {
            Direction::Input
        } else {
            Direction::Output
        },
    decreases index,
{
    transaction_steps(channel, hold);
    if index > 0 {
        direction_in_force(channel, hold, index - 1);
    }
}

/// `samples_by` counts the samples of the script.
pub proof fn samples_taken(channel: u8, hold: u32, index: int)
    requires
        0 <= index <= STEPS,
    ensures
        samples_before(transaction(channel, hold), index) == samples_by(index),
    decreases index,
{
    transaction_steps(channel, hold);
    if index > 0 {
        samples_taken(channel, hold, index - 1);
    }
}

/// What a selection picks from one bit clocked into the converter.
pub open spec fn selected_from_drive<B>(level: bool, hold: u32, f: spec_fn(Action) -> Option<B>)
    -> Seq<B> {
    seq![Action::DataWrite(level)].filter_map(f) + pulse(hold).filter_map(f)
}

/// What a selection picks from the script, part by part.
pub proof fn selection_by_parts<B>(channel: u8, hold: u32, f: spec_fn(Action) -> Option<B>)
    ensures
        transaction(channel, hold).filter_map(f) == opening().filter_map(f)
            + selected_from_drive(true, hold, f)
            + selected_from_drive(true, hold, f)
            + selected_from_drive(odd_sign(channel), hold, f)
            + selected_from_drive(select1(channel), hold, f)
            + settle(hold).filter_map(f)
            + listening().filter_map(f)
            + repeat(pulse(hold).filter_map(f) + seq![Action::DataRead].filter_map(f), 8)
            + repeat(seq![Action::DataRead].filter_map(f) + pulse(hold).filter_map(f), 8)
            + closing().filter_map(f),
{
    let start = drive(true, hold);
    let odd = drive(odd_sign(channel), hold);
    let select = drive(select1(channel), hold);
    let first = repeat(pulse_then_sample(hold), 8);
    let second = repeat(sample_then_pulse(hold), 8);
    filter_map_concat(seq![Action::DataWrite(true)], pulse(hold), f);
    filter_map_concat(seq![Action::DataWrite(odd_sign(channel))], pulse(hold), f);
    filter_map_concat(seq![Action::DataWrite(select1(channel))], pulse(hold), f);
    filter_map_concat(start, start, f);
    filter_map_concat(start + start, odd, f);
    filter_map_concat(start + start + odd, select, f);
    filter_map_concat(seq![Action::DataRead], pulse(hold), f);
    filter_map_concat(pulse(hold), seq![Action::DataRead], f);
    filter_map_repeat(pulse_then_sample(hold), 8, f);
    filter_map_repeat(sample_then_pulse(hold), 8, f);
    let address = address(channel, hold);
    filter_map_concat(opening(), address, f);
    filter_map_concat(opening() + address, settle(hold), f);
    filter_map_concat(opening() + address + settle(hold), listening(), f);
    filter_map_concat(opening() + address + settle(hold) + listening(), first, f);
    filter_map_concat(opening() + address + settle(hold) + listening() + first, second, f);
    filter_map_concat(
        opening() + address + settle(hold) + listening() + first + second,
        closing(),
        f,
    );
    let a = start.filter_map(f);
    let o = odd.filter_map(f);
    let s = select.filter_map(f);
    assert(opening().filter_map(f) + (a + a + o + s) =~= opening().filter_map(f) + a + a + o + s);
}

} // verus!
