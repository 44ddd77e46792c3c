//! ADC0834 conversions, decided step by step.
//!
//! [`Adc0834`] holds the configuration of one converter. [`Adc0834::read`]
//! opens a [`Conversion`]: a small state machine that names the next action on
//! the link, takes the level that the owner of the pins saw, and finally
//! yields the reading. The machine never touches a pin and never waits.

use vstd::prelude::*;
use vstd::arithmetic::power2::lemma2_to64;
use crate::sample::{
    agreeing_passes_give_the_pattern, disagreeing_passes_give_zero, lsb_first, lsb_first_bound,
    lsb_first_push, msb_first, msb_first_bound, place_in, reading, reconcile, shift_in, WIDTH,
};
use crate::steps::{samples_by, samples_taken, transaction_steps};
use crate::transaction::{
    pulse, samples_before, transaction, ADDRESS, BEATS, FIRST_PASS, HOLDS, LISTEN, RELEASE,
    SECOND_PASS, SETTLE, STEPS,
};
use crate::wire::{Action, Direction};

verus! {

/// Nanoseconds in one second.
pub const NANOS_PER_SECOND: u32 = 1_000_000_000;

/// Half of one clock period at `frequency` hertz, in whole nanoseconds: the
/// period is rounded down to a whole nanosecond, and so is its half.
pub open spec fn half_period(frequency: u32) -> u32
    recommends
        frequency > 0,
{
    NANOS_PER_SECOND / frequency / 2
}

/// One ADC0834 on a three-wire link, clocked at a fixed frequency.
pub struct Adc0834 {
    frequency: u32,
}

impl Adc0834 {
    #[verifier::type_invariant]
    spec fn clocked(self) -> bool {
        self.frequency > 0
    }

    /// The configured clock frequency in hertz.
    pub closed spec fn hertz(self) -> u32 {
        self.frequency
    }

    /// A converter clocked at `frequency` hertz.
    pub fn new(frequency: u32) -> (adc: Adc0834)
        requires
            frequency > 0,
        ensures
            adc.hertz() == frequency,
    {
        Adc0834 { frequency }
    }

    /// The configured clock frequency in hertz.
    pub fn frequency(&self) -> (hertz: u32)
        ensures
            hertz == self.hertz(),
            hertz > 0,
    {
        proof {
            use_type_invariant(self);
        }
        self.frequency
    }

    /// The time to wait after every clock edge, in nanoseconds.
    pub fn half_period(&self) -> (nanos: u32)
        ensures
            nanos == half_period(self.hertz()),
    {
        proof {
            use_type_invariant(self);
        }
        NANOS_PER_SECOND / self.frequency / 2
    }

    /// The time that one conversion spends waiting, in nanoseconds: a hold of
    /// half a period after each of its clock edges. No conversion takes less.
    pub fn waiting_time(&self) -> (nanos: u64)
        ensures
            nanos == HOLDS * half_period(self.hertz()),
    {
        HOLDS as u64 * (self.half_period() as u64)
    }

    /// Opens a conversion of `channel`. Nothing has happened on the link yet:
    /// the first action of the script is the one to perform.
    pub fn read(&self, channel: u8) -> (conversion: Conversion)
        ensures
            conversion@ == ConversionView::start(channel, half_period(self.hertz())),
    {
        Conversion {
            channel,
            hold: self.half_period(),
            position: 0,
            forward: 0,
            backward: 0,
            samples: Ghost(Seq::empty()),
        }
    }
}

/// What a conversion in progress amounts to.
pub struct ConversionView {
    /// The channel being converted.
    pub channel: u8,
    /// The wait after every clock edge, in nanoseconds.
    pub hold: u32,
    /// How many actions of the script have been performed.
    pub position: nat,
    /// The levels seen by the sampling actions performed so far, in order.
    pub samples: Seq<bool>,
}

impl ConversionView {
    /// A conversion of which nothing has been performed yet.
    pub open spec fn start(channel: u8, hold: u32) -> ConversionView {
        ConversionView { channel, hold, position: 0, samples: Seq::empty() }
    }

    /// The script that this conversion follows.
    pub open spec fn script(self) -> Seq<Action> {
        transaction(self.channel, self.hold)
    }

    /// Whether every action of the script has been performed.
    pub open spec fn complete(self) -> bool {
        self.position >= self.script().len()
    }

    /// The action to perform next, if any is left.
    pub open spec fn action(self) -> Option<Action> {
        if self.complete() {
            None
        } else {
            Some(self.script()[self.position as int])
        }
    }

    /// The conversion after its next action has been performed and, if that
    /// action sampled the data line, has seen `level` there.
    pub open spec fn advance(self, level: bool) -> ConversionView {
        match self.action() {
            None => self,
            Some(Action::DataRead) => ConversionView {
                position: self.position + 1,
                samples: self.samples.push(level),
                ..self
            },
            Some(_) => ConversionView { position: self.position + 1, ..self },
        }
    }

    /// The conversion after one action has been performed for each of
    /// `levels`, in order.
    pub open spec fn after(self, levels: Seq<bool>) -> ConversionView
        decreases levels.len(),
    {
        if levels.len() == 0 {
            self
        } else {
            self.after(levels.drop_last()).advance(levels.last())
        }
    }

    /// The reading, once the conversion is complete.
    pub open spec fn sample(self) -> Option<u8> {
        if self.complete() {
            Some(reading(self.samples) as u8)
        } else {
            None
        }
    }

    /// What holds of every conversion that was opened and then advanced: it
    /// has not run past its script, and it has recorded one level for each
    /// sampling action performed.
    pub open spec fn coherent(self) -> bool {
        &&& self.position <= self.script().len()
        &&& self.samples.len() == samples_before(self.script(), self.position as int)
    }
}

/// A conversion in progress.
pub struct Conversion {
    channel: u8,
    hold: u32,
    position: u8,
    forward: u8,
    backward: u8,
    samples: Ghost<Seq<bool>>,
}

impl View for Conversion {
    type V = ConversionView;

    closed spec fn view(&self) -> ConversionView {
        ConversionView {
            channel: self.channel,
            hold: self.hold,
            position: self.position as nat,
            samples: self.samples@,
        }
    }
}

impl Conversion {
    #[verifier::type_invariant]
    spec fn accumulated(self) -> bool {
        let taken = self.samples@.len();
        let split = if taken < WIDTH {
            taken as int
        } else {
            WIDTH as int
        };
        &&& self.position <= STEPS
        &&& taken == samples_by(self.position as int)
        &&& self.forward == msb_first(self.samples@.take(split))
        &&& self.backward == lsb_first(self.samples@.skip(split))
    }

    /// The action to perform next, or `None` once the script is through.
    pub fn action(&self) -> (action: Option<Action>)
        ensures
            action == self@.action(),
    {
        proof {
            use_type_invariant(self);
            transaction_steps(self.channel, self.hold);
        }
        let position: usize = self.position as usize;
        if position >= STEPS {
            None
        } else if position < ADDRESS {
            if position == 0 {
                Some(Action::ChipSelect(false))
            } else {
                Some(Action::DataDirection(Direction::Output))
            }
        } else if position < SETTLE {
            let bit: usize = (position - ADDRESS) / BEATS;
            let beat: usize = (position - ADDRESS) % BEATS;
            if beat != 0 {
                Some(beat_of_pulse(beat - 1, self.hold))
            } else if bit < 2 {
                Some(Action::DataWrite(true))
            } else if bit == 2 {
                Some(Action::DataWrite(self.channel % 2 == 1))
            } else {
                Some(Action::DataWrite(self.channel > 1))
            }
        } else if position < LISTEN {
            if position == SETTLE {
                Some(Action::Clock(false))
            } else {
                Some(Action::Hold(self.hold))
            }
        } else if position < FIRST_PASS {
            Some(Action::DataDirection(Direction::Input))
        } else if position < SECOND_PASS {
            let beat: usize = (position - FIRST_PASS) % BEATS;
            if beat == BEATS - 1 {
                Some(Action::DataRead)
            } else {
                Some(beat_of_pulse(beat, self.hold))
            }
        } else if position < RELEASE {
            let beat: usize = (position - SECOND_PASS) % BEATS;
            if beat == 0 {
                Some(Action::DataRead)
            } else {
                Some(beat_of_pulse(beat - 1, self.hold))
            }
        } else if position == RELEASE {
            Some(Action::ChipSelect(true))
        } else {
            Some(Action::DataDirection(Direction::Output))
        }
    }

    /// Records that the next action has been performed. `level` is what the
    /// data line showed if that action sampled it, and is ignored otherwise.
    /// A conversion that is complete stays as it is.
    pub fn advance(&mut self, level: bool)
        ensures
            final(self)@ == old(self)@.advance(level),
    {
        proof {
            use_type_invariant(&*self);
            transaction_steps(self.channel, self.hold);
        }
        let Some(action) = self.action() else {
            return ;
        };
        let position: usize = self.position as usize;
        let ghost before = self.samples@;
        let mut forward: u8 = self.forward;
        let mut backward: u8 = self.backward;
        let mut samples = self.samples;
        if action == Action::DataRead {
            samples = Ghost(before.push(level));
            if position < SECOND_PASS {
                forward = shift_in(forward, level);
                proof {
                    let taken = before.len() as int;
                    assert(before.take(taken) =~= before);
                    assert(samples@.take(taken + 1) =~= samples@);
                    assert(samples@.drop_last() =~= before);
                    msb_first_bound(before);
                    lemma2_to64();
                }
            } else {
                let place: u8 = ((position - SECOND_PASS) / BEATS) as u8;
                backward = place_in(backward, place, level);
                proof {
                    let second = before.skip(WIDTH as int);
                    assert(samples@.take(WIDTH as int) =~= before.take(WIDTH as int));
                    assert(samples@.skip(WIDTH as int) =~= second.push(level));
                    lsb_first_bound(second);
                    lsb_first_push(second, level);
                }
            }
        }
        *self = Conversion {
            channel: self.channel,
            hold: self.hold,
            position: self.position + 1,
            forward,
            backward,
            samples,
        };
    }

    /// The reading, once the conversion is complete: the first pass if the
    /// second pass agrees with it, zero if not.
    pub fn sample(&self) -> (sample: Option<u8>)
        ensures
            sample == self@.sample(),
            self@.coherent(),
    {
        proof {
            use_type_invariant(self);
            transaction_steps(self.channel, self.hold);
            samples_taken(self.channel, self.hold, self.position as int);
        }
        if self.position as usize >= STEPS {
            Some(reconcile(self.forward, self.backward))
        } else {
            None
        }
    }
}

/// A conversion that has just been opened is coherent.
pub proof fn opened_is_coherent(channel: u8, hold: u32)
    ensures
        ConversionView::start(channel, hold).coherent(),
{
}

/// Performing an action keeps a conversion coherent.
pub proof fn advance_keeps_coherence(view: ConversionView, level: bool)
    requires
        view.coherent(),
    ensures
        view.advance(level).coherent(),
{
}

/// Every action performed moves a conversion one step along its script, up to
/// the end of the script and no further, whatever the data line shows.
pub proof fn steady_progress(channel: u8, hold: u32, levels: Seq<bool>)
    ensures
        ConversionView::start(channel, hold).after(levels).coherent(),
        ConversionView::start(channel, hold).after(levels).channel == channel,
        ConversionView::start(channel, hold).after(levels).hold == hold,
        ConversionView::start(channel, hold).after(levels).position == if levels.len() <= STEPS {
            levels.len()
        } else {
            STEPS as nat
        },
    decreases levels.len(),
{
    transaction_steps(channel, hold);
    if levels.len() > 0 {
        steady_progress(channel, hold, levels.drop_last());
    }
}

/// A conversion always ends: whatever the data line shows, it is complete
/// after exactly as many actions as the script is long, it has then taken
/// sixteen samples, and its reading fits in eight bits.
pub proof fn conversion_completes(channel: u8, hold: u32, levels: Seq<bool>)
    ensures
        ConversionView::start(channel, hold).after(levels).complete() <==> levels.len() >= STEPS,
        levels.len() >= STEPS ==> {
            let end = ConversionView::start(channel, hold).after(levels);
            &&& end.action() is None
            &&& end.samples.len() == 2 * WIDTH
            &&& end.sample() is Some
            &&& reading(end.samples) <= u8::MAX
        },
{
    transaction_steps(channel, hold);
    steady_progress(channel, hold, levels);
    if levels.len() >= STEPS {
        let end = ConversionView::start(channel, hold).after(levels);
        samples_taken(channel, hold, STEPS as int);
        msb_first_bound(end.samples.take(WIDTH as int));
        lemma2_to64();
    }
}

/// On a glitch-free line the second pass replays the pattern of the first in
/// reverse order, and the conversion reads exactly that pattern, taken most
/// significant bit first.
pub proof fn glitch_free_line_reads_the_pattern(view: ConversionView, pattern: Seq<bool>)
    requires
        view.complete(),
        pattern.len() == WIDTH,
        view.samples == pattern + pattern.reverse(),
    ensures
        view.sample() == Some(msb_first(pattern) as u8),
        msb_first(pattern) <= u8::MAX,
{
    agreeing_passes_give_the_pattern(pattern);
}

/// When the second pass shows anything but the first in reverse order, the
/// conversion reads zero.
pub proof fn glitch_reads_zero(view: ConversionView, first: Seq<bool>, second: Seq<bool>)
    requires
        view.complete(),
        first.len() == WIDTH,
        second.len() == WIDTH,
        second != first.reverse(),
        view.samples == first + second,
    ensures
        view.sample() == Some(0u8),
{
    disagreeing_passes_give_zero(first, second);
}

/// The action at place `beat` of a clock pulse.
fn beat_of_pulse(beat: usize, hold: u32) -> (action: Action)
    requires
        beat < 4,
    ensures
        action == pulse(hold)[beat as int],
{
    if beat == 0 {
        Action::Clock(true)
    } else if beat == 2 {
        Action::Clock(false)
    } else {
        Action::Hold(hold)
    }
}

} // verus!
