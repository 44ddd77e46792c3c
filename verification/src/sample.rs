//! Reconstruction of an 8-bit reading from the levels sampled on the data
//! line.
//!
//! The converter shifts its result out twice: most significant bit first, then
//! again least significant bit first. Both passes are accumulated separately
//! and the reading is accepted only when they agree.

use vstd::prelude::*;
use vstd::arithmetic::power2::{lemma2_to64, lemma_pow2_unfold, pow2};

verus! {

/// Number of bits in one pass over the conversion result.
pub const WIDTH: usize = 8;

/// Numeric value of one sampled level: high is one, low is zero.
pub open spec fn bit(level: bool) -> nat {
    if level {
        1
    } else {
        0
    }
}

/// Numeric value of a level that stands at binary place `place`.
pub open spec fn bit_at(level: bool, place: nat) -> nat {
    if level {
        pow2(place)
    } else {
        0
    }
}

/// The number whose binary digits are `levels`, the first level being the
/// most significant digit.
pub open spec fn msb_first(levels: Seq<bool>) -> nat
    decreases levels.len(),
{
    if levels.len() == 0 {
        0
    } else {
        2 * msb_first(levels.drop_last()) + bit(levels.last())
    }
}

/// The number whose binary digits are `levels`, the first level being the
/// least significant digit.
pub open spec fn lsb_first(levels: Seq<bool>) -> nat
    decreases levels.len(),
{
    if levels.len() == 0 {
        0
    } else {
        bit(levels.first()) + 2 * lsb_first(levels.drop_first())
    }
}

/// The value reported for two accumulated passes: the first pass when both
/// agree, zero otherwise.
pub open spec fn reconciled(forward: nat, backward: nat) -> nat {
    if forward == backward {
        forward
    } else {
        0
    }
}

/// The reading that sixteen samples stand for: the first eight taken most
/// significant bit first, the last eight least significant bit first.
pub open spec fn reading(samples: Seq<bool>) -> nat {
    reconciled(msb_first(samples.take(WIDTH as int)), lsb_first(samples.skip(WIDTH as int)))
}

/// A pass of `n` levels is a number below two to the `n`.
pub proof fn msb_first_bound(levels: Seq<bool>)
    ensures
        msb_first(levels) < pow2(levels.len()),
    decreases levels.len(),
{
    if levels.len() == 0 {
        lemma2_to64();
    } else {
        msb_first_bound(levels.drop_last());
        lemma_pow2_unfold(levels.len());
    }
}

/// Appending a level to a least-significant-first pass adds that level at the
/// next free binary place.
pub proof fn lsb_first_push(levels: Seq<bool>, level: bool)
    ensures
        lsb_first(levels.push(level)) == lsb_first(levels) + bit_at(level, levels.len()),
    decreases levels.len(),
{
    let longer = levels.push(level);
    if levels.len() == 0 {
        lemma2_to64();
        assert(lsb_first(longer.drop_first()) == 0);
    } else {
        lsb_first_push(levels.drop_first(), level);
        assert(longer.drop_first() =~= levels.drop_first().push(level));
        lemma_pow2_unfold(levels.len());
    }
}

/// A least-significant-first pass of `n` levels is a number below two to the
/// `n` as well.
pub proof fn lsb_first_bound(levels: Seq<bool>)
    ensures
        lsb_first(levels) < pow2(levels.len()),
    decreases levels.len(),
{
    if levels.len() == 0 {
        lemma2_to64();
    } else {
        lsb_first_bound(levels.drop_first());
        lemma_pow2_unfold(levels.len());
    }
}

/// Reading a stream least significant bit first gives the same number as
/// reading the reversed stream most significant bit first.
pub proof fn lsb_first_is_msb_first_reversed(levels: Seq<bool>)
    ensures
        lsb_first(levels.reverse()) == msb_first(levels),
    decreases levels.len(),
{
    if levels.len() > 0 {
        lsb_first_is_msb_first_reversed(levels.drop_last());
        assert(levels.reverse().drop_first() =~= levels.drop_last().reverse());
    }
}

/// Two passes of the same length that accumulate to the same number hold the
/// same levels.
pub proof fn msb_first_injective(a: Seq<bool>, b: Seq<bool>)
    requires
        a.len() == b.len(),
        msb_first(a) == msb_first(b),
    ensures
        a == b,
    decreases a.len(),
{
    if a.len() > 0 {
        msb_first_injective(a.drop_last(), b.drop_last());
        assert(a =~= a.drop_last().push(a.last()));
        assert(b =~= b.drop_last().push(b.last()));
    } else {
        assert(a =~= b);
    }
}

/// When the second pass replays the bits of the first in reverse order, as a
/// glitch-free line does, the reading is the first pass taken most significant
/// bit first, and both accumulation orders reconstruct that same number.
pub proof fn agreeing_passes_give_the_pattern(pattern: Seq<bool>)
    requires
        pattern.len() == WIDTH,
    ensures
        lsb_first(pattern.reverse()) == msb_first(pattern),
        reading(pattern + pattern.reverse()) == msb_first(pattern),
        msb_first(pattern) <= u8::MAX,
{
    let samples = pattern + pattern.reverse();
    lsb_first_is_msb_first_reversed(pattern);
    assert(samples.take(WIDTH as int) =~= pattern);
    assert(samples.skip(WIDTH as int) =~= pattern.reverse());
    msb_first_bound(pattern);
    lemma2_to64();
}

/// When the second pass is anything but the first in reverse order, the two
/// accumulations differ and the reading is zero.
pub proof fn disagreeing_passes_give_zero(first: Seq<bool>, second: Seq<bool>)
    requires
        first.len() == WIDTH,
        second.len() == WIDTH,
        second != first.reverse(),
    ensures
        msb_first(first) != lsb_first(second),
        reading(first + second) == 0,
{
    let samples = first + second;
    assert(samples.take(WIDTH as int) =~= first);
    assert(samples.skip(WIDTH as int) =~= second);
    if msb_first(first) == lsb_first(second) {
        lsb_first_is_msb_first_reversed(second.reverse());
        assert(second.reverse().reverse() =~= second);
        msb_first_injective(first, second.reverse());
    }
}

/// Shifts the next level of a most-significant-first pass into `value`.
pub fn shift_in(value: u8, level: bool) -> (shifted: u8)
    ensures
        shifted == (2 * value + bit(level)) % 256,
{
    let low: u8 = if level { 1 } else { 0 };
    let shifted: u8 = (value << 1) | low;
    assert(((value << 1) | low) == (2 * value + low) % 256) by (bit_vector)
        requires
            low <= 1,
    ;
    shifted
}

/// Places the level sampled at binary place `place` of a
/// least-significant-first pass into `value`.
pub fn place_in(value: u8, place: u8, level: bool) -> (placed: u8)
    requires
        place < WIDTH,
    ensures
        placed == value | ((if level { 1u8 } else { 0u8 }) << place),
        value < pow2(place as nat) ==> placed == value + bit_at(level, place as nat),
{
    let low: u8 = if level { 1 } else { 0 };
    let placed: u8 = value | (low << place);
    proof {
        lemma2_to64();
        assert(place < 8 && low <= 1 && value < (1u8 << place) ==> (value | (low << place)) == value
            + low * (1u8 << place)) by (bit_vector);
        assert(1u8 << 0 == 1 && 1u8 << 1 == 2 && 1u8 << 2 == 4 && 1u8 << 3 == 8 && 1u8 << 4 == 16
            && 1u8 << 5 == 32 && 1u8 << 6 == 64 && 1u8 << 7 == 128) by (bit_vector);
    }
    placed
}

/// Cross-checks the two passes: the first pass if both agree, zero if not.
pub fn reconcile(forward: u8, backward: u8) -> (value: u8)
    ensures
        value == reconciled(forward as nat, backward as nat),
{
    if forward == backward {
        forward
    } else {
        0
    }
}

} // verus!
