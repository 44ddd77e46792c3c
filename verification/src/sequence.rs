//! Small facts about sequences that the protocol proofs lean on.

use vstd::prelude::*;

verus! {

/// `block`, `times` times over.
pub open spec fn repeat<T>(block: Seq<T>, times: nat) -> Seq<T>
    decreases times,
{
    if times == 0 {
        Seq::empty()
    } else {
        repeat(block, (times - 1) as nat) + block
    }
}

/// Selecting from a concatenation selects from both halves in turn.
pub proof fn filter_map_concat<A, B>(left: Seq<A>, right: Seq<A>, f: spec_fn(A) -> Option<B>)
    ensures
        (left + right).filter_map(f) == left.filter_map(f) + right.filter_map(f),
    decreases right.len(),
{
    if right.len() == 0 {
        assert(left + right =~= left);
    } else {
        filter_map_concat(left, right.drop_last(), f);
        assert((left + right).drop_last() =~= left + right.drop_last());
        match f(right.last()) {
            Some(kept) => {
                assert((left.filter_map(f) + right.drop_last().filter_map(f)) + seq![kept]
                    =~= left.filter_map(f) + (right.drop_last().filter_map(f) + seq![kept]));
            },
            None => {},
        }
    }
}

/// Selecting from a repeated block repeats what is selected from the block.
pub proof fn filter_map_repeat<A, B>(block: Seq<A>, times: nat, f: spec_fn(A) -> Option<B>)
    ensures
        repeat(block, times).filter_map(f) == repeat(block.filter_map(f), times),
    decreases times,
{
    if times > 0 {
        filter_map_repeat(block, (times - 1) as nat, f);
        filter_map_concat(repeat(block, (times - 1) as nat), block, f);
    }
}

/// Repeating the empty sequence gives the empty sequence.
pub proof fn repeat_empty<T>(times: nat)
    ensures
        repeat(Seq::<T>::empty(), times) == Seq::<T>::empty(),
    decreases times,
{
    if times > 0 {
        repeat_empty::<T>((times - 1) as nat);
    }
}

/// A repeated block is as long as the block, times the repetitions.
pub proof fn repeat_len<T>(block: Seq<T>, times: nat)
    ensures
        repeat(block, times).len() == times * block.len(),
    decreases times,
{
    if times > 0 {
        repeat_len(block, (times - 1) as nat);
        assert(times * block.len() == (times - 1) * block.len() + block.len())
            by (nonlinear_arith);
    } else {
        assert(times * block.len() == 0) by (nonlinear_arith)
            requires
                times == 0,
        ;
    }
}

/// Repeating a block that holds one value throughout gives a sequence that
/// holds that value throughout.
pub proof fn repeat_uniform<T>(block: Seq<T>, times: nat, value: T)
    requires
        forall|i: int| 0 <= i < block.len() ==> #[trigger] block[i] == value,
    ensures
        forall|i: int|
            0 <= i < repeat(block, times).len() ==> #[trigger] repeat(block, times)[i] == value,
    decreases times,
{
    if times > 0 {
        let shorter = repeat(block, (times - 1) as nat);
        repeat_uniform(block, (times - 1) as nat, value);
        assert forall|i: int| 0 <= i < repeat(block, times).len() implies #[trigger] repeat(
            block,
            times,
        )[i] == value by {
            if i >= shorter.len() {
                assert(repeat(block, times)[i] == block[i - shorter.len()]);
            }
        }
    }
}

/// Selecting from a sequence in which nothing qualifies gives nothing.
pub proof fn filter_map_nothing<A, B>(items: Seq<A>, f: spec_fn(A) -> Option<B>)
    requires
        forall|i: int| 0 <= i < items.len() ==> f(#[trigger] items[i]) is None,
    ensures
        items.filter_map(f) == Seq::<B>::empty(),
    decreases items.len(),
{
    if items.len() > 0 {
        filter_map_nothing(items.drop_last(), f);
    }
}

/// The sum of a run of durations.
pub open spec fn total(durations: Seq<u32>) -> nat
    decreases durations.len(),
{
    if durations.len() == 0 {
        0
    } else {
        total(durations.drop_last()) + durations.last() as nat
    }
}

/// A run of equal durations adds up to one of them times their number.
pub proof fn total_uniform(durations: Seq<u32>, each: u32)
    requires
        forall|i: int| 0 <= i < durations.len() ==> #[trigger] durations[i] == each,
    ensures
        total(durations) == durations.len() * each,
    decreases durations.len(),
{
    if durations.len() > 0 {
        total_uniform(durations.drop_last(), each);
        assert(durations.len() * each == (durations.len() - 1) * each + each)
            by (nonlinear_arith);
    } else {
        assert(durations.len() * each == 0) by (nonlinear_arith)
            requires
                durations.len() == 0,
        ;
    }
}

} // verus!
