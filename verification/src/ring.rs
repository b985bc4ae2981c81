//! The sample ring: a `VecDeque` driven through the slice operations of
//! `strider`. Its contents are the deque's view, oldest sample first.

use std::collections::VecDeque;
use vstd::prelude::*;

verus! {

/// The smaller of two counts.
pub open spec fn min_len(a: int, b: int) -> int {
    if a <= b {
        a
    } else {
        b
    }
}

/// Calls `strider::SliceRing::push_many_back` on a `VecDeque`, which pushes a
/// clone of each value to the back, in order. Samples are `Copy`, so a clone
/// is the value itself.
#[verifier::external_body]
pub(crate) fn push_many_back<T: Copy>(ring: &mut VecDeque<T>, values: &[T])
    ensures
        final(ring)@ == old(ring)@ + values@,
{
    strider::SliceRing::push_many_back(ring, values)
}

/// Calls `strider::SliceRing::drop_many_front` on a `VecDeque`, which pops
/// `count` elements from the front, or all of them if there are fewer, and
/// returns how many it popped.
#[verifier::external_body]
pub(crate) fn drop_many_front<T: Copy>(ring: &mut VecDeque<T>, count: usize) -> (dropped: usize)
    ensures
        dropped == min_len(old(ring)@.len() as int, count as int),
        final(ring)@ == old(ring)@.skip(dropped as int),
{
    strider::SliceRing::drop_many_front(ring, count)
}

/// Calls `strider::SliceRing::read_many_front` on a `VecDeque`, which copies
/// the front elements over the start of `output`, as many as both hold, and
/// returns how many it copied. The ring and the rest of `output` stay as
/// they were.
#[verifier::external_body]
pub(crate) fn read_many_front<T: Copy>(ring: &VecDeque<T>, output: &mut [T]) -> (copied: usize)
    ensures
        copied == min_len(ring@.len() as int, old(output)@.len() as int),
        final(output)@ == ring@.take(copied as int) + old(output)@.skip(copied as int),
{
    strider::SliceRing::read_many_front(ring, output)
}

} // verus!
