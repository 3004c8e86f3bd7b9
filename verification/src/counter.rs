//! A plain counter record: the simplest sibling of the lottery engine.

use vstd::prelude::*;

verus! {

/// A counter held in one record.
#[derive(Clone, Copy, PartialEq, Eq, Structural, Debug)]
pub struct Counter {
    pub count: u64,
}

/// Creates a counter starting at zero.
pub fn initialize() -> (counter: Counter)
    ensures
        counter.count == 0,
{
    Counter { count: 0 }
}

/// Adds one to the counter; the top of the range is excluded because the
/// count must stay exact.
pub fn increment(counter: &mut Counter)
    requires
        old(counter).count < u64::MAX,
    ensures
        final(counter).count == old(counter).count + 1,
{
    counter.count = counter.count + 1;
}

/// Takes one from the counter; zero is excluded because the count cannot
/// go negative.
pub fn decrement(counter: &mut Counter)
    requires
        old(counter).count > 0,
    ensures
        final(counter).count == old(counter).count - 1,
{
    counter.count = counter.count - 1;
}

} // verus!
