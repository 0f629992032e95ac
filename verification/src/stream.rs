//! A minimal reactive stream: an ordered log of pushed values.
//!
//! A stream records every value pushed onto it, in push order. Signals are
//! derived views over that log: a *hold* signal is the latest pushed value
//! (or a default before the first push), and a *scan* signal is a fold of
//! the whole log from a seed.

use vstd::prelude::*;

verus! {

/// The value a hold-signal over the pushes `s` shows: the most recent push,
/// or `default` if nothing has been pushed yet.
pub open spec fn hold_value<T>(s: Seq<T>, default: T) -> T {
    if s.len() == 0 {
        default
    } else {
        s.last()
    }
}

/// A discrete channel of pushed values, in push order.
pub struct Stream<T> {
    log: Vec<T>,
}

impl<T> View for Stream<T> {
    type V = Seq<T>;

    closed spec fn view(&self) -> Seq<T> {
        self.log@
    }
}

impl<T> Stream<T> {
    /// A fresh stream with no pushes.
    pub fn new() -> (s: Self)
        ensures
            s@ == Seq::<T>::empty(),
    {
        Stream { log: Vec::new() }
    }

    /// Push one value onto the stream; a push never fails.
    pub fn push(&mut self, value: T)
        ensures
            final(self)@ == old(self)@.push(value),
    {
        self.log.push(value);
    }

    /// The full log of pushes, oldest first.
    pub fn values(&self) -> (r: &Vec<T>)
        ensures
            r@ == self@,
    {
        &self.log
    }

    /// How many values have been pushed.
    pub fn len(&self) -> (n: usize)
        ensures
            n == self@.len(),
    {
        self.log.len()
    }

    /// Sample the stream as a hold-signal: the latest push, or `default`.
    pub fn latest_or(&self, default: T) -> (r: T) where T: Copy
        ensures
            r == hold_value(self@, default),
    {
        if self.log.len() == 0 {
            default
        } else {
            self.log[self.log.len() - 1]
        }
    }
}

/// The value a scan-signal over the pushes `s` shows: the fold of every
/// push into an accumulator, oldest push first, seeded with `seed`.
pub open spec fn scan_value<A, T>(s: Seq<T>, seed: A, combine: spec_fn(A, T) -> A) -> A
    decreases s.len(),
{
    if s.len() == 0 {
        seed
    } else {
        combine(scan_value(s.drop_last(), seed, combine), s.last())
    }
}

/// Each push replaces a scan-signal's accumulator with `combine` of the old
/// accumulator and the pushed value.
pub proof fn lemma_scan_step<A, T>(s: Seq<T>, seed: A, combine: spec_fn(A, T) -> A, value: T)
    ensures
        scan_value(s.push(value), seed, combine) == combine(scan_value(s, seed, combine), value),
{
    assert(s.push(value).drop_last() =~= s);
}

/// A hold-signal shows its default exactly until the first push.
pub proof fn lemma_hold_default<T>(default: T)
    ensures
        hold_value(Seq::<T>::empty(), default) == default,
{
}

/// After any push, a hold-signal shows exactly the pushed value, whatever
/// was pushed before.
pub proof fn lemma_hold_tracks_latest<T>(s: Seq<T>, default: T, value: T)
    ensures
        hold_value(s.push(value), default) == value,
{
    assert(s.push(value).last() == value);
}

} // verus!
