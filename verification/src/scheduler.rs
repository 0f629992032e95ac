//! The fixed-tick scheduler's bookkeeping.
//!
//! The scheduler paces a render loop against a target tick length. Each
//! iteration it is told whether the source requested closing and what the
//! monotonic clock reads, and it decides: stop, render now (draining events
//! first), or sleep until the next tick. When a render is due, the time debt
//! since the scheduled tick is rounded down to a whole number of ticks and
//! absorbed into the schedule, so the loop self-corrects drift while
//! rendering at most once per iteration.
//!
//! The loop itself — reading the clock, sleeping, polling — is outside work;
//! a host drives it and feeds the samples into [`TickState::decide`].

use vstd::prelude::*;

verus! {

/// Why the scheduler refused to start.
#[derive(Clone, Copy, Debug, PartialEq, Eq, Structural)]
pub enum SchedulerError {
    /// The requested pacing is impossible: a tick must last at least one
    /// nanosecond, which a non-positive or overlarge frame rate cannot give.
    InvalidConfiguration,
}

/// What one loop iteration must do next.
#[derive(Clone, Copy, Debug, PartialEq, Eq, Structural)]
pub enum TickDecision {
    /// The source requested closing: leave the loop; render no more.
    Stop,
    /// A tick is due: drain all pending events, then render exactly once.
    Render,
    /// Ahead of schedule: suspend for this many nanoseconds, coarsely.
    Sleep(u64),
}

/// Tick bookkeeping: the fixed tick length and the time the next tick is due.
#[derive(Clone, Copy, Debug, PartialEq, Eq, Structural)]
pub struct TickState {
    /// Duration of one tick in nanoseconds; always at least 1.
    pub tick_length: u64,
    /// Monotonic time at which the next tick is due, in nanoseconds.
    pub next_tick: u64,
}

impl TickState {
    /// A state is well formed when its tick length is positive.
    pub open spec fn wf(&self) -> bool {
        self.tick_length >= 1
    }

    /// Start pacing with the given tick length, first tick due at `start`
    /// (the current monotonic time). Fails, before any iteration could run,
    /// exactly when the tick length is zero.
    pub fn new(tick_length: u64, start: u64) -> (r: Result<TickState, SchedulerError>)
        ensures
            tick_length >= 1 <==> r is Ok,
            r matches Ok(st) ==> st == (TickState { tick_length, next_tick: start }) && st.wf(),
            r matches Err(e) ==> e == SchedulerError::InvalidConfiguration,
    {
        if tick_length >= 1 {
            Ok(TickState { tick_length, next_tick: start })
        } else {
            Err(SchedulerError::InvalidConfiguration)
        }
    }

    /// What `decide` does, as a pure function of the state and the sampled
    /// inputs: the successor state and the decision.
    pub open spec fn decide_spec(self, close: bool, now: u64) -> (TickState, TickDecision) {
        if close {
            (self, TickDecision::Stop)
        } else if now >= self.next_tick {
            let diff = now - self.next_tick;
            let delta = diff - diff % (self.tick_length as int);
            (
                TickState { tick_length: self.tick_length, next_tick: (self.next_tick + delta) as u64 },
                TickDecision::Render,
            )
        } else {
            (self, TickDecision::Sleep((self.next_tick - now) as u64))
        }
    }

    /// Decide what this iteration does, given whether the source requested
    /// closing and the current monotonic time `now`.
    ///
    /// Closing always wins and changes nothing. When the tick is due, the
    /// elapsed debt `now - next_tick` is rounded down to a whole multiple of
    /// the tick length and added onto `next_tick`, and one render is ordered.
    /// Otherwise the loop is ahead and sleeps out the remaining time.
    pub fn decide(&mut self, close: bool, now: u64) -> (d: TickDecision)
        requires
            old(self).wf(),
        ensures
            (*final(self), d) == old(self).decide_spec(close, now),
            final(self).wf(),
            final(self).tick_length == old(self).tick_length,
            close ==> d == TickDecision::Stop && *final(self) == *old(self),
            !close && now >= old(self).next_tick ==> {
                &&& d == TickDecision::Render
                &&& final(self).next_tick == old(self).next_tick
                    + ((now - old(self).next_tick) - (now - old(self).next_tick) % (
                old(self).tick_length as int))
                &&& final(self).next_tick <= now
            },
            !close && now < old(self).next_tick ==> d == (TickDecision::Sleep(
                (old(self).next_tick - now) as u64,
            )) && *final(self) == *old(self),
    {
        if close {
            TickDecision::Stop
        } else if now >= self.next_tick {
            let diff = now - self.next_tick;
            proof {
                vstd::arithmetic::div_mod::lemma_mod_decreases(diff as nat, self.tick_length as nat);
            }
            let delta = diff - diff % self.tick_length;
            self.next_tick = self.next_tick + delta;
            TickDecision::Render
        } else {
            TickDecision::Sleep(self.next_tick - now)
        }
    }
}

/// Milliseconds to suspend for a sleep decision of `ns` nanoseconds: the
/// duration at millisecond granularity, rounded up, so the coarse sleep
/// may overshoot but never cuts the wait short.
pub fn sleep_millis_for(ns: u64) -> (ms: u64)
    ensures
        ms == (ns + 999_999) / 1_000_000,
{
    ns / 1_000_000 + if ns % 1_000_000 != 0 {
        1u64
    } else {
        0u64
    }
}

/// The decisions a run makes, given the per-iteration samples of the close
/// flag and the monotonic clock, oldest first. The trace does not cut off at
/// a stop; a host loop simply goes no further than the first `Stop`.
pub open spec fn decision_trace(st: TickState, samples: Seq<(bool, u64)>) -> Seq<TickDecision>
    decreases samples.len(),
{
    if samples.len() == 0 {
        Seq::empty()
    } else {
        let (st2, d) = st.decide_spec(samples.first().0, samples.first().1);
        seq![d] + decision_trace(st2, samples.drop_first())
    }
}

/// A run decides one thing per sample.
pub proof fn lemma_trace_len(st: TickState, samples: Seq<(bool, u64)>)
    ensures
        decision_trace(st, samples).len() == samples.len(),
    decreases samples.len(),
{
    if samples.len() > 0 {
        let (st2, d) = st.decide_spec(samples.first().0, samples.first().1);
        lemma_trace_len(st2, samples.drop_first());
    }
}

/// Termination is exact: if the source reports close for the first time on
/// the check numbered `k` (counting from zero), the run performs exactly `k`
/// tick-or-sleep iterations and then stops; no iteration before it stops,
/// and no render is ordered at or after the stop of that check.
pub proof fn lemma_run_stops_at_first_close(st: TickState, samples: Seq<(bool, u64)>, k: int)
    requires
        0 <= k < samples.len(),
        forall|i: int| 0 <= i < k ==> !samples[i].0,
        samples[k].0,
    ensures
        decision_trace(st, samples).len() == samples.len(),
        decision_trace(st, samples)[k] == TickDecision::Stop,
        forall|i: int| 0 <= i < k ==> decision_trace(st, samples)[i] != TickDecision::Stop,
    decreases k,
{
    lemma_trace_len(st, samples);
    let (st2, d) = st.decide_spec(samples.first().0, samples.first().1);
    lemma_trace_len(st2, samples.drop_first());
    if k == 0 {
    } else {
        assert(forall|i: int| 0 <= i < k - 1 ==> !samples.drop_first()[i].0);
        lemma_run_stops_at_first_close(st2, samples.drop_first(), k - 1);
        assert forall|i: int| 0 <= i < k implies decision_trace(st, samples)[i]
            != TickDecision::Stop by {
            if i > 0 {
                assert(decision_trace(st, samples)[i] == decision_trace(st2, samples.drop_first())[
                    i - 1
                ]);
            }
        }
    }
}

/// A decision to stop is made exactly on the checks where the source
/// reports close, wherever in the run they fall.
pub proof fn lemma_stop_iff_close(st: TickState, samples: Seq<(bool, u64)>, i: int)
    requires
        0 <= i < samples.len(),
    ensures
        decision_trace(st, samples)[i] == TickDecision::Stop <==> samples[i].0,
    decreases i,
{
    let (st2, d) = st.decide_spec(samples.first().0, samples.first().1);
    lemma_trace_len(st2, samples.drop_first());
    if i == 0 {
    } else {
        lemma_stop_iff_close(st2, samples.drop_first(), i - 1);
    }
}

} // verus!
