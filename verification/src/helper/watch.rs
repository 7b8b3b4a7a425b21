//! A stopwatch: it runs or is paused, and reads the time it has run.
use vstd::prelude::*;
use std::time::Instant;
use crate::clock::{instant_now, nanos_between, MAX_DURATION_NANOS};

verus! {

/// `current` nanoseconds advanced by `elapsed` more, saturating at `u128::MAX`.
pub open spec fn advanced(current: u128, elapsed: u128) -> u128 {
    if current + elapsed > u128::MAX { u128::MAX } else { (current + elapsed) as u128 }
}

/// `r` is `current` advanced by some span that the clock can measure: one no
/// longer than `Duration::MAX`. How long the span is depends on the clock.
pub open spec fn advanced_by_span(current: u128, r: u128) -> bool {
    exists|e: u128| e <= MAX_DURATION_NANOS && r == #[trigger] advanced(current, e)
}

/// The time run after `elapsed` more nanoseconds: `current` plus `elapsed`,
/// saturating.
pub fn advance_nanos(current: u128, elapsed: u128) -> (r: u128)
    ensures
        r == advanced(current, elapsed),
{
    current.saturating_add(elapsed)
}

/// Advancing adds the span exactly while the sum fits, never goes back, and
/// stops at `u128::MAX` otherwise.
pub proof fn law_advance_adds(current: u128, elapsed: u128)
    ensures
        advanced(current, elapsed) >= current,
        current + elapsed <= u128::MAX ==> advanced(current, elapsed) == current + elapsed,
        current + elapsed > u128::MAX ==> advanced(current, elapsed) == u128::MAX,
        advanced(current, 0) == current,
{
}

/// A stopwatch, counting nanoseconds.
pub struct Watch {
    /// The time run up to the last pause, resume or seek.
    current_nanos: u128,
    /// When it last started running.
    last_resume_instant: Option<Instant>,
    is_paused: bool,
}

pub struct WatchView {
    pub current_nanos: u128,
    pub last_resume_instant: Option<Instant>,
    pub is_paused: bool,
}

impl View for Watch {
    type V = WatchView;

    closed spec fn view(&self) -> WatchView {
        WatchView {
            current_nanos: self.current_nanos,
            last_resume_instant: self.last_resume_instant,
            is_paused: self.is_paused,
        }
    }
}

impl Watch {
    /// A running watch knows when it started running.
    #[verifier::type_invariant]
    closed spec fn running_has_start(self) -> bool {
        !self.is_paused ==> self.last_resume_instant is Some
    }

    /// A paused watch at zero.
    pub fn new() -> (w: Watch)
        ensures
            w@ == (WatchView { current_nanos: 0, last_resume_instant: None, is_paused: true }),
    {
        Watch { current_nanos: 0, last_resume_instant: None, is_paused: true }
    }

    /// The time run, in nanoseconds: the stored time when paused; when
    /// running, that plus the time since it last started (saturating), as
    /// `advance_nanos` adds it.
    pub fn time_nanos(&self) -> (r: u128)
        ensures
            self@.is_paused ==> r == self@.current_nanos,
            !self@.is_paused ==> advanced_by_span(self@.current_nanos, r),
            !self@.is_paused ==> self@.current_nanos <= r <= self@.current_nanos + MAX_DURATION_NANOS,
    {
        proof {
            use_type_invariant(self);
        }
        if self.is_paused {
            self.current_nanos
        } else {
            let now = instant_now();
            let last = self.last_resume_instant.unwrap();
            let elapsed = nanos_between(&now, &last);
            advance_nanos(self.current_nanos, elapsed)
        }
    }

    /// Pauses the watch and sets the time run to `nanos`.
    pub fn pause_seek_to(&mut self, nanos: u128)
        ensures
            final(self)@ == (WatchView { current_nanos: nanos, last_resume_instant: None, is_paused: true }),
    {
        *self = Watch { current_nanos: nanos, last_resume_instant: None, is_paused: true };
    }

    /// Sets the time run to `nanos`, counting on from now; a paused watch
    /// stays paused.
    pub fn seek_to(&mut self, nanos: u128)
        ensures
            final(self)@.current_nanos == nanos,
            final(self)@.is_paused == old(self)@.is_paused,
            final(self)@.last_resume_instant is Some,
    {
        let now = instant_now();
        self.last_resume_instant = Some(now);
        self.current_nanos = nanos;
    }

    /// Pauses a running watch, keeping the time it has run; a paused watch
    /// is left alone.
    pub fn pause(&mut self)
        ensures
            old(self)@.is_paused ==> final(self)@ == old(self)@,
            !old(self)@.is_paused ==> final(self)@.is_paused && final(self)@.last_resume_instant is None
                && advanced_by_span(old(self)@.current_nanos, final(self)@.current_nanos),
            !old(self)@.is_paused ==> old(self)@.current_nanos <= final(self)@.current_nanos
                <= old(self)@.current_nanos + MAX_DURATION_NANOS,
    {
        proof {
            use_type_invariant(&*self);
        }
        if !self.is_paused {
            self._sync_logic_time();
            *self = Watch { current_nanos: self.current_nanos, last_resume_instant: None, is_paused: true };
        }
    }

    /// Starts a paused watch from now; a running watch is left alone.
    pub fn resume(&mut self)
        ensures
            !old(self)@.is_paused ==> final(self)@ == old(self)@,
            old(self)@.is_paused ==> !final(self)@.is_paused && final(self)@.last_resume_instant is Some
                && final(self)@.current_nanos == old(self)@.current_nanos,
    {
        if self.is_paused {
            let now = instant_now();
            *self = Watch { current_nanos: self.current_nanos, last_resume_instant: Some(now), is_paused: false };
        }
    }

    /// Adds the time run since the last start to the stored time (saturating)
    /// and counts on from now.
    fn _sync_logic_time(&mut self)
        ensures
            old(self)@.is_paused ==> final(self)@ == old(self)@,
            !old(self)@.is_paused ==> !final(self)@.is_paused && final(self)@.last_resume_instant is Some
                && advanced_by_span(old(self)@.current_nanos, final(self)@.current_nanos),
    {
        proof {
            use_type_invariant(&*self);
        }
        if !self.is_paused {
            if let Some(last) = self.last_resume_instant {
                let now = instant_now();
                let run = nanos_between(&now, &last);
                self.current_nanos = advance_nanos(self.current_nanos, run);
                self.last_resume_instant = Some(instant_now());
            }
        }
    }

    pub fn is_paused(&self) -> (r: bool)
        ensures
            r == self@.is_paused,
    {
        self.is_paused
    }
}

} // verus!
