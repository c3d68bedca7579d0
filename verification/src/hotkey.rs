//! The single-flight guard of the hotkey-triggered manual capture.

use crate::clock::{elapsed, elapsed_ms};
use vstd::prelude::*;

verus! {

/// State of the manual-capture path: idle or capturing, and when the last
/// capture was accepted.
#[derive(Clone, Copy, Debug, PartialEq, Eq, Structural)]
pub struct CaptureGuard {
    /// Least time between two accepted captures, in milliseconds.
    pub window: u64,
    /// When the last capture was accepted; `None` before the first one.
    pub last_capture: Option<u64>,
    /// Whether a capture is in flight.
    pub capturing: bool,
}

/// Something that happens to the guard.
#[derive(Clone, Copy, Debug, PartialEq, Eq, Structural)]
pub enum GuardEvent {
    /// The hotkey was pressed at the given time.
    Hotkey(u64),
    /// The capture in flight came to its end, with or without success.
    Finished,
}

impl CaptureGuard {
    /// Whether a hotkey press at `now` starts a capture: none is in flight,
    /// and the last accepted one lies at least one window back.
    pub open spec fn accepts(self, now: u64) -> bool {
        &&& !self.capturing
        &&& match self.last_capture {
            Some(last) => elapsed(now, last) >= self.window,
            None => true,
        }
    }

    /// The guard after a hotkey press at `now`.
    pub open spec fn after_hotkey(self, now: u64) -> CaptureGuard {
        if self.accepts(now) {
            CaptureGuard { window: self.window, last_capture: Some(now), capturing: true }
        } else {
            self
        }
    }

    /// The guard after the capture in flight has ended.
    pub open spec fn after_finish(self) -> CaptureGuard {
        CaptureGuard { window: self.window, last_capture: self.last_capture, capturing: false }
    }

    /// The guard after an event.
    pub open spec fn after(self, event: GuardEvent) -> CaptureGuard {
        match event {
            GuardEvent::Hotkey(now) => self.after_hotkey(now),
            GuardEvent::Finished => self.after_finish(),
        }
    }

    /// An idle guard that has not captured yet.
    pub fn new(window: u64) -> (r: CaptureGuard)
        ensures
            r == (CaptureGuard { window, last_capture: None, capturing: false }),
    {
        CaptureGuard { window, last_capture: None, capturing: false }
    }

    /// Whether a capture is in flight.
    pub fn is_capturing(&self) -> (r: bool)
        ensures
            r == self.capturing,
    {
        self.capturing
    }

    /// Handles a hotkey press at `now`. Returns `true` when the press claims
    /// the capture slot: the guard is then capturing and remembers `now`, and
    /// the caller must end the capture with `finish` on every path. Returns
    /// `false` when the press is dropped; the guard is then unchanged.
    pub fn try_begin(&mut self, now: u64) -> (started: bool)
        ensures
            started == old(self).accepts(now),
            *final(self) == old(self).after_hotkey(now),
    {
        if self.capturing {
            return false;
        }
        let clear = match self.last_capture {
            Some(last) => elapsed_ms(now, last) >= self.window,
            None => true,
        };
        if !clear {
            return false;
        }
        self.last_capture = Some(now);
        self.capturing = true;
        true
    }

    /// Ends the capture in flight, whether it succeeded or failed.
    pub fn finish(&mut self)
        ensures
            *final(self) == old(self).after_finish(),
    {
        self.capturing = false;
    }
}

/// Number of captures that a run of events starts on the given guard.
pub open spec fn captures_started(guard: CaptureGuard, events: Seq<GuardEvent>) -> nat
    decreases events.len(),
{
    if events.len() == 0 {
        0
    } else {
        let rest = captures_started(guard.after(events[0]), events.drop_first());
        match events[0] {
            GuardEvent::Hotkey(now) => if guard.accepts(now) {
                1 + rest
            } else {
                rest
            },
            GuardEvent::Finished => rest,
        }
    }
}

/// Every hotkey press of the run comes before `limit`.
pub open spec fn presses_before(events: Seq<GuardEvent>, limit: int) -> bool {
    forall|i: int|
        0 <= i < events.len() ==> match #[trigger] events[i] {
            GuardEvent::Hotkey(now) => now < limit,
            GuardEvent::Finished => true,
        }
}

/// No event of the run ends a capture.
pub open spec fn no_finish(events: Seq<GuardEvent>) -> bool {
    forall|i: int| 0 <= i < events.len() ==> #[trigger] events[i] is Hotkey
}

/// Captures never overlap: while one is in flight, no hotkey press starts
/// another, however many arrive and whenever they do.
pub proof fn lemma_no_overlap(guard: CaptureGuard, events: Seq<GuardEvent>)
    requires
        guard.capturing,
        no_finish(events),
    ensures
        captures_started(guard, events) == 0,
    decreases events.len(),
{
    if events.len() > 0 {
        let rest = events.drop_first();
        assert forall|i: int| 0 <= i < rest.len() implies #[trigger] rest[i] is Hotkey by {
            assert(rest[i] == events[i + 1]);
        }
        lemma_no_overlap(guard.after(events[0]), rest);
    }
}

/// What holds of every press of a run holds of every press after the first
/// event.
proof fn lemma_rest_comes_before(events: Seq<GuardEvent>, limit: int)
    requires
        events.len() > 0,
        presses_before(events, limit),
    ensures
        presses_before(events.drop_first(), limit),
{
    let rest = events.drop_first();
    assert forall|i: int| 0 <= i < rest.len() implies match #[trigger] rest[i] {
        GuardEvent::Hotkey(now) => now < limit,
        GuardEvent::Finished => true,
    } by {
        assert(rest[i] == events[i + 1]);
    }
}

/// Within one window of the last accepted capture no press starts a capture,
/// whether or not that capture has ended meanwhile.
proof fn lemma_debounced_run_starts_none(guard: CaptureGuard, events: Seq<GuardEvent>)
    requires
        guard.last_capture is Some,
        guard.window > 0,
        presses_before(events, guard.last_capture->0 + guard.window),
    ensures
        captures_started(guard, events) == 0,
    decreases events.len(),
{
    if events.len() > 0 {
        let rest = events.drop_first();
        lemma_rest_comes_before(events, guard.last_capture->0 + guard.window);
        assert(events[0] is Hotkey ==> !guard.accepts(events[0]->Hotkey_0));
        lemma_debounced_run_starts_none(guard.after(events[0]), rest);
    }
}

/// A burst of hotkey presses yields exactly one capture: when the first press
/// at `first` is accepted and every later press comes less than one window
/// after it, no other press starts a capture, whether the first capture is
/// still in flight or has ended in between.
pub proof fn lemma_burst_starts_exactly_one(guard: CaptureGuard, first: u64, events: Seq<GuardEvent>)
    requires
        guard.accepts(first),
        events.len() > 0,
        events[0] == GuardEvent::Hotkey(first),
        presses_before(events, first + guard.window),
    ensures
        captures_started(guard, events) == 1,
{
    let rest = events.drop_first();
    lemma_rest_comes_before(events, first + guard.window);
    lemma_debounced_run_starts_none(guard.after(events[0]), rest);
}

} // verus!
