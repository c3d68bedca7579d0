//! The debounce gate in front of the snapshot pipeline.

use crate::clock::{elapsed, elapsed_ms};
use vstd::prelude::*;

verus! {

/// What a filesystem notification reports about a path.
#[derive(Clone, Copy, Debug, PartialEq, Eq, Structural)]
pub enum ChangeKind {
    Create,
    Modify,
    Other,
}

/// What the debounce gate decides about one incoming change event.
#[derive(Clone, Copy, Debug, PartialEq, Eq, Structural)]
pub enum GateDecision {
    /// The event goes on to the snapshot pipeline.
    Process,
    /// The event came too soon after the last accepted one and is dropped.
    TooSoon,
    /// The event is neither a creation nor a modification and is ignored.
    Ignored,
}

/// One gate shared by all watched games: it remembers when the last event
/// was accepted and lets the next one through only after the window has
/// passed.
#[derive(Clone, Copy, Debug, PartialEq, Eq, Structural)]
pub struct SaveEventGate {
    /// The debounce window in milliseconds: the next event is accepted only
    /// once more than this has passed since the last accepted one.
    pub window: u64,
    /// When the last accepted event finished its snapshot.
    pub last_accepted: u64,
}

/// Whether a gate that last accepted at `last` lets an event through at `now`:
/// more than `window` must have passed. An event that comes exactly one
/// window after the last accepted one is still too soon.
pub open spec fn gate_open(window: u64, last: u64, now: u64) -> bool {
    elapsed(now, last) > window
}

/// The decision on an event of the given kind seen at `now`.
pub open spec fn gate_decision(window: u64, last: u64, kind: ChangeKind, now: u64) -> GateDecision {
    if kind == ChangeKind::Other {
        GateDecision::Ignored
    } else if gate_open(window, last, now) {
        GateDecision::Process
    } else {
        GateDecision::TooSoon
    }
}

impl SaveEventGate {
    /// A gate that counts its window from `now`, the time at which watching
    /// starts.
    pub fn new(window: u64, now: u64) -> (r: SaveEventGate)
        ensures
            r.window == window,
            r.last_accepted == now,
    {
        SaveEventGate { window, last_accepted: now }
    }

    /// Whether an event seen at `now` is far enough from the last accepted one.
    pub fn admits(&self, now: u64) -> (r: bool)
        ensures
            r == gate_open(self.window, self.last_accepted, now),
    {
        elapsed_ms(now, self.last_accepted) > self.window
    }

    /// Decides what happens to an event of the given kind seen at `now`. The
    /// gate itself does not change: an event counts as accepted only once its
    /// snapshot has been stored, see `record_accepted`.
    pub fn decide(&self, kind: ChangeKind, now: u64) -> (r: GateDecision)
        ensures
            r == gate_decision(self.window, self.last_accepted, kind, now),
    {
        match kind {
            ChangeKind::Other => GateDecision::Ignored,
            _ => {
                if self.admits(now) {
                    GateDecision::Process
                } else {
                    GateDecision::TooSoon
                }
            },
        }
    }

    /// Notes that an accepted event finished its snapshot at `now`.
    pub fn record_accepted(&mut self, now: u64)
        ensures
            final(self).window == old(self).window,
            final(self).last_accepted == now,
    {
        self.last_accepted = now;
    }
}

/// One change event as the consumer thread handles it.
pub struct SaveAttempt {
    /// What the notification reported.
    pub kind: ChangeKind,
    /// When the event was put to the debounce gate.
    pub seen_at: u64,
    /// When the event's snapshot was stored, if the pipeline got that far.
    /// `None` for an event that matched no game or whose pipeline failed.
    pub stored_at: Option<u64>,
}

/// Number of snapshots that a run of events leaves behind, when the debounce gate last
/// accepted at `last` before the first of them.
pub open spec fn snapshots_made(window: u64, last: u64, attempts: Seq<SaveAttempt>) -> nat
    decreases attempts.len(),
{
    if attempts.len() == 0 {
        0
    } else {
        let first = attempts[0];
        let rest = attempts.drop_first();
        if gate_decision(window, last, first.kind, first.seen_at) == GateDecision::Process
            && first.stored_at is Some {
            1 + snapshots_made(window, first.stored_at->0, rest)
        } else {
            snapshots_made(window, last, rest)
        }
    }
}

/// While the debounce gate is shut for every event of a run, no snapshot is made.
proof fn lemma_shut_gate_makes_none(window: u64, last: u64, attempts: Seq<SaveAttempt>)
    requires
        forall|i: int| 0 <= i < attempts.len() ==> !gate_open(window, last, (#[trigger] attempts[i]).seen_at),
    ensures
        snapshots_made(window, last, attempts) == 0,
    decreases attempts.len(),
{
    if attempts.len() > 0 {
        let rest = attempts.drop_first();
        assert forall|i: int| 0 <= i < rest.len() implies !gate_open(
            window,
            last,
            (#[trigger] rest[i]).seen_at,
        ) by {
            assert(rest[i] == attempts[i + 1]);
        }
        lemma_shut_gate_makes_none(window, last, rest);
    }
}

proof fn lemma_burst_from(window: u64, last: u64, start: u64, attempts: Seq<SaveAttempt>)
    requires
        forall|i: int|
            0 <= i < attempts.len() ==> start <= (#[trigger] attempts[i]).seen_at <= start + window,
        forall|i: int|
            0 <= i < attempts.len() && (#[trigger] attempts[i]).stored_at is Some
                ==> attempts[i].stored_at->0 >= attempts[i].seen_at,
    ensures
        snapshots_made(window, last, attempts) <= 1,
    decreases attempts.len(),
{
    if attempts.len() > 0 {
        let first = attempts[0];
        let rest = attempts.drop_first();
        assert forall|i: int| 0 <= i < rest.len() implies start <= (#[trigger] rest[i]).seen_at <= start
            + window && (rest[i].stored_at is Some ==> rest[i].stored_at->0 >= rest[i].seen_at) by {
            assert(rest[i] == attempts[i + 1]);
        }
        if gate_decision(window, last, first.kind, first.seen_at) == GateDecision::Process
            && first.stored_at is Some {
            let stored = first.stored_at->0;
            assert forall|i: int| 0 <= i < rest.len() implies !gate_open(
                window,
                stored,
                (#[trigger] rest[i]).seen_at,
            ) by {
                assert(rest[i] == attempts[i + 1]);
            }
            lemma_shut_gate_makes_none(window, stored, rest);
        } else {
            lemma_burst_from(window, last, start, rest);
        }
    }
}

/// A burst of change events that is over no later than one debounce window
/// after its first event leaves at most one snapshot behind, whatever
/// the events' kinds, whenever the debounce gate last accepted before, and however
/// long each snapshot took to store.
pub proof fn lemma_burst_makes_at_most_one_snapshot(
    window: u64,
    last: u64,
    attempts: Seq<SaveAttempt>,
)
    requires
        forall|i: int|
            0 <= i < attempts.len() ==> attempts[0].seen_at <= (#[trigger] attempts[i]).seen_at
                <= attempts[0].seen_at + window,
        forall|i: int|
            0 <= i < attempts.len() && (#[trigger] attempts[i]).stored_at is Some
                ==> attempts[i].stored_at->0 >= attempts[i].seen_at,
    ensures
        snapshots_made(window, last, attempts) <= 1,
{
    if attempts.len() > 0 {
        lemma_burst_from(window, last, attempts[0].seen_at, attempts);
    }
}

} // verus!
