//! The state kept for one heartbeat rule, and the edge-triggered scan that
//! turns overdue and returning heartbeats into notifications.

use vstd::prelude::*;
use crate::time::{elapsed, elapsed_since, exceeds, exceeds_secs, NANOS_PER_SEC};

verus! {

/// What is known about one heartbeat rule: when a matching line was last
/// seen and what it said, and whether a miss has been reported.
#[derive(Debug)]
pub struct HeartbeatState {
    pub last_seen: u64,
    pub last_message: String,
    pub missed_since: Option<u64>,
    pub miss_count: u64,
}

impl Clone for HeartbeatState {
    fn clone(&self) -> (copy: HeartbeatState)
        ensures
            copy == *self,
    {
        HeartbeatState {
            last_seen: self.last_seen,
            last_message: self.last_message.clone(),
            missed_since: self.missed_since,
            miss_count: self.miss_count,
        }
    }
}

/// The mathematical content of a [`HeartbeatState`].
pub struct HeartbeatStateView {
    pub last_seen: u64,
    pub last_message: Seq<char>,
    pub missed_since: Option<u64>,
    pub miss_count: u64,
}

impl View for HeartbeatState {
    type V = HeartbeatStateView;

    open spec fn view(&self) -> HeartbeatStateView {
        HeartbeatStateView {
            last_seen: self.last_seen,
            last_message: self.last_message@,
            missed_since: self.missed_since,
            miss_count: self.miss_count,
        }
    }
}

/// What one scan of one heartbeat found.
#[derive(Debug, Clone, Copy, PartialEq, Eq, Structural)]
pub enum Transition {
    /// The heartbeat is as it was at the last scan: nothing to report.
    Unchanged,
    /// The heartbeat has just become overdue; `elapsed` is the time since
    /// its last line.
    Missed { elapsed: u64 },
    /// The heartbeat is back; `downtime` is the time since the miss was
    /// reported.
    Recovered { downtime: u64 },
}

impl HeartbeatStateView {
    /// The state of a rule at start-up: seen now, nothing missed.
    pub open spec fn fresh(now: u64, message: Seq<char>) -> HeartbeatStateView {
        HeartbeatStateView {
            last_seen: now,
            last_message: message,
            missed_since: None,
            miss_count: 0,
        }
    }

    /// The state after a matching line arrived at `now`.
    pub open spec fn touched(self, message: Seq<char>, now: u64) -> HeartbeatStateView {
        HeartbeatStateView { last_seen: now, last_message: message, ..self }
    }

    /// A miss has been reported and no recovery since.
    pub open spec fn is_missed(self) -> bool {
        self.miss_count > 0
    }

    /// At `now` the last line is older than `tolerance` seconds, strictly.
    pub open spec fn overdue(self, tolerance: u64, now: u64) -> bool {
        exceeds(elapsed(now, self.last_seen), tolerance)
    }

    /// The time since the miss was reported.
    pub open spec fn downtime(self, now: u64) -> u64 {
        match self.missed_since {
            Some(since) => elapsed(now, since),
            None => 0,
        }
    }

    /// What a scan at `now` reports.
    pub open spec fn transition(self, tolerance: u64, now: u64) -> Transition {
        if self.overdue(tolerance, now) && self.miss_count == 0 {
            Transition::Missed { elapsed: elapsed(now, self.last_seen) }
        } else if !self.overdue(tolerance, now) && self.miss_count > 0 {
            Transition::Recovered { downtime: self.downtime(now) }
        } else {
            Transition::Unchanged
        }
    }

    /// The state that a scan at `now` leaves.
    pub open spec fn scanned(self, tolerance: u64, now: u64) -> HeartbeatStateView {
        match self.transition(tolerance, now) {
            Transition::Missed { .. } => HeartbeatStateView {
                missed_since: Some(now),
                miss_count: 1,
                ..self
            },
            Transition::Recovered { .. } => HeartbeatStateView {
                missed_since: None,
                miss_count: 0,
                ..self
            },
            Transition::Unchanged => self,
        }
    }

    /// The miss flag and the miss time agree.
    pub open spec fn consistent(self) -> bool {
        self.miss_count > 0 <==> self.missed_since is Some
    }
}

impl HeartbeatState {
    /// The state of a rule at start-up: last seen at `now`, with `message`
    /// standing in for the last line.
    pub fn new(now: u64, message: String) -> (state: HeartbeatState)
        ensures
            state@ == HeartbeatStateView::fresh(now, message@),
    {
        HeartbeatState { last_seen: now, last_message: message, missed_since: None, miss_count: 0 }
    }

    /// Records a matching line seen at `now`: overwrites the time and the
    /// text of the last line and leaves the miss record alone.
    pub fn touch(&mut self, message: String, now: u64)
        ensures
            final(self)@ == old(self)@.touched(message@, now),
    {
        self.last_seen = now;
        self.last_message = message;
    }

    /// Whether a miss has been reported and no recovery since.
    pub fn is_missed(&self) -> (missed: bool)
        ensures
            missed == self@.is_missed(),
    {
        self.miss_count > 0
    }

    /// One scan at `now` with a tolerance in seconds. A heartbeat that is
    /// overdue and not yet reported becomes missed; one that was missed
    /// and is no longer overdue recovers; otherwise nothing changes and
    /// nothing is reported.
    pub fn scan(&mut self, tolerance: u64, now: u64) -> (found: Transition)
        ensures
            found == old(self)@.transition(tolerance, now),
            final(self)@ == old(self)@.scanned(tolerance, now),
    {
        let since_seen: u64 = elapsed_since(now, self.last_seen);
        let overdue = exceeds_secs(since_seen, tolerance);
        if overdue && self.miss_count == 0 {
            self.missed_since = Some(now);
            self.miss_count = 1;
            Transition::Missed { elapsed: since_seen }
        } else if !overdue && self.miss_count > 0 {
            let downtime: u64 = match self.missed_since {
                Some(since) => elapsed_since(now, since),
                None => 0,
            };
            self.missed_since = None;
            self.miss_count = 0;
            Transition::Recovered { downtime }
        } else {
            Transition::Unchanged
        }
    }
}

/// Something that happens to one heartbeat: a matching line, or a scan.
pub enum Event {
    Line { message: Seq<char>, now: u64 },
    Scan { now: u64 },
}

/// The state after one event.
pub open spec fn step(state: HeartbeatStateView, tolerance: u64, event: Event) -> HeartbeatStateView {
    match event {
        Event::Line { message, now } => state.touched(message, now),
        Event::Scan { now } => state.scanned(tolerance, now),
    }
}

/// What one event reports: a line never reports anything.
pub open spec fn report(state: HeartbeatStateView, tolerance: u64, event: Event) -> Transition {
    match event {
        Event::Line { .. } => Transition::Unchanged,
        Event::Scan { now } => state.transition(tolerance, now),
    }
}

/// The state after a sequence of events.
pub open spec fn state_after(state: HeartbeatStateView, tolerance: u64, events: Seq<Event>) -> HeartbeatStateView
    decreases events.len(),
{
    if events.len() == 0 {
        state
    } else {
        step(state_after(state, tolerance, events.drop_last()), tolerance, events.last())
    }
}

/// The notifications that a sequence of events emits, in order: every
/// report that is not `Unchanged`.
pub open spec fn notifications(state: HeartbeatStateView, tolerance: u64, events: Seq<Event>) -> Seq<Transition>
    decreases events.len(),
{
    if events.len() == 0 {
        Seq::empty()
    } else {
        let before = notifications(state, tolerance, events.drop_last());
        let found = report(
            state_after(state, tolerance, events.drop_last()),
            tolerance,
            events.last(),
        );
        if found == Transition::Unchanged {
            before
        } else {
            before.push(found)
        }
    }
}

/// A matching line resets the elapsed time to zero at that instant, so
/// that a scan at the same instant finds the heartbeat on time whatever
/// the tolerance.
pub proof fn touch_resets_elapsed(state: HeartbeatStateView, message: Seq<char>, now: u64, tolerance: u64)
    ensures
        elapsed(now, state.touched(message, now).last_seen) == 0,
        !state.touched(message, now).overdue(tolerance, now),
        !(state.touched(message, now).transition(tolerance, now) is Missed),
{
    assert(tolerance as int * NANOS_PER_SEC as int >= 0) by (nonlinear_arith);
}

/// The tolerance is exclusive on the missed side: a scan at which the
/// elapsed time equals the tolerance exactly finds the heartbeat on time,
/// reports no miss and leaves it healthy.
pub proof fn boundary_is_healthy(state: HeartbeatStateView, tolerance: u64, now: u64)
    requires
        elapsed(now, state.last_seen) as int == tolerance as int * NANOS_PER_SEC as int,
    ensures
        !state.overdue(tolerance, now),
        !(state.transition(tolerance, now) is Missed),
        !state.scanned(tolerance, now).is_missed(),
{
}

/// A scan reports exactly the transitions: a miss when, and only when, a
/// healthy heartbeat becomes missed with `elapsed > tolerance`; a recovery
/// when, and only when, a missed one becomes healthy; and nothing, with the
/// state untouched, while the heartbeat stays as it was.
pub proof fn scan_is_edge_triggered(state: HeartbeatStateView, tolerance: u64, now: u64)
    ensures
        state.transition(tolerance, now) is Missed <==> !state.is_missed() && state.scanned(
            tolerance,
            now,
        ).is_missed(),
        state.transition(tolerance, now) is Missed <==> !state.is_missed() && state.overdue(
            tolerance,
            now,
        ),
        state.transition(tolerance, now) is Recovered <==> state.is_missed() && !state.scanned(
            tolerance,
            now,
        ).is_missed(),
        state.transition(tolerance, now) is Recovered <==> state.is_missed() && !state.overdue(
            tolerance,
            now,
        ),
        state.transition(tolerance, now) == Transition::Unchanged ==> state.scanned(tolerance, now)
            == state,
        state.consistent() ==> state.scanned(tolerance, now).consistent(),
{
}

/// While a heartbeat stays overdue, or stays on time, every scan after the
/// first is silent: a second scan that classifies the heartbeat as the
/// first did reports nothing and changes nothing.
pub proof fn repeated_scan_is_silent(state: HeartbeatStateView, tolerance: u64, first: u64, second: u64)
    requires
        state.overdue(tolerance, first) == state.overdue(tolerance, second),
    ensures
        state.scanned(tolerance, first).transition(tolerance, second) == Transition::Unchanged,
        state.scanned(tolerance, first).scanned(tolerance, second) == state.scanned(
            tolerance,
            first,
        ),
{
}

/// Over any sequence of lines and scans, misses and recoveries alternate:
/// each notification is the opposite of the one before it, the first is a
/// miss exactly if the heartbeat started healthy, and the last tells the
/// state that is left. So every transition is reported once and no scan
/// in between reports anything.
pub proof fn notifications_alternate(state: HeartbeatStateView, tolerance: u64, events: Seq<Event>)
    ensures
        ({
            let sent = notifications(state, tolerance, events);
            let end = state_after(state, tolerance, events);
            &&& forall|k: int| 0 <= k < sent.len() ==> #[trigger] sent[k] is Missed || sent[k] is Recovered
            &&& forall|k: int, next: int|
                0 <= k && next == k + 1 && next < sent.len() ==> (#[trigger] sent[k] is Missed
                    <==> #[trigger] sent[next] is Recovered)
            &&& sent.len() == 0 ==> end.is_missed() == state.is_missed()
            &&& sent.len() > 0 ==> (sent.first() is Missed <==> !state.is_missed())
            &&& sent.len() > 0 ==> (sent.last() is Missed <==> end.is_missed())
        }),
    decreases events.len(),
{
    if events.len() > 0 {
        let earlier = events.drop_last();
        notifications_alternate(state, tolerance, earlier);
        let before = state_after(state, tolerance, earlier);
        match events.last() {
            Event::Line { message, now } => {},
            Event::Scan { now } => {
                scan_is_edge_triggered(before, tolerance, now);
            },
        }
    }
}

} // verus!
