//! The heartbeat tracker: one [`HeartbeatState`] per heartbeat rule, kept
//! in a `DashMap` keyed by the rule's index.
//!
//! Every change goes through `&mut self`, so between two calls nothing else
//! can touch the map and each call finds what the last one left. Whoever
//! shares a tracker between threads decides how access is serialised.

use vstd::prelude::*;
use dashmap::DashMap;
use crate::heartbeat::{HeartbeatState, HeartbeatStateView, Transition};

verus! {

/// The concurrent hash map of the `dashmap` crate. Its contents are opaque
/// here; the functions that call it say what each call does to them. They
/// take the map by `&mut` where the call changes it, so that no borrowed
/// entry is alive during the call and no other holder changes the map.
#[verifier::external_type_specification]
#[verifier::external_body]
#[verifier::reject_recursive_types(K)]
#[verifier::reject_recursive_types(V)]
#[verifier::reject_recursive_types(S)]
pub struct ExDashMap<K, V, S>(DashMap<K, V, S>);

/// The entries that a map of heartbeat states holds, each state by its view.
pub uninterp spec fn heartbeat_entries(states: DashMap<usize, HeartbeatState>) -> Map<usize, HeartbeatStateView>;

/// `DashMap::new`: a map without entries.
#[verifier::external_body]
fn states_new() -> (states: DashMap<usize, HeartbeatState>)
    ensures
        forall|index: usize| !heartbeat_entries(states).contains_key(index),
{
    DashMap::new()
}

/// `DashMap::insert`: afterwards `index` maps to `state`, whether or not
/// it had an entry, and every other entry is as before.
#[verifier::external_body]
fn states_insert(states: &mut DashMap<usize, HeartbeatState>, index: usize, state: HeartbeatState)
    ensures
        heartbeat_entries(*final(states)) == heartbeat_entries(*old(states)).insert(index, state@),
{
    states.insert(index, state);
}

/// `DashMap::get`, with the entry copied out: the state stored under
/// `index`, or `None` where there is no such entry.
#[verifier::external_body]
fn states_get(states: &DashMap<usize, HeartbeatState>, index: usize) -> (found: Option<HeartbeatState>)
    ensures
        match found {
            Some(state) => heartbeat_entries(*states).contains_key(index) && state@
                == heartbeat_entries(*states)[index],
            None => !heartbeat_entries(*states).contains_key(index),
        },
{
    states.get(&index).map(|entry| entry.value().clone())
}

/// The states of all heartbeat rules, by rule index.
pub struct HeartbeatTracker {
    states: DashMap<usize, HeartbeatState>,
    count: usize,
}

impl View for HeartbeatTracker {
    type V = Seq<HeartbeatStateView>;

    /// The state of each rule, in rule order.
    closed spec fn view(&self) -> Seq<HeartbeatStateView> {
        Seq::new(self.count as nat, |i: int| heartbeat_entries(self.states)[i as usize])
    }
}

/// What a snapshot of `states` holds: for every rule, in rule order, its
/// index, the time of its last line and that line's text.
pub open spec fn snapshot_of(states: Seq<HeartbeatStateView>) -> Seq<(usize, u64, Seq<char>)> {
    Seq::new(states.len(), |i: int| (i as usize, states[i].last_seen, states[i].last_message))
}

/// The mathematical content of a snapshot.
pub open spec fn snapshot_view(entries: Seq<(usize, u64, String)>) -> Seq<(usize, u64, Seq<char>)> {
    Seq::new(entries.len(), |i: int| (entries[i].0, entries[i].1, entries[i].2@))
}

impl HeartbeatTracker {
    /// The tracker is well formed: it holds a state for every rule and
    /// for nothing else. Every constructor establishes this and every
    /// method keeps it.
    pub closed spec fn wf(&self) -> bool {
        forall|i: usize| heartbeat_entries(self.states).contains_key(i) <==> i < self.count
    }

    /// A tracker for `messages.len()` rules, each last seen at `now` with
    /// its entry of `messages` standing in for the last line.
    pub fn new(messages: &[String], now: u64) -> (tracker: HeartbeatTracker)
        ensures
            tracker.wf(),
            tracker@ == Seq::new(
                messages@.len(),
                |i: int| HeartbeatStateView::fresh(now, messages@[i]@),
            ),
    {
        let mut states = states_new();
        let mut i: usize = 0;
        while i < messages.len()
            invariant
                i <= messages@.len(),
                forall|k: usize| heartbeat_entries(states).contains_key(k) <==> k < i,
                forall|k: usize|
                    k < i ==> #[trigger] heartbeat_entries(states)[k] == HeartbeatStateView::fresh(
                        now,
                        messages@[k as int]@,
                    ),
            decreases messages@.len() - i,
        {
            states_insert(&mut states, i, HeartbeatState::new(now, messages[i].clone()));
            i += 1;
        }
        let tracker = HeartbeatTracker { states, count: i };
        assert(tracker@ =~= Seq::new(
            messages@.len(),
            |i: int| HeartbeatStateView::fresh(now, messages@[i]@),
        ));
        tracker
    }

    /// The number of rules tracked.
    pub fn len(&self) -> (n: usize)
        ensures
            n == self@.len(),
    {
        self.count
    }

    /// The state of rule `index`, or `None` where there is no such rule.
    pub fn get(&self, index: usize) -> (found: Option<HeartbeatState>)
        requires
            self.wf(),
        ensures
            index < self@.len() ==> (found matches Some(state) && state@ == self@[index as int]),
            index >= self@.len() ==> found is None,
    {
        states_get(&self.states, index)
    }

    /// Records that a line matching rule `index` was seen at `now`:
    /// overwrites the time and text of that rule's last line, whatever they
    /// were, and touches nothing else. For an index without a rule nothing
    /// changes and the result is `false`.
    pub fn touch(&mut self, index: usize, message: String, now: u64) -> (known: bool)
        requires
            old(self).wf(),
        ensures
            final(self).wf(),
            known == (index < old(self)@.len()),
            known ==> final(self)@ == old(self)@.update(
                index as int,
                old(self)@[index as int].touched(message@, now),
            ),
            !known ==> final(self)@ == old(self)@,
    {
        match states_get(&self.states, index) {
            Some(mut state) => {
                state.touch(message, now);
                states_insert(&mut self.states, index, state);
                assert(final(self)@ =~= old(self)@.update(
                    index as int,
                    old(self)@[index as int].touched(message@, now),
                ));
                true
            },
            None => false,
        }
    }

    /// Scans rule `index` at `now` with a tolerance in seconds, and stores
    /// the state that the scan leaves. For an index without a rule nothing
    /// changes and the result is `Unchanged`.
    pub fn scan(&mut self, index: usize, tolerance: u64, now: u64) -> (found: Transition)
        requires
            old(self).wf(),
        ensures
            final(self).wf(),
            index < old(self)@.len() ==> found == old(self)@[index as int].transition(tolerance, now)
                && final(self)@ == old(self)@.update(
                index as int,
                old(self)@[index as int].scanned(tolerance, now),
            ),
            index >= old(self)@.len() ==> found == Transition::Unchanged && final(self)@ == old(
                self,
            )@,
    {
        match states_get(&self.states, index) {
            Some(mut state) => {
                let found = state.scan(tolerance, now);
                states_insert(&mut self.states, index, state);
                assert(final(self)@ =~= old(self)@.update(
                    index as int,
                    old(self)@[index as int].scanned(tolerance, now),
                ));
                found
            },
            None => Transition::Unchanged,
        }
    }

    /// For every rule, in rule order: its index, the time of its last line
    /// and that line's text. Each entry is read whole.
    pub fn snapshot(&self) -> (entries: Vec<(usize, u64, String)>)
        requires
            self.wf(),
        ensures
            snapshot_view(entries@) == snapshot_of(self@),
    {
        let mut entries: Vec<(usize, u64, String)> = Vec::new();
        let mut i: usize = 0;
        while i < self.count
            invariant
                i <= self.count,
                entries@.len() == i,
                forall|k: usize| heartbeat_entries(self.states).contains_key(k) <==> k < self.count,
                forall|k: int|
                    0 <= k < i ==> (#[trigger] entries@[k]).0 == k && entries@[k].1
                        == self@[k].last_seen && entries@[k].2@ == self@[k].last_message,
            decreases self.count - i,
        {
            match states_get(&self.states, i) {
                Some(state) => {
                    entries.push((i, state.last_seen, state.last_message));
                },
                None => {
                    assert(false);
                },
            }
            i += 1;
        }
        assert(snapshot_view(entries@) =~= snapshot_of(self@));
        entries
    }
}

} // verus!
