use journal_alerts::heartbeat::{HeartbeatState, Transition};
use journal_alerts::tracker::HeartbeatTracker;

const SEC: u64 = 1_000_000_000;

#[test]
fn fresh_state_is_healthy() {
    let state = HeartbeatState::new(5, "ping".to_string());
    assert_eq!(state.last_seen, 5);
    assert_eq!(state.last_message, "ping");
    assert_eq!(state.missed_since, None);
    assert_eq!(state.miss_count, 0);
    assert!(!state.is_missed());
}

#[test]
fn touch_resets_the_elapsed_time() {
    let mut state = HeartbeatState::new(0, "ping".to_string());
    assert_eq!(state.scan(60, 100 * SEC), Transition::Missed { elapsed: 100 * SEC });
    state.touch("HB ping 1".to_string(), 100 * SEC);
    assert_eq!(state.last_seen, 100 * SEC);
    assert_eq!(state.last_message, "HB ping 1");
    assert!(state.is_missed());
    assert_eq!(state.scan(0, 100 * SEC), Transition::Recovered { downtime: 0 });
    assert_eq!(state.scan(0, 100 * SEC), Transition::Unchanged);
}

#[test]
fn boundary_counts_as_healthy() {
    let mut state = HeartbeatState::new(7, "ping".to_string());
    assert_eq!(state.scan(60, 7 + 60 * SEC), Transition::Unchanged);
    assert!(!state.is_missed());
    assert_eq!(state.scan(60, 7 + 60 * SEC + 1), Transition::Missed { elapsed: 60 * SEC + 1 });
    assert!(state.is_missed());
    assert_eq!(state.missed_since, Some(7 + 60 * SEC + 1));
    assert_eq!(state.miss_count, 1);
}

#[test]
fn one_notification_per_transition() {
    let mut state = HeartbeatState::new(0, "ping".to_string());
    let mut found = Vec::new();
    for tick in 1..=10u64 {
        found.push(state.scan(60, tick * 30 * SEC));
    }
    state.touch("ping".to_string(), 310 * SEC);
    for tick in 11..=14u64 {
        found.push(state.scan(60, tick * 30 * SEC));
    }
    let sent: Vec<Transition> =
        found.iter().copied().filter(|t| *t != Transition::Unchanged).collect();
    assert_eq!(
        sent,
        vec![
            Transition::Missed { elapsed: 90 * SEC },
            Transition::Recovered { downtime: 240 * SEC },
            Transition::Missed { elapsed: 80 * SEC },
        ]
    );
    assert_eq!(found[0], Transition::Unchanged);
    assert_eq!(found[1], Transition::Unchanged);
    assert_eq!(found[2], Transition::Missed { elapsed: 90 * SEC });
    assert_eq!(found[3], Transition::Unchanged);
    assert_eq!(found[9], Transition::Unchanged);
    assert_eq!(found[10], Transition::Recovered { downtime: 240 * SEC });
    assert_eq!(found[11], Transition::Unchanged);
    assert_eq!(found[12], Transition::Missed { elapsed: 80 * SEC });
    assert_eq!(found[13], Transition::Unchanged);
}

#[test]
fn missed_after_61_seconds_then_recovered() {
    let mut state = HeartbeatState::new(0, "ping".to_string());
    assert_eq!(state.scan(60, 61 * SEC), Transition::Missed { elapsed: 61 * SEC });
    assert_eq!(state.scan(60, 90 * SEC), Transition::Unchanged);
    state.touch("ping".to_string(), 125 * SEC);
    assert_eq!(state.scan(60, 125 * SEC), Transition::Recovered { downtime: 64 * SEC });
    assert_eq!(state.scan(60, 126 * SEC), Transition::Unchanged);
    assert!(!state.is_missed());
    assert_eq!(state.missed_since, None);
    assert_eq!(state.miss_count, 0);
}

#[test]
fn clock_that_runs_behind_counts_as_no_time() {
    let mut state = HeartbeatState::new(100 * SEC, "ping".to_string());
    assert_eq!(state.scan(0, 50 * SEC), Transition::Unchanged);
    state.missed_since = Some(200 * SEC);
    state.miss_count = 1;
    assert_eq!(state.scan(0, 50 * SEC), Transition::Recovered { downtime: 0 });
}

#[test]
fn tracker_starts_with_every_rule_seen_now() {
    let tracker = HeartbeatTracker::new(&["a".to_string(), "b".to_string()], 9);
    assert_eq!(tracker.len(), 2);
    assert_eq!(
        tracker.snapshot(),
        vec![(0, 9, "a".to_string()), (1, 9, "b".to_string())]
    );
    assert!(tracker.get(2).is_none());
    let state = tracker.get(1).unwrap();
    assert_eq!(state.last_seen, 9);
    assert_eq!(state.last_message, "b");
    assert_eq!(state.miss_count, 0);
}

#[test]
fn tracker_touch_overwrites_one_entry() {
    let mut tracker =
        HeartbeatTracker::new(&["a".to_string(), "b".to_string(), "c".to_string()], 0);
    assert!(tracker.touch(1, "line".to_string(), 5));
    assert!(tracker.touch(1, "later".to_string(), 8));
    assert!(!tracker.touch(3, "none".to_string(), 8));
    assert_eq!(
        tracker.snapshot(),
        vec![(0, 0, "a".to_string()), (1, 8, "later".to_string()), (2, 0, "c".to_string())]
    );
    assert_eq!(tracker.len(), 3);
}

#[test]
fn tracker_scan_stores_the_state() {
    let mut tracker = HeartbeatTracker::new(&["a".to_string(), "b".to_string()], 0);
    assert_eq!(tracker.scan(0, 1, 2 * SEC), Transition::Missed { elapsed: 2 * SEC });
    assert_eq!(tracker.scan(0, 1, 3 * SEC), Transition::Unchanged);
    assert_eq!(tracker.scan(1, 5, 3 * SEC), Transition::Unchanged);
    assert_eq!(tracker.scan(2, 0, 3 * SEC), Transition::Unchanged);
    let state = tracker.get(0).unwrap();
    assert_eq!(state.miss_count, 1);
    assert_eq!(state.missed_since, Some(2 * SEC));
    assert!(tracker.touch(0, "a".to_string(), 4 * SEC));
    assert_eq!(tracker.get(0).unwrap().miss_count, 1);
    assert_eq!(tracker.scan(0, 1, 5 * SEC), Transition::Recovered { downtime: 3 * SEC });
    assert_eq!(tracker.get(0).unwrap().miss_count, 0);
    assert_eq!(tracker.get(1).unwrap().miss_count, 0);
}

#[test]
fn touching_many_rules_leaves_whole_entries() {
    let names: Vec<String> = (0..50).map(|i| format!("rule{i}")).collect();
    let mut tracker = HeartbeatTracker::new(&names, 1);
    for i in 0..50usize {
        if i % 2 == 0 {
            assert!(tracker.touch(i, format!("line{i}"), 100 + i as u64));
        }
        let seen = tracker.snapshot();
        assert_eq!(seen.len(), 50);
        for (k, (index, last_seen, text)) in seen.iter().enumerate() {
            assert_eq!(*index, k);
            if k % 2 == 0 && k <= i {
                assert_eq!((*last_seen, text.as_str()), (100 + k as u64, format!("line{k}").as_str()));
            } else {
                assert_eq!((*last_seen, text.as_str()), (1, format!("rule{k}").as_str()));
            }
        }
    }
}
