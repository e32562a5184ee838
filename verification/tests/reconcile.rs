use status_relay::event::{Event, EventType};
use status_relay::tracker::{reconcile, Tracker};

fn open(id: &str) -> Event {
    Event {
        id: id.to_string(),
        content: format!("incident {id}"),
        event_type: EventType::ServerIssues,
        opened_at: 1_700_000_000,
        resolved_at: None,
    }
}

fn resolved(id: &str) -> Event {
    Event { resolved_at: Some(1_700_003_600), ..open(id) }
}

fn baseline(events: Vec<Event>) -> Tracker {
    reconcile(&Tracker::new(), &events).1
}

#[test]
fn new_event_notifies() {
    let (due, state) = reconcile(&Tracker::new(), &vec![open("E1")]);
    assert_eq!(due, vec![open("E1")]);
    assert_eq!(state.len(), 1);
    assert_eq!(state.get(&"E1".to_string()), Some(&open("E1")));
}

#[test]
fn resolved_transition_notifies_once() {
    let (due, state) = reconcile(&baseline(vec![open("E1")]), &vec![resolved("E1")]);
    assert_eq!(due, vec![resolved("E1")]);
    assert_eq!(state.get(&"E1".to_string()), Some(&resolved("E1")));

    let (due, state) = reconcile(&state, &vec![resolved("E1")]);
    assert_eq!(due, Vec::<Event>::new());
    assert_eq!(state.get(&"E1".to_string()), Some(&resolved("E1")));
}

#[test]
fn absent_event_is_evicted() {
    let previous = baseline(vec![open("E1"), resolved("E2")]);
    assert_eq!(previous.len(), 2);
    let (due, state) = reconcile(&previous, &vec![resolved("E2")]);
    assert_eq!(due, Vec::<Event>::new());
    assert_eq!(state.len(), 1);
    assert!(state.contains(&"E2".to_string()));
    assert!(!state.contains(&"E1".to_string()));
    assert_eq!(state.get(&"E1".to_string()), None);
}

#[test]
fn resolved_replay_never_notifies_again() {
    let snapshot = vec![resolved("E1"), open("E2")];
    let mut state = baseline(snapshot.clone());
    for _ in 0..5 {
        let (due, next) = reconcile(&state, &snapshot);
        assert_eq!(due, vec![open("E2")]);
        assert_eq!(next.get(&"E1".to_string()), Some(&resolved("E1")));
        assert_eq!(next.len(), 2);
        state = next;
    }
}

#[test]
fn notifications_keep_snapshot_order() {
    let snapshot = vec![open("E3"), open("E1"), open("E2")];
    let (due, state) = reconcile(&Tracker::new(), &snapshot);
    assert_eq!(due, snapshot);
    assert_eq!(state.len(), 3);
}

#[test]
fn order_is_kept_when_some_events_are_skipped() {
    let previous = baseline(vec![resolved("E1"), open("E4")]);
    let snapshot = vec![open("E3"), resolved("E1"), open("E4"), resolved("E2")];
    let (due, _) = reconcile(&previous, &snapshot);
    assert_eq!(due, vec![open("E3"), open("E4"), resolved("E2")]);
}

#[test]
fn empty_snapshot_evicts_everything() {
    let previous = baseline(vec![open("E1"), resolved("E2")]);
    let (due, state) = reconcile(&previous, &Vec::new());
    assert_eq!(due, Vec::<Event>::new());
    assert!(state.is_empty());
    assert_eq!(state.len(), 0);
}

#[test]
fn open_event_notifies_again_while_open() {
    let previous = baseline(vec![open("E1")]);
    let edited = Event { content: "edited".to_string(), ..open("E1") };
    let (due, state) = reconcile(&previous, &vec![edited.clone()]);
    assert_eq!(due, vec![edited.clone()]);
    assert_eq!(state.get(&"E1".to_string()), Some(&edited));

    let (due, _) = reconcile(&state, &vec![edited.clone()]);
    assert_eq!(due, vec![edited]);
}

#[test]
fn baseline_is_replaced_by_the_snapshot() {
    let previous = baseline(vec![resolved("E1")]);
    let (due, state) = reconcile(&previous, &vec![open("E1")]);
    assert_eq!(due, Vec::<Event>::new());
    assert_eq!(state.get(&"E1".to_string()), Some(&open("E1")));

    let (due, _) = reconcile(&state, &vec![open("E1")]);
    assert_eq!(due, vec![open("E1")]);
}

#[test]
fn last_record_of_a_repeated_id_is_kept() {
    let (due, state) = reconcile(&Tracker::new(), &vec![open("E1"), open("E2"), resolved("E1")]);
    assert_eq!(due, vec![open("E1"), open("E2"), resolved("E1")]);
    assert_eq!(state.len(), 2);
    assert_eq!(state.get(&"E1".to_string()), Some(&resolved("E1")));
    assert_eq!(state.get(&"E2".to_string()), Some(&open("E2")));
}

#[test]
fn fresh_tracker_is_empty() {
    let tracker = Tracker::new();
    assert!(tracker.is_empty());
    assert_eq!(tracker.len(), 0);
    assert!(!tracker.contains(&"E1".to_string()));
    assert_eq!(tracker.get(&"E1".to_string()), None);
}

#[test]
fn cloned_event_equals_its_source() {
    let event = resolved("E9");
    assert_eq!(event.clone(), event);
    assert!(event.is_resolved());
    assert!(!open("E9").is_resolved());
}
