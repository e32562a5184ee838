use status_relay::event::{Event, EventType};
use status_relay::record::{
    assemble, event_from_record, snapshot_from_records, EventRecord, RecordError, STATUS_LIST_URL,
};

fn record(id: &str, code: u32, time: &str, solve_time: Option<&str>) -> EventRecord {
    EventRecord {
        id: id.to_string(),
        content: format!("incident {id}"),
        event_type: code,
        time: time.to_string(),
        solve_time: solve_time.map(|text| text.to_string()),
    }
}

#[test]
fn open_record_decodes() {
    let decoded = event_from_record(&record("E1", 2, "2023-01-01T00:00:00Z", None));
    assert_eq!(
        decoded,
        Ok(Event {
            id: "E1".to_string(),
            content: "incident E1".to_string(),
            event_type: EventType::ServerIssues,
            opened_at: 1672531200,
            resolved_at: None,
        })
    );
}

#[test]
fn resolved_record_decodes() {
    let decoded = event_from_record(&record(
        "E2",
        1,
        "2023-01-01T00:00:00.000Z",
        Some("2023-06-15T12:30:45.123+02:00"),
    ));
    assert_eq!(
        decoded,
        Ok(Event {
            id: "E2".to_string(),
            content: "incident E2".to_string(),
            event_type: EventType::UpdateInstallation,
            opened_at: 1672531200,
            resolved_at: Some(1686825045),
        })
    );
}

#[test]
fn moments_before_the_epoch_are_negative() {
    let decoded = event_from_record(&record("E3", 1, "1969-12-31T23:59:59Z", None)).unwrap();
    assert_eq!(decoded.opened_at, -1);
    let decoded = event_from_record(&record("E3", 1, "1970-01-01 00:00:00+00:00", None)).unwrap();
    assert_eq!(decoded.opened_at, 0);
}

#[test]
fn unknown_code_is_no_error() {
    let decoded = event_from_record(&record("E4", 77, "2023-01-01T00:00:00Z", None)).unwrap();
    assert_eq!(decoded.event_type, EventType::Unknown);
    let decoded = event_from_record(&record("E4", 0, "2023-01-01T00:00:00Z", None)).unwrap();
    assert_eq!(decoded.event_type, EventType::Unknown);
}

#[test]
fn unreadable_open_time_is_refused() {
    let decoded = event_from_record(&record("E5", 1, "yesterday", None));
    assert_eq!(decoded, Err(RecordError::OpenTime));
    let decoded = event_from_record(&record("E5", 1, "", Some("2023-01-01T00:00:00Z")));
    assert_eq!(decoded, Err(RecordError::OpenTime));
}

#[test]
fn unreadable_resolve_time_is_refused() {
    let decoded = event_from_record(&record("E6", 1, "2023-01-01T00:00:00Z", Some("2023-13-01")));
    assert_eq!(decoded, Err(RecordError::ResolveTime));
}

#[test]
fn open_time_is_looked_at_first() {
    let decoded = event_from_record(&record("E6", 1, "soon", Some("later")));
    assert_eq!(decoded, Err(RecordError::OpenTime));
}

#[test]
fn assemble_follows_what_was_read() {
    let source = record("E7", 2, "ignored", Some("ignored"));
    assert_eq!(assemble(&source, None, None), Err(RecordError::OpenTime));
    assert_eq!(assemble(&source, None, Some(Some(3))), Err(RecordError::OpenTime));
    assert_eq!(assemble(&source, Some(1), Some(None)), Err(RecordError::ResolveTime));
    let open = assemble(&source, Some(1), None).unwrap();
    assert_eq!((open.opened_at, open.resolved_at), (1, None));
    let resolved = assemble(&source, Some(1), Some(Some(3))).unwrap();
    assert_eq!((resolved.opened_at, resolved.resolved_at), (1, Some(3)));
    assert_eq!(resolved.id, "E7");
    assert_eq!(resolved.content, "incident E7");
    assert_eq!(resolved.event_type, EventType::ServerIssues);
}

#[test]
fn snapshot_keeps_the_order_of_the_records() {
    let records = vec![
        record("E3", 1, "2023-01-01T00:00:02Z", None),
        record("E1", 2, "2023-01-01T00:00:00Z", Some("2023-01-01T00:00:01Z")),
        record("E2", 9, "2023-01-01T00:00:01Z", None),
    ];
    let snapshot = snapshot_from_records(&records).unwrap();
    let ids: Vec<&str> = snapshot.iter().map(|event| event.id.as_str()).collect();
    assert_eq!(ids, vec!["E3", "E1", "E2"]);
    assert_eq!(snapshot[0].opened_at, 1672531202);
    assert_eq!(snapshot[1].resolved_at, Some(1672531201));
    assert_eq!(snapshot[2].event_type, EventType::Unknown);
}

#[test]
fn snapshot_fails_with_its_first_bad_record() {
    let records = vec![
        record("E1", 1, "2023-01-01T00:00:00Z", None),
        record("E2", 1, "2023-01-01T00:00:00Z", Some("never")),
        record("E3", 1, "never", None),
    ];
    assert_eq!(snapshot_from_records(&records), Err(RecordError::ResolveTime));
    assert_eq!(snapshot_from_records(&Vec::new()), Ok(Vec::new()));
}

#[test]
fn status_list_has_its_address() {
    assert_eq!(STATUS_LIST_URL, "https://status.escapefromtarkov.com/api/message/list");
}

#[test]
fn relaxed_notation_is_read() {
    let decoded = event_from_record(&record("E8", 1, "2023-01-01t00:00:00UTC", None)).unwrap();
    assert_eq!(decoded.opened_at, 1672531200);
    let decoded = event_from_record(&record("E8", 1, "2023-01-01 01:00:00 +0100", None)).unwrap();
    assert_eq!(decoded.opened_at, 1672531200);
}
