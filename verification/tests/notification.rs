use status_relay::decimal::{append_decimal, decimal};
use status_relay::event::{Event, EventType};
use status_relay::notification::{notification_for, relative_time, Field, Notification};

#[test]
fn decimal_writes_every_digit() {
    assert_eq!(decimal(0), "0");
    assert_eq!(decimal(7), "7");
    assert_eq!(decimal(10), "10");
    assert_eq!(decimal(1234567890), "1234567890");
    assert_eq!(decimal(-1), "-1");
    assert_eq!(decimal(-905), "-905");
}

#[test]
fn decimal_reaches_both_ends() {
    assert_eq!(decimal(i64::MAX), "9223372036854775807");
    assert_eq!(decimal(i64::MIN), "-9223372036854775808");
}

#[test]
fn decimal_agrees_with_std() {
    for n in [0i64, 9, 10, 99, 100, 101, 65280, 16711680, -10, -99, 1_672_531_200] {
        assert_eq!(decimal(n), n.to_string());
    }
}

#[test]
fn append_decimal_keeps_what_was_there() {
    let mut text = String::from("n=");
    append_decimal(&mut text, -42);
    assert_eq!(text, "n=-42");
}

#[test]
fn relative_time_wraps_the_seconds() {
    assert_eq!(relative_time(1672531200), "<t:1672531200:R>");
    assert_eq!(relative_time(0), "<t:0:R>");
    assert_eq!(relative_time(-86400), "<t:-86400:R>");
}

#[test]
fn open_event_is_announced_in_red() {
    let event = Event {
        id: "E1".to_string(),
        content: "Servers are down".to_string(),
        event_type: EventType::ServerIssues,
        opened_at: 1672531200,
        resolved_at: None,
    };
    let expected = Notification {
        username: "Escape from Tarkov Status".to_string(),
        title: "Problèmes de serveur".to_string(),
        description: "Les serveurs sont en panne".to_string(),
        thumbnail: "https://www.escapefromtarkov.com/themes/eft/images/logo.png".to_string(),
        url: "https://status.escapefromtarkov.com".to_string(),
        color: "16711680".to_string(),
        fields: vec![
            Field { name: "Depuis".to_string(), value: "<t:1672531200:R>".to_string(), inline: true },
            Field {
                name: "Status".to_string(),
                value: "Hors ligne :negative_squared_cross_mark:".to_string(),
                inline: false,
            },
        ],
    };
    assert_eq!(notification_for(&event, "Les serveurs sont en panne"), expected);
}

#[test]
fn resolved_event_is_announced_in_green() {
    let event = Event {
        id: "E1".to_string(),
        content: "Update".to_string(),
        event_type: EventType::UpdateInstallation,
        opened_at: 1672531200,
        resolved_at: Some(1672534800),
    };
    let expected = Notification {
        username: "Escape from Tarkov Status".to_string(),
        title: "Installation de mise à jour".to_string(),
        description: "Update".to_string(),
        thumbnail: "https://www.escapefromtarkov.com/themes/eft/images/logo.png".to_string(),
        url: "https://status.escapefromtarkov.com".to_string(),
        color: "65280".to_string(),
        fields: vec![
            Field {
                name: "Résolu depuis".to_string(),
                value: "<t:1672534800:R>".to_string(),
                inline: true,
            },
            Field {
                name: "Status".to_string(),
                value: "Résolu :white_check_mark:".to_string(),
                inline: false,
            },
        ],
    };
    assert_eq!(notification_for(&event, "Update"), expected);
}

#[test]
fn unknown_category_is_announced_all_the_same() {
    let event = Event {
        id: "E7".to_string(),
        content: "?".to_string(),
        event_type: EventType::from_code(42),
        opened_at: 5,
        resolved_at: None,
    };
    let notification = notification_for(&event, "?");
    assert_eq!(notification.title, "Inconnu");
    assert_eq!(notification.fields.len(), 2);
    assert_eq!(notification.fields[0].value, "<t:5:R>");
}
