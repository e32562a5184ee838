//! The message that announces an event.

use crate::decimal::{append_decimal, decimal_text};
use crate::event::{Event, EventView};
use vstd::prelude::*;
use vstd::string::StringExecFns;

verus! {

/// A labelled line of a notification.
#[derive(Debug, PartialEq, Eq)]
pub struct Field {
    pub name: String,
    pub value: String,
    /// Whether the field may share a row with its neighbours.
    pub inline: bool,
}

/// What a [`Field`] holds, as mathematical values.
pub struct FieldView {
    pub name: Seq<char>,
    pub value: Seq<char>,
    pub inline: bool,
}

impl View for Field {
    type V = FieldView;

    open spec fn view(&self) -> FieldView {
        FieldView { name: self.name@, value: self.value@, inline: self.inline }
    }
}

/// A message for the chat webhook: a sender name and one rich block.
#[derive(Debug, PartialEq, Eq)]
pub struct Notification {
    /// Name under which the message is posted.
    pub username: String,
    pub title: String,
    pub description: String,
    /// Address of the picture shown beside the title.
    pub thumbnail: String,
    /// Address that the title links to.
    pub url: String,
    /// Colour of the block, as a decimal RGB number.
    pub color: String,
    pub fields: Vec<Field>,
}

/// What a [`Notification`] holds, as mathematical values.
pub struct NotificationView {
    pub username: Seq<char>,
    pub title: Seq<char>,
    pub description: Seq<char>,
    pub thumbnail: Seq<char>,
    pub url: Seq<char>,
    pub color: Seq<char>,
    pub fields: Seq<FieldView>,
}

impl View for Notification {
    type V = NotificationView;

    open spec fn view(&self) -> NotificationView {
        NotificationView {
            username: self.username@,
            title: self.title@,
            description: self.description@,
            thumbnail: self.thumbnail@,
            url: self.url@,
            color: self.color@,
            fields: Seq::new(self.fields@.len(), |i: int| self.fields@[i]@),
        }
    }
}

/// A moment written so that the chat client shows it relative to now:
/// `<t:SECONDS:R>`, with the seconds since the Unix epoch in decimal.
pub open spec fn relative_time_text(seconds: i64) -> Seq<char> {
    "<t:"@ + decimal_text(seconds as int) + ":R>"@
}

/// The field that says since when an event has been in its present state: since
/// its resolution where it is resolved, since its opening otherwise.
pub open spec fn since_field(event: EventView) -> FieldView {
    match event.resolved_at {
        Some(resolved_at) => FieldView {
            name: "Résolu depuis"@,
            value: relative_time_text(resolved_at),
            inline: true,
        },
        None => FieldView {
            name: "Depuis"@,
            value: relative_time_text(event.opened_at),
            inline: true,
        },
    }
}

/// The field that says whether an event is resolved.
pub open spec fn status_field(event: EventView) -> FieldView {
    FieldView {
        name: "Status"@,
        value: if event.is_resolved() {
            "Résolu :white_check_mark:"@
        } else {
            "Hors ligne :negative_squared_cross_mark:"@
        },
        inline: false,
    }
}

/// The notification that announces `event` with the description `body`.
///
/// The title is the label of the event's category. Sender name, thumbnail and
/// link are the same for every event. A resolved event is shown in green, an
/// open one in red.
pub open spec fn rendering(event: EventView, body: Seq<char>) -> NotificationView {
    NotificationView {
        username: "Escape from Tarkov Status"@,
        title: event.event_type.label_text(),
        description: body,
        thumbnail: "https://www.escapefromtarkov.com/themes/eft/images/logo.png"@,
        url: "https://status.escapefromtarkov.com"@,
        color: if event.is_resolved() {
            "65280"@
        } else {
            "16711680"@
        },
        fields: seq![since_field(event), status_field(event)],
    }
}

/// Writes a moment so that the chat client shows it relative to now.
pub fn relative_time(seconds: i64) -> (text: String)
    ensures
        text@ == relative_time_text(seconds),
{
    let mut text = "<t:".to_owned();
    append_decimal(&mut text, seconds);
    text.append(":R>");
    text
}

/// Renders the notification that announces `event`, with `body` as its
/// description.
pub fn notification_for(event: &Event, body: &str) -> (notification: Notification)
    ensures
        notification@ == rendering(event@, body@),
{
    let since = match event.resolved_at {
        Some(resolved_at) => Field {
            name: "Résolu depuis".to_owned(),
            value: relative_time(resolved_at),
            inline: true,
        },
        None => Field {
            name: "Depuis".to_owned(),
            value: relative_time(event.opened_at),
            inline: true,
        },
    };
    let status = Field {
        name: "Status".to_owned(),
        value: if event.resolved_at.is_some() {
            "Résolu :white_check_mark:".to_owned()
        } else {
            "Hors ligne :negative_squared_cross_mark:".to_owned()
        },
        inline: false,
    };
    let mut fields: Vec<Field> = Vec::new();
    fields.push(since);
    fields.push(status);
    let notification = Notification {
        username: "Escape from Tarkov Status".to_owned(),
        title: event.event_type.label(),
        description: body.to_owned(),
        thumbnail: "https://www.escapefromtarkov.com/themes/eft/images/logo.png".to_owned(),
        url: "https://status.escapefromtarkov.com".to_owned(),
        color: if event.resolved_at.is_some() {
            "65280".to_owned()
        } else {
            "16711680".to_owned()
        },
        fields,
    };
    assert(notification@.fields =~= seq![since_field(event@), status_field(event@)]);
    notification
}

} // verus!
