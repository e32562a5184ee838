//! Status events and their categories.

use vstd::prelude::*;

verus! {

/// The category of a status event.
#[derive(Clone, Copy, Debug, PartialEq, Eq, Structural)]
pub enum EventType {
    /// Any category this library does not know.
    Unknown,
    /// An update is being installed.
    UpdateInstallation,
    /// The servers are having trouble.
    ServerIssues,
}

impl EventType {
    /// The category that a numeric code of the status source stands for.
    /// Codes without a category of their own fall back to `Unknown`.
    pub open spec fn of_code(code: u32) -> EventType {
        if code == 1 {
            EventType::UpdateInstallation
        } else if code == 2 {
            EventType::ServerIssues
        } else {
            EventType::Unknown
        }
    }

    /// The text shown as the title of a notification about this category.
    pub open spec fn label_text(self) -> Seq<char> {
        match self {
            EventType::UpdateInstallation => "Installation de mise à jour"@,
            EventType::ServerIssues => "Problèmes de serveur"@,
            EventType::Unknown => "Inconnu"@,
        }
    }

    /// Decodes a numeric category code. Every code is accepted.
    pub fn from_code(code: u32) -> (kind: EventType)
        ensures
            kind == Self::of_code(code),
    {
        if code == 1 {
            EventType::UpdateInstallation
        } else if code == 2 {
            EventType::ServerIssues
        } else {
            EventType::Unknown
        }
    }

    /// The title of a notification about this category.
    pub fn label(&self) -> (text: String)
        ensures
            text@ == self.label_text(),
    {
        match self {
            EventType::UpdateInstallation => "Installation de mise à jour".to_owned(),
            EventType::ServerIssues => "Problèmes de serveur".to_owned(),
            EventType::Unknown => "Inconnu".to_owned(),
        }
    }
}

/// One status incident reported by the status source.
#[derive(Debug, PartialEq, Eq)]
pub struct Event {
    /// Identifier of the incident, the same in every poll that reports it.
    pub id: String,
    /// Description of the incident, in the language of the source.
    pub content: String,
    /// Category of the incident.
    pub event_type: EventType,
    /// When the incident began, in seconds since the Unix epoch.
    pub opened_at: i64,
    /// When the incident was resolved, in seconds since the Unix epoch.
    /// `None` while it is still open.
    pub resolved_at: Option<i64>,
}

/// What an [`Event`] holds, as mathematical values.
pub struct EventView {
    pub id: Seq<char>,
    pub content: Seq<char>,
    pub event_type: EventType,
    pub opened_at: i64,
    pub resolved_at: Option<i64>,
}

impl EventView {
    /// Whether the incident has been resolved.
    pub open spec fn is_resolved(self) -> bool {
        self.resolved_at is Some
    }
}

impl View for Event {
    type V = EventView;

    open spec fn view(&self) -> EventView {
        EventView {
            id: self.id@,
            content: self.content@,
            event_type: self.event_type,
            opened_at: self.opened_at,
            resolved_at: self.resolved_at,
        }
    }
}

impl Clone for Event {
    fn clone(&self) -> (copy: Event)
        ensures
            copy == *self,
    {
        Event {
            id: self.id.clone(),
            content: self.content.clone(),
            event_type: self.event_type,
            opened_at: self.opened_at,
            resolved_at: self.resolved_at,
        }
    }
}

impl Event {
    /// Whether the incident has been resolved.
    pub fn is_resolved(&self) -> (resolved: bool)
        ensures
            resolved == self@.is_resolved(),
    {
        self.resolved_at.is_some()
    }
}

/// The mathematical values of a sequence of events, in the same order.
pub open spec fn views(events: Seq<Event>) -> Seq<EventView> {
    Seq::new(events.len(), |i: int| events[i]@)
}

} // verus!
