//! The sequence of steps that one poll goes through.
//!
//! The loop itself does no outside work. It is told what happened (the timer
//! fired, the status source answered, the translation service answered, the
//! webhook took a message) and says what is to be done next. Whoever drives it
//! performs that action and comes back with its outcome.

use crate::event::{views, Event, EventView};
use crate::notification::{notification_for, rendering, Notification, NotificationView};
use crate::tracker::{due_events, index_by_id, reconcile, Tracker};
use crate::translation::{texts, translated_text, text_to_show};
use vstd::prelude::*;

verus! {

/// The time from one poll to the next, in seconds.
pub const POLL_PERIOD_SECONDS: u64 = 30;

/// What the loop is waiting for.
#[derive(Clone, Copy, Debug, PartialEq, Eq, Structural)]
pub enum Stage {
    /// The next tick of the timer.
    Idle,
    /// The answer of the status source.
    Fetching,
    /// The answer of the translation service for the event at hand.
    Translating,
    /// The delivery of the notification for the event at hand.
    Sending,
}

/// Something that happened outside the loop.
#[derive(Debug, PartialEq, Eq)]
pub enum Input {
    /// The timer fired.
    Tick,
    /// The status source answered with a snapshot, or the call failed (`None`).
    Fetched(Option<Vec<Event>>),
    /// The translation service answered with a list of translations, or the
    /// call failed (`None`).
    Translated(Option<Vec<String>>),
    /// The notification was handed to the webhook; the flag says whether the
    /// webhook took it.
    Delivered(bool),
}

/// What an [`Input`] holds, as mathematical values.
pub enum InputView {
    Tick,
    Fetched(Option<Seq<EventView>>),
    Translated(Option<Seq<Seq<char>>>),
    Delivered(bool),
}

impl View for Input {
    type V = InputView;

    open spec fn view(&self) -> InputView {
        match *self {
            Input::Tick => InputView::Tick,
            Input::Fetched(Some(snapshot)) => InputView::Fetched(Some(views(snapshot@))),
            Input::Fetched(None) => InputView::Fetched(None),
            Input::Translated(Some(translations)) => InputView::Translated(
                Some(texts(translations@)),
            ),
            Input::Translated(None) => InputView::Translated(None),
            Input::Delivered(taken) => InputView::Delivered(taken),
        }
    }
}

/// What is to be done next.
#[derive(Debug, PartialEq, Eq)]
pub enum Action {
    /// Wait for the next tick of the timer.
    AwaitTick,
    /// Ask the status source for its list of events.
    Fetch,
    /// Ask the translation service for this text.
    Translate(String),
    /// Hand this notification to the webhook.
    Send(Notification),
}

/// What an [`Action`] holds, as mathematical values.
pub enum ActionView {
    AwaitTick,
    Fetch,
    Translate(Seq<char>),
    Send(NotificationView),
}

impl View for Action {
    type V = ActionView;

    open spec fn view(&self) -> ActionView {
        match *self {
            Action::AwaitTick => ActionView::AwaitTick,
            Action::Fetch => ActionView::Fetch,
            Action::Translate(text) => ActionView::Translate(text@),
            Action::Send(notification) => ActionView::Send(notification@),
        }
    }
}

/// The state of a poll loop, as mathematical values.
pub struct PollLoopView {
    pub stage: Stage,
    /// Whether descriptions are translated before they are sent.
    pub translate: bool,
    /// The events seen in the last poll that was completed.
    pub baseline: Map<Seq<char>, EventView>,
    /// The events seen in the poll under way: the baseline to be.
    pub staged: Map<Seq<char>, EventView>,
    /// The events to notify in the poll under way, in snapshot order.
    pub queue: Seq<EventView>,
    /// How many events of the queue have been dealt with.
    pub position: nat,
}

impl PollLoopView {
    /// The state between two polls, with `baseline` as what was last seen.
    pub open spec fn at_rest(translate: bool, baseline: Map<Seq<char>, EventView>) -> PollLoopView {
        PollLoopView {
            stage: Stage::Idle,
            translate,
            baseline,
            staged: Map::empty(),
            queue: Seq::empty(),
            position: 0,
        }
    }

    /// Whether the state is one that a poll loop can be in.
    pub open spec fn well_formed(self) -> bool {
        &&& self.position <= self.queue.len()
        &&& (self.stage == Stage::Translating || self.stage == Stage::Sending) ==> self.position
            < self.queue.len()
        &&& self.stage == Stage::Translating ==> self.translate
        &&& (self.stage == Stage::Idle || self.stage == Stage::Fetching) ==> {
            &&& self.queue.len() == 0
            &&& self.staged == Map::<Seq<char>, EventView>::empty()
        }
    }

    /// Turns to the event at `position`: asks for its translation where
    /// descriptions are translated, sends it with its own description where
    /// they are not. Once the queue is exhausted the poll is complete: what
    /// was staged becomes the baseline, and the loop waits for the next tick.
    pub open spec fn turn_to_next(self) -> (PollLoopView, ActionView) {
        if self.position >= self.queue.len() {
            (PollLoopView::at_rest(self.translate, self.staged), ActionView::AwaitTick)
        } else if self.translate {
            (
                PollLoopView { stage: Stage::Translating, ..self },
                ActionView::Translate(self.queue[self.position as int].content),
            )
        } else {
            (
                PollLoopView { stage: Stage::Sending, ..self },
                ActionView::Send(
                    rendering(
                        self.queue[self.position as int],
                        self.queue[self.position as int].content,
                    ),
                ),
            )
        }
    }

    /// The state after `input`, and the action that it calls for. An input
    /// that the loop is not waiting for changes nothing and calls for nothing.
    ///
    /// A failed fetch counts as an empty snapshot. A failed translation sends
    /// the description as it is. Whether the webhook took a notification makes
    /// no difference to what follows.
    pub open spec fn step(self, input: InputView) -> (PollLoopView, Option<ActionView>) {
        match (self.stage, input) {
            (Stage::Idle, InputView::Tick) => (
                PollLoopView { stage: Stage::Fetching, ..self },
                Some(ActionView::Fetch),
            ),
            (Stage::Fetching, InputView::Fetched(reply)) => {
                let snapshot = match reply {
                    Some(snapshot) => snapshot,
                    None => Seq::empty(),
                };
                let reconciled = PollLoopView {
                    staged: index_by_id(snapshot),
                    queue: due_events(self.baseline, snapshot),
                    position: 0,
                    ..self
                };
                (reconciled.turn_to_next().0, Some(reconciled.turn_to_next().1))
            },
            (Stage::Translating, InputView::Translated(reply)) => {
                let event = self.queue[self.position as int];
                (
                    PollLoopView { stage: Stage::Sending, ..self },
                    Some(
                        ActionView::Send(
                            rendering(event, text_to_show(event.content, reply)),
                        ),
                    ),
                )
            },
            (Stage::Sending, InputView::Delivered(_)) => {
                let advanced = PollLoopView { position: self.position + 1, ..self };
                (advanced.turn_to_next().0, Some(advanced.turn_to_next().1))
            },
            _ => (self, None),
        }
    }
}

/// A poll loop: the baseline of events seen, and how far the poll under way
/// has come.
pub struct PollLoop {
    stage: Stage,
    translate: bool,
    baseline: Tracker,
    staged: Tracker,
    queue: Vec<Event>,
    position: usize,
}

impl View for PollLoop {
    type V = PollLoopView;

    closed spec fn view(&self) -> PollLoopView {
        PollLoopView {
            stage: self.stage,
            translate: self.translate,
            baseline: self.baseline@,
            staged: self.staged@,
            queue: views(self.queue@),
            position: self.position as nat,
        }
    }
}

/// The view of what a step gives back.
pub open spec fn action_view(action: Option<Action>) -> Option<ActionView> {
    match action {
        Some(action) => Some(action@),
        None => None,
    }
}

impl PollLoop {
    #[verifier::type_invariant]
    spec fn consistent(&self) -> bool {
        self@.well_formed()
    }

    /// A loop that has not polled yet and tracks nothing. `translate` says
    /// whether descriptions are translated before they are sent.
    pub fn new(translate: bool) -> (fresh: PollLoop)
        ensures
            fresh@ == PollLoopView::at_rest(translate, Map::empty()),
    {
        let fresh = PollLoop {
            stage: Stage::Idle,
            translate,
            baseline: Tracker::new(),
            staged: Tracker::new(),
            queue: Vec::new(),
            position: 0,
        };
        assert(fresh@.queue =~= Seq::<EventView>::empty());
        fresh
    }

    /// What the loop is waiting for.
    pub fn stage(&self) -> (stage: Stage)
        ensures
            stage == self@.stage,
            self@.well_formed(),
    {
        proof {
            use_type_invariant(self);
        }
        self.stage
    }

    /// The events seen in the last poll that was completed.
    pub fn baseline(&self) -> (baseline: &Tracker)
        ensures
            baseline@ == self@.baseline,
    {
        &self.baseline
    }

    fn turn_to_next(
        translate: bool,
        baseline: Tracker,
        staged: Tracker,
        queue: Vec<Event>,
        position: usize,
    ) -> (next: (PollLoop, Action))
        requires
            position <= queue.len(),
        ensures
            (next.0@, next.1@) == (PollLoopView {
                stage: Stage::Sending,
                translate,
                baseline: baseline@,
                staged: staged@,
                queue: views(queue@),
                position: position as nat,
            }).turn_to_next(),
    {
        if position >= queue.len() {
            let rested = PollLoop {
                stage: Stage::Idle,
                translate,
                baseline: staged,
                staged: Tracker::new(),
                queue: Vec::new(),
                position: 0,
            };
            assert(rested@.queue =~= Seq::<EventView>::empty());
            (rested, Action::AwaitTick)
        } else if translate {
            let action = Action::Translate(queue[position].content.clone());
            (
                PollLoop { stage: Stage::Translating, translate, baseline, staged, queue, position },
                action,
            )
        } else {
            let action = Action::Send(
                notification_for(&queue[position], queue[position].content.as_str()),
            );
            (
                PollLoop { stage: Stage::Sending, translate, baseline, staged, queue, position },
                action,
            )
        }
    }

    /// Takes note of `input` and says what is to be done next. `None` means
    /// that the loop was not waiting for this input and has not changed.
    pub fn step(self, input: Input) -> (next: (PollLoop, Option<Action>))
        ensures
            (next.0@, action_view(next.1)) == self@.step(input@),
    {
        proof {
            use_type_invariant(&self);
        }
        match (self.stage, input) {
            (Stage::Idle, Input::Tick) => {
                let mut next = self;
                next.stage = Stage::Fetching;
                (next, Some(Action::Fetch))
            },
            (Stage::Fetching, Input::Fetched(reply)) => {
                let snapshot = match reply {
                    Some(snapshot) => snapshot,
                    None => Vec::new(),
                };
                let (due, seen) = reconcile(&self.baseline, &snapshot);
                let (next, action) = Self::turn_to_next(self.translate, self.baseline, seen, due, 0);
                (next, Some(action))
            },
            (Stage::Translating, Input::Translated(reply)) => {
                let event = &self.queue[self.position];
                let body = translated_text(event.content.as_str(), &reply);
                let action = Action::Send(notification_for(event, body.as_str()));
                let mut next = self;
                next.stage = Stage::Sending;
                (next, Some(action))
            },
            (Stage::Sending, Input::Delivered(_)) => {
                assert(self.position < self.queue.len());
                let (next, action) = Self::turn_to_next(
                    self.translate,
                    self.baseline,
                    self.staged,
                    self.queue,
                    self.position + 1,
                );
                (next, Some(action))
            },
            (_, _) => (self, None),
        }
    }
}

} // verus!
