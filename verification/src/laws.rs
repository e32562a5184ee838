//! Facts that hold for every baseline, every snapshot and every state of the
//! poll loop.
//!
//! Those about reconciliation are stated over [`due_events`] and
//! [`index_by_id`], the two functions by which
//! [`reconcile`](crate::tracker::reconcile) describes its result; those about
//! the poll loop over [`PollLoopView::step`], by which
//! [`PollLoop::step`](crate::poll::PollLoop::step) describes its own.

use crate::event::{EventType, EventView};
use crate::notification::rendering;
use crate::poll::{ActionView, InputView, PollLoopView, Stage};
use crate::record::{decoded, rfc3339_seconds, EventRecordView};
use crate::tracker::{due_events, due_filter, index_by_id, is_due, lemma_index_by_id_keys, mentions};
use crate::translation::text_to_show;
use vstd::prelude::*;

verus! {

/// The baseline after `polls` polls in a row that all returned `snapshot`,
/// starting from the baseline `previous`.
pub open spec fn baseline_after_replays(
    previous: Map<Seq<char>, EventView>,
    snapshot: Seq<EventView>,
    polls: nat,
) -> Map<Seq<char>, EventView> {
    if polls == 0 {
        previous
    } else {
        index_by_id(snapshot)
    }
}

/// An event is notified exactly if it is in the snapshot and due.
pub proof fn lemma_notified_iff_due(
    previous: Map<Seq<char>, EventView>,
    snapshot: Seq<EventView>,
    event: EventView,
)
    ensures
        due_events(previous, snapshot).contains(event) <==> snapshot.contains(event) && is_due(
            previous,
            event,
        ),
{
    let due = due_events(previous, snapshot);
    if due.contains(event) {
        snapshot.lemma_filter_contains_rev(due_filter(previous), event);
        let a = choose|a: int| 0 <= a < due.len() && due[a] == event;
        snapshot.lemma_filter_pred(due_filter(previous), a);
    }
    if snapshot.contains(event) && is_due(previous, event) {
        let i = choose|i: int| 0 <= i < snapshot.len() && snapshot[i] == event;
        snapshot.lemma_filter_contains(due_filter(previous), i);
    }
}

/// An event that the baseline does not know is notified, and is part of the
/// next baseline.
pub proof fn lemma_new_event_notifies(
    previous: Map<Seq<char>, EventView>,
    snapshot: Seq<EventView>,
    i: int,
)
    requires
        0 <= i < snapshot.len(),
        !previous.contains_key(snapshot[i].id),
    ensures
        due_events(previous, snapshot).contains(snapshot[i]),
        index_by_id(snapshot).contains_key(snapshot[i].id),
{
    assert(snapshot.contains(snapshot[i]));
    lemma_notified_iff_due(previous, snapshot, snapshot[i]);
    lemma_index_by_id_keys(snapshot);
    assert(mentions(snapshot, snapshot[i].id));
}

/// An event whose record in the baseline is still open is notified again,
/// whether or not the snapshot shows it resolved.
pub proof fn lemma_open_event_notifies(
    previous: Map<Seq<char>, EventView>,
    snapshot: Seq<EventView>,
    i: int,
)
    requires
        0 <= i < snapshot.len(),
        previous.contains_key(snapshot[i].id),
        !previous[snapshot[i].id].is_resolved(),
    ensures
        due_events(previous, snapshot).contains(snapshot[i]),
{
    assert(snapshot.contains(snapshot[i]));
    lemma_notified_iff_due(previous, snapshot, snapshot[i]);
}

/// No event is notified under an id whose record in the baseline is resolved.
pub proof fn lemma_resolved_event_is_silent(
    previous: Map<Seq<char>, EventView>,
    snapshot: Seq<EventView>,
    id: Seq<char>,
)
    requires
        previous.contains_key(id),
        previous[id].is_resolved(),
    ensures
        forall|event: EventView| #[trigger]
            due_events(previous, snapshot).contains(event) ==> event.id != id,
{
    assert forall|event: EventView| #[trigger]
        due_events(previous, snapshot).contains(event) implies event.id != id by {
        lemma_notified_iff_due(previous, snapshot, event);
    }
}

/// Once the baseline holds a resolved record under `id`, polls that keep
/// returning the same snapshot never notify under that id again, however
/// often they are repeated, provided the snapshot itself does not show the
/// event open.
pub proof fn lemma_resolved_replay_is_silent(
    previous: Map<Seq<char>, EventView>,
    snapshot: Seq<EventView>,
    id: Seq<char>,
    polls: nat,
)
    requires
        previous.contains_key(id),
        previous[id].is_resolved(),
        index_by_id(snapshot).contains_key(id) ==> index_by_id(snapshot)[id].is_resolved(),
    ensures
        forall|event: EventView| #[trigger]
            due_events(baseline_after_replays(previous, snapshot, polls), snapshot).contains(event)
                ==> event.id != id,
{
    let baseline = baseline_after_replays(previous, snapshot, polls);
    assert forall|event: EventView| #[trigger]
        due_events(baseline, snapshot).contains(event) implies event.id != id by {
        lemma_notified_iff_due(baseline, snapshot, event);
        if polls > 0 && event.id == id {
            lemma_index_by_id_keys(snapshot);
            let i = choose|i: int| 0 <= i < snapshot.len() && snapshot[i] == event;
            assert(mentions(snapshot, id)) by {
                assert(snapshot[i].id == id);
            }
        }
    }
}

/// Reconciling a snapshot with the baseline it has just produced gives the
/// same baseline again.
pub proof fn lemma_replay_keeps_baseline(
    previous: Map<Seq<char>, EventView>,
    snapshot: Seq<EventView>,
    polls: nat,
)
    requires
        polls > 0,
    ensures
        baseline_after_replays(previous, snapshot, polls) == index_by_id(snapshot),
        baseline_after_replays(previous, snapshot, polls + 1) == baseline_after_replays(
            previous,
            snapshot,
            polls,
        ),
{
}

/// Notifications come in snapshot order: of two notified events, the one
/// notified first also stands first in the snapshot.
pub proof fn lemma_notifications_keep_order(
    previous: Map<Seq<char>, EventView>,
    snapshot: Seq<EventView>,
    a: int,
    b: int,
)
    requires
        0 <= a < b < due_events(previous, snapshot).len(),
    ensures
        exists|i: int, j: int|
            #![trigger snapshot[i], snapshot[j]]
            0 <= i < j < snapshot.len() && snapshot[i] == due_events(previous, snapshot)[a]
                && snapshot[j] == due_events(previous, snapshot)[b],
    decreases snapshot.len(),
{
    reveal(Seq::filter);
    let due = due_events(previous, snapshot);
    let earlier = snapshot.drop_last();
    let earlier_due = due_events(previous, earlier);
    if b < earlier_due.len() {
        lemma_notifications_keep_order(previous, earlier, a, b);
        let (i, j) = choose|i: int, j: int|
            #![trigger earlier[i], earlier[j]]
            0 <= i < j < earlier.len() && earlier[i] == earlier_due[a] && earlier[j]
                == earlier_due[b];
        assert(snapshot[i] == due[a] && snapshot[j] == due[b]);
    } else {
        assert(earlier_due.contains(earlier_due[a]));
        lemma_notified_iff_due(previous, earlier, earlier_due[a]);
        let i = choose|i: int| 0 <= i < earlier.len() && earlier[i] == earlier_due[a];
        let j = snapshot.len() - 1;
        assert(snapshot[i] == due[a] && snapshot[j] == due[b]);
    }
}

/// A snapshot of events that the baseline knows nothing of is notified whole,
/// in its own order.
pub proof fn lemma_unseen_snapshot_notifies_whole(
    previous: Map<Seq<char>, EventView>,
    snapshot: Seq<EventView>,
)
    requires
        forall|i: int|
            #![trigger snapshot[i]]
            0 <= i < snapshot.len() ==> !previous.contains_key(snapshot[i].id),
    ensures
        due_events(previous, snapshot) == snapshot,
    decreases snapshot.len(),
{
    reveal(Seq::filter);
    if snapshot.len() > 0 {
        let earlier = snapshot.drop_last();
        assert forall|i: int| #![trigger earlier[i]] 0 <= i < earlier.len() implies
            !previous.contains_key(earlier[i].id) by {
            assert(earlier[i] == snapshot[i]);
        }
        lemma_unseen_snapshot_notifies_whole(previous, earlier);
        assert(is_due(previous, snapshot[snapshot.len() - 1]));
        assert(earlier.push(snapshot.last()) =~= snapshot);
    }
}

/// An event that the snapshot no longer reports is forgotten, whatever the
/// baseline held before.
pub proof fn lemma_absent_event_is_evicted(snapshot: Seq<EventView>, id: Seq<char>)
    requires
        !mentions(snapshot, id),
    ensures
        !index_by_id(snapshot).contains_key(id),
{
    lemma_index_by_id_keys(snapshot);
}

/// An empty snapshot notifies nothing and leaves nothing tracked.
pub proof fn lemma_empty_snapshot_evicts_everything(previous: Map<Seq<char>, EventView>)
    ensures
        due_events(previous, Seq::empty()) == Seq::<EventView>::empty(),
        index_by_id(Seq::empty()) == Map::<Seq<char>, EventView>::empty(),
{
    reveal(Seq::filter);
}

/// A category code that stands for no known category never makes a record
/// fail. The record decodes exactly where it would with any other code, that
/// is where its moments can be read; its event is of the `Unknown` category,
/// is judged due like any other event, and is announced under the title
/// `Inconnu`.
pub proof fn lemma_unknown_code_is_accepted(record: EventRecordView, other_code: u32)
    requires
        record.event_type != 1,
        record.event_type != 2,
    ensures
        EventType::of_code(record.event_type) == EventType::Unknown,
        decoded(record) is Ok <==> decoded(
            EventRecordView { event_type: other_code, ..record },
        ) is Ok,
        decoded(record) is Ok <==> {
            &&& rfc3339_seconds(record.time) is Some
            &&& record.solve_time matches Some(text) ==> rfc3339_seconds(text) is Some
        },
        decoded(record) matches Ok(event) ==> {
            &&& event.event_type == EventType::Unknown
            &&& forall|previous: Map<Seq<char>, EventView>, kind: EventType|
                is_due(previous, event) == #[trigger] is_due(
                    previous,
                    EventView { event_type: kind, ..event },
                )
            &&& forall|body: Seq<char>| #[trigger] rendering(event, body).title == "Inconnu"@
        },
{
}

/// A translation call that failed shows the description as it was written,
/// and so does one that brought no translation.
pub proof fn lemma_failed_translation_keeps_text(written: Seq<char>)
    ensures
        text_to_show(written, None) == written,
        text_to_show(written, Some(Seq::empty())) == written,
{
}

/// Every step leaves the poll loop in a state that it can be in.
pub proof fn lemma_step_keeps_well_formed(state: PollLoopView, input: InputView)
    requires
        state.well_formed(),
    ensures
        state.step(input).0.well_formed(),
{
}

/// The state of a poll that found `snapshot` against `baseline`, once `done`
/// of its due events have been dealt with and before the loop turns to the
/// next one.
pub open spec fn poll_under_way(
    translate: bool,
    baseline: Map<Seq<char>, EventView>,
    snapshot: Seq<EventView>,
    done: nat,
) -> PollLoopView {
    PollLoopView {
        stage: Stage::Sending,
        translate,
        baseline,
        staged: index_by_id(snapshot),
        queue: due_events(baseline, snapshot),
        position: done,
    }
}

/// A poll begins with a fetch, and the snapshot that comes back is reconciled
/// with the baseline: the loop turns to the first event that is due.
pub proof fn lemma_poll_begins_with_reconciliation(
    translate: bool,
    baseline: Map<Seq<char>, EventView>,
    snapshot: Seq<EventView>,
)
    ensures
        ({
            let rest = PollLoopView::at_rest(translate, baseline);
            let fetching = rest.step(InputView::Tick);
            let first = poll_under_way(translate, baseline, snapshot, 0).turn_to_next();
            &&& fetching == (PollLoopView { stage: Stage::Fetching, ..rest }, Some(ActionView::Fetch))
            &&& fetching.0.step(InputView::Fetched(Some(snapshot))) == (first.0, Some(first.1))
        }),
{
}

/// The due events of a poll are dealt with one after the other, in snapshot
/// order. Each is sent once, after its translation was asked for where
/// descriptions are translated, and whatever the two services answer, the
/// loop then turns to the next event.
pub proof fn lemma_poll_sends_in_order(
    translate: bool,
    baseline: Map<Seq<char>, EventView>,
    snapshot: Seq<EventView>,
    done: nat,
    reply: Option<Seq<Seq<char>>>,
    taken: bool,
)
    requires
        done < due_events(baseline, snapshot).len(),
    ensures
        ({
            let event = due_events(baseline, snapshot)[done as int];
            let turned = poll_under_way(translate, baseline, snapshot, done).turn_to_next();
            let next = poll_under_way(translate, baseline, snapshot, done + 1).turn_to_next();
            if translate {
                let sending = turned.0.step(InputView::Translated(reply));
                &&& turned.1 == ActionView::Translate(event.content)
                &&& sending.1 == Some(
                    ActionView::Send(rendering(event, text_to_show(event.content, reply))),
                )
                &&& sending.0.step(InputView::Delivered(taken)) == (next.0, Some(next.1))
            } else {
                &&& turned.1 == ActionView::Send(rendering(event, event.content))
                &&& turned.0.step(InputView::Delivered(taken)) == (next.0, Some(next.1))
            }
        }),
{
}

/// Once every due event has been dealt with, the poll is complete: the events
/// of the snapshot become the baseline, and the loop waits for the next tick.
pub proof fn lemma_poll_ends_with_new_baseline(
    translate: bool,
    baseline: Map<Seq<char>, EventView>,
    snapshot: Seq<EventView>,
)
    ensures
        poll_under_way(
            translate,
            baseline,
            snapshot,
            due_events(baseline, snapshot).len(),
        ).turn_to_next() == (
            PollLoopView::at_rest(translate, index_by_id(snapshot)),
            ActionView::AwaitTick,
        ),
{
}

/// A fetch that failed ends the poll at once: nothing is notified, and
/// everything that was tracked is forgotten.
pub proof fn lemma_failed_fetch_evicts_everything(state: PollLoopView)
    requires
        state.stage == Stage::Fetching,
    ensures
        state.step(InputView::Fetched(None)) == (
            PollLoopView::at_rest(state.translate, Map::empty()),
            Some(ActionView::AwaitTick),
        ),
{
    lemma_empty_snapshot_evicts_everything(state.baseline);
}

/// While a notification is being delivered, the answer of the webhook decides
/// nothing: the loop goes on in the same way whether the message was taken or
/// not.
pub proof fn lemma_delivery_outcome_is_ignored(state: PollLoopView)
    ensures
        state.step(InputView::Delivered(true)) == state.step(InputView::Delivered(false)),
{
}

/// Where the translation service fails, the event at hand is sent with the
/// description it came with.
pub proof fn lemma_failed_translation_sends_untranslated(state: PollLoopView)
    requires
        state.stage == Stage::Translating,
    ensures
        state.step(InputView::Translated(None)).1 == Some(
            ActionView::Send(
                rendering(
                    state.queue[state.position as int],
                    state.queue[state.position as int].content,
                ),
            ),
        ),
{
}

} // verus!
