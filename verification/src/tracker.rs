//! The baseline of events already seen, and its reconciliation with a fresh
//! snapshot of the status source.

use crate::event::{views, Event, EventView};
use vstd::prelude::*;

verus! {

/// The events of `snapshot` keyed by their id. Where an id occurs more than
/// once, the last occurrence is the one kept.
pub open spec fn index_by_id(snapshot: Seq<EventView>) -> Map<Seq<char>, EventView>
    decreases snapshot.len(),
{
    if snapshot.len() == 0 {
        Map::empty()
    } else {
        index_by_id(snapshot.drop_last()).insert(snapshot.last().id, snapshot.last())
    }
}

/// Whether some event of `snapshot` carries the id `id`.
pub open spec fn mentions(snapshot: Seq<EventView>, id: Seq<char>) -> bool {
    exists|i: int| #![trigger snapshot[i]] 0 <= i < snapshot.len() && snapshot[i].id == id
}

/// Whether no two events of `events` share an id.
pub open spec fn distinct_ids(events: Seq<EventView>) -> bool {
    forall|i: int, j: int|
        #![trigger events[i], events[j]]
        0 <= i < j < events.len() ==> events[i].id != events[j].id
}

/// Whether an event that appears in a snapshot is due for a notification,
/// given the baseline `previous`: it is, unless the baseline already holds a
/// resolved record under its id.
pub open spec fn is_due(previous: Map<Seq<char>, EventView>, event: EventView) -> bool {
    !(previous.contains_key(event.id) && previous[event.id].is_resolved())
}

/// [`is_due`] against a fixed baseline, as a predicate on events.
pub open spec fn due_filter(previous: Map<Seq<char>, EventView>) -> spec_fn(EventView) -> bool {
    |event: EventView| is_due(previous, event)
}

/// The events of `snapshot` that are due for a notification, in snapshot order.
pub open spec fn due_events(
    previous: Map<Seq<char>, EventView>,
    snapshot: Seq<EventView>,
) -> Seq<EventView> {
    snapshot.filter(due_filter(previous))
}

/// The ids of `index_by_id(snapshot)` are exactly the ids that occur in
/// `snapshot`, and there are finitely many of them.
pub proof fn lemma_index_by_id_keys(snapshot: Seq<EventView>)
    ensures
        index_by_id(snapshot).dom().finite(),
        forall|id: Seq<char>|
            #![trigger index_by_id(snapshot).contains_key(id)]
            #![trigger mentions(snapshot, id)]
            index_by_id(snapshot).contains_key(id) <==> mentions(snapshot, id),
    decreases snapshot.len(),
{
    if snapshot.len() > 0 {
        let earlier = snapshot.drop_last();
        lemma_index_by_id_keys(earlier);
        assert forall|id: Seq<char>|
            index_by_id(snapshot).contains_key(id) <==> mentions(snapshot, id) by {
            if mentions(earlier, id) {
                let i = choose|i: int| 0 <= i < earlier.len() && earlier[i].id == id;
                assert(snapshot[i].id == id);
            }
            if mentions(snapshot, id) && snapshot.last().id != id {
                let i = choose|i: int| 0 <= i < snapshot.len() && snapshot[i].id == id;
                assert(earlier[i].id == id);
            }
        }
    }
}

/// An event that no later event of the snapshot shares its id with is the
/// record that `index_by_id` keeps under that id.
pub proof fn lemma_index_by_id_value(snapshot: Seq<EventView>, i: int)
    requires
        0 <= i < snapshot.len(),
        forall|j: int| #![trigger snapshot[j]] i < j < snapshot.len() ==> snapshot[j].id != snapshot[i].id,
    ensures
        index_by_id(snapshot).contains_key(snapshot[i].id),
        index_by_id(snapshot)[snapshot[i].id] == snapshot[i],
    decreases snapshot.len(),
{
    if i < snapshot.len() - 1 {
        let earlier = snapshot.drop_last();
        assert forall|j: int| #![trigger earlier[j]] i < j < earlier.len() implies earlier[j].id
            != earlier[i].id by {
            assert(earlier[j] == snapshot[j]);
        }
        lemma_index_by_id_value(earlier, i);
    }
}

/// Events with distinct ids are indexed one to one.
proof fn lemma_distinct_count(events: Seq<EventView>)
    requires
        distinct_ids(events),
    ensures
        index_by_id(events).dom().finite(),
        index_by_id(events).len() == events.len(),
    decreases events.len(),
{
    lemma_index_by_id_keys(events);
    if events.len() > 0 {
        let earlier = events.drop_last();
        assert(distinct_ids(earlier)) by {
            assert forall|i: int, j: int| 0 <= i < j < earlier.len() implies earlier[i].id
                != earlier[j].id by {
                assert(earlier[i] == events[i] && earlier[j] == events[j]);
            }
        }
        lemma_distinct_count(earlier);
        lemma_index_by_id_keys(earlier);
        assert(!mentions(earlier, events.last().id)) by {
            if mentions(earlier, events.last().id) {
                let i = choose|i: int| 0 <= i < earlier.len() && earlier[i].id == events.last().id;
                assert(events[i].id == events[events.len() - 1].id);
            }
        }
    }
}

/// Replacing the record of an id in place is an insertion under that id.
proof fn lemma_replace_is_insert(events: Seq<EventView>, i: int, event: EventView)
    requires
        distinct_ids(events),
        0 <= i < events.len(),
        events[i].id == event.id,
    ensures
        distinct_ids(events.update(i, event)),
        index_by_id(events.update(i, event)) == index_by_id(events).insert(event.id, event),
{
    let after = events.update(i, event);
    let expected = index_by_id(events).insert(event.id, event);
    assert(distinct_ids(after)) by {
        assert forall|a: int, b: int| 0 <= a < b < after.len() implies after[a].id
            != after[b].id by {
            assert(after[a].id == events[a].id && after[b].id == events[b].id);
        }
    }
    lemma_index_by_id_keys(events);
    lemma_index_by_id_keys(after);
    assert forall|id: Seq<char>| index_by_id(after).contains_key(id) implies
        expected.contains_key(id) && index_by_id(after)[id] == expected[id] by {
        let j = choose|j: int| 0 <= j < after.len() && after[j].id == id;
        assert(events[j].id == id);
        lemma_index_by_id_value(after, j);
        if j != i {
            lemma_index_by_id_value(events, j);
        }
    }
    assert forall|id: Seq<char>| expected.contains_key(id) implies index_by_id(
        after,
    ).contains_key(id) by {
        if id == event.id {
            assert(after[i].id == id);
        } else {
            let j = choose|j: int| 0 <= j < events.len() && events[j].id == id;
            assert(after[j].id == id);
        }
    }
    assert(index_by_id(after) =~= expected);
}

/// Appending an event is an insertion under its id.
proof fn lemma_push_is_insert(events: Seq<EventView>, event: EventView)
    ensures
        index_by_id(events.push(event)) == index_by_id(events).insert(event.id, event),
{
    assert(events.push(event).drop_last() =~= events);
}

/// The events last seen in the status source, each under its id.
///
/// The model of a tracker is the map from ids to the records it holds.
pub struct Tracker {
    entries: Vec<Event>,
}

impl View for Tracker {
    type V = Map<Seq<char>, EventView>;

    closed spec fn view(&self) -> Map<Seq<char>, EventView> {
        index_by_id(views(self.entries@))
    }
}

/// The place of the event with id `id` among `entries`, if there is one.
fn position(entries: &Vec<Event>, id: &String) -> (found: Option<usize>)
    ensures
        match found {
            Some(i) => i < entries.len() && entries[i as int].id@ == id@,
            None => forall|j: int| 0 <= j < entries.len() ==> entries[j].id@ != id@,
        },
{
    let mut i: usize = 0;
    while i < entries.len()
        invariant
            i <= entries.len(),
            forall|j: int| 0 <= j < i ==> entries[j].id@ != id@,
        decreases entries.len() - i,
    {
        if entries[i].id == *id {
            return Some(i);
        }
        i += 1;
    }
    None
}

impl Tracker {
    #[verifier::type_invariant]
    spec fn well_formed(&self) -> bool {
        distinct_ids(views(self.entries@))
    }

    /// A tracker that has seen nothing yet.
    pub fn new() -> (tracker: Tracker)
        ensures
            tracker@ == Map::<Seq<char>, EventView>::empty(),
    {
        Tracker { entries: Vec::new() }
    }

    /// The number of events tracked.
    pub fn len(&self) -> (count: usize)
        ensures
            self@.dom().finite(),
            count == self@.len(),
    {
        proof {
            use_type_invariant(self);
            lemma_distinct_count(views(self.entries@));
        }
        self.entries.len()
    }

    /// Whether nothing is tracked.
    pub fn is_empty(&self) -> (empty: bool)
        ensures
            empty <==> self@ == Map::<Seq<char>, EventView>::empty(),
    {
        proof {
            use_type_invariant(self);
            lemma_distinct_count(views(self.entries@));
        }
        self.entries.len() == 0
    }

    /// The record tracked under `id`, if there is one.
    pub fn get(&self, id: &String) -> (found: Option<&Event>)
        ensures
            found is Some <==> self@.contains_key(id@),
            found matches Some(event) ==> event@ == self@[id@],
    {
        let found = position(&self.entries, id);
        proof {
            use_type_invariant(self);
            let records = views(self.entries@);
            lemma_index_by_id_keys(records);
            match found {
                Some(i) => {
                    assert(records[i as int].id == id@);
                    lemma_index_by_id_value(records, i as int);
                },
                None => {
                    if mentions(records, id@) {
                        let j = choose|j: int| 0 <= j < records.len() && records[j].id == id@;
                        assert(self.entries[j].id@ == id@);
                    }
                },
            }
        }
        match found {
            Some(i) => Some(&self.entries[i]),
            None => None,
        }
    }

    /// Whether an event is tracked under `id`.
    pub fn contains(&self, id: &String) -> (present: bool)
        ensures
            present == self@.contains_key(id@),
    {
        self.get(id).is_some()
    }
}

/// Compares a fresh snapshot of the status source with the baseline.
///
/// Returns the events that are due for a notification, in snapshot order, and
/// the baseline for the next poll. An event is due unless the baseline holds a
/// resolved record under its id. The new baseline holds the events of the
/// snapshot and nothing else: whatever the snapshot no longer reports is
/// forgotten.
pub fn reconcile(previous: &Tracker, snapshot: &Vec<Event>) -> (outcome: (Vec<Event>, Tracker))
    ensures
        views(outcome.0@) == due_events(previous@, views(snapshot@)),
        outcome.1@ == index_by_id(views(snapshot@)),
{
    let mut due: Vec<Event> = Vec::new();
    let mut entries: Vec<Event> = Vec::new();
    let mut k: usize = 0;
    proof {
        reveal(Seq::filter);
        assert(views(snapshot@).take(0) =~= Seq::<EventView>::empty());
    }
    while k < snapshot.len()
        invariant
            k <= snapshot.len(),
            views(due@) == due_events(previous@, views(snapshot@).take(k as int)),
            distinct_ids(views(entries@)),
            index_by_id(views(entries@)) == index_by_id(views(snapshot@).take(k as int)),
        decreases snapshot.len() - k,
    {
        let event = &snapshot[k];
        let ghost seen = views(snapshot@).take(k as int);
        let ghost held = views(entries@);
        let ghost told = views(due@);
        proof {
            assert(views(snapshot@).take(k as int + 1) =~= seen.push(event@));
            seen.lemma_filter_push(event@, due_filter(previous@));
            lemma_push_is_insert(seen, event@);
        }
        let due_now = match previous.get(&event.id) {
            Some(stored) => !stored.is_resolved(),
            None => true,
        };
        if due_now {
            due.push(event.clone());
            assert(views(due@) =~= told.push(event@));
        }
        match position(&entries, &event.id) {
            Some(i) => {
                entries.set(i, event.clone());
                proof {
                    assert(views(entries@) =~= held.update(i as int, event@));
                    lemma_replace_is_insert(held, i as int, event@);
                }
            },
            None => {
                entries.push(event.clone());
                proof {
                    assert(views(entries@) =~= held.push(event@));
                    lemma_push_is_insert(held, event@);
                    assert(distinct_ids(held.push(event@))) by {
                        assert forall|a: int, b: int| 0 <= a < b < held.len() + 1 implies held.push(
                            event@,
                        )[a].id != held.push(event@)[b].id by {
                            if b < held.len() {
                                assert(held[a].id != held[b].id);
                            } else {
                                assert(held[a].id == entries[a].id@);
                            }
                        }
                    }
                }
            },
        }
        k += 1;
    }
    proof {
        assert(views(snapshot@).take(k as int) =~= views(snapshot@));
    }
    (due, Tracker { entries })
}

} // verus!
