//! The change notifier: an ordered stream of lifecycle events for whoever
//! subscribed before they were published.

use crate::keys::{key_namespace, namespace_of};
use crate::model::EntityModel;
use crate::reconcile::{change_models, Change, ChangeModel, Operation, Undone};
use crate::store::Entity;
use vstd::prelude::*;
use vstd::string::*;

verus! {

/// What happened to an entity.
#[derive(Debug, Clone, Copy, PartialEq, Eq, Structural)]
pub enum EventKind {
    Created,
    Updated,
    Deleted,
}

/// One lifecycle event.
#[derive(Debug, PartialEq, Eq)]
pub struct Event {
    pub kind: EventKind,
    pub entity_key: String,
    pub namespace: String,
    /// The head of the entity after the event; for a deletion, its last head.
    pub version_key: u64,
}

/// An [`Event`] as a value.
pub struct EventModel {
    pub kind: EventKind,
    pub entity_key: Seq<char>,
    pub namespace: Seq<char>,
    pub version_key: u64,
}

impl View for Event {
    type V = EventModel;

    open spec fn view(&self) -> EventModel {
        EventModel {
            kind: self.kind,
            entity_key: self.entity_key@,
            namespace: self.namespace@,
            version_key: self.version_key,
        }
    }
}

impl Clone for Event {
    fn clone(&self) -> (copy: Event)
        ensures
            copy == *self,
    {
        Event {
            kind: self.kind,
            entity_key: self.entity_key.clone(),
            namespace: self.namespace.clone(),
            version_key: self.version_key,
        }
    }
}

/// The views of a sequence of events.
pub open spec fn event_models(events: Seq<Event>) -> Seq<EventModel> {
    Seq::new(events.len(), |i: int| events[i]@)
}

/// The event that tells what happened to an entity.
pub open spec fn told(kind: EventKind, entity: EntityModel) -> EventModel {
    EventModel {
        kind,
        entity_key: entity.key,
        namespace: entity.namespace,
        version_key: entity.current_version_key,
    }
}

/// The event that tells what happened to `entity`: for a creation or an
/// update, the entity as it is afterwards; for a deletion, as it was before.
pub fn entity_event(kind: EventKind, entity: &Entity) -> (event: Event)
    ensures
        event@ == told(kind, entity@),
{
    Event {
        kind,
        entity_key: entity.key.clone(),
        namespace: entity.namespace.clone(),
        version_key: entity.current_version_key,
    }
}

/// The event that tells of a change that an apply made.
pub open spec fn change_event(change: ChangeModel) -> EventModel {
    EventModel {
        kind: match change.operation {
            Operation::Create => EventKind::Created,
            Operation::Update => EventKind::Updated,
        },
        entity_key: change.entity_key,
        namespace: namespace_of(change.entity_key),
        version_key: change.version_key_after,
    }
}

/// The events that tell of the changes that an apply made, in their order.
pub open spec fn change_events(changes: Seq<ChangeModel>) -> Seq<EventModel> {
    Seq::new(changes.len(), |i: int| change_event(changes[i]))
}

/// The events that tell of the changes that an apply made, in their order:
/// an entity that was created, or one that got a new head.
pub fn apply_events(changes: &Vec<Change>) -> (events: Vec<Event>)
    ensures
        event_models(events@) == change_events(change_models(changes@)),
{
    let mut events: Vec<Event> = Vec::new();
    let mut i: usize = 0;
    while i < changes.len()
        invariant
            i <= changes@.len(),
            events@.len() == i,
            forall|k: int| 0 <= k < i ==> (#[trigger] events@[k])@ == change_event(changes@[k]@),
        decreases changes@.len() - i,
    {
        let change = &changes[i];
        let kind = match change.operation {
            Operation::Create => EventKind::Created,
            Operation::Update => EventKind::Updated,
        };
        events.push(
            Event {
                kind,
                entity_key: change.entity_key.clone(),
                namespace: key_namespace(change.entity_key.as_str()),
                version_key: change.version_key_after,
            },
        );
        i += 1;
    }
    events
}

/// The event, if any, that tells of a change that was taken back: a
/// deletion where the entity was deleted, an update where it got its old
/// payload back, and none where the change could not be taken back.
pub open spec fn undo_event(change: ChangeModel, outcome: Undone) -> Option<EventModel> {
    match outcome {
        Undone::Deleted => Some(
            EventModel {
                kind: EventKind::Deleted,
                entity_key: change.entity_key,
                namespace: namespace_of(change.entity_key),
                version_key: change.version_key_after,
            },
        ),
        Undone::Restored(version_key) => Some(
            EventModel {
                kind: EventKind::Updated,
                entity_key: change.entity_key,
                namespace: namespace_of(change.entity_key),
                version_key,
            },
        ),
        Undone::Failed(_) => None,
    }
}

/// The events that tell of the first `count` changes that were taken back.
/// The changes are taken back from the last one, so the outcome at place `i`
/// is that of the change at place `i` from the end.
pub open spec fn undo_events(changes: Seq<ChangeModel>, outcomes: Seq<Undone>, count: int) -> Seq<
    EventModel,
>
    decreases count,
{
    if count <= 0 || count > changes.len() || count > outcomes.len() {
        Seq::empty()
    } else {
        let before = undo_events(changes, outcomes, count - 1);
        match undo_event(changes[changes.len() - count], outcomes[count - 1]) {
            Some(event) => before.push(event),
            None => before,
        }
    }
}

/// How many changes and outcomes go together: as many as the shorter list has.
pub open spec fn undone_count(changes: Seq<ChangeModel>, outcomes: Seq<Undone>) -> int {
    if changes.len() <= outcomes.len() {
        changes.len() as int
    } else {
        outcomes.len() as int
    }
}

/// The events that tell of the changes that a revert took back, in the order
/// in which it took them back: see [`undo_events`].
pub fn revert_events(changes: &Vec<Change>, outcomes: &Vec<Undone>) -> (events: Vec<Event>)
    ensures
        event_models(events@) == undo_events(
            change_models(changes@),
            outcomes@,
            undone_count(change_models(changes@), outcomes@),
        ),
{
    let count = if changes.len() <= outcomes.len() {
        changes.len()
    } else {
        outcomes.len()
    };
    let mut events: Vec<Event> = Vec::new();
    let mut i: usize = 0;
    while i < count
        invariant
            count <= changes@.len(),
            count <= outcomes@.len(),
            i <= count,
            event_models(events@) == undo_events(change_models(changes@), outcomes@, i as int),
        decreases count - i,
    {
        let change = &changes[changes.len() - 1 - i];
        match outcomes[i] {
            Undone::Deleted => {
                events.push(
                    Event {
                        kind: EventKind::Deleted,
                        entity_key: change.entity_key.clone(),
                        namespace: key_namespace(change.entity_key.as_str()),
                        version_key: change.version_key_after,
                    },
                );
            },
            Undone::Restored(version_key) => {
                events.push(
                    Event {
                        kind: EventKind::Updated,
                        entity_key: change.entity_key.clone(),
                        namespace: key_namespace(change.entity_key.as_str()),
                        version_key,
                    },
                );
            },
            Undone::Failed(_) => {},
        }
        i += 1;
    }
    events
}

/// One subscriber: its number and the events it has not taken yet, oldest first.
pub struct SubscriberModel {
    pub id: u64,
    pub pending: Seq<EventModel>,
}

/// The notifier: its subscribers in the order in which they subscribed, the
/// number that the next subscriber gets, and how many events a subscriber
/// may leave untaken.
pub struct NotifierModel {
    pub subscribers: Seq<SubscriberModel>,
    pub next_id: u64,
    pub bound: usize,
}

/// The subscribers after an event was published: each one that has room
/// gets the event behind those it holds; each one that has none is dropped.
pub open spec fn delivered(subscribers: Seq<SubscriberModel>, event: EventModel, bound: usize) -> Seq<
    SubscriberModel,
>
    decreases subscribers.len(),
{
    if subscribers.len() == 0 {
        subscribers
    } else {
        let before = delivered(subscribers.drop_last(), event, bound);
        let last = subscribers.last();
        if last.pending.len() < bound {
            before.push(SubscriberModel { id: last.id, pending: last.pending.push(event) })
        } else {
            before
        }
    }
}

impl NotifierModel {
    /// Whether the subscriber is there.
    pub open spec fn has(self, id: u64) -> bool {
        exists|i: int| 0 <= i < self.subscribers.len() && (#[trigger] self.subscribers[i]).id == id
    }

    /// Where the subscriber stands.
    pub open spec fn slot(self, id: u64) -> int {
        choose|i: int| 0 <= i < self.subscribers.len() && (#[trigger] self.subscribers[i]).id == id
    }

    /// The events that the subscriber has not taken yet, oldest first.
    pub open spec fn pending(self, id: u64) -> Seq<EventModel> {
        self.subscribers[self.slot(id)].pending
    }

    /// Whether every subscriber has room for one more event.
    pub open spec fn all_have_room(self) -> bool {
        forall|i: int|
            0 <= i < self.subscribers.len() ==> (#[trigger] self.subscribers[i]).pending.len()
                < self.bound
    }

    /// The notifier after one more subscribed: the new subscriber has no
    /// event to take, whatever was published before.
    pub open spec fn subscribed(self) -> NotifierModel {
        NotifierModel {
            subscribers: self.subscribers.push(
                SubscriberModel { id: self.next_id, pending: Seq::empty() },
            ),
            next_id: (self.next_id + 1) as u64,
            ..self
        }
    }

    /// The notifier after an event was published: see [`delivered`].
    pub open spec fn published(self, event: EventModel) -> NotifierModel {
        NotifierModel { subscribers: delivered(self.subscribers, event, self.bound), ..self }
    }

    /// The notifier after the subscriber took its oldest event.
    pub open spec fn taken(self, id: u64) -> NotifierModel {
        let i = self.slot(id);
        NotifierModel {
            subscribers: self.subscribers.update(
                i,
                SubscriberModel { id, pending: self.pending(id).skip(1) },
            ),
            ..self
        }
    }

    /// The notifier after the subscriber left.
    pub open spec fn cancelled(self, id: u64) -> NotifierModel {
        NotifierModel { subscribers: self.subscribers.remove(self.slot(id)), ..self }
    }

    /// What holds of every notifier: no two subscribers share a number, every
    /// number is below the next one, and no subscriber holds more events than
    /// the bound.
    pub open spec fn wf(self) -> bool {
        &&& distinct_ids(self.subscribers)
        &&& forall|i: int|
            0 <= i < self.subscribers.len() ==> (#[trigger] self.subscribers[i]).id < self.next_id
        &&& forall|i: int|
            0 <= i < self.subscribers.len() ==> (#[trigger] self.subscribers[i]).pending.len()
                <= self.bound
    }
}

/// Whether no two subscribers share a number.
pub open spec fn distinct_ids(subscribers: Seq<SubscriberModel>) -> bool {
    forall|i: int, j: int|
        0 <= i < j < subscribers.len() ==> (#[trigger] subscribers[i]).id != (
        #[trigger] subscribers[j]).id
}

/// Whether `after` is what `before` becomes when it gets the event.
pub open spec fn got(before: SubscriberModel, after: SubscriberModel, event: EventModel) -> bool {
    after.id == before.id && after.pending == before.pending.push(event)
}

/// Every subscriber that is there after a publication was there before, had
/// room, and got the event.
pub proof fn lemma_delivered_from(
    subscribers: Seq<SubscriberModel>,
    event: EventModel,
    bound: usize,
    i: int,
) -> (j: int)
    requires
        0 <= i < delivered(subscribers, event, bound).len(),
    ensures
        0 <= j < subscribers.len(),
        subscribers[j].pending.len() < bound,
        got(subscribers[j], delivered(subscribers, event, bound)[i], event),
    decreases subscribers.len(),
{
    let rest = subscribers.drop_last();
    let before = delivered(rest, event, bound);
    if i < before.len() {
        let j = lemma_delivered_from(rest, event, bound, i);
        j
    } else {
        subscribers.len() - 1
    }
}

/// Every subscriber that had room is there after a publication, and got the event.
pub proof fn lemma_delivered_to(
    subscribers: Seq<SubscriberModel>,
    event: EventModel,
    bound: usize,
    j: int,
) -> (i: int)
    requires
        0 <= j < subscribers.len(),
        subscribers[j].pending.len() < bound,
    ensures
        0 <= i < delivered(subscribers, event, bound).len(),
        got(subscribers[j], delivered(subscribers, event, bound)[i], event),
    decreases subscribers.len(),
{
    let rest = subscribers.drop_last();
    let before = delivered(rest, event, bound);
    if j < rest.len() {
        let i = lemma_delivered_to(rest, event, bound, j);
        i
    } else {
        before.len() as int
    }
}

/// A publication leaves no two subscribers with one number.
pub proof fn lemma_delivered_distinct(
    subscribers: Seq<SubscriberModel>,
    event: EventModel,
    bound: usize,
)
    requires
        distinct_ids(subscribers),
    ensures
        distinct_ids(delivered(subscribers, event, bound)),
        delivered(subscribers, event, bound).len() <= subscribers.len(),
    decreases subscribers.len(),
{
    if subscribers.len() > 0 {
        let rest = subscribers.drop_last();
        let before = delivered(rest, event, bound);
        let after = delivered(subscribers, event, bound);
        lemma_delivered_distinct(rest, event, bound);
        assert forall|i: int, j: int| 0 <= i < j < after.len() implies (#[trigger] after[i]).id
            != (#[trigger] after[j]).id by {
            if j >= before.len() {
                lemma_delivered_from(rest, event, bound, i);
            }
        }
    }
}

/// Publishing keeps the notifier well formed.
pub proof fn lemma_published(notifier: NotifierModel, event: EventModel)
    requires
        notifier.wf(),
    ensures
        notifier.published(event).wf(),
{
    let after = notifier.published(event);
    lemma_delivered_distinct(notifier.subscribers, event, notifier.bound);
    assert forall|i: int| 0 <= i < after.subscribers.len() implies (
    #[trigger] after.subscribers[i]).id < after.next_id && after.subscribers[i].pending.len()
        <= after.bound by {
        lemma_delivered_from(notifier.subscribers, event, notifier.bound, i);
    }
}

/// Events arrive in the order of their publication: a subscriber that had
/// room holds, after an event was published, what it held before and then
/// the event; a subscriber that had none is gone.
pub proof fn law_publication_order(notifier: NotifierModel, event: EventModel, id: u64)
    requires
        notifier.wf(),
        notifier.has(id),
    ensures
        notifier.pending(id).len() < notifier.bound ==> notifier.published(event).has(id)
            && notifier.published(event).pending(id) == notifier.pending(id).push(event),
        notifier.pending(id).len() >= notifier.bound ==> !notifier.published(event).has(id),
{
    let after = notifier.published(event);
    let s = notifier.slot(id);
    lemma_published(notifier, event);
    if notifier.pending(id).len() < notifier.bound {
        lemma_delivered_to(notifier.subscribers, event, notifier.bound, s);
    } else if after.has(id) {
        lemma_delivered_from(notifier.subscribers, event, notifier.bound, after.slot(id));
    }
}

/// One subscriber, as the notifier keeps it.
struct Subscriber {
    id: u64,
    pending: Vec<Event>,
}

impl Subscriber {
    spec fn model(&self) -> SubscriberModel {
        SubscriberModel { id: self.id, pending: event_models(self.pending@) }
    }
}

spec fn subscriber_models(subscribers: Seq<Subscriber>) -> Seq<SubscriberModel> {
    Seq::new(subscribers.len(), |i: int| subscribers[i].model())
}

/// The change notifier.
pub struct Notifier {
    subscribers: Vec<Subscriber>,
    next_id: u64,
    bound: usize,
}

impl View for Notifier {
    type V = NotifierModel;

    closed spec fn view(&self) -> NotifierModel {
        NotifierModel {
            subscribers: subscriber_models(self.subscribers@),
            next_id: self.next_id,
            bound: self.bound,
        }
    }
}

impl Notifier {
    /// What holds of every notifier between two operations: see [`NotifierModel::wf`].
    pub open spec fn wf(&self) -> bool {
        self@.wf()
    }

    /// A notifier without a subscriber, in which a subscriber may leave
    /// `bound` events untaken.
    pub fn new(bound: usize) -> (notifier: Notifier)
        ensures
            notifier.wf(),
            notifier@.subscribers == Seq::<SubscriberModel>::empty(),
            notifier@.next_id == 0,
            notifier@.bound == bound,
    {
        let notifier = Notifier { subscribers: Vec::new(), next_id: 0, bound };
        notifier
    }

    /// Where the subscriber stands, if it is there.
    fn find(&self, id: u64) -> (found: Option<usize>)
        requires
            self.wf(),
        ensures
            match found {
                Some(i) => i < self.subscribers@.len() && self@.has(id) && self@.slot(id) == i,
                None => !self@.has(id),
            },
    {
        let mut i: usize = 0;
        while i < self.subscribers.len()
            invariant
                self.wf(),
                i <= self.subscribers@.len(),
                forall|j: int| 0 <= j < i ==> (#[trigger] self@.subscribers[j]).id != id,
            decreases self.subscribers@.len() - i,
        {
            if self.subscribers[i].id == id {
                proof {
                    assert(self@.subscribers[i as int].id == id);
                }
                return Some(i);
            }
            i += 1;
        }
        None
    }

    /// Adds a subscriber and returns its number. The subscriber sees the
    /// events that are published from now on, and none of the earlier ones.
    /// None is returned, and nothing changes, when the numbers have run out.
    pub fn subscribe(&mut self) -> (id: Option<u64>)
        requires
            old(self).wf(),
        ensures
            final(self).wf(),
            match id {
                Some(id) => old(self)@.next_id < u64::MAX && id == old(self)@.next_id && final(self)@ == old(self)@.subscribed(),
                None => old(self)@.next_id == u64::MAX && final(self)@ == old(self)@,
            },
    {
        if self.next_id == u64::MAX {
            return None;
        }
        let id = self.next_id;
        let subscriber = Subscriber { id, pending: Vec::new() };
        assert(subscriber.model().pending =~= Seq::empty());
        self.subscribers.push(subscriber);
        self.next_id = id + 1;
        proof {
            assert(self@.subscribers =~= old(self)@.subscribers.push(subscriber.model()));
        }
        Some(id)
    }

    /// Whether the subscriber is there: one that was dropped, or that left, is not.
    pub fn is_subscribed(&self, id: u64) -> (yes: bool)
        requires
            self.wf(),
        ensures
            yes == self@.has(id),
    {
        self.find(id).is_some()
    }

    /// Publishes an event: every subscriber gets it behind the events it
    /// holds, in the order of publication. A subscriber that already holds as
    /// many events as the bound allows is dropped. Returns how many were dropped.
    pub fn publish(&mut self, event: &Event) -> (dropped: usize)
        requires
            old(self).wf(),
        ensures
            final(self).wf(),
            final(self)@ == old(self)@.published(event@),
            dropped == old(self)@.subscribers.len() - final(self)@.subscribers.len(),
    {
        let ghost start = self@.subscribers;
        let total = self.subscribers.len();
        let mut dropped: usize = 0;
        let mut i: usize = 0;
        proof {
            lemma_published(self@, event@);
        }
        while i < self.subscribers.len()
            invariant
                start == old(self)@.subscribers,
                start.len() == total,
                self.bound == old(self).bound,
                self.next_id == old(self).next_id,
                i + dropped <= start.len(),
                i == delivered(start.take(i + dropped), event@, self.bound).len(),
                self@.subscribers == delivered(start.take(i + dropped), event@, self.bound)
                    + start.skip(i + dropped),
            decreases self.subscribers@.len() - i,
        {
            let ghost k = (i + dropped) as int;
            let ghost done = delivered(start.take(k), event@, self.bound);
            let ghost models = self@.subscribers;
            proof {
                assert(models[i as int] == start.skip(k)[0]);
                assert(start.take(k + 1).drop_last() =~= start.take(k));
            }
            if self.subscribers[i].pending.len() < self.bound {
                let copy = event.clone();
                self.subscribers[i].pending.push(copy);
                proof {
                    let now = self.subscribers@[i as int];
                    assert(event_models(now.pending@) =~= start[k].pending.push(event@));
                    assert(models.update(i as int, now.model()) =~= done.push(now.model())
                        + start.skip(k + 1));
                }
                i += 1;
            } else {
                self.subscribers.remove(i);
                proof {
                    assert(models.remove(i as int) =~= done + start.skip(k + 1));
                }
                dropped += 1;
            }
        }
        dropped
    }

    /// Publishes an event unless a subscriber has no room for it: then
    /// nothing changes, nobody is dropped, and the publisher is told to wait.
    pub fn try_publish(&mut self, event: &Event) -> (published: bool)
        requires
            old(self).wf(),
        ensures
            final(self).wf(),
            published == old(self)@.all_have_room(),
            published ==> final(self)@ == old(self)@.published(event@) && final(self)@.subscribers.len() == old(self)@.subscribers.len(),
            !published ==> final(self)@ == old(self)@,
    {
        let mut i: usize = 0;
        while i < self.subscribers.len()
            invariant
                self.wf(),
                self@ == old(self)@,
                i <= self.subscribers@.len(),
                forall|j: int|
                    0 <= j < i ==> (#[trigger] self@.subscribers[j]).pending.len() < self.bound,
            decreases self.subscribers@.len() - i,
        {
            if self.subscribers[i].pending.len() >= self.bound {
                assert(self@.subscribers[i as int].pending.len() >= self.bound);
                return false;
            }
            i += 1;
        }
        proof {
            lemma_keeps_all(self@.subscribers, event@, self.bound);
        }
        self.publish(event);
        true
    }

    /// Takes the oldest event that the subscriber has not taken yet. None
    /// is returned, and nothing changes, when the subscriber is not there or
    /// has no event to take.
    pub fn next(&mut self, id: u64) -> (event: Option<Event>)
        requires
            old(self).wf(),
        ensures
            final(self).wf(),
            match event {
                Some(event) => old(self)@.has(id) && old(self)@.pending(id).len() > 0 && event@
                    == old(self)@.pending(id)[0] && final(self)@ == old(self)@.taken(id),
                None => (!old(self)@.has(id) || old(self)@.pending(id).len() == 0) && final(self)@
                    == old(self)@,
            },
    {
        let i = match self.find(id) {
            Some(i) => i,
            None => {
                return None;
            },
        };
        if self.subscribers[i].pending.len() == 0 {
            return None;
        }
        let ghost here = self.subscribers@;
        let event = self.subscribers[i].pending.remove(0);
        proof {
            let now = self.subscribers@[i as int];
            assert(event_models(now.pending@) =~= event_models(here[i as int].pending@).skip(1));
            assert(self@.subscribers =~= old(self)@.subscribers.update(i as int, now.model()));
        }
        Some(event)
    }

    /// Removes the subscriber, and says whether it was there.
    pub fn unsubscribe(&mut self, id: u64) -> (found: bool)
        requires
            old(self).wf(),
        ensures
            final(self).wf(),
            found == old(self)@.has(id),
            found ==> final(self)@ == old(self)@.cancelled(id),
            !found ==> final(self)@ == old(self)@,
    {
        match self.find(id) {
            Some(i) => {
                self.subscribers.remove(i);
                proof {
                    assert(self@.subscribers =~= old(self)@.subscribers.remove(i as int));
                }
                true
            },
            None => false,
        }
    }
}

/// Where every subscriber has room, publishing drops nobody.
proof fn lemma_keeps_all(subscribers: Seq<SubscriberModel>, event: EventModel, bound: usize)
    requires
        forall|i: int|
            0 <= i < subscribers.len() ==> (#[trigger] subscribers[i]).pending.len() < bound,
    ensures
        delivered(subscribers, event, bound).len() == subscribers.len(),
    decreases subscribers.len(),
{
    if subscribers.len() > 0 {
        let rest = subscribers.drop_last();
        lemma_keeps_all(rest, event, bound);
    }
}

} // verus!
