//! What holds of the store and the engine under every operation.

use crate::document::same_document;
use crate::keys::name_is_valid;
use crate::manifest::{consistent, entity_keys, ordered, ObjectKind, ObjectModel};
use crate::model::{
    lemma_created, lemma_deleted, lemma_updated, EntityChain, EntityKind, ListQuery,
    StoreModel,
};
use crate::notifier::{EventModel, NotifierModel};
use crate::reconcile::{
    clean, latest_match, same_keys, undo, undo_one, ChangeModel, EngineModel, Operation, Outcome,
    Progress, RecordModel,
};
use vstd::prelude::*;

verus! {

/// Every entity of `before` is an entity of `after`, and its history in
/// `after` starts with its history in `before`: nothing was removed and no
/// stored version was changed.
pub open spec fn grows(before: StoreModel, after: StoreModel) -> bool {
    forall|key: Seq<char>| #[trigger]
        before.has(key) ==> after.has(key) && before.history(key).is_prefix_of(after.history(key))
}

/// Every entity of `after` is an entity of `before`, and its history in
/// `after` starts with its history in `before`: whole entities may be gone,
/// but of what stays no version was removed or changed.
pub open spec fn keeps_histories(before: StoreModel, after: StoreModel) -> bool {
    forall|key: Seq<char>| #[trigger]
        after.has(key) ==> before.has(key) && before.history(key).is_prefix_of(after.history(key))
}

/// Histories are append-only under a creation: every entity that was stored
/// stays, with its history unchanged.
pub proof fn law_create_keeps_histories(
    store: StoreModel,
    kind: EntityKind,
    namespace: Seq<char>,
    name: Seq<char>,
    payload: Seq<char>,
    schema_version: Seq<char>,
    now: i64,
)
    requires
        store.wf(),
        store.create_refusal(namespace, name).is_none(),
    ensures
        grows(store, store.created(kind, namespace, name, payload, schema_version, now)),
{
    lemma_created(store, kind, namespace, name, payload, schema_version, now);
}

/// Histories are append-only under an update: every entity stays, the
/// updated one with one more version at the end of its history, the others
/// with their histories unchanged.
pub proof fn law_update_keeps_histories(
    store: StoreModel,
    key: Seq<char>,
    payload: Seq<char>,
    schema_version: Seq<char>,
    now: i64,
)
    requires
        store.wf(),
        store.update_refusal(key).is_none(),
    ensures
        grows(store, store.updated(key, payload, schema_version, now)),
        store.updated(key, payload, schema_version, now).history(key) == store.history(key).push(
            store.next_version(key, payload, schema_version, now),
        ),
{
    lemma_updated(store, key, payload, schema_version, now);
}

/// Only a deletion removes versions, and then a whole entity with all of
/// them: every other entity stays, with its history unchanged.
pub proof fn law_delete_keeps_histories(store: StoreModel, key: Seq<char>)
    requires
        store.wf(),
        store.has(key),
    ensures
        keeps_histories(store, store.deleted(key)),
        forall|k: Seq<char>| k != key && store.has(k) ==> store.deleted(key).has(k),
{
    lemma_deleted(store, key);
}

/// A reset of an entity with the history `[v1, .., vn]` to one of its
/// versions `v` leaves it with the history `[v1, .., vn, w]`, where the new
/// head `w` has the payload and the schema label of `v` and a key that no
/// version had before. Every other entity keeps its history.
pub proof fn law_reset_appends_copy(store: StoreModel, key: Seq<char>, version_key: u64, now: i64)
    requires
        store.wf(),
        store.reset_refusal(key, version_key).is_none(),
    ensures
        ({
            let after = store.reset(key, version_key, now);
            let target = store.version(version_key);
            let head = after.chain(key).head();
            &&& after.wf()
            &&& grows(store, after)
            &&& store.history(key).contains(target)
            &&& after.history(key) == store.history(key).push(head)
            &&& head.payload == target.payload
            &&& head.schema_version == target.schema_version
            &&& head.entity_key == key
            &&& head.version_key == store.next_key
            &&& !store.has_version(head.version_key)
        }),
{
    let target = store.version(version_key);
    lemma_updated(store, key, target.payload, target.schema_version, now);
    let (i, j) = choose|i: int, j: int| store.holds_version(i, j, version_key);
    if store.has_version(store.next_key) {
        let (a, b) = choose|a: int, b: int| store.holds_version(a, b, store.next_key);
    }
}

/// The head of an entity resolves: the key that an entity gives as its
/// current version is the key of a stored version, that version is the last
/// of the entity's history, and it belongs to the entity.
pub proof fn law_head_resolves(store: StoreModel, key: Seq<char>)
    requires
        store.wf(),
        store.has(key),
    ensures
        ({
            let entity = store.chain(key).snapshot();
            &&& store.history(key).len() > 0
            &&& store.has_version(entity.current_version_key)
            &&& store.version(entity.current_version_key) == store.history(key).last()
            &&& entity.version == store.history(key).last()
            &&& entity.version.entity_key == key
        }),
{
    let i = store.slot(key);
    let j = store.history(key).len() - 1;
    let head = store.history(key).last().version_key;
    assert(store.holds_version(i, j, head));
    let (a, b) = choose|a: int, b: int| store.holds_version(a, b, head);
}

/// Version keys are never reused: no stored version has the key that the
/// next version will get, or a later one; a creation and an update give
/// their version that key and move on to the next; and a deletion, which
/// takes versions away, leaves the next key where it is.
pub proof fn law_version_keys_are_fresh(
    store: StoreModel,
    kind: EntityKind,
    namespace: Seq<char>,
    name: Seq<char>,
    key: Seq<char>,
    payload: Seq<char>,
    schema_version: Seq<char>,
    now: i64,
)
    requires
        store.wf(),
        store.has_room(),
    ensures
        forall|version_key: u64| version_key >= store.next_key ==> !store.has_version(version_key),
        store.next_version(key, payload, schema_version, now).version_key == store.next_key,
        store.created(kind, namespace, name, payload, schema_version, now).next_key
            == store.next_key + 1,
        store.updated(key, payload, schema_version, now).next_key == store.next_key + 1,
        store.deleted(key).next_key == store.next_key,
{
}

/// Whether the entities stand in the order of their creation.
pub open spec fn in_creation_order(chains: Seq<EntityChain>) -> bool {
    forall|i: int, j: int|
        0 <= i < j < chains.len() ==> (#[trigger] chains[i]).created_at <= (
        #[trigger] chains[j]).created_at
}

/// Picking entities keeps them in the order of their creation.
pub proof fn lemma_filter_keeps_order(chains: Seq<EntityChain>, pick: spec_fn(EntityChain) -> bool)
    requires
        in_creation_order(chains),
    ensures
        in_creation_order(chains.filter(pick)),
        forall|i: int|
            0 <= i < chains.filter(pick).len() ==> chains.len() > 0 && (
            #[trigger] chains.filter(pick)[i]).created_at <= chains.last().created_at,
    decreases chains.len(),
{
    reveal(Seq::filter);
    if chains.len() > 0 {
        let rest = chains.drop_last();
        lemma_filter_keeps_order(rest, pick);
    }
}

/// A listing is in the order of creation: of two entities that a listing
/// holds, the one that stands first was not created later.
pub proof fn law_listing_is_in_creation_order(store: StoreModel, query: ListQuery)
    requires
        store.wf(),
    ensures
        forall|i: int, j: int|
            0 <= i < j < store.listing(query).len() ==> (
            #[trigger] store.listing(query)[i]).created_at <= (
            #[trigger] store.listing(query)[j]).created_at,
{
    lemma_filter_keeps_order(store.entities, query.selector());
}

/// A new subscriber sees no history: right after it subscribed, it has no
/// event to take, whatever was published before; and the subscribers that
/// were there hold what they held.
pub proof fn law_subscription_starts_empty(notifier: NotifierModel, id: u64)
    requires
        notifier.wf(),
        notifier.next_id < u64::MAX,
    ensures
        notifier.subscribed().wf(),
        notifier.subscribed().has(notifier.next_id),
        notifier.subscribed().pending(notifier.next_id) == Seq::<EventModel>::empty(),
        notifier.has(id) ==> notifier.subscribed().has(id) && notifier.subscribed().pending(id)
            == notifier.pending(id),
{
    let after = notifier.subscribed();
    let n = notifier.subscribers.len() as int;
    assert(after.subscribers[n].id == notifier.next_id);
    assert forall|i: int, j: int| 0 <= i < j < after.subscribers.len() implies (
    #[trigger] after.subscribers[i]).id != (#[trigger] after.subscribers[j]).id by {}
    assert forall|i: int| 0 <= i < after.subscribers.len() implies (
    #[trigger] after.subscribers[i]).id < after.next_id && after.subscribers[i].pending.len()
        <= after.bound by {}
    if notifier.has(id) {
        let i = notifier.slot(id);
        let t = after.slot(id);
        if t < i {
            assert(after.subscribers[t].id != after.subscribers[i].id);
        }
    }
}

/// Whether one of the changes created the entity `key`.
pub open spec fn creates(changes: Seq<ChangeModel>, key: Seq<char>) -> bool {
    exists|i: int|
        0 <= i < changes.len() && (#[trigger] changes[i]).operation == Operation::Create
            && changes[i].entity_key == key
}

/// Whether the store already is as the object describes, so that applying
/// the object changes nothing.
pub open spec fn settled(store: StoreModel, object: ObjectModel) -> bool {
    &&& object.well_formed()
    &&& if object.kind == ObjectKind::Namespace {
        store.has_namespace(object.name)
    } else {
        &&& name_is_valid(object.name)
        &&& store.has(object.key())
        &&& store.chain(object.key()).kind == object.kind.entity_kind().unwrap()
        &&& same_document(store.chain(object.key()).head().payload, object.spec)
    }
}

/// One step of an apply keeps the store well formed, removes nothing, adds
/// one outcome, and adds an entity only together with the change that records
/// its creation.
pub proof fn lemma_step(progress: Progress, object: ObjectModel, now: i64)
    requires
        progress.store.wf(),
    ensures
        ({
            let next = progress.step(object, now);
            &&& next.store.wf()
            &&& grows(progress.store, next.store)
            &&& next.outcomes.len() == progress.outcomes.len() + 1
            &&& next.outcomes.drop_last() == progress.outcomes
            &&& progress.changes.is_prefix_of(next.changes)
            &&& forall|name: Seq<char>|
                progress.store.has_namespace(name) ==> next.store.has_namespace(name)
            &&& forall|key: Seq<char>| #[trigger]
                next.store.has(key) ==> progress.store.has(key) || creates(next.changes, key)
        }),
{
    let next = progress.step(object, now);
    let store = progress.store;
    if !object.well_formed() {
        // Nothing changes.
    } else if object.kind == ObjectKind::Namespace {
        if !store.has_namespace(object.name) {
            let after = store.namespace_created(object.name);
            lemma_namespace_created(store, object.name);
            assert forall|name: Seq<char>| store.has_namespace(name) implies after.has_namespace(
                name,
            ) by {
                let i = choose|i: int| 0 <= i < store.namespaces.len() && store.namespaces[i] == name;
                assert(after.namespaces[i] == name);
            }
        }
    } else if name_is_valid(object.name) {
        let key = object.key();
        let kind = object.kind.entity_kind().unwrap();
        if !store.has(key) {
            if store.has_room() {
                lemma_created(
                    store,
                    kind,
                    object.namespace,
                    object.name,
                    object.spec,
                    object.schema_version,
                    now,
                );
                assert(next.changes[next.changes.len() - 1].entity_key == key);
            }
        } else if store.chain(key).kind == kind && !same_document(
            store.chain(key).head().payload,
            object.spec,
        ) && store.has_room() {
            lemma_updated(store, key, object.spec, object.schema_version, now);
        }
    }
}

/// Creating a namespace keeps the store well formed and its entities as they were.
pub proof fn lemma_namespace_created(store: StoreModel, name: Seq<char>)
    requires
        store.wf(),
        !store.has_namespace(name),
    ensures
        store.namespace_created(name).wf(),
        store.namespace_created(name).has_namespace(name),
        grows(store, store.namespace_created(name)),
        forall|key: Seq<char>|
            store.namespace_created(name).has(key) == store.has(key) && store.namespace_created(
                name,
            ).chain(key) == store.chain(key),
{
    let after = store.namespace_created(name);
    assert(after.namespaces[store.namespaces.len() as int] == name);
    assert forall|i: int, j: int, version_key: u64| #[trigger]
        after.holds_version(i, j, version_key) implies version_key < after.next_key by {
        assert(store.holds_version(i, j, version_key));
    }
    assert forall|i1: int, j1: int, i2: int, j2: int, version_key: u64|
        #[trigger] after.holds_version(i1, j1, version_key) && #[trigger] after.holds_version(
            i2,
            j2,
            version_key,
        ) implies i1 == i2 && j1 == j2 by {
        assert(store.holds_version(i1, j1, version_key));
        assert(store.holds_version(i2, j2, version_key));
    }
}

/// What [`lemma_step`] says of one step holds of any number of them.
pub proof fn lemma_run(progress: Progress, objects: Seq<ObjectModel>, now: i64)
    requires
        progress.store.wf(),
    ensures
        ({
            let end = progress.run(objects, now);
            &&& end.store.wf()
            &&& grows(progress.store, end.store)
            &&& end.outcomes.len() == progress.outcomes.len() + objects.len()
            &&& progress.outcomes.is_prefix_of(end.outcomes)
            &&& progress.changes.is_prefix_of(end.changes)
            &&& forall|name: Seq<char>|
                progress.store.has_namespace(name) ==> end.store.has_namespace(name)
            &&& forall|key: Seq<char>| #[trigger]
                end.store.has(key) ==> progress.store.has(key) || creates(end.changes, key)
        }),
    decreases objects.len(),
{
    if objects.len() > 0 {
        let middle = progress.run(objects.drop_last(), now);
        lemma_run(progress, objects.drop_last(), now);
        lemma_step(middle, objects.last(), now);
    }
}

/// Taking one change back keeps the store well formed and adds no entity;
/// every entity that stays keeps its history, with at most one version more;
/// and an entity that the change created is gone.
pub proof fn lemma_undo_one(store: StoreModel, change: ChangeModel, now: i64)
    requires
        store.wf(),
    ensures
        ({
            let after = undo_one(store, change, now).0;
            &&& after.wf()
            &&& keeps_histories(store, after)
            &&& change.operation == Operation::Create ==> !after.has(change.entity_key)
        }),
{
    match change.operation {
        Operation::Create => {
            if store.has(change.entity_key) {
                lemma_deleted(store, change.entity_key);
            }
        },
        Operation::Update => {
            match change.version_key_before {
                Some(version_key) => {
                    if store.reset_refusal(change.entity_key, version_key).is_none() {
                        let target = store.version(version_key);
                        lemma_updated(
                            store,
                            change.entity_key,
                            target.payload,
                            target.schema_version,
                            now,
                        );
                    }
                },
                None => {},
            }
        },
    }
}

/// What [`lemma_undo_one`] says of one change holds of any number of them.
pub proof fn lemma_undo(store: StoreModel, changes: Seq<ChangeModel>, now: i64)
    requires
        store.wf(),
    ensures
        ({
            let end = undo(store, changes, now);
            &&& end.store.wf()
            &&& keeps_histories(store, end.store)
            &&& end.outcomes.len() == changes.len()
            &&& forall|key: Seq<char>| creates(changes, key) ==> !end.store.has(key)
        }),
    decreases changes.len(),
{
    let end = undo(store, changes, now);
    if changes.len() > 0 {
        let next = undo_one(store, changes.last(), now).0;
        lemma_undo_one(store, changes.last(), now);
        lemma_undo(next, changes.drop_last(), now);
        assert forall|key: Seq<char>| creates(changes, key) implies !end.store.has(key) by {
            let i = choose|i: int|
                0 <= i < changes.len() && (#[trigger] changes[i]).operation == Operation::Create
                    && changes[i].entity_key == key;
            if i < changes.len() - 1 {
                assert(changes.drop_last()[i] == changes[i]);
                assert(creates(changes.drop_last(), key));
            }
        }
    }
}

/// Histories are append-only under an apply: every entity that was stored
/// stays, and its history after the apply starts with its history before.
pub proof fn law_apply_keeps_histories(engine: EngineModel, objects: Seq<ObjectModel>, now: i64)
    requires
        engine.store.wf(),
    ensures
        engine.applied(objects, now).store.wf(),
        grows(engine.store, engine.applied(objects, now).store),
{
    lemma_run(Progress::start(engine.store), ordered(objects), now);
}

/// Histories are append-only under a revert: it may delete entities that an
/// apply created, but of every entity that stays, the history after the
/// revert starts with its history before.
pub proof fn law_revert_keeps_histories(engine: EngineModel, objects: Seq<ObjectModel>, now: i64)
    requires
        engine.store.wf(),
    ensures
        engine.reverted(objects, now).store.wf(),
        keeps_histories(engine.store, engine.reverted(objects, now).store),
{
    match latest_match(engine.ledger, entity_keys(objects)) {
        Some(i) => {
            lemma_undo(engine.store, engine.ledger[i].changes, now);
        },
        None => {},
    }
}

/// A revert consumes one record, and without one it does nothing: where an
/// apply of a manifest with the same entities is on record, the latest such
/// record leaves the records and the others stay in their order; where none
/// is, the engine stays as it is and nothing is reported.
pub proof fn law_revert_consumes_one_record(
    engine: EngineModel,
    objects: Seq<ObjectModel>,
    now: i64,
)
    ensures
        match latest_match(engine.ledger, entity_keys(objects)) {
            Some(i) => {
                &&& 0 <= i < engine.ledger.len()
                &&& same_keys(engine.ledger[i].keys, entity_keys(objects))
                &&& engine.reverted(objects, now).ledger == engine.ledger.remove(i)
                &&& engine.reverted(objects, now).ledger.len() == engine.ledger.len() - 1
                &&& engine.reversal(objects, now).record == Some(engine.ledger[i])
                &&& forall|j: int|
                    i < j < engine.ledger.len() ==> !same_keys(
                        (#[trigger] engine.ledger[j]).keys,
                        entity_keys(objects),
                    )
            },
            None => {
                &&& engine.reverted(objects, now) == engine
                &&& engine.reversal(objects, now).record.is_none()
                &&& engine.reversal(objects, now).outcomes.len() == 0
                &&& forall|j: int|
                    0 <= j < engine.ledger.len() ==> !same_keys(
                        (#[trigger] engine.ledger[j]).keys,
                        entity_keys(objects),
                    )
            },
        },
{
    lemma_latest_is_latest(engine.ledger, entity_keys(objects));
}

/// The latest record with the wanted keys is the last of the records with
/// those keys; where there is none, no record has those keys.
pub proof fn lemma_latest_is_latest(ledger: Seq<RecordModel>, keys: Seq<Seq<char>>)
    ensures
        match latest_match(ledger, keys) {
            Some(i) => 0 <= i < ledger.len() && same_keys(ledger[i].keys, keys) && forall|j: int|
                i < j < ledger.len() ==> !same_keys((#[trigger] ledger[j]).keys, keys),
            None => forall|j: int|
                0 <= j < ledger.len() ==> !same_keys((#[trigger] ledger[j]).keys, keys),
        },
    decreases ledger.len(),
{
    if ledger.len() > 0 && !same_keys(ledger.last().keys, keys) {
        let rest = ledger.drop_last();
        lemma_latest_is_latest(rest, keys);
        match latest_match(rest, keys) {
            Some(i) => {
                assert forall|j: int| i < j < ledger.len() implies !same_keys(
                    (#[trigger] ledger[j]).keys,
                    keys,
                ) by {
                    if j < rest.len() {
                        assert(rest[j] == ledger[j]);
                    }
                }
            },
            None => {
                assert forall|j: int| 0 <= j < ledger.len() implies !same_keys(
                    (#[trigger] ledger[j]).keys,
                    keys,
                ) by {
                    if j < rest.len() {
                        assert(rest[j] == ledger[j]);
                    }
                }
            },
        }
    }
}

/// Revert inverts apply: an entity that was not stored before an apply is
/// not stored after the apply and a revert of the same manifest. So after
/// both, none of the manifest's entities that were absent before is stored.
pub proof fn law_revert_undoes_apply(
    engine: EngineModel,
    objects: Seq<ObjectModel>,
    now: i64,
    later: i64,
)
    requires
        engine.store.wf(),
    ensures
        ({
            let end = engine.applied(objects, now).reverted(objects, later);
            &&& end.store.wf()
            &&& forall|key: Seq<char>| !engine.store.has(key) ==> !end.store.has(key)
            &&& (forall|key: Seq<char>|
                entity_keys(objects).contains(key) ==> !engine.store.has(key)) ==> (forall|
                key: Seq<char>,
            | entity_keys(objects).contains(key) ==> !end.store.has(key))
        }),
{
    let done = Progress::start(engine.store).run(ordered(objects), now);
    let once = engine.applied(objects, now);
    let end = once.reverted(objects, later);
    lemma_run(Progress::start(engine.store), ordered(objects), now);
    law_revert_keeps_histories(once, objects, later);
    assert forall|key: Seq<char>| !engine.store.has(key) implies !end.store.has(key) by {
        if end.store.has(key) {
            lemma_undo(once.store, done.changes, later);
        }
    }
}

/// A step that does not fail leaves the store as its object describes.
pub proof fn lemma_step_settles(progress: Progress, object: ObjectModel, now: i64)
    requires
        progress.store.wf(),
        !(progress.step(object, now).outcomes.last() is Failed),
    ensures
        settled(progress.step(object, now).store, object),
{
    let store = progress.store;
    if object.kind == ObjectKind::Namespace {
        if !store.has_namespace(object.name) {
            lemma_namespace_created(store, object.name);
        }
    } else {
        let key = object.key();
        let kind = object.kind.entity_kind().unwrap();
        if !store.has(key) {
            lemma_created(
                store,
                kind,
                object.namespace,
                object.name,
                object.spec,
                object.schema_version,
                now,
            );
        } else if !same_document(store.chain(key).head().payload, object.spec) {
            lemma_updated(store, key, object.spec, object.schema_version, now);
        }
    }
}

/// An apply without a failure leaves the store as each of its objects
/// describes, if no two of them describe one entity in two ways.
pub proof fn lemma_run_settles(progress: Progress, objects: Seq<ObjectModel>, now: i64)
    requires
        progress.store.wf(),
        consistent(objects),
        clean(progress.run(objects, now).outcomes, progress.outcomes.len() as int),
    ensures
        forall|i: int|
            0 <= i < objects.len() ==> settled(
                progress.run(objects, now).store,
                #[trigger] objects[i],
            ),
    decreases objects.len(),
{
    if objects.len() > 0 {
        let rest = objects.drop_last();
        let middle = progress.run(rest, now);
        let end = progress.run(objects, now);
        lemma_run(progress, rest, now);
        lemma_step(middle, objects.last(), now);
        lemma_run_settles(progress, rest, now);
        lemma_step_settles(middle, objects.last(), now);
        assert forall|i: int| 0 <= i < objects.len() implies settled(
            end.store,
            #[trigger] objects[i],
        ) by {
            if i < rest.len() {
                assert(rest[i] == objects[i]);
            }
        }
    }
}

/// The outcomes of an apply that found nothing to do.
pub open spec fn all_unchanged(count: nat) -> Seq<Outcome> {
    Seq::new(count, |i: int| Outcome::Unchanged)
}

/// An apply to a store that already is as each object describes changes
/// nothing and reports every object as unchanged.
pub proof fn lemma_settled_run(progress: Progress, objects: Seq<ObjectModel>, now: i64)
    requires
        forall|i: int| 0 <= i < objects.len() ==> settled(progress.store, #[trigger] objects[i]),
    ensures
        progress.run(objects, now).store == progress.store,
        progress.run(objects, now).changes == progress.changes,
        progress.run(objects, now).outcomes == progress.outcomes + all_unchanged(objects.len()),
    decreases objects.len(),
{
    if objects.len() > 0 {
        lemma_settled_run(progress, objects.drop_last(), now);
    }
}

/// Putting the objects in the order of their application keeps them
/// consistent: it only moves them.
pub proof fn lemma_ordered_consistent(objects: Seq<ObjectModel>)
    requires
        consistent(objects),
    ensures
        consistent(ordered(objects)),
{
    let sorted = ordered(objects);
    assert forall|i: int| 0 <= i < sorted.len() implies objects.contains(#[trigger] sorted[i]) by {
        let first = objects.filter(crate::manifest::of_rank(0));
        let second = objects.filter(crate::manifest::of_rank(1));
        if i < first.len() {
            objects.lemma_filter_contains_rev(crate::manifest::of_rank(0), sorted[i]);
        } else if i < first.len() + second.len() {
            objects.lemma_filter_contains_rev(crate::manifest::of_rank(1), sorted[i]);
        } else {
            objects.lemma_filter_contains_rev(crate::manifest::of_rank(2), sorted[i]);
        }
    }
}

/// Apply is idempotent: after an apply without a failure, of a manifest in
/// which no two objects describe one entity in two ways, a second apply of
/// the same manifest changes nothing: the store and the engine's records stay
/// as they are, no version is made, the record of the second apply holds no
/// change, and every object is reported as unchanged.
pub proof fn law_apply_is_idempotent(
    engine: EngineModel,
    objects: Seq<ObjectModel>,
    now: i64,
    later: i64,
)
    requires
        engine.store.wf(),
        consistent(objects),
        clean(engine.receipt(objects, now).outcomes, 0),
    ensures
        ({
            let once = engine.applied(objects, now);
            &&& once.applied(objects, later) == once
            &&& once.receipt(objects, later).record.changes == Seq::<ChangeModel>::empty()
            &&& once.receipt(objects, later).outcomes == all_unchanged(ordered(objects).len())
        }),
{
    let sorted = ordered(objects);
    let once = engine.applied(objects, now);
    lemma_ordered_consistent(objects);
    lemma_run_settles(Progress::start(engine.store), sorted, now);
    lemma_settled_run(Progress::start(once.store), sorted, later);
}

} // verus!
