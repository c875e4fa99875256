//! The reconciliation engine: brings the store to the state that a manifest
//! describes, and takes such a change back.

use crate::document::{documents_agree, same_document};
use crate::keys::{name_is_valid, valid_name};
use crate::manifest::{entity_keys, object_models, ordered, Manifest, ManifestObject, ObjectKind, ObjectModel};
use crate::model::{lemma_created, lemma_updated, StoreError, StoreModel};
use crate::store::{Entity, ObjectStore};
use crate::text::{same_text, texts};
use vstd::prelude::*;
use vstd::string::*;

verus! {

/// What an apply did to an entity.
#[derive(Debug, Clone, Copy, PartialEq, Eq, Structural)]
pub enum Operation {
    Create,
    Update,
}

/// What became of one object of a manifest.
#[derive(Debug, Clone, Copy, PartialEq, Eq, Structural)]
pub enum Outcome {
    /// The object was absent and was created.
    Created,
    /// The object was present with another payload and got a new head.
    Updated,
    /// The object was present as described: nothing was done.
    Unchanged,
    /// The object was refused; the others went on.
    Failed(StoreError),
}

/// What became of one change when it was taken back.
#[derive(Debug, Clone, Copy, PartialEq, Eq, Structural)]
pub enum Undone {
    /// The entity that the change created was deleted.
    Deleted,
    /// The entity got a new head, with this key, that has the payload it
    /// had before the change.
    Restored(u64),
    /// The change could not be taken back; the others went on.
    Failed(StoreError),
}

/// One change that an apply made.
#[derive(Debug, PartialEq, Eq)]
pub struct Change {
    pub entity_key: String,
    /// The head before the change; none where the entity was created.
    pub version_key_before: Option<u64>,
    /// The head after the change.
    pub version_key_after: u64,
    pub operation: Operation,
}

/// One change that an apply made, as a value.
pub struct ChangeModel {
    pub entity_key: Seq<char>,
    pub version_key_before: Option<u64>,
    pub version_key_after: u64,
    pub operation: Operation,
}

impl View for Change {
    type V = ChangeModel;

    open spec fn view(&self) -> ChangeModel {
        ChangeModel {
            entity_key: self.entity_key@,
            version_key_before: self.version_key_before,
            version_key_after: self.version_key_after,
            operation: self.operation,
        }
    }
}

impl Clone for Change {
    fn clone(&self) -> (copy: Change)
        ensures
            copy == *self,
    {
        Change {
            entity_key: self.entity_key.clone(),
            version_key_before: self.version_key_before,
            version_key_after: self.version_key_after,
            operation: self.operation,
        }
    }
}

/// The views of a sequence of changes.
pub open spec fn change_models(changes: Seq<Change>) -> Seq<ChangeModel> {
    Seq::new(changes.len(), |i: int| changes[i]@)
}

/// The record of one apply: the keys of the entities that its manifest
/// described, and the changes it made, in the order in which it made them.
#[derive(Debug, PartialEq, Eq)]
pub struct ReconciliationRecord {
    pub keys: Vec<String>,
    pub changes: Vec<Change>,
}

/// The record of one apply, as a value.
pub struct RecordModel {
    pub keys: Seq<Seq<char>>,
    pub changes: Seq<ChangeModel>,
}

impl View for ReconciliationRecord {
    type V = RecordModel;

    open spec fn view(&self) -> RecordModel {
        RecordModel { keys: texts(self.keys@), changes: change_models(self.changes@) }
    }
}

/// What an apply hands back: its record, and what became of each object, in
/// the order in which the objects were applied.
#[derive(Debug, PartialEq, Eq)]
pub struct Receipt {
    pub record: ReconciliationRecord,
    pub outcomes: Vec<Outcome>,
}

/// What an apply hands back, as a value.
pub struct ReceiptModel {
    pub record: RecordModel,
    pub outcomes: Seq<Outcome>,
}

impl View for Receipt {
    type V = ReceiptModel;

    open spec fn view(&self) -> ReceiptModel {
        ReceiptModel { record: self.record@, outcomes: self.outcomes@ }
    }
}

/// What a revert hands back: the record that it took back, if there was
/// one, and what became of each of its changes, in the order in which they
/// were taken back.
#[derive(Debug, PartialEq, Eq)]
pub struct Reversal {
    pub record: Option<ReconciliationRecord>,
    pub outcomes: Vec<Undone>,
}

/// What a revert hands back, as a value.
pub struct ReversalModel {
    pub record: Option<RecordModel>,
    pub outcomes: Seq<Undone>,
}

impl View for Reversal {
    type V = ReversalModel;

    open spec fn view(&self) -> ReversalModel {
        ReversalModel {
            record: match self.record {
                Some(record) => Some(record@),
                None => None,
            },
            outcomes: self.outcomes@,
        }
    }
}

/// Whether no outcome from place `from` on is a failure.
pub open spec fn clean(outcomes: Seq<Outcome>, from: int) -> bool {
    forall|i: int| from <= i < outcomes.len() ==> !((#[trigger] outcomes[i]) is Failed)
}

impl Receipt {
    /// Whether no object was refused.
    pub fn succeeded(&self) -> (yes: bool)
        ensures
            yes == clean(self@.outcomes, 0),
    {
        let mut i: usize = 0;
        while i < self.outcomes.len()
            invariant
                i <= self.outcomes@.len(),
                forall|j: int| 0 <= j < i ==> !((#[trigger] self.outcomes@[j]) is Failed),
            decreases self.outcomes@.len() - i,
        {
            match self.outcomes[i] {
                Outcome::Failed(_) => {
                    return false;
                },
                _ => {},
            }
            i += 1;
        }
        true
    }
}

/// An apply under way: the store, the changes made and the outcomes so far.
pub struct Progress {
    pub store: StoreModel,
    pub changes: Seq<ChangeModel>,
    pub outcomes: Seq<Outcome>,
}

impl Progress {
    /// An apply that has done nothing yet.
    pub open spec fn start(store: StoreModel) -> Progress {
        Progress { store, changes: Seq::empty(), outcomes: Seq::empty() }
    }

    /// The apply after an object that changed nothing.
    pub open spec fn noted(self, outcome: Outcome) -> Progress {
        Progress { outcomes: self.outcomes.push(outcome), ..self }
    }

    /// The apply after a namespace object.
    pub open spec fn step_namespace(self, object: ObjectModel) -> Progress {
        if self.store.has_namespace(object.name) {
            self.noted(Outcome::Unchanged)
        } else {
            Progress {
                store: self.store.namespace_created(object.name),
                outcomes: self.outcomes.push(Outcome::Created),
                ..self
            }
        }
    }

    /// The apply after an object that describes an entity.
    pub open spec fn step_entity(self, object: ObjectModel, now: i64) -> Progress {
        let key = object.key();
        let kind = object.kind.entity_kind().unwrap();
        if !name_is_valid(object.name) {
            self.noted(Outcome::Failed(StoreError::InvalidName))
        } else if !self.store.has(key) {
            if !self.store.has_room() {
                self.noted(Outcome::Failed(StoreError::StorageUnavailable))
            } else {
                Progress {
                    store: self.store.created(
                        kind,
                        object.namespace,
                        object.name,
                        object.spec,
                        object.schema_version,
                        now,
                    ),
                    changes: self.changes.push(
                        ChangeModel {
                            entity_key: key,
                            version_key_before: None,
                            version_key_after: self.store.next_key,
                            operation: Operation::Create,
                        },
                    ),
                    outcomes: self.outcomes.push(Outcome::Created),
                }
            }
        } else if self.store.chain(key).kind != kind {
            self.noted(Outcome::Failed(StoreError::NameConflict))
        } else if same_document(self.store.chain(key).head().payload, object.spec) {
            self.noted(Outcome::Unchanged)
        } else if !self.store.has_room() {
            self.noted(Outcome::Failed(StoreError::StorageUnavailable))
        } else {
            Progress {
                store: self.store.updated(key, object.spec, object.schema_version, now),
                changes: self.changes.push(
                    ChangeModel {
                        entity_key: key,
                        version_key_before: Some(self.store.chain(key).head().version_key),
                        version_key_after: self.store.next_key,
                        operation: Operation::Update,
                    },
                ),
                outcomes: self.outcomes.push(Outcome::Updated),
            }
        }
    }

    /// The apply after one more object: an object that is not well formed is
    /// refused with `InvalidSpec`; a namespace is created unless it exists;
    /// an entity is created if it is absent, left alone if its head says the
    /// same as the object's payload, and given a new head otherwise.
    pub open spec fn step(self, object: ObjectModel, now: i64) -> Progress {
        if !object.well_formed() {
            self.noted(Outcome::Failed(StoreError::InvalidSpec))
        } else if object.kind == ObjectKind::Namespace {
            self.step_namespace(object)
        } else {
            self.step_entity(object, now)
        }
    }

    /// The apply after the objects, one after the other.
    pub open spec fn run(self, objects: Seq<ObjectModel>, now: i64) -> Progress
        decreases objects.len(),
    {
        if objects.len() == 0 {
            self
        } else {
            self.run(objects.drop_last(), now).step(objects.last(), now)
        }
    }
}

/// The store and the outcomes after changes were taken back.
pub struct Rollback {
    pub store: StoreModel,
    pub outcomes: Seq<Undone>,
}

/// The store after one change was taken back, and what became of the change:
/// an entity that the change created is deleted; an entity that it updated
/// gets a new head that copies the head it had before.
pub open spec fn undo_one(store: StoreModel, change: ChangeModel, now: i64) -> (StoreModel, Undone) {
    match change.operation {
        Operation::Create => if store.has(change.entity_key) {
            (store.deleted(change.entity_key), Undone::Deleted)
        } else {
            (store, Undone::Failed(StoreError::NotFound))
        },
        Operation::Update => match change.version_key_before {
            Some(version_key) => match store.reset_refusal(change.entity_key, version_key) {
                Some(error) => (store, Undone::Failed(error)),
                None => (
                    store.reset(change.entity_key, version_key, now),
                    Undone::Restored(store.next_key),
                ),
            },
            None => (store, Undone::Failed(StoreError::NotFound)),
        },
    }
}

/// The store after the changes were taken back, the last one first, and what
/// became of each, in the order in which they were taken back.
pub open spec fn undo(store: StoreModel, changes: Seq<ChangeModel>, now: i64) -> Rollback
    decreases changes.len(),
{
    if changes.len() == 0 {
        Rollback { store, outcomes: Seq::empty() }
    } else {
        let (next, outcome) = undo_one(store, changes.last(), now);
        let rest = undo(next, changes.drop_last(), now);
        Rollback { store: rest.store, outcomes: seq![outcome] + rest.outcomes }
    }
}

/// Whether two lists of keys hold the same keys.
pub open spec fn same_keys(a: Seq<Seq<char>>, b: Seq<Seq<char>>) -> bool {
    forall|key: Seq<char>| a.contains(key) <==> b.contains(key)
}

/// The place of the latest record whose keys are `keys`, if there is one.
pub open spec fn latest_match(ledger: Seq<RecordModel>, keys: Seq<Seq<char>>) -> Option<int>
    decreases ledger.len(),
{
    if ledger.len() == 0 {
        None
    } else if same_keys(ledger.last().keys, keys) {
        Some(ledger.len() - 1)
    } else {
        latest_match(ledger.drop_last(), keys)
    }
}

/// The engine: the store, and the records of the applies that changed
/// something and were not taken back, oldest first.
pub struct EngineModel {
    pub store: StoreModel,
    pub ledger: Seq<RecordModel>,
}

impl EngineModel {
    /// What an apply of `objects` hands back.
    pub open spec fn receipt(self, objects: Seq<ObjectModel>, now: i64) -> ReceiptModel {
        let done = Progress::start(self.store).run(ordered(objects), now);
        ReceiptModel {
            record: RecordModel { keys: entity_keys(objects), changes: done.changes },
            outcomes: done.outcomes,
        }
    }

    /// The engine after an apply of `objects`. The record is kept only if the
    /// apply changed something.
    pub open spec fn applied(self, objects: Seq<ObjectModel>, now: i64) -> EngineModel {
        let done = Progress::start(self.store).run(ordered(objects), now);
        EngineModel {
            store: done.store,
            ledger: if done.changes.len() > 0 {
                self.ledger.push(self.receipt(objects, now).record)
            } else {
                self.ledger
            },
        }
    }

    /// The engine after the latest apply of a manifest with these objects'
    /// keys was taken back; the engine itself if there is no such apply.
    pub open spec fn reverted(self, objects: Seq<ObjectModel>, now: i64) -> EngineModel {
        match latest_match(self.ledger, entity_keys(objects)) {
            Some(i) => EngineModel {
                store: undo(self.store, self.ledger[i].changes, now).store,
                ledger: self.ledger.remove(i),
            },
            None => self,
        }
    }

    /// What a revert of `objects` hands back: the record it took back and
    /// what became of each of its changes; nothing if there is no such record.
    pub open spec fn reversal(self, objects: Seq<ObjectModel>, now: i64) -> ReversalModel {
        match latest_match(self.ledger, entity_keys(objects)) {
            Some(i) => ReversalModel {
                record: Some(self.ledger[i]),
                outcomes: undo(self.store, self.ledger[i].changes, now).outcomes,
            },
            None => ReversalModel { record: None, outcomes: Seq::empty() },
        }
    }
}

/// The views of a sequence of records.
pub open spec fn record_models(records: Seq<ReconciliationRecord>) -> Seq<RecordModel> {
    Seq::new(records.len(), |i: int| records[i]@)
}

/// Whether `key` is one of `keys`.
fn holds_key(keys: &Vec<String>, key: &str) -> (yes: bool)
    ensures
        yes == texts(keys@).contains(key@),
{
    let mut i: usize = 0;
    while i < keys.len()
        invariant
            i <= keys@.len(),
            forall|j: int| 0 <= j < i ==> texts(keys@)[j] != key@,
        decreases keys@.len() - i,
    {
        if same_text(keys[i].as_str(), key) {
            assert(texts(keys@)[i as int] == key@);
            return true;
        }
        i += 1;
    }
    false
}

/// Whether every key of `a` is one of `b`.
fn keys_within(a: &Vec<String>, b: &Vec<String>) -> (yes: bool)
    ensures
        yes == (forall|key: Seq<char>| texts(a@).contains(key) ==> texts(b@).contains(key)),
{
    let mut i: usize = 0;
    while i < a.len()
        invariant
            i <= a@.len(),
            forall|j: int| 0 <= j < i ==> texts(b@).contains(#[trigger] texts(a@)[j]),
        decreases a@.len() - i,
    {
        if !holds_key(b, a[i].as_str()) {
            assert(texts(a@).contains(texts(a@)[i as int]));
            return false;
        }
        i += 1;
    }
    true
}

/// Whether the two lists hold the same keys, in whatever order and number.
pub fn have_same_keys(a: &Vec<String>, b: &Vec<String>) -> (yes: bool)
    ensures
        yes == same_keys(texts(a@), texts(b@)),
{
    keys_within(a, b) && keys_within(b, a)
}

/// The apply as it stands, from the store, the changes and the outcomes.
pub open spec fn progress(store: StoreModel, changes: Seq<Change>, outcomes: Seq<Outcome>) -> Progress {
    Progress { store, changes: change_models(changes), outcomes }
}

/// Applies one object: see [`Progress::step`].
pub fn apply_object(
    store: &mut ObjectStore,
    changes: &mut Vec<Change>,
    outcomes: &mut Vec<Outcome>,
    object: &ManifestObject,
    now: i64,
)
    requires
        old(store).wf(),
    ensures
        final(store).wf(),
        progress(final(store)@, final(changes)@, final(outcomes)@) == progress(
            old(store)@,
            old(changes)@,
            old(outcomes)@,
        ).step(object@, now),
{
    let ghost before = progress(store@, changes@, outcomes@);
    if !object.is_well_formed() {
        outcomes.push(Outcome::Failed(StoreError::InvalidSpec));
        return ;
    }
    let kind = match object.kind.as_entity_kind() {
        Some(kind) => kind,
        None => {
            match store.create_namespace(object.name.as_str()) {
                Ok(_) => outcomes.push(Outcome::Created),
                Err(_) => outcomes.push(Outcome::Unchanged),
            }
            return ;
        },
    };
    if !valid_name(object.name.as_str()) {
        outcomes.push(Outcome::Failed(StoreError::InvalidName));
        return ;
    }
    let key = object.key();
    match store.get_entity(key.as_str()) {
        Err(_) => {
            proof {
                if store@.has_room() {
                    lemma_created(
                        store@,
                        kind,
                        object@.namespace,
                        object@.name,
                        object@.spec,
                        object@.schema_version,
                        now,
                    );
                }
            }
            match store.create_entity(
                kind,
                object.namespace.as_str(),
                object.name.as_str(),
                object.spec.as_str(),
                object.schema_version.as_str(),
                now,
            ) {
                Ok(entity) => {
                    let change = Change {
                        entity_key: key,
                        version_key_before: None,
                        version_key_after: entity.current_version_key,
                        operation: Operation::Create,
                    };
                    changes.push(change);
                    outcomes.push(Outcome::Created);
                    assert(change_models(changes@) =~= before.changes.push(change@));
                },
                Err(error) => {
                    outcomes.push(Outcome::Failed(error));
                },
            }
        },
        Ok(entity) => {
            if entity.kind != kind {
                outcomes.push(Outcome::Failed(StoreError::NameConflict));
            } else if documents_agree(entity.version.payload.as_str(), object.spec.as_str()) {
                outcomes.push(Outcome::Unchanged);
            } else {
                proof {
                    if store@.has_room() {
                        lemma_updated(store@, key@, object@.spec, object@.schema_version, now);
                    }
                }
                match store.update_entity(
                    key.as_str(),
                    object.spec.as_str(),
                    object.schema_version.as_str(),
                    now,
                ) {
                    Ok(updated) => {
                        let change = Change {
                            entity_key: key,
                            version_key_before: Some(entity.current_version_key),
                            version_key_after: updated.current_version_key,
                            operation: Operation::Update,
                        };
                        changes.push(change);
                        outcomes.push(Outcome::Updated);
                        assert(change_models(changes@) =~= before.changes.push(change@));
                    },
                    Err(error) => {
                        outcomes.push(Outcome::Failed(error));
                    },
                }
            }
        },
    }
}

/// Takes one change back: see [`undo_one`].
pub fn undo_change(store: &mut ObjectStore, change: &Change, now: i64) -> (outcome: Undone)
    requires
        old(store).wf(),
    ensures
        final(store).wf(),
        (final(store)@, outcome) == undo_one(old(store)@, change@, now),
{
    match change.operation {
        Operation::Create => match store.delete_entity(change.entity_key.as_str()) {
            Ok(_) => Undone::Deleted,
            Err(error) => Undone::Failed(error),
        },
        Operation::Update => match change.version_key_before {
            Some(version_key) => {
                proof {
                    if store@.reset_refusal(change@.entity_key, version_key).is_none() {
                        let target = store@.version(version_key);
                        lemma_updated(
                            store@,
                            change@.entity_key,
                            target.payload,
                            target.schema_version,
                            now,
                        );
                    }
                }
                match store.reset(change.entity_key.as_str(), version_key, now) {
                    Ok(entity) => Undone::Restored(entity.current_version_key),
                    Err(error) => Undone::Failed(error),
                }
            },
            None => Undone::Failed(StoreError::NotFound),
        },
    }
}

/// Takes the changes back, the last one first: see [`undo`].
pub fn undo_changes(store: &mut ObjectStore, changes: &Vec<Change>, now: i64) -> (outcomes: Vec<
    Undone,
>)
    requires
        old(store).wf(),
    ensures
        final(store).wf(),
        final(store)@ == undo(old(store)@, change_models(changes@), now).store,
        outcomes@ == undo(old(store)@, change_models(changes@), now).outcomes,
{
    let ghost all = change_models(changes@);
    let ghost goal = undo(store@, all, now);
    let mut outcomes: Vec<Undone> = Vec::new();
    let mut left: usize = changes.len();
    proof {
        assert(all.take(left as int) =~= all);
    }
    while left > 0
        invariant
            store.wf(),
            all == change_models(changes@),
            left <= changes@.len(),
            goal.store == undo(store@, all.take(left as int), now).store,
            goal.outcomes == outcomes@ + undo(store@, all.take(left as int), now).outcomes,
        decreases left,
    {
        let ghost rest = all.take(left as int);
        left -= 1;
        proof {
            assert(rest.drop_last() =~= all.take(left as int));
        }
        let outcome = undo_change(store, &changes[left], now);
        outcomes.push(outcome);
    }
    outcomes
}

/// An apply that goes step by step: the objects in the order of their
/// application, how many of them were applied, and the changes and outcomes so far.
pub struct ApplyRun {
    objects: Vec<ManifestObject>,
    keys: Vec<String>,
    done: usize,
    changes: Vec<Change>,
    outcomes: Vec<Outcome>,
}

/// An [`ApplyRun`] as a value.
pub struct ApplyRunModel {
    pub objects: Seq<ObjectModel>,
    pub keys: Seq<Seq<char>>,
    pub done: nat,
    pub changes: Seq<ChangeModel>,
    pub outcomes: Seq<Outcome>,
}

impl ApplyRunModel {
    /// The run of a manifest before its first step.
    pub open spec fn start(objects: Seq<ObjectModel>) -> ApplyRunModel {
        ApplyRunModel {
            objects: ordered(objects),
            keys: entity_keys(objects),
            done: 0,
            changes: Seq::empty(),
            outcomes: Seq::empty(),
        }
    }

    /// The run as an apply under way on `store`.
    pub open spec fn progress(self, store: StoreModel) -> Progress {
        Progress { store, changes: self.changes, outcomes: self.outcomes }
    }

    /// The store and the run after the next step; both as they are where no
    /// object is left.
    pub open spec fn advanced(self, store: StoreModel, now: i64) -> (StoreModel, ApplyRunModel) {
        if self.done < self.objects.len() {
            let next = self.progress(store).step(self.objects[self.done as int], now);
            (
                next.store,
                ApplyRunModel {
                    done: self.done + 1,
                    changes: next.changes,
                    outcomes: next.outcomes,
                    ..self
                },
            )
        } else {
            (store, self)
        }
    }

    /// The record of the run as far as it went.
    pub open spec fn record(self) -> RecordModel {
        RecordModel { keys: self.keys, changes: self.changes }
    }
}

impl View for ApplyRun {
    type V = ApplyRunModel;

    closed spec fn view(&self) -> ApplyRunModel {
        ApplyRunModel {
            objects: object_models(self.objects@),
            keys: texts(self.keys@),
            done: self.done as nat,
            changes: change_models(self.changes@),
            outcomes: self.outcomes@,
        }
    }
}

impl ApplyRun {
    /// What holds of every run: no more objects are applied than there are.
    pub open spec fn wf(&self) -> bool {
        self@.done <= self@.objects.len()
    }

    /// How many objects the run has applied.
    pub fn applied(&self) -> (count: usize)
        ensures
            count == self@.done,
    {
        self.done
    }

    /// How many objects the run has yet to apply.
    pub fn remaining(&self) -> (count: usize)
        requires
            self.wf(),
        ensures
            count == self@.objects.len() - self@.done,
    {
        self.objects.len() - self.done
    }
}

/// A revert that goes step by step: the record that is taken back, how many
/// of its changes are yet to be undone, and the outcomes so far.
pub struct RevertRun {
    record: ReconciliationRecord,
    left: usize,
    outcomes: Vec<Undone>,
}

/// A [`RevertRun`] as a value.
pub struct RevertRunModel {
    pub record: RecordModel,
    pub left: nat,
    pub outcomes: Seq<Undone>,
}

impl RevertRunModel {
    /// The run that takes `record` back, before its first step.
    pub open spec fn start(record: RecordModel) -> RevertRunModel {
        RevertRunModel { record, left: record.changes.len(), outcomes: Seq::empty() }
    }

    /// The store and the run after the next step; both as they are where no
    /// change is left.
    pub open spec fn retreated(self, store: StoreModel, now: i64) -> (StoreModel, RevertRunModel) {
        if self.left > 0 {
            let (next, outcome) = undo_one(store, self.record.changes[self.left - 1], now);
            (
                next,
                RevertRunModel {
                    left: (self.left - 1) as nat,
                    outcomes: self.outcomes.push(outcome),
                    ..self
                },
            )
        } else {
            (store, self)
        }
    }

    /// The record of the changes that the run has not undone.
    pub open spec fn rest(self) -> RecordModel {
        RecordModel { keys: self.record.keys, changes: self.record.changes.take(self.left as int) }
    }
}

impl View for RevertRun {
    type V = RevertRunModel;

    closed spec fn view(&self) -> RevertRunModel {
        RevertRunModel { record: self.record@, left: self.left as nat, outcomes: self.outcomes@ }
    }
}

impl RevertRun {
    /// What holds of every run: no more changes are left than there are.
    pub open spec fn wf(&self) -> bool {
        self@.left <= self@.record.changes.len()
    }

    /// How many changes the run has yet to undo.
    pub fn remaining(&self) -> (count: usize)
        ensures
            count == self@.left,
    {
        self.left
    }
}

/// The reconciliation engine.
pub struct Reconciler {
    store: ObjectStore,
    ledger: Vec<ReconciliationRecord>,
}

impl View for Reconciler {
    type V = EngineModel;

    closed spec fn view(&self) -> EngineModel {
        EngineModel { store: self.store@, ledger: record_models(self.ledger@) }
    }
}

impl Reconciler {
    /// What holds of every engine between two operations: its store is well formed.
    pub open spec fn wf(&self) -> bool {
        self@.store.wf()
    }

    /// An engine over an empty store, with no apply on record.
    pub fn new() -> (engine: Reconciler)
        ensures
            engine.wf(),
            engine@.store == StoreModel::empty(),
            engine@.ledger == Seq::<RecordModel>::empty(),
    {
        let engine = Reconciler { store: ObjectStore::new(), ledger: Vec::new() };
        engine
    }

    /// An engine over `store`, with no apply on record.
    pub fn with_store(store: ObjectStore) -> (engine: Reconciler)
        requires
            store.wf(),
        ensures
            engine.wf(),
            engine@.store == store@,
            engine@.ledger == Seq::<RecordModel>::empty(),
    {
        let engine = Reconciler { store, ledger: Vec::new() };
        engine
    }

    /// The engine's store.
    pub fn store(&self) -> (store: &ObjectStore)
        ensures
            store@ == self@.store,
    {
        &self.store
    }

    /// The engine's store, to change it directly. The records stay as they are.
    pub fn store_mut(&mut self) -> (store: &mut ObjectStore)
        ensures
            store@ == old(self)@.store,
            final(self)@.store == final(store)@,
            final(self)@.ledger == old(self)@.ledger,
    {
        &mut self.store
    }

    /// How many applies are on record.
    pub fn pending(&self) -> (count: usize)
        ensures
            count == self@.ledger.len(),
    {
        self.ledger.len()
    }

    /// Starts an apply of the manifest that goes step by step: its objects
    /// are put in the order of [`ordered`], and none is applied yet.
    pub fn begin(manifest: &Manifest) -> (run: ApplyRun)
        ensures
            run.wf(),
            run@ == ApplyRunModel::start(manifest@),
    {
        let objects = manifest.ordered();
        let keys = manifest.entity_keys();
        let run = ApplyRun { objects, keys, done: 0, changes: Vec::new(), outcomes: Vec::new() };
        assert(change_models(run.changes@) =~= Seq::empty());
        run
    }

    /// Applies the next object of the run, as [`Progress::step`] says, and
    /// says whether more are left. Where none was left, nothing changes. A
    /// run can be stopped between any two steps: an object is applied as a
    /// whole or not at all.
    pub fn advance(&mut self, run: &mut ApplyRun, now: i64) -> (more: bool)
        requires
            old(self).wf(),
            old(run).wf(),
        ensures
            final(self).wf(),
            final(run).wf(),
            final(self)@.ledger == old(self)@.ledger,
            final(self)@.store == old(run)@.advanced(old(self)@.store, now).0,
            final(run)@ == old(run)@.advanced(old(self)@.store, now).1,
            more == (final(run)@.done < final(run)@.objects.len()),
    {
        if run.done < run.objects.len() {
            apply_object(
                &mut self.store,
                &mut run.changes,
                &mut run.outcomes,
                &run.objects[run.done],
                now,
            );
            run.done = run.done + 1;
        }
        run.done < run.objects.len()
    }

    /// Ends a run, whether or not all its objects were applied, and hands
    /// back its receipt. The record is kept for a later revert if the run
    /// changed something.
    pub fn finish(&mut self, run: ApplyRun) -> (receipt: Receipt)
        requires
            old(self).wf(),
        ensures
            final(self).wf(),
            final(self)@.store == old(self)@.store,
            final(self)@.ledger == if run@.changes.len() > 0 {
                old(self)@.ledger.push(run@.record())
            } else {
                old(self)@.ledger
            },
            receipt@ == (ReceiptModel { record: run@.record(), outcomes: run@.outcomes }),
    {
        if run.changes.len() > 0 {
            let mut copy: Vec<Change> = Vec::new();
            let mut j: usize = 0;
            while j < run.changes.len()
                invariant
                    j <= run.changes@.len(),
                    copy@.len() == j,
                    forall|k: int| 0 <= k < j ==> copy@[k] == run.changes@[k],
                decreases run.changes@.len() - j,
            {
                copy.push(run.changes[j].clone());
                j += 1;
            }
            assert(copy@ =~= run.changes@);
            let mut key_copy: Vec<String> = Vec::new();
            let mut j: usize = 0;
            while j < run.keys.len()
                invariant
                    j <= run.keys@.len(),
                    key_copy@.len() == j,
                    forall|k: int| 0 <= k < j ==> key_copy@[k] == run.keys@[k],
                decreases run.keys@.len() - j,
            {
                key_copy.push(run.keys[j].clone());
                j += 1;
            }
            assert(key_copy@ =~= run.keys@);
            let record = ReconciliationRecord { keys: key_copy, changes: copy };
            self.ledger.push(record);
        }
        Receipt {
            record: ReconciliationRecord { keys: run.keys, changes: run.changes },
            outcomes: run.outcomes,
        }
    }

    /// Brings the store to the state that the manifest describes. Objects are
    /// applied in the order of [`ordered`], each as [`Progress::step`] says; an
    /// object that is refused does not stop the others. The receipt holds the
    /// changes made and what became of each object. The record is kept for a
    /// later revert if the apply changed something.
    pub fn apply(&mut self, manifest: &Manifest, now: i64) -> (receipt: Receipt)
        requires
            old(self).wf(),
        ensures
            final(self).wf(),
            final(self)@ == old(self)@.applied(manifest@, now),
            receipt@ == old(self)@.receipt(manifest@, now),
    {
        let mut run = Self::begin(manifest);
        let ghost todo = ordered(manifest@);
        let ghost start = Progress::start(self@.store);
        let mut more = run.done < run.objects.len();
        while more
            invariant
                self.wf(),
                run.wf(),
                self@.ledger == old(self)@.ledger,
                start == Progress::start(old(self)@.store),
                todo == ordered(manifest@),
                run@.objects == todo,
                run@.keys == entity_keys(manifest@),
                more == (run@.done < todo.len()),
                run@.progress(self@.store) == start.run(todo.take(run@.done as int), now),
            decreases todo.len() - run@.done,
        {
            proof {
                assert(todo.take(run@.done as int + 1).drop_last() =~= todo.take(run@.done as int));
            }
            more = self.advance(&mut run, now);
        }
        proof {
            assert(todo.take(run@.done as int) =~= todo);
        }
        self.finish(run)
    }

    /// The place of the latest record whose keys are `keys`, if there is one.
    fn find_record(&self, keys: &Vec<String>) -> (found: Option<usize>)
        ensures
            match found {
                Some(i) => i < self@.ledger.len() && latest_match(self@.ledger, texts(keys@))
                    == Some(i as int),
                None => latest_match(self@.ledger, texts(keys@)).is_none(),
            },
    {
        let ghost ledger = self@.ledger;
        let mut left: usize = self.ledger.len();
        proof {
            assert(ledger.take(left as int) =~= ledger);
        }
        while left > 0
            invariant
                ledger == self@.ledger,
                left <= self.ledger@.len(),
                latest_match(ledger, texts(keys@)) == latest_match(
                    ledger.take(left as int),
                    texts(keys@),
                ),
            decreases left,
        {
            let ghost rest = ledger.take(left as int);
            left -= 1;
            proof {
                assert(rest.drop_last() =~= ledger.take(left as int));
            }
            if have_same_keys(&self.ledger[left].keys, keys) {
                return Some(left);
            }
        }
        None
    }

    /// Starts a revert that goes step by step: the record of the latest
    /// apply of a manifest that described the same entities as `manifest` is
    /// taken from the engine's records, and none of its changes is undone
    /// yet. Where no such apply is on record, there is nothing to revert.
    pub fn begin_revert(&mut self, manifest: &Manifest) -> (run: Option<RevertRun>)
        requires
            old(self).wf(),
        ensures
            final(self).wf(),
            final(self)@.store == old(self)@.store,
            match latest_match(old(self)@.ledger, entity_keys(manifest@)) {
                Some(i) => run.is_some() && run.unwrap().wf() && run.unwrap()@
                    == RevertRunModel::start(old(self)@.ledger[i]) && final(self)@.ledger == old(self)@.ledger.remove(i),
                None => run.is_none() && final(self)@.ledger == old(self)@.ledger,
            },
    {
        let keys = manifest.entity_keys();
        match self.find_record(&keys) {
            Some(i) => {
                let record = self.ledger.remove(i);
                let left = record.changes.len();
                Some(RevertRun { record, left, outcomes: Vec::new() })
            },
            None => None,
        }
    }

    /// Takes back the next change of the run, the last one first, as
    /// [`undo_one`] says, and says whether more are left. Where none was
    /// left, nothing changes. A run can be stopped between any two steps.
    pub fn retreat(&mut self, run: &mut RevertRun, now: i64) -> (more: bool)
        requires
            old(self).wf(),
            old(run).wf(),
        ensures
            final(self).wf(),
            final(run).wf(),
            final(self)@.ledger == old(self)@.ledger,
            final(self)@.store == old(run)@.retreated(old(self)@.store, now).0,
            final(run)@ == old(run)@.retreated(old(self)@.store, now).1,
            more == (final(run)@.left > 0),
    {
        if run.left > 0 {
            run.left = run.left - 1;
            let outcome = undo_change(&mut self.store, &run.record.changes[run.left], now);
            run.outcomes.push(outcome);
        }
        run.left > 0
    }

    /// Ends a revert, whether or not all changes were taken back, and hands
    /// back the record and what became of each change that was taken back.
    /// The changes that were not taken back go on record again, as the
    /// latest apply, for a later revert.
    pub fn finish_revert(&mut self, run: RevertRun) -> (reversal: Reversal)
        requires
            old(self).wf(),
            run.wf(),
        ensures
            final(self).wf(),
            final(self)@.store == old(self)@.store,
            final(self)@.ledger == if run@.left > 0 {
                old(self)@.ledger.push(run@.rest())
            } else {
                old(self)@.ledger
            },
            reversal@ == (ReversalModel { record: Some(run@.record), outcomes: run@.outcomes }),
    {
        if run.left > 0 {
            let mut copy: Vec<Change> = Vec::new();
            let mut j: usize = 0;
            while j < run.left
                invariant
                    run.left <= run.record.changes@.len(),
                    j <= run.left,
                    copy@.len() == j,
                    forall|k: int| 0 <= k < j ==> copy@[k] == run.record.changes@[k],
                decreases run.left - j,
            {
                copy.push(run.record.changes[j].clone());
                j += 1;
            }
            let mut key_copy: Vec<String> = Vec::new();
            let mut j: usize = 0;
            while j < run.record.keys.len()
                invariant
                    j <= run.record.keys@.len(),
                    key_copy@.len() == j,
                    forall|k: int| 0 <= k < j ==> key_copy@[k] == run.record.keys@[k],
                decreases run.record.keys@.len() - j,
            {
                key_copy.push(run.record.keys[j].clone());
                j += 1;
            }
            assert(key_copy@ =~= run.record.keys@);
            let rest = ReconciliationRecord { keys: key_copy, changes: copy };
            assert(change_models(rest.changes@) =~= run@.record.changes.take(run@.left as int));
            self.ledger.push(rest);
        }
        Reversal { record: Some(run.record), outcomes: run.outcomes }
    }

    /// Takes back the latest apply of a manifest that described the same
    /// entities as `manifest`: its changes are undone, the last one first, as
    /// [`undo`] says, and its record is dropped and handed back. Where no
    /// such apply is on record, nothing is done: that is no failure.
    pub fn revert(&mut self, manifest: &Manifest, now: i64) -> (reversal: Reversal)
        requires
            old(self).wf(),
        ensures
            final(self).wf(),
            final(self)@ == old(self)@.reverted(manifest@, now),
            reversal@ == old(self)@.reversal(manifest@, now),
    {
        let mut run = match self.begin_revert(manifest) {
            Some(run) => run,
            None => {
                return Reversal { record: None, outcomes: Vec::new() };
            },
        };
        let ghost all = run@.record.changes;
        let ghost goal = undo(self@.store, all, now);
        proof {
            assert(all.take(run@.left as int) =~= all);
        }
        let mut more = run.left > 0;
        while more
            invariant
                self.wf(),
                run.wf(),
                self@.ledger == old(self)@.ledger.remove(
                    latest_match(old(self)@.ledger, entity_keys(manifest@)).unwrap(),
                ),
                run@.record == old(self)@.ledger[latest_match(
                    old(self)@.ledger,
                    entity_keys(manifest@),
                ).unwrap()],
                all == run@.record.changes,
                more == (run@.left > 0),
                goal.store == undo(self@.store, all.take(run@.left as int), now).store,
                goal.outcomes == run@.outcomes + undo(
                    self@.store,
                    all.take(run@.left as int),
                    now,
                ).outcomes,
            decreases run@.left,
        {
            let ghost rest = all.take(run@.left as int);
            proof {
                assert(rest.drop_last() =~= all.take(run@.left - 1));
            }
            more = self.retreat(&mut run, now);
        }
        self.finish_revert(run)
    }

    /// Takes back the changes of `record`, whether or not it is on the
    /// engine's own record: see [`undo`].
    pub fn revert_record(&mut self, record: &ReconciliationRecord, now: i64) -> (outcomes: Vec<
        Undone,
    >)
        requires
            old(self).wf(),
        ensures
            final(self).wf(),
            final(self)@.ledger == old(self)@.ledger,
            final(self)@.store == undo(old(self)@.store, record@.changes, now).store,
            outcomes@ == undo(old(self)@.store, record@.changes, now).outcomes,
    {
        undo_changes(&mut self.store, &record.changes, now)
    }

    /// Rolls the entity `key` back to its version `version_key`: see
    /// [`ObjectStore::reset`].
    pub fn reset(&mut self, key: &str, version_key: u64, now: i64) -> (result: Result<
        Entity,
        StoreError,
    >)
        requires
            old(self).wf(),
        ensures
            final(self).wf(),
            final(self)@.ledger == old(self)@.ledger,
            match old(self)@.store.reset_refusal(key@, version_key) {
                Some(error) => result == Err::<Entity, StoreError>(error) && final(self)@.store
                    == old(self)@.store,
                None => result.is_ok() && final(self)@.store == old(self)@.store.reset(
                    key@,
                    version_key,
                    now,
                ) && result.unwrap()@ == final(self)@.store.chain(key@).snapshot(),
            },
    {
        self.store.reset(key, version_key, now)
    }
}

} // verus!
