//! The mathematical model of the object store: entities, their version
//! histories, and what each operation of the store does to them.

use crate::keys::{entity_key, name_is_valid};
use crate::text::contains_folded;
use vstd::prelude::*;

verus! {

/// The kinds of entity.
#[derive(Debug, Clone, Copy, PartialEq, Eq, Structural)]
pub enum EntityKind {
    Cargo,
    Resource,
    Vm,
}

/// Why the store refuses an operation.
#[derive(Debug, Clone, Copy, PartialEq, Eq, Structural)]
pub enum StoreError {
    /// No entity, version or namespace has the key.
    NotFound,
    /// The namespace and name are taken.
    NameConflict,
    /// The name holds the separator.
    InvalidName,
    /// The object is still in use, or changed under the caller.
    Conflict,
    /// The version belongs to another entity.
    Forbidden,
    /// The manifest object is not well formed.
    InvalidSpec,
    /// The store cannot take the operation now.
    StorageUnavailable,
}

/// Which entities a listing asks for.
pub struct ListQuery {
    /// Only entities of this kind.
    pub kind: Option<EntityKind>,
    /// Only entities of this namespace.
    pub namespace: Option<Seq<char>>,
    /// Only entities whose name holds this text, whatever the case of its ASCII letters.
    pub name: Option<Seq<char>>,
    /// At most this many entities.
    pub limit: Option<usize>,
    /// Not the first this many of them.
    pub offset: Option<usize>,
}

impl ListQuery {
    /// The query that asks for everything.
    pub open spec fn all() -> ListQuery {
        ListQuery { kind: None, namespace: None, name: None, limit: None, offset: None }
    }

    /// Whether the query asks for `chain`, before limit and offset.
    pub open spec fn selects(self, chain: EntityChain) -> bool {
        &&& self.kind matches Some(kind) ==> chain.kind == kind
        &&& self.namespace matches Some(namespace) ==> chain.namespace == namespace
        &&& self.name matches Some(name) ==> contains_folded(chain.name, name)
    }

    /// [`ListQuery::selects`] as a predicate.
    pub open spec fn selector(self) -> spec_fn(EntityChain) -> bool {
        |chain: EntityChain| self.selects(chain)
    }

    /// Where the listing starts among `count` selected entities.
    pub open spec fn start(self, count: nat) -> int {
        match self.offset {
            Some(offset) => if offset <= count {
                offset as int
            } else {
                count as int
            },
            None => 0,
        }
    }

    /// Where the listing ends among `count` selected entities.
    pub open spec fn end(self, count: nat) -> int {
        match self.limit {
            Some(limit) => if self.start(count) + limit <= count {
                self.start(count) + limit
            } else {
                count as int
            },
            None => count as int,
        }
    }

    /// The part of the selected entities that limit and offset leave.
    pub open spec fn window(self, selected: Seq<EntityChain>) -> Seq<EntityChain> {
        selected.subrange(self.start(selected.len()), self.end(selected.len()))
    }
}

/// One immutable version of an entity's configuration.
pub struct VersionModel {
    pub version_key: u64,
    pub entity_key: Seq<char>,
    pub schema_version: Seq<char>,
    pub created_at: i64,
    pub payload: Seq<char>,
}

/// An entity with its head version resolved.
pub struct EntityModel {
    pub kind: EntityKind,
    pub key: Seq<char>,
    pub name: Seq<char>,
    pub namespace: Seq<char>,
    pub current_version_key: u64,
    pub created_at: i64,
    pub version: VersionModel,
}

/// An entity with its whole history, oldest version first. The last version is the head.
pub struct EntityChain {
    pub kind: EntityKind,
    pub key: Seq<char>,
    pub name: Seq<char>,
    pub namespace: Seq<char>,
    pub created_at: i64,
    pub history: Seq<VersionModel>,
}

/// The whole store: namespaces and entities in the order of their creation,
/// the key that the next version will get, and the time of the latest creation.
pub struct StoreModel {
    pub namespaces: Seq<Seq<char>>,
    pub entities: Seq<EntityChain>,
    pub next_key: u64,
    pub clock: i64,
}

/// The entities of one namespace, as a predicate.
pub open spec fn in_namespace(namespace: Seq<char>) -> spec_fn(EntityChain) -> bool {
    |chain: EntityChain| chain.namespace == namespace
}

/// Each entity as callers see it.
pub open spec fn snapshots(chains: Seq<EntityChain>) -> Seq<EntityModel> {
    Seq::new(chains.len(), |i: int| chains[i].snapshot())
}

impl EntityChain {
    /// The newest version.
    pub open spec fn head(self) -> VersionModel {
        self.history.last()
    }

    /// The entity as callers see it: its own fields and its head.
    pub open spec fn snapshot(self) -> EntityModel {
        EntityModel {
            kind: self.kind,
            key: self.key,
            name: self.name,
            namespace: self.namespace,
            current_version_key: self.head().version_key,
            created_at: self.created_at,
            version: self.head(),
        }
    }

    /// The entity after `version` became its head.
    pub open spec fn extended(self, version: VersionModel) -> EntityChain {
        EntityChain { history: self.history.push(version), ..self }
    }

    /// An entity is never without a version, its key is made from its namespace
    /// and valid name, every version in its history is its own, and the history
    /// is in the order of creation.
    pub open spec fn wf(self) -> bool {
        &&& self.history.len() > 0
        &&& name_is_valid(self.name)
        &&& self.key == entity_key(self.namespace, self.name)
        &&& self.created_at == self.history[0].created_at
        &&& forall|j: int|
            0 <= j < self.history.len() ==> (#[trigger] self.history[j]).entity_key == self.key
        &&& forall|a: int, b: int|
            0 <= a < b < self.history.len() ==> (#[trigger] self.history[a]).created_at <= (
            #[trigger] self.history[b]).created_at
        &&& forall|a: int, b: int|
            0 <= a < b < self.history.len() ==> (#[trigger] self.history[a]).version_key < (
            #[trigger] self.history[b]).version_key
    }
}

impl StoreModel {
    /// The store that holds nothing.
    pub open spec fn empty() -> StoreModel {
        StoreModel { namespaces: Seq::empty(), entities: Seq::empty(), next_key: 0, clock: i64::MIN }
    }

    /// Whether an entity with this key is stored.
    pub open spec fn has(self, key: Seq<char>) -> bool {
        exists|i: int| 0 <= i < self.entities.len() && (#[trigger] self.entities[i]).key == key
    }

    /// Where the entity with this key stands among the entities.
    pub open spec fn slot(self, key: Seq<char>) -> int {
        choose|i: int| 0 <= i < self.entities.len() && (#[trigger] self.entities[i]).key == key
    }

    /// The entity with this key, with its history.
    pub open spec fn chain(self, key: Seq<char>) -> EntityChain {
        self.entities[self.slot(key)]
    }

    /// The history of the entity with this key, oldest version first.
    pub open spec fn history(self, key: Seq<char>) -> Seq<VersionModel> {
        self.chain(key).history
    }

    /// Whether the namespace was created.
    pub open spec fn has_namespace(self, name: Seq<char>) -> bool {
        self.namespaces.contains(name)
    }

    /// Whether version `j` of entity `i` exists and has the key `version_key`.
    pub open spec fn holds_version(self, i: int, j: int, version_key: u64) -> bool {
        &&& 0 <= i < self.entities.len()
        &&& 0 <= j < self.entities[i].history.len()
        &&& self.entities[i].history[j].version_key == version_key
    }

    /// Whether a version with this key is stored.
    pub open spec fn has_version(self, version_key: u64) -> bool {
        exists|i: int, j: int| self.holds_version(i, j, version_key)
    }

    /// The version with this key.
    pub open spec fn version(self, version_key: u64) -> VersionModel {
        let (i, j) = choose|i: int, j: int| self.holds_version(i, j, version_key);
        self.entities[i].history[j]
    }

    /// The time that a creation at `now` is stamped with: never earlier than
    /// the latest creation so far.
    pub open spec fn stamp(self, now: i64) -> i64 {
        if now < self.clock {
            self.clock
        } else {
            now
        }
    }

    /// The version that the next creation for `key` makes.
    pub open spec fn next_version(
        self,
        key: Seq<char>,
        payload: Seq<char>,
        schema_version: Seq<char>,
        now: i64,
    ) -> VersionModel {
        VersionModel {
            version_key: self.next_key,
            entity_key: key,
            schema_version,
            created_at: self.stamp(now),
            payload,
        }
    }

    /// The store after the entity `name` was created in `namespace`.
    pub open spec fn created(
        self,
        kind: EntityKind,
        namespace: Seq<char>,
        name: Seq<char>,
        payload: Seq<char>,
        schema_version: Seq<char>,
        now: i64,
    ) -> StoreModel {
        let key = entity_key(namespace, name);
        let version = self.next_version(key, payload, schema_version, now);
        StoreModel {
            entities: self.entities.push(
                EntityChain {
                    kind,
                    key,
                    name,
                    namespace,
                    created_at: version.created_at,
                    history: seq![version],
                },
            ),
            next_key: (self.next_key + 1) as u64,
            clock: version.created_at,
            ..self
        }
    }

    /// The store after the entity `key` got a new head.
    pub open spec fn updated(
        self,
        key: Seq<char>,
        payload: Seq<char>,
        schema_version: Seq<char>,
        now: i64,
    ) -> StoreModel {
        let version = self.next_version(key, payload, schema_version, now);
        StoreModel {
            entities: self.entities.update(self.slot(key), self.chain(key).extended(version)),
            next_key: (self.next_key + 1) as u64,
            clock: version.created_at,
            ..self
        }
    }

    /// The store after the entity `key` and its history were removed.
    pub open spec fn deleted(self, key: Seq<char>) -> StoreModel {
        StoreModel { entities: self.entities.remove(self.slot(key)), ..self }
    }

    /// Why the entity `name` cannot be created in `namespace`, if it cannot.
    pub open spec fn create_refusal(self, namespace: Seq<char>, name: Seq<char>) -> Option<
        StoreError,
    > {
        if !name_is_valid(name) {
            Some(StoreError::InvalidName)
        } else if self.has(entity_key(namespace, name)) {
            Some(StoreError::NameConflict)
        } else if !self.has_room() {
            Some(StoreError::StorageUnavailable)
        } else {
            None
        }
    }

    /// Why the entity `key` cannot get a new head, if it cannot.
    pub open spec fn update_refusal(self, key: Seq<char>) -> Option<StoreError> {
        if !self.has(key) {
            Some(StoreError::NotFound)
        } else if !self.has_room() {
            Some(StoreError::StorageUnavailable)
        } else {
            None
        }
    }

    /// Why the entity `key` cannot get a new head by a caller that saw the
    /// head `seen`, if it cannot: the entity is gone, or its head has moved.
    pub open spec fn update_from_refusal(self, key: Seq<char>, seen: u64) -> Option<StoreError> {
        if !self.has(key) {
            Some(StoreError::NotFound)
        } else if self.chain(key).head().version_key != seen {
            Some(StoreError::Conflict)
        } else if !self.has_room() {
            Some(StoreError::StorageUnavailable)
        } else {
            None
        }
    }

    /// Why the version `version_key` cannot be handed out, if it cannot: it is
    /// not stored, or it is not a version of `owner`.
    pub open spec fn version_refusal(self, version_key: u64, owner: Option<Seq<char>>) -> Option<
        StoreError,
    > {
        if !self.has_version(version_key) {
            Some(StoreError::NotFound)
        } else if owner matches Some(key) && self.version(version_key).entity_key != key {
            Some(StoreError::NotFound)
        } else {
            None
        }
    }

    /// Why the entity `key` cannot be reset to the version `version_key`, if it cannot.
    pub open spec fn reset_refusal(self, key: Seq<char>, version_key: u64) -> Option<StoreError> {
        if !self.has(key) || !self.has_version(version_key) {
            Some(StoreError::NotFound)
        } else if self.version(version_key).entity_key != key {
            Some(StoreError::Forbidden)
        } else if !self.has_room() {
            Some(StoreError::StorageUnavailable)
        } else {
            None
        }
    }

    /// The store after the entity `key` got a new head that copies the version `version_key`.
    pub open spec fn reset(self, key: Seq<char>, version_key: u64, now: i64) -> StoreModel {
        let target = self.version(version_key);
        self.updated(key, target.payload, target.schema_version, now)
    }

    /// The history of the entity `key`, newest version first; empty if there is no such entity.
    pub open spec fn newest_first(self, key: Seq<char>) -> Seq<VersionModel> {
        if self.has(key) {
            self.history(key).reverse()
        } else {
            Seq::empty()
        }
    }

    /// The entities that `query` asks for, in the order of their creation.
    pub open spec fn listing(self, query: ListQuery) -> Seq<EntityModel> {
        snapshots(query.window(self.entities.filter(query.selector())))
    }

    /// How many entities the namespace holds.
    pub open spec fn population(self, namespace: Seq<char>) -> nat {
        self.entities.filter(in_namespace(namespace)).len()
    }

    /// The store after the namespace was created.
    pub open spec fn namespace_created(self, name: Seq<char>) -> StoreModel {
        StoreModel { namespaces: self.namespaces.push(name), ..self }
    }

    /// The store after the namespace was removed.
    pub open spec fn namespace_deleted(self, name: Seq<char>) -> StoreModel {
        StoreModel { namespaces: self.namespaces.remove(self.namespaces.index_of(name)), ..self }
    }

    /// Why the namespace cannot be removed, if it cannot.
    pub open spec fn namespace_removal_refusal(self, name: Seq<char>) -> Option<StoreError> {
        if !self.has_namespace(name) {
            Some(StoreError::NotFound)
        } else if self.population(name) > 0 {
            Some(StoreError::Conflict)
        } else {
            None
        }
    }

    /// Whether another version can be made: version keys are never reused,
    /// and the last one is kept back.
    pub open spec fn has_room(self) -> bool {
        self.next_key < u64::MAX
    }

    /// What holds of every store: no two entities share a key, every entity is
    /// well formed, no two versions share a key, every version key is below
    /// the next one, and entities stand in the order of their creation, none
    /// later than the clock.
    pub open spec fn wf(self) -> bool {
        &&& self.namespaces.no_duplicates()
        &&& forall|i: int, j: int|
            0 <= i < j < self.entities.len() ==> (#[trigger] self.entities[i]).key != (
            #[trigger] self.entities[j]).key
        &&& forall|i: int| 0 <= i < self.entities.len() ==> (#[trigger] self.entities[i]).wf()
        &&& forall|i: int, j: int, version_key: u64| #[trigger]
            self.holds_version(i, j, version_key) ==> version_key < self.next_key
        &&& forall|i1: int, j1: int, i2: int, j2: int, version_key: u64|
            #[trigger] self.holds_version(i1, j1, version_key) && #[trigger] self.holds_version(
                i2,
                j2,
                version_key,
            ) ==> i1 == i2 && j1 == j2
        &&& forall|i: int, j: int|
            0 <= i < j < self.entities.len() ==> (#[trigger] self.entities[i]).created_at <= (
            #[trigger] self.entities[j]).created_at
        &&& forall|i: int|
            0 <= i < self.entities.len() ==> (#[trigger] self.entities[i]).head().created_at
                <= self.clock
    }
}

/// Creating an entity keeps the store well formed, adds exactly that entity,
/// and leaves every other entity as it was.
pub proof fn lemma_created(
    store: StoreModel,
    kind: EntityKind,
    namespace: Seq<char>,
    name: Seq<char>,
    payload: Seq<char>,
    schema_version: Seq<char>,
    now: i64,
)
    requires
        store.wf(),
        name_is_valid(name),
        !store.has(entity_key(namespace, name)),
        store.has_room(),
    ensures
        ({
            let after = store.created(kind, namespace, name, payload, schema_version, now);
            let key = entity_key(namespace, name);
            &&& after.wf()
            &&& after.has(key)
            &&& after.chain(key) == after.entities.last()
            &&& after.history(key) == seq![
                store.next_version(key, payload, schema_version, now),
            ]
            &&& forall|k: Seq<char>| after.has(k) <==> store.has(k) || k == key
            &&& forall|k: Seq<char>| store.has(k) ==> after.chain(k) == store.chain(k)
        }),
{
    let after = store.created(kind, namespace, name, payload, schema_version, now);
    let key = entity_key(namespace, name);
    let n = store.entities.len() as int;
    assert forall|i: int, j: int, version_key: u64| #[trigger]
        after.holds_version(i, j, version_key) implies version_key < after.next_key by {
        if i < n {
            assert(store.holds_version(i, j, version_key));
        }
    }
    assert forall|i1: int, j1: int, i2: int, j2: int, version_key: u64|
        #[trigger] after.holds_version(i1, j1, version_key) && #[trigger] after.holds_version(
            i2,
            j2,
            version_key,
        ) implies i1 == i2 && j1 == j2 by {
        if i1 < n {
            assert(store.holds_version(i1, j1, version_key));
        }
        if i2 < n {
            assert(store.holds_version(i2, j2, version_key));
        }
    }
    assert forall|k: Seq<char>| after.has(k) <==> store.has(k) || k == key by {
        if store.has(k) {
            let i = store.slot(k);
            assert(after.entities[i].key == k);
        }
    }
}

/// Giving an entity a new head keeps the store well formed, appends exactly
/// that version to the entity's history, and leaves every other entity as it was.
pub proof fn lemma_updated(
    store: StoreModel,
    key: Seq<char>,
    payload: Seq<char>,
    schema_version: Seq<char>,
    now: i64,
)
    requires
        store.wf(),
        store.has(key),
        store.has_room(),
    ensures
        ({
            let after = store.updated(key, payload, schema_version, now);
            &&& after.wf()
            &&& after.has(key)
            &&& after.slot(key) == store.slot(key)
            &&& after.chain(key) == store.chain(key).extended(
                store.next_version(key, payload, schema_version, now),
            )
            &&& forall|k: Seq<char>| after.has(k) <==> store.has(k)
            &&& forall|k: Seq<char>| store.has(k) && k != key ==> after.chain(k) == store.chain(k)
        }),
{
    let after = store.updated(key, payload, schema_version, now);
    let s = store.slot(key);
    let version = store.next_version(key, payload, schema_version, now);
    let old_chain = store.entities[s];
    let new_chain = old_chain.extended(version);
    assert(new_chain.wf()) by {
        assert forall|a: int, b: int| 0 <= a < b < new_chain.history.len() implies (
        #[trigger] new_chain.history[a]).version_key < (
        #[trigger] new_chain.history[b]).version_key by {
            if b == old_chain.history.len() {
                assert(store.holds_version(s, a, old_chain.history[a].version_key));
            }
        }
    }
    assert forall|i: int, j: int, version_key: u64| #[trigger]
        after.holds_version(i, j, version_key) implies version_key < after.next_key by {
        if i != s || j < old_chain.history.len() {
            assert(store.holds_version(i, j, version_key));
        }
    }
    assert forall|i1: int, j1: int, i2: int, j2: int, version_key: u64|
        #[trigger] after.holds_version(i1, j1, version_key) && #[trigger] after.holds_version(
            i2,
            j2,
            version_key,
        ) implies i1 == i2 && j1 == j2 by {
        if i1 != s || j1 < old_chain.history.len() {
            assert(store.holds_version(i1, j1, version_key));
        }
        if i2 != s || j2 < old_chain.history.len() {
            assert(store.holds_version(i2, j2, version_key));
        }
    }
    assert forall|k: Seq<char>| after.has(k) <==> store.has(k) by {
        if store.has(k) {
            let i = store.slot(k);
            assert(after.entities[i].key == k);
        }
    }
}

/// Deleting an entity keeps the store well formed, removes exactly that
/// entity, and leaves every other entity as it was.
pub proof fn lemma_deleted(store: StoreModel, key: Seq<char>)
    requires
        store.wf(),
        store.has(key),
    ensures
        ({
            let after = store.deleted(key);
            &&& after.wf()
            &&& !after.has(key)
            &&& forall|k: Seq<char>| after.has(k) <==> store.has(k) && k != key
            &&& forall|k: Seq<char>| store.has(k) && k != key ==> after.chain(k) == store.chain(k)
        }),
{
    let after = store.deleted(key);
    let s = store.slot(key);
    let up = |i: int| if i < s { i } else { i + 1 };
    assert forall|i: int, j: int, version_key: u64| #[trigger]
        after.holds_version(i, j, version_key) implies version_key < after.next_key by {
        assert(store.holds_version(up(i), j, version_key));
    }
    assert forall|i1: int, j1: int, i2: int, j2: int, version_key: u64|
        #[trigger] after.holds_version(i1, j1, version_key) && #[trigger] after.holds_version(
            i2,
            j2,
            version_key,
        ) implies i1 == i2 && j1 == j2 by {
        assert(store.holds_version(up(i1), j1, version_key));
        assert(store.holds_version(up(i2), j2, version_key));
    }
    assert forall|k: Seq<char>| after.has(k) <==> store.has(k) && k != key by {
        if store.has(k) && k != key {
            let i = store.slot(k);
            let d = if i < s { i } else { i - 1 };
            assert(after.entities[d].key == k);
        }
    }
}

} // verus!
