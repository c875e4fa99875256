//! The object store: named, namespaced entities and their immutable
//! configuration versions.

use crate::keys::{entity_key, gen_key, valid_name};
use crate::model::{
    in_namespace, lemma_created, lemma_deleted, lemma_updated, snapshots,
    EntityChain, EntityKind, EntityModel, ListQuery, StoreError, StoreModel, VersionModel,
};
use crate::text::{contains_ignoring_case, same_text, texts};
use vstd::prelude::*;
use vstd::string::*;

verus! {

/// One immutable version of an entity's configuration.
#[derive(Debug, PartialEq, Eq)]
pub struct Version {
    /// Unique among all versions ever made by the store.
    pub version_key: u64,
    /// The key of the entity that owns the version.
    pub entity_key: String,
    /// The label of the schema that the payload follows.
    pub schema_version: String,
    /// When the version was made.
    pub created_at: i64,
    /// The configuration document.
    pub payload: String,
}

impl View for Version {
    type V = VersionModel;

    open spec fn view(&self) -> VersionModel {
        VersionModel {
            version_key: self.version_key,
            entity_key: self.entity_key@,
            schema_version: self.schema_version@,
            created_at: self.created_at,
            payload: self.payload@,
        }
    }
}

impl Clone for Version {
    fn clone(&self) -> (copy: Version)
        ensures
            copy == *self,
    {
        Version {
            version_key: self.version_key,
            entity_key: self.entity_key.clone(),
            schema_version: self.schema_version.clone(),
            created_at: self.created_at,
            payload: self.payload.clone(),
        }
    }
}

/// An entity with its head version resolved.
#[derive(Debug, PartialEq, Eq)]
pub struct Entity {
    pub kind: EntityKind,
    /// The stable identifier, made from the namespace and the name.
    pub key: String,
    pub name: String,
    pub namespace: String,
    /// The key of the head of the entity's history.
    pub current_version_key: u64,
    /// When the entity was created.
    pub created_at: i64,
    /// The head of the entity's history.
    pub version: Version,
}

impl View for Entity {
    type V = EntityModel;

    open spec fn view(&self) -> EntityModel {
        EntityModel {
            kind: self.kind,
            key: self.key@,
            name: self.name@,
            namespace: self.namespace@,
            current_version_key: self.current_version_key,
            created_at: self.created_at,
            version: self.version@,
        }
    }
}

impl Clone for Entity {
    fn clone(&self) -> (copy: Entity)
        ensures
            copy == *self,
    {
        Entity {
            kind: self.kind,
            key: self.key.clone(),
            name: self.name.clone(),
            namespace: self.namespace.clone(),
            current_version_key: self.current_version_key,
            created_at: self.created_at,
            version: self.version.clone(),
        }
    }
}

/// The views of a sequence of versions.
pub open spec fn version_models(versions: Seq<Version>) -> Seq<VersionModel> {
    Seq::new(versions.len(), |i: int| versions[i]@)
}

/// The views of a sequence of entities.
pub open spec fn entity_models(entities: Seq<Entity>) -> Seq<EntityModel> {
    Seq::new(entities.len(), |i: int| entities[i]@)
}

/// An entity as the store keeps it: with its whole history, oldest version first.
struct EntityRecord {
    kind: EntityKind,
    key: String,
    name: String,
    namespace: String,
    created_at: i64,
    chain: Vec<Version>,
}

impl EntityRecord {
    spec fn model(&self) -> EntityChain {
        EntityChain {
            kind: self.kind,
            key: self.key@,
            name: self.name@,
            namespace: self.namespace@,
            created_at: self.created_at,
            history: version_models(self.chain@),
        }
    }

    /// The entity as callers see it.
    fn snapshot(&self) -> (entity: Entity)
        requires
            self.chain@.len() > 0,
        ensures
            entity@ == self.model().snapshot(),
    {
        let head = &self.chain[self.chain.len() - 1];
        Entity {
            kind: self.kind,
            key: self.key.clone(),
            name: self.name.clone(),
            namespace: self.namespace.clone(),
            current_version_key: head.version_key,
            created_at: self.created_at,
            version: head.clone(),
        }
    }
}

spec fn chains(records: Seq<EntityRecord>) -> Seq<EntityChain> {
    Seq::new(records.len(), |i: int| records[i].model())
}

/// The store of entities and their version histories.
pub struct ObjectStore {
    namespaces: Vec<String>,
    entities: Vec<EntityRecord>,
    next_key: u64,
    clock: i64,
}

impl View for ObjectStore {
    type V = StoreModel;

    closed spec fn view(&self) -> StoreModel {
        StoreModel {
            namespaces: texts(self.namespaces@),
            entities: chains(self.entities@),
            next_key: self.next_key,
            clock: self.clock,
        }
    }
}

impl ObjectStore {
    /// What holds of every store between two operations: see [`StoreModel::wf`].
    pub open spec fn wf(&self) -> bool {
        self@.wf()
    }

    /// A store that holds nothing.
    pub fn new() -> (store: ObjectStore)
        ensures
            store.wf(),
            store@ == StoreModel::empty(),
    {
        let store = ObjectStore {
            namespaces: Vec::new(),
            entities: Vec::new(),
            next_key: 0,
            clock: i64::MIN,
        };
        assert(store@.namespaces =~= Seq::empty());
        assert(store@.entities =~= Seq::empty());
        store
    }

    /// Where the entity `key` stands, if it is stored.
    fn find(&self, key: &str) -> (found: Option<usize>)
        ensures
            match found {
                Some(i) => i < self.entities@.len() && self@.entities[i as int].key == key@
                    && self@.has(key@),
                None => !self@.has(key@),
            },
            self.wf() && found.is_some() ==> found.unwrap() == self@.slot(key@),
    {
        let mut i: usize = 0;
        while i < self.entities.len()
            invariant
                i <= self.entities@.len(),
                forall|j: int| 0 <= j < i ==> (#[trigger] self@.entities[j]).key != key@,
            decreases self.entities@.len() - i,
        {
            if same_text(self.entities[i].key.as_str(), key) {
                return Some(i);
            }
            i += 1;
        }
        None
    }

    /// Whether an entity with this key is stored.
    pub fn contains(&self, key: &str) -> (yes: bool)
        ensures
            yes == self@.has(key@),
    {
        self.find(key).is_some()
    }

    /// The time a creation at `now` is stamped with.
    fn stamp(&self, now: i64) -> (time: i64)
        ensures
            time == self@.stamp(now),
    {
        if now < self.clock {
            self.clock
        } else {
            now
        }
    }

    /// Creates the entity `name` in `namespace`, with `payload` as its first
    /// version. The entity and the version are stamped with `now`, or with
    /// the time of the latest creation where that is later, so that the order
    /// of creation is the order of the stamps.
    ///
    /// Refused with `InvalidName` when the name holds the separator, with
    /// `NameConflict` when the namespace and name are taken, and with
    /// `StorageUnavailable` when the store has run out of version keys.
    pub fn create_entity(
        &mut self,
        kind: EntityKind,
        namespace: &str,
        name: &str,
        payload: &str,
        schema_version: &str,
        now: i64,
    ) -> (result: Result<Entity, StoreError>)
        requires
            old(self).wf(),
        ensures
            final(self).wf(),
            match old(self)@.create_refusal(namespace@, name@) {
                Some(error) => result == Err::<Entity, StoreError>(error) && final(self)@ == old(self)@,
                None => result.is_ok() && final(self)@ == old(self)@.created(
                    kind,
                    namespace@,
                    name@,
                    payload@,
                    schema_version@,
                    now,
                ) && result.unwrap()@ == final(self)@.chain(
                    entity_key(namespace@, name@),
                ).snapshot(),
            },
    {
        if !valid_name(name) {
            return Err(StoreError::InvalidName);
        }
        let key = gen_key(namespace, name);
        if self.find(key.as_str()).is_some() {
            return Err(StoreError::NameConflict);
        }
        if self.next_key == u64::MAX {
            return Err(StoreError::StorageUnavailable);
        }
        let time = self.stamp(now);
        let version = Version {
            version_key: self.next_key,
            entity_key: key.clone(),
            schema_version: String::from_str(schema_version),
            created_at: time,
            payload: String::from_str(payload),
        };
        let mut chain: Vec<Version> = Vec::new();
        chain.push(version);
        let record = EntityRecord {
            kind,
            key,
            name: String::from_str(name),
            namespace: String::from_str(namespace),
            created_at: time,
            chain,
        };
        let entity = record.snapshot();
        proof {
            lemma_created(old(self)@, kind, namespace@, name@, payload@, schema_version@, now);
            assert(record.model().history =~= seq![version@]);
        }
        self.entities.push(record);
        self.next_key = self.next_key + 1;
        self.clock = time;
        proof {
            assert(self@.entities =~= old(self)@.entities.push(record.model()));
            assert(self@ == old(self)@.created(
                kind,
                namespace@,
                name@,
                payload@,
                schema_version@,
                now,
            ));
        }
        Ok(entity)
    }

    /// The entity `key` with its head version, or `NotFound`.
    pub fn get_entity(&self, key: &str) -> (result: Result<Entity, StoreError>)
        requires
            self.wf(),
        ensures
            match result {
                Ok(entity) => self@.has(key@) && entity@ == self@.chain(key@).snapshot(),
                Err(error) => !self@.has(key@) && error == StoreError::NotFound,
            },
    {
        match self.find(key) {
            Some(i) => {
                Ok(self.entities[i].snapshot())
            },
            None => Err(StoreError::NotFound),
        }
    }

    /// Gives the entity `key` a new head with `payload`. No stored version is
    /// changed: the new one is appended to the entity's history, stamped as
    /// [`ObjectStore::create_entity`] stamps.
    ///
    /// Refused with `NotFound` when no entity has the key, and with
    /// `StorageUnavailable` when the store has run out of version keys.
    pub fn update_entity(&mut self, key: &str, payload: &str, schema_version: &str, now: i64) -> (result:
        Result<Entity, StoreError>)
        requires
            old(self).wf(),
        ensures
            final(self).wf(),
            match old(self)@.update_refusal(key@) {
                Some(error) => result == Err::<Entity, StoreError>(error) && final(self)@ == old(self)@,
                None => result.is_ok() && final(self)@ == old(self)@.updated(
                    key@,
                    payload@,
                    schema_version@,
                    now,
                ) && result.unwrap()@ == final(self)@.chain(key@).snapshot(),
            },
    {
        let i = match self.find(key) {
            Some(i) => i,
            None => {
                return Err(StoreError::NotFound);
            },
        };
        if self.next_key == u64::MAX {
            return Err(StoreError::StorageUnavailable);
        }
        let time = self.stamp(now);
        let version = Version {
            version_key: self.next_key,
            entity_key: String::from_str(key),
            schema_version: String::from_str(schema_version),
            created_at: time,
            payload: String::from_str(payload),
        };
        proof {
            lemma_updated(old(self)@, key@, payload@, schema_version@, now);
        }
        self.entities[i].chain.push(version);
        self.next_key = self.next_key + 1;
        self.clock = time;
        proof {
            let before = old(self).entities@[i as int];
            let after = self.entities@[i as int];
            assert(after.model().history =~= before.model().history.push(version@));
            assert(self@.entities =~= old(self)@.entities.update(i as int, after.model()));
        }
        Ok(self.entities[i].snapshot())
    }

    /// Gives the entity `key` a new head with `payload`, but only if its head
    /// still is the version `seen`, which the caller based the payload on. So
    /// of two callers that saw one head, the first gets its update and the
    /// second is told of the conflict, and no update is lost unseen.
    ///
    /// Refused with `NotFound` when no entity has the key, with `Conflict`
    /// when the head is another version than `seen`, and with
    /// `StorageUnavailable` when the store has run out of version keys.
    pub fn update_entity_from(
        &mut self,
        key: &str,
        seen: u64,
        payload: &str,
        schema_version: &str,
        now: i64,
    ) -> (result: Result<Entity, StoreError>)
        requires
            old(self).wf(),
        ensures
            final(self).wf(),
            match old(self)@.update_from_refusal(key@, seen) {
                Some(error) => result == Err::<Entity, StoreError>(error) && final(self)@ == old(self)@,
                None => result.is_ok() && final(self)@ == old(self)@.updated(
                    key@,
                    payload@,
                    schema_version@,
                    now,
                ) && result.unwrap()@ == final(self)@.chain(key@).snapshot(),
            },
    {
        match self.get_entity(key) {
            Ok(entity) => {
                if entity.current_version_key != seen {
                    return Err(StoreError::Conflict);
                }
            },
            Err(error) => {
                return Err(error);
            },
        }
        self.update_entity(key, payload, schema_version, now)
    }

    /// Removes the entity `key` and its whole history, and returns how many
    /// entities were removed: one. Refused with `NotFound` when no entity has the key.
    pub fn delete_entity(&mut self, key: &str) -> (result: Result<usize, StoreError>)
        requires
            old(self).wf(),
        ensures
            final(self).wf(),
            match result {
                Ok(count) => count == 1 && old(self)@.has(key@) && final(self)@ == old(self)@.deleted(key@),
                Err(error) => error == StoreError::NotFound && !old(self)@.has(key@) && final(self)@ == old(self)@,
            },
    {
        match self.find(key) {
            Some(i) => {
                proof {
                    lemma_deleted(old(self)@, key@);
                }
                self.entities.remove(i);
                proof {
                    assert(self@.entities =~= old(self)@.entities.remove(i as int));
                }
                Ok(1)
            },
            None => Err(StoreError::NotFound),
        }
    }

    /// The history of the entity `key`, newest version first. Empty when no
    /// entity has the key.
    pub fn list_history(&self, key: &str) -> (history: Vec<Version>)
        requires
            self.wf(),
        ensures
            version_models(history@) == self@.newest_first(key@),
    {
        let mut history: Vec<Version> = Vec::new();
        match self.find(key) {
            Some(i) => {
                let chain = &self.entities[i].chain;
                let n = chain.len();
                let mut left: usize = n;
                while left > 0
                    invariant
                        n == chain@.len(),
                        left <= n,
                        history@.len() == n - left,
                        forall|k: int|
                            0 <= k < history@.len() ==> (#[trigger] history@[k])@ == chain@[n - 1
                                - k]@,
                    decreases left,
                {
                    left -= 1;
                    history.push(chain[left].clone());
                }
            },
            None => {},
        }
        history
    }

    /// Where the version `version_key` stands: the entity's place and the
    /// version's place in its history.
    fn find_version(&self, version_key: u64) -> (found: Option<(usize, usize)>)
        requires
            self.wf(),
        ensures
            match found {
                Some((i, j)) => self@.holds_version(i as int, j as int, version_key)
                    && self@.has_version(version_key) && self@.version(version_key)
                    == self@.entities[i as int].history[j as int],
                None => !self@.has_version(version_key),
            },
    {
        let mut i: usize = 0;
        while i < self.entities.len()
            invariant
                self.wf(),
                i <= self.entities@.len(),
                forall|a: int, b: int| 0 <= a < i ==> !self@.holds_version(a, b, version_key),
            decreases self.entities@.len() - i,
        {
            let chain = &self.entities[i].chain;
            let mut j: usize = 0;
            while j < chain.len()
                invariant
                    self.wf(),
                    i < self.entities@.len(),
                    chain == &self.entities@[i as int].chain,
                    j <= chain@.len(),
                    forall|b: int| 0 <= b < j ==> !self@.holds_version(i as int, b, version_key),
                decreases chain@.len() - j,
            {
                if chain[j].version_key == version_key {
                    proof {
                        assert(self@.holds_version(i as int, j as int, version_key));
                        let (a, b) = choose|a: int, b: int| self@.holds_version(a, b, version_key);
                    }
                    return Some((i, j));
                }
                j += 1;
            }
            i += 1;
        }
        None
    }

    /// The version `version_key`. With an `owner`, only if it is a version of
    /// that entity. Refused with `NotFound` otherwise.
    pub fn get_version(&self, version_key: u64, owner: Option<&str>) -> (result: Result<
        Version,
        StoreError,
    >)
        requires
            self.wf(),
        ensures
            match self@.version_refusal(
                version_key,
                match owner {
                    Some(key) => Some(key@),
                    None => None,
                },
            ) {
                Some(error) => result == Err::<Version, StoreError>(error),
                None => result.is_ok() && result.unwrap()@ == self@.version(version_key),
            },
    {
        match self.find_version(version_key) {
            Some((i, j)) => {
                let version = &self.entities[i].chain[j];
                match owner {
                    Some(key) => {
                        if !same_text(version.entity_key.as_str(), key) {
                            return Err(StoreError::NotFound);
                        }
                    },
                    None => {},
                }
                Ok(version.clone())
            },
            None => Err(StoreError::NotFound),
        }
    }

    /// Rolls the entity `key` back to its version `version_key`: the entity
    /// gets a new head that copies that version's payload and schema label.
    /// Nothing is removed from the history.
    ///
    /// Refused with `NotFound` when the entity or the version is not stored,
    /// with `Forbidden` when the version belongs to another entity, and with
    /// `StorageUnavailable` when the store has run out of version keys.
    pub fn reset(&mut self, key: &str, version_key: u64, now: i64) -> (result: Result<
        Entity,
        StoreError,
    >)
        requires
            old(self).wf(),
        ensures
            final(self).wf(),
            match old(self)@.reset_refusal(key@, version_key) {
                Some(error) => result == Err::<Entity, StoreError>(error) && final(self)@ == old(self)@,
                None => result.is_ok() && final(self)@ == old(self)@.reset(key@, version_key, now)
                    && result.unwrap()@ == final(self)@.chain(key@).snapshot(),
            },
    {
        if self.find(key).is_none() {
            return Err(StoreError::NotFound);
        }
        let target = match self.find_version(version_key) {
            Some((i, j)) => self.entities[i].chain[j].clone(),
            None => {
                return Err(StoreError::NotFound);
            },
        };
        if !same_text(target.entity_key.as_str(), key) {
            return Err(StoreError::Forbidden);
        }
        self.update_entity(key, target.payload.as_str(), target.schema_version.as_str(), now)
    }

    /// Whether `record` is one that the query asks for, before limit and offset.
    fn selected(
        record: &EntityRecord,
        kind: &Option<EntityKind>,
        namespace: &Option<&str>,
        name: &Option<&str>,
    ) -> (yes: bool)
        ensures
            yes == query_of(*kind, *namespace, *name, None, None).selects(record.model()),
    {
        let of_kind = match kind {
            Some(wanted) => record.kind == *wanted,
            None => true,
        };
        let in_namespace = match namespace {
            Some(wanted) => same_text(record.namespace.as_str(), wanted),
            None => true,
        };
        let named = match name {
            Some(part) => contains_ignoring_case(record.name.as_str(), part),
            None => true,
        };
        of_kind && in_namespace && named
    }

    /// The entities that the query asks for, in the order of their creation:
    /// those of `kind` and of `namespace`, if they are given, whose name holds
    /// `name`, if one is given, whatever the case of its ASCII letters; of
    /// these, not the first `offset`, and at most `limit`.
    pub fn list_entities(
        &self,
        kind: Option<EntityKind>,
        namespace: Option<&str>,
        name: Option<&str>,
        limit: Option<usize>,
        offset: Option<usize>,
    ) -> (entities: Vec<Entity>)
        requires
            self.wf(),
        ensures
            entity_models(entities@) == self@.listing(query_of(kind, namespace, name, limit, offset)),
    {
        let ghost query = query_of(kind, namespace, name, limit, offset);
        let skip = match offset {
            Some(offset) => offset,
            None => 0,
        };
        let mut entities: Vec<Entity> = Vec::new();
        let mut seen: usize = 0;
        let mut i: usize = 0;
        while i < self.entities.len()
            invariant
                self.wf(),
                query == query_of(kind, namespace, name, limit, offset),
                skip == query.start(usize::MAX as nat),
                i <= self.entities@.len(),
                seen <= i,
                seen == self@.entities.take(i as int).filter(query.selector()).len(),
                entity_models(entities@) == snapshots(
                    query.window(self@.entities.take(i as int).filter(query.selector())),
                ),
            decreases self.entities@.len() - i,
        {
            let ghost picked = self@.entities.take(i as int).filter(query.selector());
            let ghost chain = self@.entities[i as int];
            proof {
                assert(self@.entities.take(i + 1) =~= self@.entities.take(i as int).push(chain));
                self@.entities.take(i as int).lemma_filter_push(chain, query.selector());
                assert(query.selects(chain) == query_of(kind, namespace, name, None, None).selects(
                    chain,
                ));
                assert(entity_models(entities@).len() == entities@.len());
            }
            if Self::selected(&self.entities[i], &kind, &namespace, &name) {
                let room = match limit {
                    Some(limit) => entities.len() < limit,
                    None => true,
                };
                if seen >= skip && room {
                    let ghost before = entities@;
                    entities.push(self.entities[i].snapshot());
                    assert(entity_models(entities@) =~= snapshots(
                        query.window(picked.push(chain)),
                    )) by {
                        assert forall|k: int| 0 <= k < before.len() implies entity_models(
                            entities@,
                        )[k] == snapshots(query.window(picked))[k] by {}
                    }
                }
                seen += 1;
            }
            i += 1;
        }
        assert(self@.entities.take(i as int) =~= self@.entities);
        entities
    }

    /// How many entities the namespace holds.
    pub fn count_by_namespace(&self, namespace: &str) -> (count: usize)
        ensures
            count == self@.population(namespace@),
    {
        let mut count: usize = 0;
        let mut i: usize = 0;
        while i < self.entities.len()
            invariant
                i <= self.entities@.len(),
                count <= i,
                count == self@.entities.take(i as int).filter(in_namespace(namespace@)).len(),
            decreases self.entities@.len() - i,
        {
            proof {
                let chain = self@.entities[i as int];
                assert(self@.entities.take(i + 1) =~= self@.entities.take(i as int).push(chain));
                self@.entities.take(i as int).lemma_filter_push(chain, in_namespace(namespace@));
            }
            if same_text(self.entities[i].namespace.as_str(), namespace) {
                count += 1;
            }
            i += 1;
        }
        assert(self@.entities.take(i as int) =~= self@.entities);
        count
    }

    /// Where the namespace stands, if it was created.
    fn find_namespace(&self, name: &str) -> (found: Option<usize>)
        ensures
            match found {
                Some(i) => i < self@.namespaces.len() && self@.namespaces[i as int] == name@
                    && self@.has_namespace(name@),
                None => !self@.has_namespace(name@),
            },
            self.wf() && found.is_some() ==> found.unwrap() == self@.namespaces.index_of(name@),
    {
        let mut i: usize = 0;
        while i < self.namespaces.len()
            invariant
                i <= self.namespaces@.len(),
                forall|j: int| 0 <= j < i ==> self@.namespaces[j] != name@,
            decreases self.namespaces@.len() - i,
        {
            if same_text(self.namespaces[i].as_str(), name) {
                return Some(i);
            }
            i += 1;
        }
        None
    }

    /// Whether the namespace was created.
    pub fn has_namespace(&self, name: &str) -> (yes: bool)
        ensures
            yes == self@.has_namespace(name@),
    {
        self.find_namespace(name).is_some()
    }

    /// Creates the namespace. Refused with `NameConflict` when it exists.
    pub fn create_namespace(&mut self, name: &str) -> (result: Result<(), StoreError>)
        requires
            old(self).wf(),
        ensures
            final(self).wf(),
            match result {
                Ok(_) => !old(self)@.has_namespace(name@) && final(self)@ == old(self)@.namespace_created(name@),
                Err(error) => error == StoreError::NameConflict && old(self)@.has_namespace(name@)
                    && final(self)@ == old(self)@,
            },
    {
        if self.find_namespace(name).is_some() {
            return Err(StoreError::NameConflict);
        }
        self.namespaces.push(String::from_str(name));
        proof {
            assert(self@.namespaces =~= old(self)@.namespaces.push(name@));
            lemma_namespaces_only(old(self)@, self@);
        }
        Ok(())
    }

    /// Removes the namespace. Refused with `NotFound` when it does not exist,
    /// and with `Conflict` while it holds an entity.
    pub fn delete_namespace(&mut self, name: &str) -> (result: Result<(), StoreError>)
        requires
            old(self).wf(),
        ensures
            final(self).wf(),
            match old(self)@.namespace_removal_refusal(name@) {
                Some(error) => result == Err::<(), StoreError>(error) && final(self)@ == old(self)@,
                None => result.is_ok() && final(self)@ == old(self)@.namespace_deleted(name@),
            },
    {
        let i = match self.find_namespace(name) {
            Some(i) => i,
            None => {
                return Err(StoreError::NotFound);
            },
        };
        if self.count_by_namespace(name) > 0 {
            return Err(StoreError::Conflict);
        }
        self.namespaces.remove(i);
        proof {
            assert(self@.namespaces =~= old(self)@.namespaces.remove(i as int));
            lemma_namespaces_only(old(self)@, self@);
        }
        Ok(())
    }
}

/// The query that the optional parts make.
pub open spec fn query_of(
    kind: Option<EntityKind>,
    namespace: Option<&str>,
    name: Option<&str>,
    limit: Option<usize>,
    offset: Option<usize>,
) -> ListQuery {
    ListQuery {
        kind,
        namespace: match namespace {
            Some(text) => Some(text@),
            None => None,
        },
        name: match name {
            Some(text) => Some(text@),
            None => None,
        },
        limit,
        offset,
    }
}

/// A change to the namespaces alone, which leaves them without duplicates,
/// keeps the store well formed.
proof fn lemma_namespaces_only(before: StoreModel, after: StoreModel)
    requires
        before.wf(),
        after.entities == before.entities,
        after.next_key == before.next_key,
        after.clock == before.clock,
        after.namespaces == before.namespaces.push(after.namespaces.last())
            && !before.namespaces.contains(after.namespaces.last()) || exists|i: int|
            0 <= i < before.namespaces.len() && after.namespaces == before.namespaces.remove(i),
    ensures
        after.wf(),
{
    assert forall|i: int, j: int, version_key: u64| #[trigger]
        after.holds_version(i, j, version_key) implies version_key < after.next_key by {
        assert(before.holds_version(i, j, version_key));
    }
    assert forall|i1: int, j1: int, i2: int, j2: int, version_key: u64|
        #[trigger] after.holds_version(i1, j1, version_key) && #[trigger] after.holds_version(
            i2,
            j2,
            version_key,
        ) implies i1 == i2 && j1 == j2 by {
        assert(before.holds_version(i1, j1, version_key));
        assert(before.holds_version(i2, j2, version_key));
    }
}

} // verus!
