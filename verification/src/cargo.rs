//! The cargo repository: the store's operations for cargoes, with failures
//! reported as HTTP errors.

use crate::error::{HttpError, HttpErrorModel};
use crate::keys::entity_key;
use crate::model::{EntityKind, ListQuery, StoreError, StoreModel};
use crate::store::{entity_models, Entity, ObjectStore};
use vstd::prelude::*;
use vstd::string::*;

verus! {

/// A namespace as the database keeps it.
#[derive(Debug, PartialEq, Eq)]
pub struct NamespaceDbModel {
    pub name: String,
    /// When the namespace was created.
    pub created_at: i64,
}

/// The desired configuration of a cargo.
#[derive(Debug, PartialEq, Eq)]
pub struct CargoConfigPartial {
    /// The name of the cargo.
    pub name: String,
    /// The configuration document.
    pub config: String,
}

/// Which cargoes of a namespace a listing asks for.
#[derive(Debug, PartialEq, Eq)]
pub struct GenericCargoListQuery {
    pub namespace: NamespaceDbModel,
    /// Only cargoes whose name holds this text, whatever the case of its ASCII letters.
    pub name: Option<String>,
    /// At most this many cargoes.
    pub limit: Option<usize>,
    /// Not the first this many of them.
    pub offset: Option<usize>,
}

impl GenericCargoListQuery {
    /// The query as the store reads it.
    pub open spec fn model(&self) -> ListQuery {
        ListQuery {
            kind: Some(EntityKind::Cargo),
            namespace: Some(self.namespace.name@),
            name: match self.name {
                Some(name) => Some(name@),
                None => None,
            },
            limit: self.limit,
            offset: self.offset,
        }
    }

    /// The query for all cargoes of a namespace.
    pub fn of_namespace(namespace: NamespaceDbModel) -> (query: GenericCargoListQuery)
        ensures
            query.namespace == namespace,
            query.name.is_none(),
            query.limit.is_none(),
            query.offset.is_none(),
    {
        GenericCargoListQuery { namespace, name: None, limit: None, offset: None }
    }
}

/// How many rows a deletion removed.
#[derive(Debug, Clone, Copy, PartialEq, Eq, Structural)]
pub struct GenericDelete {
    pub count: usize,
}

/// How a refusal of the store is reported: something that is missing as 404,
/// a name that is taken and any other conflict as 409, a name or an object
/// that is not valid as 400, a version of another entity as 403, and a store
/// that cannot take the operation as 503.
pub open spec fn refused(context: Seq<char>, error: StoreError) -> HttpErrorModel {
    match error {
        StoreError::NotFound => HttpErrorModel {
            status: 404,
            msg: "StoreError "@ + context + " not found"@,
        },
        StoreError::NameConflict => HttpErrorModel {
            status: 409,
            msg: "StoreError "@ + context + " already exists"@,
        },
        StoreError::Conflict => HttpErrorModel {
            status: 409,
            msg: "StoreError "@ + context + " conflict"@,
        },
        StoreError::InvalidName => HttpErrorModel {
            status: 400,
            msg: "StoreError "@ + context + " invalid name"@,
        },
        StoreError::InvalidSpec => HttpErrorModel {
            status: 400,
            msg: "StoreError "@ + context + " invalid spec"@,
        },
        StoreError::Forbidden => HttpErrorModel {
            status: 403,
            msg: "StoreError "@ + context + " forbidden"@,
        },
        StoreError::StorageUnavailable => HttpErrorModel {
            status: 503,
            msg: "StoreError "@ + context + " unavailable"@,
        },
    }
}

/// Reports a refusal of the store about `context`: see [`refused`].
pub fn store_error(context: &str, error: StoreError) -> (reported: HttpError)
    ensures
        reported@ == refused(context@, error),
{
    let mut msg = String::from_str("StoreError ");
    msg.append(context);
    let status: u16 = match error {
        StoreError::NotFound => {
            msg.append(" not found");
            404
        },
        StoreError::NameConflict => {
            msg.append(" already exists");
            409
        },
        StoreError::Conflict => {
            msg.append(" conflict");
            409
        },
        StoreError::InvalidName => {
            msg.append(" invalid name");
            400
        },
        StoreError::InvalidSpec => {
            msg.append(" invalid spec");
            400
        },
        StoreError::Forbidden => {
            msg.append(" forbidden");
            403
        },
        StoreError::StorageUnavailable => {
            msg.append(" unavailable");
            503
        },
    };
    HttpError { status, msg }
}

/// Whether a cargo with this key is stored.
pub open spec fn has_cargo(store: StoreModel, key: Seq<char>) -> bool {
    store.has(key) && store.chain(key).kind == EntityKind::Cargo
}

/// How the refusal to create a cargo is reported: a name with a dot in its
/// own words, any other refusal as [`refused`] says.
pub open spec fn create_refused(error: StoreError) -> HttpErrorModel {
    match error {
        StoreError::InvalidName => HttpErrorModel {
            status: 400,
            msg: "The cargo name cannot contain a dot"@,
        },
        _ => refused("cargo"@, error),
    }
}

/// The query for all cargoes of a namespace.
pub open spec fn cargoes_of(namespace: Seq<char>) -> ListQuery {
    ListQuery {
        kind: Some(EntityKind::Cargo),
        namespace: Some(namespace),
        name: None,
        limit: None,
        offset: None,
    }
}

/// The cargoes of a namespace, in the order of their creation.
pub fn find_by_namespace(nsp: &NamespaceDbModel, store: &ObjectStore) -> (cargoes: Vec<Entity>)
    requires
        store.wf(),
    ensures
        entity_models(cargoes@) == store@.listing(cargoes_of(nsp.name@)),
{
    let name = nsp.name.as_str();
    store.list_entities(Some(EntityKind::Cargo), Some(name), None, None, None)
}

/// The cargoes that the query asks for, in the order of their creation.
pub fn find_by_list_query(query: &GenericCargoListQuery, store: &ObjectStore) -> (cargoes: Vec<
    Entity,
>)
    requires
        store.wf(),
    ensures
        entity_models(cargoes@) == store@.listing(query.model()),
{
    let name = match &query.name {
        Some(name) => Some(name.as_str()),
        None => None,
    };
    let namespace = query.namespace.name.as_str();
    store.list_entities(Some(EntityKind::Cargo), Some(namespace), name, query.limit, query.offset)
}

/// Creates the cargo that `item` describes in the namespace `nsp`, with the
/// schema label `version`, at the time `now`.
///
/// A name with a dot is reported as 400, a name that is taken as 409, and a
/// store that has run out of version keys as 503.
pub fn create(
    nsp: &str,
    item: &CargoConfigPartial,
    version: &str,
    store: &mut ObjectStore,
    now: i64,
) -> (result: Result<Entity, HttpError>)
    requires
        old(store).wf(),
    ensures
        final(store).wf(),
        match old(store)@.create_refusal(nsp@, item.name@) {
            Some(error) => result.is_err() && result.unwrap_err()@ == create_refused(error)
                && final(store)@ == old(store)@,
            None => result.is_ok() && final(store)@ == old(store)@.created(
                EntityKind::Cargo,
                nsp@,
                item.name@,
                item.config@,
                version@,
                now,
            ) && result.unwrap()@ == final(store)@.chain(entity_key(nsp@, item.name@)).snapshot(),
        },
{
    match store.create_entity(
        EntityKind::Cargo,
        nsp,
        item.name.as_str(),
        item.config.as_str(),
        version,
        now,
    ) {
        Ok(cargo) => Ok(cargo),
        Err(StoreError::InvalidName) => Err(
            HttpError { status: 400, msg: String::from_str("The cargo name cannot contain a dot") },
        ),
        Err(error) => Err(store_error("cargo", error)),
    }
}

/// Removes the cargo `key` and its whole history. One that is not stored,
/// or that is no cargo, is reported as 404.
pub fn delete_by_key(key: &str, store: &mut ObjectStore) -> (result: Result<
    GenericDelete,
    HttpError,
>)
    requires
        old(store).wf(),
    ensures
        final(store).wf(),
        if has_cargo(old(store)@, key@) {
            result.is_ok() && result.unwrap().count == 1 && final(store)@ == old(store)@.deleted(
                key@,
            )
        } else {
            result.is_err() && result.unwrap_err()@ == refused("cargo"@, StoreError::NotFound)
                && final(store)@ == old(store)@
        },
{
    match find_by_key(key, store) {
        Ok(_) => match store.delete_entity(key) {
            Ok(count) => Ok(GenericDelete { count }),
            Err(error) => Err(store_error("cargo", error)),
        },
        Err(error) => Err(error),
    }
}

/// The cargo `key` with its head version. One that is not stored, or that
/// is no cargo, is reported as 404.
pub fn find_by_key(key: &str, store: &ObjectStore) -> (result: Result<Entity, HttpError>)
    requires
        store.wf(),
    ensures
        if has_cargo(store@, key@) {
            result.is_ok() && result.unwrap()@ == store@.chain(key@).snapshot()
        } else {
            result.is_err() && result.unwrap_err()@ == refused("cargo"@, StoreError::NotFound)
        },
{
    match store.get_entity(key) {
        Ok(entity) => match entity.kind {
            EntityKind::Cargo => Ok(entity),
            _ => Err(store_error("cargo", StoreError::NotFound)),
        },
        Err(error) => Err(store_error("cargo", error)),
    }
}

/// Gives the cargo `key` a new head with the configuration of `item` and
/// the schema label `version`, at the time `now`. The cargo keeps its name.
///
/// A cargo that is not stored is reported as 404, and a store that has run
/// out of version keys as 503.
pub fn update_by_key(
    key: &str,
    item: &CargoConfigPartial,
    version: &str,
    store: &mut ObjectStore,
    now: i64,
) -> (result: Result<Entity, HttpError>)
    requires
        old(store).wf(),
    ensures
        final(store).wf(),
        if !has_cargo(old(store)@, key@) {
            result.is_err() && result.unwrap_err()@ == refused("cargo"@, StoreError::NotFound)
                && final(store)@ == old(store)@
        } else if !old(store)@.has_room() {
            result.is_err() && result.unwrap_err()@ == refused(
                "cargo"@,
                StoreError::StorageUnavailable,
            ) && final(store)@ == old(store)@
        } else {
            result.is_ok() && final(store)@ == old(store)@.updated(
                key@,
                item.config@,
                version@,
                now,
            ) && result.unwrap()@ == final(store)@.chain(key@).snapshot()
        },
{
    match find_by_key(key, store) {
        Ok(_) => match store.update_entity(key, item.config.as_str(), version, now) {
            Ok(cargo) => Ok(cargo),
            Err(error) => Err(store_error("cargo", error)),
        },
        Err(error) => Err(error),
    }
}

/// How many cargoes the namespace holds.
pub fn count_by_namespace(nsp: &str, store: &ObjectStore) -> (count: usize)
    requires
        store.wf(),
    ensures
        count == store@.listing(cargoes_of(nsp@)).len(),
{
    let cargoes = store.list_entities(Some(EntityKind::Cargo), Some(nsp), None, None, None);
    cargoes.len()
}

/// The cargo `key` with the configuration that is its head. One that is
/// not stored, or that is no cargo, is reported as 404.
pub fn inspect_by_key(key: &str, store: &ObjectStore) -> (result: Result<Entity, HttpError>)
    requires
        store.wf(),
    ensures
        if has_cargo(store@, key@) {
            result.is_ok() && result.unwrap()@ == store@.chain(key@).snapshot()
        } else {
            result.is_err() && result.unwrap_err()@ == refused("cargo"@, StoreError::NotFound)
        },
{
    find_by_key(key, store)
}

} // verus!
