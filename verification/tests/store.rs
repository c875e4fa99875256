use nanocl::keys::{gen_key, key_name, key_namespace, valid_name};
use nanocl::model::{EntityKind, StoreError};
use nanocl::store::ObjectStore;

fn payloads(store: &ObjectStore, key: &str) -> Vec<String> {
    store.list_history(key).into_iter().map(|version| version.payload).collect()
}

#[test]
fn key_is_name_dot_namespace() {
    assert_eq!(gen_key("ns", "c1"), "c1.ns");
    assert_eq!(gen_key("global", "my-cargo"), "my-cargo.global");
    assert_eq!(gen_key("a.b", "c"), "c.a.b");
}

#[test]
fn name_with_separator_is_invalid() {
    assert!(valid_name("c1"));
    assert!(valid_name(""));
    assert!(!valid_name("c.1"));
    assert!(!valid_name("."));
    assert!(!valid_name("c1."));
}

#[test]
fn key_splits_at_first_separator() {
    assert_eq!(key_name("c1.ns"), "c1");
    assert_eq!(key_namespace("c1.ns"), "ns");
    assert_eq!(key_name("c.a.b"), "c");
    assert_eq!(key_namespace("c.a.b"), "a.b");
    assert_eq!(key_name("plain"), "plain");
    assert_eq!(key_namespace("plain"), "");
    assert_eq!(key_name(".ns"), "");
    assert_eq!(key_namespace("c1."), "");
}

#[test]
fn history_lists_newest_first() {
    let mut store = ObjectStore::new();
    let created = store
        .create_entity(EntityKind::Cargo, "ns", "c1", "payload_v1", "v0.0.1", 10)
        .unwrap();
    assert_eq!(created.key, "c1.ns");
    let updated = store.update_entity(&created.key, "payload_v2", "v0.0.1", 20).unwrap();
    let history = store.list_history(&created.key);
    assert_eq!(history.len(), 2);
    assert_eq!(history[0].payload, "payload_v2");
    assert_eq!(history[1].payload, "payload_v1");
    assert_eq!(history[0].version_key, updated.current_version_key);
    assert_eq!(history[1].version_key, created.current_version_key);
    assert_eq!(history[0], updated.version);
    assert_eq!(history[1], created.version);
}

#[test]
fn create_returns_entity_with_first_version() {
    let mut store = ObjectStore::new();
    let entity = store
        .create_entity(EntityKind::Resource, "global", "r1", "{}", "v0.0.1", 7)
        .unwrap();
    assert_eq!(entity.kind, EntityKind::Resource);
    assert_eq!(entity.key, "r1.global");
    assert_eq!(entity.name, "r1");
    assert_eq!(entity.namespace, "global");
    assert_eq!(entity.created_at, 7);
    assert_eq!(entity.current_version_key, 0);
    assert_eq!(entity.version.version_key, 0);
    assert_eq!(entity.version.entity_key, "r1.global");
    assert_eq!(entity.version.schema_version, "v0.0.1");
    assert_eq!(entity.version.created_at, 7);
    assert_eq!(entity.version.payload, "{}");
    assert_eq!(store.get_entity("r1.global").unwrap(), entity);
}

#[test]
fn version_keys_count_up_and_are_never_reused() {
    let mut store = ObjectStore::new();
    let a = store.create_entity(EntityKind::Cargo, "ns", "a", "1", "v1", 0).unwrap();
    let b = store.create_entity(EntityKind::Cargo, "ns", "b", "1", "v1", 0).unwrap();
    let a2 = store.update_entity("a.ns", "2", "v1", 0).unwrap();
    assert_eq!(a.current_version_key, 0);
    assert_eq!(b.current_version_key, 1);
    assert_eq!(a2.current_version_key, 2);
    assert_eq!(store.delete_entity("a.ns"), Ok(1));
    let again = store.create_entity(EntityKind::Cargo, "ns", "a", "1", "v1", 0).unwrap();
    assert_eq!(again.current_version_key, 3);
    assert_eq!(store.get_version(0, None), Err(StoreError::NotFound));
    assert_eq!(store.get_version(2, None), Err(StoreError::NotFound));
    assert_eq!(store.get_version(1, None).unwrap(), b.version);
}

#[test]
fn create_refuses_invalid_name() {
    let mut store = ObjectStore::new();
    assert_eq!(
        store.create_entity(EntityKind::Cargo, "ns", "c.1", "p", "v1", 0),
        Err(StoreError::InvalidName)
    );
    assert!(!store.contains("c.1.ns"));
    assert!(store.list_entities(None, None, None, None, None).is_empty());
}

#[test]
fn create_refuses_taken_name() {
    let mut store = ObjectStore::new();
    store.create_entity(EntityKind::Cargo, "ns", "c1", "p", "v1", 0).unwrap();
    assert_eq!(
        store.create_entity(EntityKind::Cargo, "ns", "c1", "q", "v1", 1),
        Err(StoreError::NameConflict)
    );
    assert_eq!(
        store.create_entity(EntityKind::Vm, "ns", "c1", "q", "v1", 1),
        Err(StoreError::NameConflict)
    );
    assert_eq!(payloads(&store, "c1.ns"), vec!["p"]);
    assert!(store.create_entity(EntityKind::Cargo, "other", "c1", "q", "v1", 1).is_ok());
}

#[test]
fn invalid_name_is_told_before_taken_name() {
    let mut store = ObjectStore::new();
    store.create_entity(EntityKind::Cargo, "b.c", "a", "p", "v1", 0).unwrap();
    assert!(store.contains("a.b.c"));
    assert_eq!(
        store.create_entity(EntityKind::Cargo, "c", "a.b", "q", "v1", 0),
        Err(StoreError::InvalidName)
    );
}

#[test]
fn unknown_key_is_not_found() {
    let mut store = ObjectStore::new();
    assert_eq!(store.get_entity("c1.ns"), Err(StoreError::NotFound));
    assert_eq!(store.update_entity("c1.ns", "p", "v1", 0), Err(StoreError::NotFound));
    assert_eq!(store.delete_entity("c1.ns"), Err(StoreError::NotFound));
    assert_eq!(store.reset("c1.ns", 0, 0), Err(StoreError::NotFound));
    assert_eq!(store.get_version(0, None), Err(StoreError::NotFound));
    assert!(store.list_history("c1.ns").is_empty());
}

#[test]
fn update_never_changes_a_stored_version() {
    let mut store = ObjectStore::new();
    store.create_entity(EntityKind::Cargo, "ns", "c1", "one", "v1", 1).unwrap();
    let before = store.list_history("c1.ns");
    store.update_entity("c1.ns", "two", "v2", 2).unwrap();
    store.update_entity("c1.ns", "three", "v3", 3).unwrap();
    let after = store.list_history("c1.ns");
    assert_eq!(after.len(), 3);
    assert_eq!(after[2], before[0]);
    assert_eq!(payloads(&store, "c1.ns"), vec!["three", "two", "one"]);
    assert_eq!(store.get_entity("c1.ns").unwrap().version.schema_version, "v3");
}

#[test]
fn histories_only_grow() {
    let mut store = ObjectStore::new();
    store.create_entity(EntityKind::Cargo, "ns", "a", "a1", "v1", 1).unwrap();
    store.create_entity(EntityKind::Resource, "ns", "b", "b1", "v1", 2).unwrap();
    let mut seen_a = store.list_history("a.ns");
    let mut seen_b = store.list_history("b.ns");
    for round in 0..4 {
        if round % 2 == 0 {
            store.update_entity("a.ns", "next", "v1", 3).unwrap();
        } else {
            let oldest = store.list_history("b.ns").last().unwrap().version_key;
            store.reset("b.ns", oldest, 3).unwrap();
        }
        store.create_namespace(&format!("n{round}")).unwrap();
        let _ = store.create_entity(EntityKind::Cargo, "ns", "a", "dup", "v1", 3);
        let now_a = store.list_history("a.ns");
        let now_b = store.list_history("b.ns");
        assert!(now_a.len() >= seen_a.len());
        assert!(now_b.len() >= seen_b.len());
        assert_eq!(now_a[now_a.len() - seen_a.len()..], seen_a[..]);
        assert_eq!(now_b[now_b.len() - seen_b.len()..], seen_b[..]);
        seen_a = now_a;
        seen_b = now_b;
    }
    assert_eq!(seen_a.len(), 3);
    assert_eq!(seen_b.len(), 3);
}

#[test]
fn reset_appends_copy_of_target() {
    let mut store = ObjectStore::new();
    let v1 = store.create_entity(EntityKind::Cargo, "ns", "e", "first", "s1", 1).unwrap().version;
    let v2 = store.update_entity("e.ns", "second", "s2", 2).unwrap().version;
    let v3 = store.update_entity("e.ns", "third", "s3", 3).unwrap().version;
    let entity = store.reset("e.ns", v1.version_key, 4).unwrap();
    let v4 = entity.version.clone();
    assert_eq!(v4.payload, v1.payload);
    assert_eq!(v4.schema_version, v1.schema_version);
    assert_eq!(v4.entity_key, "e.ns");
    assert_eq!(v4.version_key, 3);
    assert_eq!(v4.created_at, 4);
    assert_eq!(entity.current_version_key, v4.version_key);
    assert_eq!(store.list_history("e.ns"), vec![v4, v3, v2, v1]);
}

#[test]
fn reset_to_head_still_appends() {
    let mut store = ObjectStore::new();
    let v1 = store.create_entity(EntityKind::Cargo, "ns", "e", "first", "s1", 1).unwrap().version;
    store.reset("e.ns", v1.version_key, 2).unwrap();
    assert_eq!(payloads(&store, "e.ns"), vec!["first", "first"]);
}

#[test]
fn reset_refuses_version_of_another_entity() {
    let mut store = ObjectStore::new();
    store.create_entity(EntityKind::Cargo, "ns", "a", "a1", "v1", 1).unwrap();
    let b = store.create_entity(EntityKind::Cargo, "ns", "b", "b1", "v1", 1).unwrap();
    assert_eq!(store.reset("a.ns", b.current_version_key, 2), Err(StoreError::Forbidden));
    assert_eq!(store.reset("a.ns", 99, 2), Err(StoreError::NotFound));
    assert_eq!(store.reset("zz.ns", b.current_version_key, 2), Err(StoreError::NotFound));
    assert_eq!(payloads(&store, "a.ns"), vec!["a1"]);
}

#[test]
fn get_version_checks_owner() {
    let mut store = ObjectStore::new();
    let a = store.create_entity(EntityKind::Cargo, "ns", "a", "a1", "v1", 1).unwrap();
    store.create_entity(EntityKind::Cargo, "ns", "b", "b1", "v1", 1).unwrap();
    assert_eq!(store.get_version(a.current_version_key, None).unwrap(), a.version);
    assert_eq!(store.get_version(a.current_version_key, Some("a.ns")).unwrap(), a.version);
    assert_eq!(store.get_version(a.current_version_key, Some("b.ns")), Err(StoreError::NotFound));
    assert_eq!(store.get_version(17, Some("a.ns")), Err(StoreError::NotFound));
}

#[test]
fn delete_removes_entity_and_history() {
    let mut store = ObjectStore::new();
    let a = store.create_entity(EntityKind::Cargo, "ns", "a", "a1", "v1", 1).unwrap();
    store.update_entity("a.ns", "a2", "v1", 2).unwrap();
    store.create_entity(EntityKind::Cargo, "ns", "b", "b1", "v1", 3).unwrap();
    assert_eq!(store.delete_entity("a.ns"), Ok(1));
    assert!(!store.contains("a.ns"));
    assert!(store.contains("b.ns"));
    assert!(store.list_history("a.ns").is_empty());
    assert_eq!(store.get_version(a.current_version_key, None), Err(StoreError::NotFound));
    assert_eq!(store.delete_entity("a.ns"), Err(StoreError::NotFound));
    assert_eq!(payloads(&store, "b.ns"), vec!["b1"]);
}

#[test]
fn creation_times_never_go_back() {
    let mut store = ObjectStore::new();
    let a = store.create_entity(EntityKind::Cargo, "ns", "a", "a1", "v1", 100).unwrap();
    let b = store.create_entity(EntityKind::Cargo, "ns", "b", "b1", "v1", 50).unwrap();
    let a2 = store.update_entity("a.ns", "a2", "v1", 70).unwrap();
    let b2 = store.update_entity("b.ns", "b2", "v1", 130).unwrap();
    assert_eq!(a.created_at, 100);
    assert_eq!(b.created_at, 100);
    assert_eq!(a2.version.created_at, 100);
    assert_eq!(a2.created_at, 100);
    assert_eq!(b2.version.created_at, 130);
    assert_eq!(b2.created_at, 100);
}

fn names(store: &ObjectStore, kind: Option<EntityKind>, namespace: Option<&str>, name: Option<&str>, limit: Option<usize>, offset: Option<usize>) -> Vec<String> {
    store
        .list_entities(kind, namespace, name, limit, offset)
        .into_iter()
        .map(|entity| entity.name)
        .collect()
}

fn filled() -> ObjectStore {
    let mut store = ObjectStore::new();
    store.create_entity(EntityKind::Cargo, "ns", "Alpha", "p", "v1", 1).unwrap();
    store.create_entity(EntityKind::Cargo, "ns", "beta", "p", "v1", 2).unwrap();
    store.create_entity(EntityKind::Resource, "ns", "alphabet", "p", "v1", 3).unwrap();
    store.create_entity(EntityKind::Cargo, "other", "ALPHA-2", "p", "v1", 4).unwrap();
    store.create_entity(EntityKind::Vm, "ns", "gamma", "p", "v1", 5).unwrap();
    store
}

#[test]
fn list_is_in_creation_order() {
    let store = filled();
    assert_eq!(
        names(&store, None, None, None, None, None),
        vec!["Alpha", "beta", "alphabet", "ALPHA-2", "gamma"]
    );
}

#[test]
fn list_filters_by_namespace_and_kind() {
    let store = filled();
    assert_eq!(names(&store, None, Some("ns"), None, None, None), vec!["Alpha", "beta", "alphabet", "gamma"]);
    assert_eq!(names(&store, None, Some("other"), None, None, None), vec!["ALPHA-2"]);
    assert!(names(&store, None, Some("none"), None, None, None).is_empty());
    assert_eq!(names(&store, Some(EntityKind::Cargo), None, None, None, None), vec!["Alpha", "beta", "ALPHA-2"]);
    assert_eq!(names(&store, Some(EntityKind::Vm), Some("ns"), None, None, None), vec!["gamma"]);
}

#[test]
fn list_name_filter_ignores_case() {
    let store = filled();
    assert_eq!(names(&store, None, None, Some("alpha"), None, None), vec!["Alpha", "alphabet", "ALPHA-2"]);
    assert_eq!(names(&store, None, None, Some("ALPHA"), None, None), vec!["Alpha", "alphabet", "ALPHA-2"]);
    assert_eq!(names(&store, None, None, Some("PhAb"), None, None), vec!["alphabet"]);
    assert_eq!(names(&store, None, None, Some("a-2"), None, None), vec!["ALPHA-2"]);
    assert_eq!(names(&store, None, None, Some(""), None, None).len(), 5);
    assert!(names(&store, None, None, Some("alphabets"), None, None).is_empty());
    assert!(names(&store, None, None, Some("delta"), None, None).is_empty());
}

#[test]
fn list_pages_by_offset_and_limit() {
    let store = filled();
    assert_eq!(names(&store, None, None, None, Some(2), None), vec!["Alpha", "beta"]);
    assert_eq!(names(&store, None, None, None, Some(2), Some(1)), vec!["beta", "alphabet"]);
    assert_eq!(names(&store, None, None, None, None, Some(3)), vec!["ALPHA-2", "gamma"]);
    assert_eq!(names(&store, None, None, None, Some(10), Some(4)), vec!["gamma"]);
    assert!(names(&store, None, None, None, Some(10), Some(5)).is_empty());
    assert!(names(&store, None, None, None, None, Some(usize::MAX)).is_empty());
    assert!(names(&store, None, None, None, Some(0), None).is_empty());
    assert_eq!(names(&store, None, None, None, Some(usize::MAX), Some(3)), vec!["ALPHA-2", "gamma"]);
    assert_eq!(names(&store, None, None, Some("alpha"), Some(1), Some(1)), vec!["alphabet"]);
}

#[test]
fn namespace_is_created_once() {
    let mut store = ObjectStore::new();
    assert!(!store.has_namespace("default"));
    assert_eq!(store.create_namespace("default"), Ok(()));
    assert!(store.has_namespace("default"));
    assert_eq!(store.create_namespace("default"), Err(StoreError::NameConflict));
    assert!(!store.has_namespace("Default"));
}

#[test]
fn namespace_with_entities_cannot_be_deleted() {
    let mut store = ObjectStore::new();
    store.create_namespace("ns").unwrap();
    store.create_namespace("empty").unwrap();
    store.create_entity(EntityKind::Cargo, "ns", "c1", "p", "v1", 1).unwrap();
    assert_eq!(store.count_by_namespace("ns"), 1);
    assert_eq!(store.count_by_namespace("empty"), 0);
    assert_eq!(store.delete_namespace("ns"), Err(StoreError::Conflict));
    assert_eq!(store.delete_namespace("missing"), Err(StoreError::NotFound));
    assert_eq!(store.delete_namespace("empty"), Ok(()));
    assert!(!store.has_namespace("empty"));
    store.delete_entity("c1.ns").unwrap();
    assert_eq!(store.delete_namespace("ns"), Ok(()));
    assert!(!store.has_namespace("ns"));
}

#[test]
fn update_from_a_stale_head_is_a_conflict() {
    let mut store = ObjectStore::new();
    let seen = store.create_entity(EntityKind::Cargo, "ns", "c1", "one", "v1", 1).unwrap();
    let first = store
        .update_entity_from("c1.ns", seen.current_version_key, "two", "v1", 2)
        .unwrap();
    assert_eq!(first.version.payload, "two");
    assert_eq!(
        store.update_entity_from("c1.ns", seen.current_version_key, "three", "v1", 3),
        Err(StoreError::Conflict)
    );
    assert_eq!(payloads(&store, "c1.ns"), vec!["two", "one"]);
    assert!(store.update_entity_from("c1.ns", first.current_version_key, "three", "v1", 3).is_ok());
    assert_eq!(store.update_entity_from("c9.ns", 0, "x", "v1", 4), Err(StoreError::NotFound));
    assert_eq!(payloads(&store, "c1.ns"), vec!["three", "two", "one"]);
}
