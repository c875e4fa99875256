use nanocl::manifest::{Manifest, ManifestObject, ObjectKind};
use nanocl::model::{EntityKind, StoreError};
use nanocl::notifier::{apply_events, revert_events, Event, EventKind};
use nanocl::reconcile::{have_same_keys, Change, Operation, Outcome, Reconciler, Undone};

fn object(kind: ObjectKind, namespace: &str, name: &str, spec: &str) -> ManifestObject {
    ManifestObject {
        kind,
        namespace: namespace.to_string(),
        name: name.to_string(),
        schema_version: "v0.0.1".to_string(),
        spec: spec.to_string(),
    }
}

fn manifest(objects: Vec<ManifestObject>) -> Manifest {
    Manifest { objects }
}

fn deploy() -> Manifest {
    manifest(vec![
        object(ObjectKind::Cargo, "global", "deploy-example", "{\"image\":\"get-started\"}"),
        object(ObjectKind::Resource, "global", "resource-example", "{\"rule\":1}"),
        object(ObjectKind::Namespace, "", "global", ""),
    ])
}

fn engine_payloads(engine: &Reconciler, key: &str) -> Vec<String> {
    engine.store().list_history(key).into_iter().map(|version| version.payload).collect()
}

#[test]
fn objects_are_applied_by_stage() {
    let ordered = deploy().ordered();
    let names: Vec<&str> = ordered.iter().map(|object| object.name.as_str()).collect();
    assert_eq!(names, vec!["global", "resource-example", "deploy-example"]);
    let mixed = manifest(vec![
        object(ObjectKind::Vm, "ns", "vm1", "p"),
        object(ObjectKind::Cargo, "ns", "c1", "p"),
        object(ObjectKind::Resource, "ns", "r1", "p"),
        object(ObjectKind::Namespace, "", "n1", ""),
        object(ObjectKind::Cargo, "ns", "c2", "p"),
        object(ObjectKind::Resource, "ns", "r2", "p"),
        object(ObjectKind::Namespace, "", "n2", ""),
    ]);
    let names: Vec<String> = mixed.ordered().into_iter().map(|object| object.name).collect();
    assert_eq!(names, vec!["n1", "n2", "r1", "r2", "vm1", "c1", "c2"]);
}

#[test]
fn manifest_keys_are_those_of_its_entities() {
    assert_eq!(deploy().entity_keys(), vec!["deploy-example.global", "resource-example.global"]);
    assert!(manifest(vec![object(ObjectKind::Namespace, "", "n", "")]).entity_keys().is_empty());
}

#[test]
fn apply_creates_what_is_absent() {
    let mut engine = Reconciler::new();
    let receipt = engine.apply(&deploy(), 5);
    assert_eq!(receipt.outcomes, vec![Outcome::Created, Outcome::Created, Outcome::Created]);
    assert_eq!(
        receipt.record.changes,
        vec![
            Change {
                entity_key: "resource-example.global".to_string(),
                version_key_before: None,
                version_key_after: 0,
                operation: Operation::Create,
            },
            Change {
                entity_key: "deploy-example.global".to_string(),
                version_key_before: None,
                version_key_after: 1,
                operation: Operation::Create,
            },
        ]
    );
    assert_eq!(receipt.record.keys, vec!["deploy-example.global", "resource-example.global"]);
    assert!(engine.store().has_namespace("global"));
    let cargo = engine.store().get_entity("deploy-example.global").unwrap();
    assert_eq!(cargo.kind, EntityKind::Cargo);
    assert_eq!(cargo.version.payload, "{\"image\":\"get-started\"}");
    assert_eq!(cargo.version.schema_version, "v0.0.1");
    assert_eq!(cargo.created_at, 5);
    assert_eq!(engine.store().get_entity("resource-example.global").unwrap().kind, EntityKind::Resource);
    assert_eq!(engine.pending(), 1);
}

#[test]
fn apply_twice_changes_nothing() {
    let mut engine = Reconciler::new();
    let first = engine.apply(&deploy(), 5);
    assert_eq!(first.record.changes.len(), 2);
    assert!(first.succeeded());
    assert!(deploy().is_consistent());
    let second = engine.apply(&deploy(), 9);
    assert!(second.succeeded());
    assert_eq!(second.outcomes, vec![Outcome::Unchanged, Outcome::Unchanged, Outcome::Unchanged]);
    assert!(second.record.changes.is_empty());
    assert_eq!(second.record.keys, first.record.keys);
    assert_eq!(engine_payloads(&engine, "deploy-example.global").len(), 1);
    assert_eq!(engine_payloads(&engine, "resource-example.global").len(), 1);
    assert_eq!(engine.pending(), 1);
    let third = engine.apply(&deploy(), 11);
    assert_eq!(third.outcomes, second.outcomes);
    assert_eq!(third.record, second.record);
    let next = engine.apply(&manifest(vec![object(ObjectKind::Cargo, "global", "new", "p")]), 12);
    assert_eq!(next.record.changes[0].version_key_after, 2);
}

#[test]
fn apply_updates_what_differs() {
    let mut engine = Reconciler::new();
    engine.apply(&manifest(vec![object(ObjectKind::Cargo, "ns", "c1", "one")]), 1);
    let receipt = engine.apply(
        &manifest(vec![
            object(ObjectKind::Cargo, "ns", "c1", "two"),
            object(ObjectKind::Cargo, "ns", "c2", "one"),
        ]),
        2,
    );
    assert_eq!(receipt.outcomes, vec![Outcome::Updated, Outcome::Created]);
    assert_eq!(
        receipt.record.changes[0],
        Change {
            entity_key: "c1.ns".to_string(),
            version_key_before: Some(0),
            version_key_after: 1,
            operation: Operation::Update,
        }
    );
    assert_eq!(receipt.record.changes[1].operation, Operation::Create);
    assert_eq!(engine_payloads(&engine, "c1.ns"), vec!["two", "one"]);
}

#[test]
fn apply_compares_payload_only() {
    let mut engine = Reconciler::new();
    engine.apply(&manifest(vec![object(ObjectKind::Cargo, "ns", "c1", "one")]), 1);
    let mut relabelled = object(ObjectKind::Cargo, "ns", "c1", "one");
    relabelled.schema_version = "v0.0.2".to_string();
    let receipt = engine.apply(&manifest(vec![relabelled]), 2);
    assert_eq!(receipt.outcomes, vec![Outcome::Unchanged]);
    assert_eq!(engine_payloads(&engine, "c1.ns"), vec!["one"]);
}

#[test]
fn refused_object_does_not_stop_the_others() {
    let mut engine = Reconciler::new();
    let receipt = engine.apply(
        &manifest(vec![
            object(ObjectKind::Cargo, "ns", "", "p"),
            object(ObjectKind::Cargo, "", "c0", "p"),
            object(ObjectKind::Cargo, "ns", "a.b", "p"),
            object(ObjectKind::Cargo, "ns", "good", "p"),
            object(ObjectKind::Vm, "ns", "good", "p"),
            object(ObjectKind::Namespace, "", "", ""),
        ]),
        1,
    );
    assert_eq!(
        receipt.outcomes,
        vec![
            Outcome::Failed(StoreError::InvalidSpec),
            Outcome::Failed(StoreError::InvalidSpec),
            Outcome::Failed(StoreError::InvalidSpec),
            Outcome::Failed(StoreError::InvalidName),
            Outcome::Created,
            Outcome::Failed(StoreError::NameConflict),
        ]
    );
    assert!(!receipt.succeeded());
    assert_eq!(receipt.record.changes.len(), 1);
    assert_eq!(receipt.record.changes[0].entity_key, "good.ns");
    assert_eq!(engine.store().list_entities(None, None, None, None, None).len(), 1);
}

#[test]
fn invalid_name_never_touches_another_entity() {
    let mut engine = Reconciler::new();
    engine.apply(&manifest(vec![object(ObjectKind::Cargo, "b.c", "a", "mine")]), 1);
    let receipt = engine.apply(&manifest(vec![object(ObjectKind::Cargo, "c", "a.b", "other")]), 2);
    assert_eq!(receipt.outcomes, vec![Outcome::Failed(StoreError::InvalidName)]);
    assert_eq!(engine_payloads(&engine, "a.b.c"), vec!["mine"]);
}

#[test]
fn revert_removes_what_apply_created() {
    let mut engine = Reconciler::new();
    let target = deploy();
    for key in target.entity_keys() {
        assert!(!engine.store().contains(&key));
    }
    engine.apply(&target, 1);
    for key in target.entity_keys() {
        assert!(engine.store().contains(&key));
    }
    let reversal = engine.revert(&target, 2);
    assert_eq!(reversal.outcomes, vec![Undone::Deleted, Undone::Deleted]);
    assert_eq!(reversal.record.unwrap().keys, target.entity_keys());
    for key in target.entity_keys() {
        assert!(!engine.store().contains(&key));
        assert!(engine.store().list_history(&key).is_empty());
    }
    assert!(engine.store().list_entities(None, None, None, None, None).is_empty());
    assert_eq!(engine.pending(), 0);
}

#[test]
fn revert_of_update_appends_old_payload() {
    let mut engine = Reconciler::new();
    engine.apply(&manifest(vec![object(ObjectKind::Cargo, "ns", "c1", "one")]), 1);
    let target = manifest(vec![
        object(ObjectKind::Cargo, "ns", "c1", "two"),
        object(ObjectKind::Cargo, "ns", "c2", "new"),
    ]);
    engine.apply(&target, 2);
    let outcomes = engine.revert(&target, 3).outcomes;
    assert_eq!(outcomes, vec![Undone::Deleted, Undone::Restored(3)]);
    assert!(!engine.store().contains("c2.ns"));
    assert_eq!(engine_payloads(&engine, "c1.ns"), vec!["one", "two", "one"]);
    assert_eq!(engine.store().get_entity("c1.ns").unwrap().current_version_key, 3);
    assert_eq!(engine.pending(), 1);
}

#[test]
fn revert_handles_one_entity_listed_twice() {
    let mut engine = Reconciler::new();
    let target = manifest(vec![
        object(ObjectKind::Cargo, "ns", "c1", "one"),
        object(ObjectKind::Cargo, "ns", "c1", "two"),
    ]);
    let receipt = engine.apply(&target, 1);
    assert_eq!(receipt.outcomes, vec![Outcome::Created, Outcome::Updated]);
    assert_eq!(engine_payloads(&engine, "c1.ns"), vec!["two", "one"]);
    let again = engine.apply(&target, 2);
    assert_eq!(again.outcomes, vec![Outcome::Updated, Outcome::Updated]);
    engine.revert(&target, 3);
    engine.revert(&target, 4);
    assert!(!engine.store().contains("c1.ns"));
}

#[test]
fn revert_without_record_does_nothing() {
    let mut engine = Reconciler::new();
    engine.apply(&manifest(vec![object(ObjectKind::Cargo, "ns", "c1", "one")]), 1);
    let other = manifest(vec![object(ObjectKind::Cargo, "ns", "c2", "one")]);
    let nothing = engine.revert(&other, 2);
    assert_eq!(nothing.record, None);
    assert!(nothing.outcomes.is_empty());
    assert!(engine.store().contains("c1.ns"));
    assert_eq!(engine.pending(), 1);
    let target = manifest(vec![object(ObjectKind::Cargo, "ns", "c1", "ignored")]);
    assert_eq!(engine.revert(&target, 3).outcomes, vec![Undone::Deleted]);
    assert!(engine.revert(&target, 4).outcomes.is_empty());
    assert_eq!(engine.pending(), 0);
}

#[test]
fn revert_takes_the_latest_matching_record() {
    let mut engine = Reconciler::new();
    let a = manifest(vec![object(ObjectKind::Cargo, "ns", "c1", "one")]);
    let b = manifest(vec![object(ObjectKind::Cargo, "ns", "c1", "two")]);
    engine.apply(&a, 1);
    engine.apply(&b, 2);
    assert_eq!(engine.pending(), 2);
    let reversal = engine.revert(&a, 3);
    assert_eq!(reversal.outcomes, vec![Undone::Restored(2)]);
    assert_eq!(reversal.record.unwrap().changes[0].version_key_after, 1);
    assert_eq!(engine_payloads(&engine, "c1.ns"), vec!["one", "two", "one"]);
    assert_eq!(engine.revert(&a, 4).outcomes, vec![Undone::Deleted]);
    assert!(!engine.store().contains("c1.ns"));
}

#[test]
fn records_match_by_key_set() {
    let mut engine = Reconciler::new();
    engine.apply(
        &manifest(vec![
            object(ObjectKind::Cargo, "ns", "c1", "one"),
            object(ObjectKind::Resource, "ns", "r1", "one"),
        ]),
        1,
    );
    let shuffled = manifest(vec![
        object(ObjectKind::Namespace, "", "extra", ""),
        object(ObjectKind::Resource, "ns", "r1", "x"),
        object(ObjectKind::Cargo, "ns", "c1", "y"),
        object(ObjectKind::Cargo, "ns", "c1", "z"),
    ]);
    assert_eq!(engine.revert(&shuffled, 2).outcomes, vec![Undone::Deleted, Undone::Deleted]);
    assert!(engine.store().list_entities(None, None, None, None, None).is_empty());
    let keys = |names: &[&str]| names.iter().map(|name| name.to_string()).collect::<Vec<String>>();
    assert!(have_same_keys(&keys(&["a", "b"]), &keys(&["b", "a", "a"])));
    assert!(have_same_keys(&keys(&[]), &keys(&[])));
    assert!(!have_same_keys(&keys(&["a"]), &keys(&["a", "b"])));
    assert!(!have_same_keys(&keys(&["a", "b"]), &keys(&["a"])));
    assert!(!have_same_keys(&keys(&["a"]), &keys(&["A"])));
}

#[test]
fn revert_of_deleted_entity_is_reported() {
    let mut engine = Reconciler::new();
    let target = manifest(vec![object(ObjectKind::Cargo, "ns", "c1", "one")]);
    let receipt = engine.apply(&target, 1);
    assert_eq!(engine.revert_record(&receipt.record, 2), vec![Undone::Deleted]);
    assert_eq!(engine.revert_record(&receipt.record, 3), vec![Undone::Failed(StoreError::NotFound)]);
    assert_eq!(engine.pending(), 1);
}

#[test]
fn revert_is_itself_revertible_by_reset() {
    let mut engine = Reconciler::new();
    engine.apply(&manifest(vec![object(ObjectKind::Cargo, "ns", "c1", "one")]), 1);
    let target = manifest(vec![object(ObjectKind::Cargo, "ns", "c1", "two")]);
    let receipt = engine.apply(&target, 2);
    engine.revert(&target, 3);
    let entity = engine.reset("c1.ns", receipt.record.changes[0].version_key_after, 4).unwrap();
    assert_eq!(entity.version.payload, "two");
    assert_eq!(engine_payloads(&engine, "c1.ns"), vec!["two", "one", "two", "one"]);
    assert_eq!(engine.reset("c1.ns", 40, 5), Err(StoreError::NotFound));
}

#[test]
fn changes_become_events() {
    let mut engine = Reconciler::new();
    engine.apply(&manifest(vec![object(ObjectKind::Cargo, "ns", "c1", "one")]), 1);
    let target = manifest(vec![
        object(ObjectKind::Cargo, "ns", "c1", "two"),
        object(ObjectKind::Resource, "ns", "r1", "rule"),
    ]);
    let receipt = engine.apply(&target, 2);
    assert_eq!(
        apply_events(&receipt.record.changes),
        vec![
            Event {
                kind: EventKind::Created,
                entity_key: "r1.ns".to_string(),
                namespace: "ns".to_string(),
                version_key: 1,
            },
            Event {
                kind: EventKind::Updated,
                entity_key: "c1.ns".to_string(),
                namespace: "ns".to_string(),
                version_key: 2,
            },
        ]
    );
    let reversal = engine.revert(&target, 3);
    assert_eq!(reversal.record.as_ref().unwrap(), &receipt.record);
    let outcomes = reversal.outcomes;
    assert_eq!(
        revert_events(&receipt.record.changes, &outcomes),
        vec![
            Event {
                kind: EventKind::Updated,
                entity_key: "c1.ns".to_string(),
                namespace: "ns".to_string(),
                version_key: 3,
            },
            Event {
                kind: EventKind::Deleted,
                entity_key: "r1.ns".to_string(),
                namespace: "ns".to_string(),
                version_key: 1,
            },
        ]
    );
    let failed = vec![Undone::Failed(StoreError::NotFound), Undone::Deleted];
    let events = revert_events(&receipt.record.changes, &failed);
    assert_eq!(events.len(), 1);
    assert_eq!(events[0].kind, EventKind::Deleted);
    assert_eq!(events[0].entity_key, "r1.ns");
    assert!(revert_events(&receipt.record.changes, &Vec::new()).is_empty());
}

#[test]
fn state() {
    let mut engine = Reconciler::new();
    let deploy_example = deploy();
    let cargo_example = manifest(vec![
        object(ObjectKind::Namespace, "", "global", ""),
        object(ObjectKind::Cargo, "global", "cargo-example", "{\"image\":\"get-started\"}"),
    ]);
    let receipt = engine.apply(&deploy_example, 1);
    assert!(receipt.outcomes.iter().all(|outcome| !matches!(outcome, Outcome::Failed(_))));
    let receipt = engine.apply(&cargo_example, 2);
    assert_eq!(receipt.outcomes, vec![Outcome::Unchanged, Outcome::Created]);
    let receipt = engine.apply(&cargo_example, 3);
    assert_eq!(receipt.outcomes, vec![Outcome::Unchanged, Outcome::Unchanged]);
    assert_eq!(engine.revert(&cargo_example, 4).outcomes, vec![Undone::Deleted]);
    assert!(!engine.store().contains("cargo-example.global"));
    assert_eq!(engine.revert(&deploy_example, 5).outcomes, vec![Undone::Deleted, Undone::Deleted]);
    assert!(engine.store().list_entities(None, None, None, None, None).is_empty());
}

#[test]
fn resource() {
    let mut engine = Reconciler::new();
    let deploy_example = deploy();
    let ssl_example = manifest(vec![object(
        ObjectKind::Resource,
        "global",
        "resource-example",
        "{\"rule\":1,\"ssl\":true}",
    )]);
    engine.apply(&deploy_example, 1);
    let receipt = engine.apply(&ssl_example, 2);
    assert_eq!(receipt.outcomes, vec![Outcome::Updated]);
    let listed = engine.store().list_entities(Some(EntityKind::Resource), None, None, None, None);
    assert_eq!(listed.len(), 1);
    let inspected = engine.store().get_entity("resource-example.global").unwrap();
    assert_eq!(inspected.name, "resource-example");
    let history = engine.store().list_history("resource-example.global");
    assert_eq!(history.len(), 2);
    let first = history.first().unwrap().clone();
    let entity = engine.reset("resource-example.global", first.version_key, 3).unwrap();
    assert_eq!(entity.version.payload, first.payload);
    assert_eq!(engine.store().list_history("resource-example.global").len(), 3);
    assert_eq!(engine.revert(&deploy_example, 4).outcomes, vec![Undone::Deleted, Undone::Deleted]);
    assert!(!engine.store().contains("resource-example.global"));
}

#[test]
fn apply_can_stop_between_objects() {
    let mut engine = Reconciler::new();
    let target = manifest(vec![
        object(ObjectKind::Cargo, "ns", "c1", "one"),
        object(ObjectKind::Resource, "ns", "r1", "one"),
        object(ObjectKind::Namespace, "", "ns", ""),
        object(ObjectKind::Cargo, "ns", "c2", "one"),
    ]);
    let mut run = Reconciler::begin(&target);
    assert_eq!(run.applied(), 0);
    assert_eq!(run.remaining(), 4);
    assert!(engine.advance(&mut run, 1));
    assert!(engine.store().has_namespace("ns"));
    assert!(!engine.store().contains("r1.ns"));
    assert!(engine.advance(&mut run, 2));
    assert!(engine.store().contains("r1.ns"));
    assert!(!engine.store().contains("c1.ns"));
    assert_eq!(run.applied(), 2);
    assert_eq!(run.remaining(), 2);
    assert_eq!(engine.pending(), 0);
    let receipt = engine.finish(run);
    assert_eq!(receipt.outcomes, vec![Outcome::Created, Outcome::Created]);
    assert_eq!(receipt.record.changes.len(), 1);
    assert_eq!(receipt.record.changes[0].entity_key, "r1.ns");
    assert_eq!(receipt.record.keys, vec!["c1.ns", "r1.ns", "c2.ns"]);
    assert_eq!(engine.pending(), 1);
    assert!(!engine.store().contains("c1.ns"));
    assert!(!engine.store().contains("c2.ns"));
    let reversal = engine.revert(&target, 3);
    assert_eq!(reversal.outcomes, vec![Undone::Deleted]);
    assert!(engine.store().list_entities(None, None, None, None, None).is_empty());
}

#[test]
fn stepwise_apply_equals_apply() {
    let target = deploy();
    let mut whole = Reconciler::new();
    let expected = whole.apply(&target, 7);
    let mut stepped = Reconciler::new();
    let mut run = Reconciler::begin(&target);
    let mut steps = 0;
    while stepped.advance(&mut run, 7) {
        steps += 1;
    }
    assert_eq!(steps, 2);
    assert!(!stepped.advance(&mut run, 7));
    assert_eq!(run.applied(), 3);
    assert_eq!(run.remaining(), 0);
    let receipt = stepped.finish(run);
    assert_eq!(receipt, expected);
    assert_eq!(
        stepped.store().list_entities(None, None, None, None, None),
        whole.store().list_entities(None, None, None, None, None)
    );
    assert_eq!(stepped.pending(), whole.pending());
}

#[test]
fn run_without_objects_or_changes_leaves_no_record() {
    let mut engine = Reconciler::new();
    let mut run = Reconciler::begin(&manifest(Vec::new()));
    assert!(!engine.advance(&mut run, 1));
    let receipt = engine.finish(run);
    assert!(receipt.outcomes.is_empty());
    assert!(receipt.record.changes.is_empty());
    assert!(receipt.record.keys.is_empty());
    assert_eq!(engine.pending(), 0);
    let run = Reconciler::begin(&deploy());
    let receipt = engine.finish(run);
    assert!(receipt.outcomes.is_empty());
    assert_eq!(receipt.record.keys.len(), 2);
    assert_eq!(engine.pending(), 0);
}

#[test]
fn revert_can_stop_between_changes() {
    let mut engine = Reconciler::new();
    let target = manifest(vec![
        object(ObjectKind::Cargo, "ns", "c1", "one"),
        object(ObjectKind::Cargo, "ns", "c2", "one"),
        object(ObjectKind::Cargo, "ns", "c3", "one"),
    ]);
    engine.apply(&target, 1);
    let mut run = engine.begin_revert(&target).unwrap();
    assert_eq!(engine.pending(), 0);
    assert_eq!(run.remaining(), 3);
    assert!(engine.retreat(&mut run, 2));
    assert!(!engine.store().contains("c3.ns"));
    assert!(engine.store().contains("c2.ns"));
    assert_eq!(run.remaining(), 2);
    let reversal = engine.finish_revert(run);
    assert_eq!(reversal.outcomes, vec![Undone::Deleted]);
    assert_eq!(reversal.record.as_ref().unwrap().changes.len(), 3);
    assert_eq!(engine.pending(), 1);
    let rest = engine.revert(&target, 3);
    assert_eq!(rest.outcomes, vec![Undone::Deleted, Undone::Deleted]);
    let record = rest.record.unwrap();
    assert_eq!(record.changes.len(), 2);
    assert_eq!(record.changes[1].entity_key, "c2.ns");
    assert_eq!(record.keys, target.entity_keys());
    assert!(engine.store().list_entities(None, None, None, None, None).is_empty());
    assert_eq!(engine.pending(), 0);
    assert!(engine.begin_revert(&target).is_none());
}

#[test]
fn stepwise_revert_to_the_end_drops_the_record() {
    let mut engine = Reconciler::new();
    let target = deploy();
    engine.apply(&target, 1);
    let mut run = engine.begin_revert(&target).unwrap();
    while engine.retreat(&mut run, 2) {}
    assert!(!engine.retreat(&mut run, 2));
    assert_eq!(run.remaining(), 0);
    let reversal = engine.finish_revert(run);
    assert_eq!(reversal.outcomes, vec![Undone::Deleted, Undone::Deleted]);
    assert_eq!(engine.pending(), 0);
}

#[test]
fn store_can_be_changed_beside_the_engine() {
    let mut engine = Reconciler::new();
    let target = manifest(vec![object(ObjectKind::Cargo, "ns", "c1", "one")]);
    engine.apply(&target, 1);
    assert_eq!(engine.store_mut().delete_entity("c1.ns"), Ok(1));
    engine.store_mut().create_entity(EntityKind::Vm, "ns", "c1", "vm", "v1", 2).unwrap();
    assert_eq!(engine.pending(), 1);
    let receipt = engine.apply(&target, 3);
    assert_eq!(receipt.outcomes, vec![Outcome::Failed(StoreError::NameConflict)]);
    assert_eq!(engine.revert(&target, 4).outcomes, vec![Undone::Deleted]);
    assert!(!engine.store().contains("c1.ns"));
}

#[test]
fn manifest_is_consistent_unless_an_entity_is_described_twice_differently() {
    assert!(manifest(Vec::new()).is_consistent());
    assert!(deploy().is_consistent());
    assert!(manifest(vec![
        object(ObjectKind::Cargo, "ns", "c1", "{\"a\":1,\"b\":2}"),
        object(ObjectKind::Namespace, "ns", "c1", "other"),
        object(ObjectKind::Cargo, "ns", "c1", "{\"b\":2,\"a\":1}"),
        object(ObjectKind::Cargo, "other", "c1", "else"),
    ])
    .is_consistent());
    assert!(!manifest(vec![
        object(ObjectKind::Cargo, "ns", "c1", "one"),
        object(ObjectKind::Cargo, "ns", "c2", "one"),
        object(ObjectKind::Vm, "ns", "c1", "two"),
    ])
    .is_consistent());
}

#[test]
fn inconsistent_manifest_is_not_idempotent() {
    let mut engine = Reconciler::new();
    let target = manifest(vec![
        object(ObjectKind::Cargo, "ns", "c1", "one"),
        object(ObjectKind::Cargo, "ns", "c1", "two"),
    ]);
    assert!(!target.is_consistent());
    engine.apply(&target, 1);
    let again = engine.apply(&target, 2);
    assert_eq!(again.outcomes, vec![Outcome::Updated, Outcome::Updated]);
}
