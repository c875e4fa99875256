use nanocl::cargo::{
    count_by_namespace, create, delete_by_key, find_by_key, find_by_list_query, find_by_namespace,
    inspect_by_key, update_by_key, CargoConfigPartial, GenericCargoListQuery, GenericDelete,
    NamespaceDbModel,
};
use nanocl::error::HttpError;
use nanocl::model::EntityKind;
use nanocl::store::ObjectStore;

fn item(name: &str, config: &str) -> CargoConfigPartial {
    CargoConfigPartial { name: name.to_string(), config: config.to_string() }
}

fn namespace_model(name: &str) -> NamespaceDbModel {
    NamespaceDbModel { name: name.to_string(), created_at: 0 }
}

fn not_found() -> HttpError {
    HttpError { status: 404, msg: "StoreError cargo not found".to_string() }
}

#[test]
fn cargo() {
    const CARGO_NAME: &str = "cli-test";
    const IMAGE_NAME: &str = "nexthat/nanocl-get-started:latest";
    let mut store = ObjectStore::new();
    let created = create("global", &item(CARGO_NAME, IMAGE_NAME), "v0.0.1", &mut store, 1).unwrap();
    assert_eq!(created.key, "cli-test.global");
    assert_eq!(created.kind, EntityKind::Cargo);
    let listed = find_by_namespace(&namespace_model("global"), &store);
    assert_eq!(listed, vec![created.clone()]);
    assert_eq!(inspect_by_key("cli-test.global", &store).unwrap(), created);
    let patched = update_by_key(
        "cli-test.global",
        &item(CARGO_NAME, "nexthat/nanocl-get-started:latest TEST=1"),
        "v0.0.1",
        &mut store,
        2,
    )
    .unwrap();
    assert_eq!(patched.version.payload, "nexthat/nanocl-get-started:latest TEST=1");
    let history = store.list_history("cli-test.global");
    assert_eq!(history.len(), 2);
    let first = history.first().unwrap().clone();
    let reset = store.reset("cli-test.global", first.version_key, 3).unwrap();
    assert_eq!(reset.version.payload, first.payload);
    assert_eq!(delete_by_key("cli-test.global", &mut store), Ok(GenericDelete { count: 1 }));
    assert_eq!(find_by_key("cli-test.global", &store), Err(not_found()));
}

#[test]
fn namespace() {
    const NAMESPACE_NAME: &str = "cli-namespace";
    let mut store = ObjectStore::new();
    assert_eq!(store.create_namespace(NAMESPACE_NAME), Ok(()));
    assert!(store.has_namespace(NAMESPACE_NAME));
    assert_eq!(count_by_namespace(NAMESPACE_NAME, &store), 0);
    assert_eq!(store.delete_namespace(NAMESPACE_NAME), Ok(()));
    assert!(!store.has_namespace(NAMESPACE_NAME));
}

#[test]
fn basic() {
    let mut store = ObjectStore::new();
    assert!(store.list_entities(Some(EntityKind::Resource), None, None, None, None).is_empty());
    let config = "{\"type\":\"object\",\"required\":[\"Watch\"]}";
    let resource = store
        .create_entity(EntityKind::Resource, "global", "test_resource2", config, "v0.0.1", 1)
        .unwrap();
    assert_eq!(resource.name, "test_resource2");
    assert_eq!(resource.kind, EntityKind::Resource);
    let resource = store.get_entity("test_resource2.global").unwrap();
    assert_eq!(resource.name, "test_resource2");
    assert_eq!(resource.kind, EntityKind::Resource);
    let resource = store.update_entity("test_resource2.global", config, "v0.0.2", 2).unwrap();
    assert_eq!(resource.name, "test_resource2");
    assert_eq!(resource.kind, EntityKind::Resource);
    assert_eq!(resource.version.schema_version, "v0.0.2");
    let history = store.list_history("test_resource2.global");
    assert!(history.len() > 1);
    assert_eq!(store.delete_entity("test_resource2.global"), Ok(1));
}

#[test]
fn cargo_name_cannot_contain_a_dot() {
    let mut store = ObjectStore::new();
    assert_eq!(
        create("global", &item("a.b", "image"), "v0.0.1", &mut store, 1),
        Err(HttpError { status: 400, msg: "The cargo name cannot contain a dot".to_string() })
    );
    assert!(find_by_namespace(&namespace_model("global"), &store).is_empty());
}

#[test]
fn taken_cargo_name_is_409() {
    let mut store = ObjectStore::new();
    create("global", &item("web", "image"), "v0.0.1", &mut store, 1).unwrap();
    assert_eq!(
        create("global", &item("web", "other"), "v0.0.1", &mut store, 2),
        Err(HttpError { status: 409, msg: "StoreError cargo already exists".to_string() })
    );
    assert_eq!(find_by_key("web.global", &store).unwrap().version.payload, "image");
}

#[test]
fn cargo_repository_sees_cargoes_only() {
    let mut store = ObjectStore::new();
    store.create_entity(EntityKind::Resource, "global", "rule", "{}", "v0.0.1", 1).unwrap();
    create("global", &item("web", "image"), "v0.0.1", &mut store, 2).unwrap();
    assert_eq!(find_by_key("rule.global", &store), Err(not_found()));
    assert_eq!(inspect_by_key("rule.global", &store), Err(not_found()));
    assert_eq!(delete_by_key("rule.global", &mut store), Err(not_found()));
    assert_eq!(
        update_by_key("rule.global", &item("rule", "x"), "v0.0.1", &mut store, 3),
        Err(not_found())
    );
    assert_eq!(update_by_key("none.global", &item("none", "x"), "v0.0.1", &mut store, 3), Err(not_found()));
    assert!(store.contains("rule.global"));
    assert_eq!(store.list_history("rule.global").len(), 1);
    assert_eq!(count_by_namespace("global", &store), 1);
    assert_eq!(store.count_by_namespace("global"), 2);
    let names: Vec<String> = find_by_namespace(&namespace_model("global"), &store)
        .into_iter()
        .map(|cargo| cargo.name)
        .collect();
    assert_eq!(names, vec!["web"]);
}

#[test]
fn cargo_list_query_filters_and_pages() {
    let mut store = ObjectStore::new();
    for (namespace, name) in [("a", "Web-1"), ("a", "db"), ("b", "web-2"), ("a", "WEB-3"), ("a", "web-4")] {
        create(namespace, &item(name, "image"), "v0.0.1", &mut store, 1).unwrap();
    }
    let query = GenericCargoListQuery::of_namespace(namespace_model("a"));
    assert_eq!(query.name, None);
    assert_eq!(query.limit, None);
    assert_eq!(query.offset, None);
    assert_eq!(find_by_list_query(&query, &store).len(), 4);
    let query = GenericCargoListQuery {
        namespace: namespace_model("a"),
        name: Some("web".to_string()),
        limit: Some(2),
        offset: Some(1),
    };
    let names: Vec<String> =
        find_by_list_query(&query, &store).into_iter().map(|cargo| cargo.name).collect();
    assert_eq!(names, vec!["WEB-3", "web-4"]);
}
