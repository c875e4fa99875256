use nanocl::client::{resource_histories_path, resource_path, resource_reset_path, resources_path};

#[test]
fn resource_routes() {
    assert_eq!(resources_path("v0.2"), "/v0.2/resources");
    assert_eq!(resource_path("v0.2", "test_resource2"), "/v0.2/resources/test_resource2");
    assert_eq!(
        resource_histories_path("v0.2", "test_resource2"),
        "/v0.2/resources/test_resource2/histories"
    );
    assert_eq!(
        resource_reset_path("v0.2", "resource-example", "42"),
        "/v0.2/resources/resource-example/histories/42/reset"
    );
    assert_eq!(resources_path(""), "//resources");
    assert_eq!(resource_reset_path("", "", ""), "//resources//histories//reset");
}
