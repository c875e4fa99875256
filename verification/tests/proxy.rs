use nanocl::proxy::{
    is_network_scope, HttpTarget, LocationTarget, ProxyHttpLocation, ProxyRule, ProxyRuleHttp,
    ProxyRuleStream, ProxyStreamProtocol, ResourceProxyRule, StreamTarget, UrlRedirect,
};
use nanocl::text::{contains_ignoring_case, fold_char, same_text, starts_with};

#[test]
fn redirect_codes() {
    assert_eq!(UrlRedirect::MovedPermanently.to_string(), "301");
    assert_eq!(UrlRedirect::PermanentRedirect.to_string(), "308");
    assert_eq!(UrlRedirect::TemporaryRedirect.to_string(), "307");
    assert_eq!(UrlRedirect::MovedPermanently.code(), 301);
    assert_eq!(UrlRedirect::PermanentRedirect.code(), 308);
    assert_eq!(UrlRedirect::TemporaryRedirect.code(), 307);
}

#[test]
fn network_scopes() {
    assert!(is_network_scope("private"));
    assert!(is_network_scope("public"));
    assert!(is_network_scope("internal"));
    assert!(is_network_scope("namespace:prod"));
    assert!(is_network_scope("namespace:"));
    assert!(!is_network_scope("Public"));
    assert!(!is_network_scope("namespace"));
    assert!(!is_network_scope(" public"));
    assert!(!is_network_scope(""));
    assert!(!is_network_scope("publicity"));
}

fn stream(network: &str) -> ProxyRuleStream {
    ProxyRuleStream {
        network: network.to_string(),
        protocol: ProxyStreamProtocol::Tcp,
        port: 1,
        ssl: None,
        target: StreamTarget::Unix("/s".to_string()),
    }
}

fn http(network: &str, locations: usize) -> ProxyRuleHttp {
    ProxyRuleHttp {
        domain: None,
        network: network.to_string(),
        locations: (0..locations)
            .map(|i| ProxyHttpLocation {
                path: format!("/{i}"),
                target: LocationTarget::Http(HttpTarget { url: "http://x".to_string(), redirect: None }),
            })
            .collect(),
        ssl: None,
        includes: None,
    }
}

#[test]
fn rule_needs_targets_and_known_networks() {
    assert!(ProxyRule::Http(http("public", 1)).is_valid());
    assert!(ProxyRule::Http(http("namespace:a", 3)).is_valid());
    assert!(!ProxyRule::Http(http("public", 0)).is_valid());
    assert!(!ProxyRule::Http(http("world", 1)).is_valid());
    assert!(ProxyRule::Stream(vec![stream("public")]).is_valid());
    assert!(ProxyRule::Stream(vec![stream("public"), stream("internal")]).is_valid());
    assert!(!ProxyRule::Stream(Vec::new()).is_valid());
    assert!(!ProxyRule::Stream(vec![stream("public"), stream("nowhere")]).is_valid());
    assert!(!ProxyRule::Stream(vec![stream("nowhere"), stream("public")]).is_valid());
}

#[test]
fn resource_rule_holds_its_watch_list() {
    let rule = ResourceProxyRule {
        watch: vec!["web.global".to_string()],
        rule: ProxyRule::Stream(vec![stream("public")]),
    };
    let copy = rule.clone();
    assert_eq!(copy.watch, vec!["web.global"]);
    assert!(copy.rule.is_valid());
}

#[test]
fn text_comparisons() {
    assert!(same_text("abc", "abc"));
    assert!(same_text("", ""));
    assert!(!same_text("abc", "abd"));
    assert!(!same_text("abc", "ab"));
    assert!(!same_text("é", "e"));
    assert!(starts_with("namespace:x", "namespace:"));
    assert!(starts_with("abc", ""));
    assert!(starts_with("abc", "abc"));
    assert!(!starts_with("ab", "abc"));
    assert!(!starts_with("abc", "b"));
    assert_eq!(fold_char('A'), 'a');
    assert_eq!(fold_char('Z'), 'z');
    assert_eq!(fold_char('a'), 'a');
    assert_eq!(fold_char('@'), '@');
    assert_eq!(fold_char('['), '[');
    assert_eq!(fold_char('É'), 'É');
    assert_eq!(fold_char('5'), '5');
    assert!(contains_ignoring_case("Hello World", "lo wo"));
    assert!(contains_ignoring_case("Hello", "HELLO"));
    assert!(contains_ignoring_case("Hello", ""));
    assert!(contains_ignoring_case("", ""));
    assert!(!contains_ignoring_case("Hello", "Hello!"));
    assert!(!contains_ignoring_case("", "a"));
    assert!(!contains_ignoring_case("straße", "STRASSE"));
    assert!(contains_ignoring_case("xxab", "AB"));
}
