//! Proxy rules: the resource payloads that describe gateway routing.

use crate::text::{same_text, starts_with};
use vstd::prelude::*;
use vstd::string::*;

verus! {

/// Proxy rules modes.
#[derive(Debug, Clone)]
pub enum ProxyRule {
    /// Redirect http traffic.
    Http(ProxyRuleHttp),
    /// Redirect tcp and udp traffic.
    Stream(Vec<ProxyRuleStream>),
}

/// Certificate files of a TLS endpoint.
#[derive(Debug, Clone)]
pub struct ProxySslConfig {
    /// Path to the certificate.
    pub certificate: String,
    /// Path to the certificate key.
    pub certificate_key: String,
    /// Path to the dhparam file.
    pub dh_param: Option<String>,
}

/// A target that is a cargo, found through the object store by its key.
#[derive(Debug, Clone, PartialEq)]
pub struct CargoTarget {
    /// The cargo key.
    pub key: String,
    /// The cargo port.
    pub port: u16,
}

/// Kind of HTTP redirection answered in place of proxying.
#[derive(Debug, Clone, Copy, PartialEq, Eq, Structural)]
pub enum UrlRedirect {
    MovedPermanently,
    PermanentRedirect,
    TemporaryRedirect,
}

/// A target that is an http url.
#[derive(Debug, Clone, PartialEq)]
pub struct HttpTarget {
    /// Url to target.
    pub url: String,
    /// Redirect type if it is a redirect.
    pub redirect: Option<UrlRedirect>,
}

/// What an http location hands its requests to.
#[derive(Debug, Clone, PartialEq)]
pub enum LocationTarget {
    /// Target an existing cargo.
    Cargo(CargoTarget),
    /// Target a specific http url.
    Http(HttpTarget),
    /// Target a specific unix socket.
    Unix(String),
}

/// A target that is a uri.
#[derive(Debug, Clone, PartialEq)]
pub struct UriTarget {
    /// Uri to target.
    pub uri: String,
}

/// What a stream rule hands its connections to.
#[derive(Debug, Clone, PartialEq)]
pub enum StreamTarget {
    /// Target an existing cargo.
    Cargo(CargoTarget),
    /// Target a specific uri.
    Uri(UriTarget),
    /// Target a specific unix socket.
    Unix(String),
}

/// Transport protocol of a stream rule.
#[derive(Debug, Clone, Copy, PartialEq, Eq, Structural)]
pub enum ProxyStreamProtocol {
    Tcp,
    Udp,
}

/// One listening port of a stream rule.
#[derive(Debug, Clone)]
pub struct ProxyRuleStream {
    /// Type of the network binding: private | public | internal | namespace:$namespace_name.
    pub network: String,
    /// Protocol to use: Tcp | Udp.
    pub protocol: ProxyStreamProtocol,
    /// The port to open on nodes.
    pub port: u16,
    /// The ssl configuration.
    pub ssl: Option<ProxySslConfig>,
    /// The target.
    pub target: StreamTarget,
}

/// One location of an http rule.
#[derive(Debug, Clone)]
pub struct ProxyHttpLocation {
    /// The path.
    pub path: String,
    /// The target of the path.
    pub target: LocationTarget,
}

/// An http rule.
#[derive(Debug, Clone)]
pub struct ProxyRuleHttp {
    /// The domain.
    pub domain: Option<String>,
    /// Type of the network binding: private | public | internal | namespace:$namespace_name.
    pub network: String,
    /// The locations to handle multiple paths.
    pub locations: Vec<ProxyHttpLocation>,
    /// The ssl configuration.
    pub ssl: Option<ProxySslConfig>,
    /// Paths to extra config files to include.
    pub includes: Option<Vec<String>>,
}

/// A proxy rule together with the cargoes whose changes re-render it.
#[derive(Debug, Clone)]
pub struct ResourceProxyRule {
    /// Cargoes to watch for changes.
    pub watch: Vec<String>,
    /// The rule.
    pub rule: ProxyRule,
}

/// The network a rule listens on.
pub enum NetworkScope {
    Private,
    Public,
    Internal,
    /// The network of one namespace, by the namespace's name.
    Namespace(Seq<char>),
}

/// The text in front of the namespace's name in a namespace scope.
pub open spec fn namespace_prefix() -> Seq<char> {
    "namespace:"@
}

/// The scope that a rule's `network` text names, if it names one.
pub open spec fn network_scope(network: Seq<char>) -> Option<NetworkScope> {
    if network == "private"@ {
        Some(NetworkScope::Private)
    } else if network == "public"@ {
        Some(NetworkScope::Public)
    } else if network == "internal"@ {
        Some(NetworkScope::Internal)
    } else if namespace_prefix().is_prefix_of(network) {
        Some(NetworkScope::Namespace(network.skip(namespace_prefix().len() as int)))
    } else {
        None
    }
}

/// Whether `network` names one of the scopes a rule may listen on.
pub fn is_network_scope(network: &str) -> (yes: bool)
    ensures
        yes == network_scope(network@).is_some(),
{
    same_text(network, "private") || same_text(network, "public") || same_text(
        network,
        "internal",
    ) || starts_with(network, "namespace:")
}

impl UrlRedirect {
    /// The HTTP status code of this redirection.
    pub open spec fn spec_code(self) -> u16 {
        match self {
            UrlRedirect::MovedPermanently => 301,
            UrlRedirect::PermanentRedirect => 308,
            UrlRedirect::TemporaryRedirect => 307,
        }
    }

    /// The HTTP status code of this redirection, as the gateway writes it.
    pub open spec fn spec_text(self) -> Seq<char> {
        match self {
            UrlRedirect::MovedPermanently => "301"@,
            UrlRedirect::PermanentRedirect => "308"@,
            UrlRedirect::TemporaryRedirect => "307"@,
        }
    }

    /// The HTTP status code of this redirection.
    pub fn code(&self) -> (code: u16)
        ensures
            code == self.spec_code(),
    {
        match self {
            UrlRedirect::MovedPermanently => 301,
            UrlRedirect::PermanentRedirect => 308,
            UrlRedirect::TemporaryRedirect => 307,
        }
    }

    /// The HTTP status code of this redirection, as the gateway writes it.
    pub fn to_string(&self) -> (text: String)
        ensures
            text@ == self.spec_text(),
    {
        match self {
            UrlRedirect::MovedPermanently => String::from_str("301"),
            UrlRedirect::PermanentRedirect => String::from_str("308"),
            UrlRedirect::TemporaryRedirect => String::from_str("307"),
        }
    }
}

impl ProxyRuleStream {
    /// A stream entry is valid when its network names a scope.
    pub open spec fn valid(&self) -> bool {
        network_scope(self.network@).is_some()
    }
}

impl ProxyRuleHttp {
    /// An http rule is valid when it has a location and its network names a scope.
    pub open spec fn valid(&self) -> bool {
        &&& self.locations@.len() > 0
        &&& network_scope(self.network@).is_some()
    }
}

impl ProxyRule {
    /// A rule is valid when it routes something and every network in it names a scope.
    pub open spec fn valid(&self) -> bool {
        match self {
            ProxyRule::Http(http) => http.valid(),
            ProxyRule::Stream(streams) => {
                &&& streams@.len() > 0
                &&& forall|i: int| 0 <= i < streams@.len() ==> (#[trigger] streams@[i]).valid()
            },
        }
    }

    /// Checks the rule: see [`ProxyRule::valid`].
    pub fn is_valid(&self) -> (yes: bool)
        ensures
            yes == self.valid(),
    {
        match self {
            ProxyRule::Http(http) => http.locations.len() > 0 && is_network_scope(
                http.network.as_str(),
            ),
            ProxyRule::Stream(streams) => streams.len() > 0 && all_streams_valid(streams),
        }
    }
}

/// Whether every entry of a stream rule is valid.
fn all_streams_valid(streams: &Vec<ProxyRuleStream>) -> (yes: bool)
    ensures
        yes == (forall|i: int| 0 <= i < streams@.len() ==> (#[trigger] streams@[i]).valid()),
{
    let mut i: usize = 0;
    while i < streams.len()
        invariant
            i <= streams@.len(),
            forall|j: int| 0 <= j < i ==> (#[trigger] streams@[j]).valid(),
        decreases streams@.len() - i,
    {
        if !is_network_scope(streams[i].network.as_str()) {
            return false;
        }
        i += 1;
    }
    true
}

} // verus!
