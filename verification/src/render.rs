//! Rendering of proxy rules to the gateway's configuration syntax.

use crate::proxy::{
    CargoTarget, LocationTarget, ProxyHttpLocation, ProxyRule, ProxyRuleHttp, ProxyRuleStream,
    ProxySslConfig, ProxyStreamProtocol, StreamTarget,
};
use crate::text::same_text;
use vstd::prelude::*;
use vstd::string::*;

verus! {

/// Where a cargo can be reached on the network.
#[derive(Debug, PartialEq, Eq)]
pub struct CargoAddress {
    /// The cargo key.
    pub key: String,
    /// The address of the cargo's running instance.
    pub address: String,
}

/// The address of the cargo `key`: that of the latest entry with the key, if there is one.
pub open spec fn resolved(addresses: Seq<CargoAddress>, key: Seq<char>) -> Option<Seq<char>>
    decreases addresses.len(),
{
    if addresses.len() == 0 {
        None
    } else if addresses.last().key@ == key {
        Some(addresses.last().address@)
    } else {
        resolved(addresses.drop_last(), key)
    }
}

/// The place of the entry that gives the cargo `key` its address: see [`resolved`].
pub fn resolve(addresses: &Vec<CargoAddress>, key: &str) -> (found: Option<usize>)
    ensures
        match found {
            Some(i) => i < addresses@.len() && resolved(addresses@, key@) == Some(
                addresses@[i as int].address@,
            ),
            None => resolved(addresses@, key@).is_none(),
        },
{
    let mut left: usize = addresses.len();
    proof {
        assert(addresses@.take(left as int) =~= addresses@);
    }
    while left > 0
        invariant
            left <= addresses@.len(),
            resolved(addresses@, key@) == resolved(addresses@.take(left as int), key@),
        decreases left,
    {
        let ghost rest = addresses@.take(left as int);
        left -= 1;
        proof {
            assert(rest.drop_last() =~= addresses@.take(left as int));
        }
        if same_text(addresses[left].key.as_str(), key) {
            return Some(left);
        }
    }
    None
}

/// The character of a decimal digit.
pub open spec fn digit(d: nat) -> char {
    (('0' as u8) + d) as char
}

/// A number in decimal.
pub open spec fn decimal(n: nat) -> Seq<char>
    decreases n,
{
    if n < 10 {
        seq![digit(n)]
    } else {
        decimal(n / 10) + seq![digit(n % 10)]
    }
}

/// The text of one decimal digit.
fn digit_text(d: u16) -> (text: &'static str)
    requires
        d < 10,
    ensures
        text@ == seq![digit(d as nat)],
{
    proof {
        reveal_strlit("0");
        reveal_strlit("1");
        reveal_strlit("2");
        reveal_strlit("3");
        reveal_strlit("4");
        reveal_strlit("5");
        reveal_strlit("6");
        reveal_strlit("7");
        reveal_strlit("8");
        reveal_strlit("9");
    }
    let text = match d {
        0 => "0",
        1 => "1",
        2 => "2",
        3 => "3",
        4 => "4",
        5 => "5",
        6 => "6",
        7 => "7",
        8 => "8",
        _ => "9",
    };
    text
}

/// Writes a number in decimal behind `out`.
pub fn write_decimal(out: &mut String, n: u16)
    ensures
        final(out)@ == old(out)@ + decimal(n as nat),
    decreases n,
{
    if n >= 10 {
        write_decimal(out, n / 10);
    }
    out.append(digit_text(n % 10));
}

/// The text that stands for the certificate files of a TLS endpoint.
pub open spec fn ssl_text(out: Seq<char>, ssl: Option<ProxySslConfig>) -> Seq<char> {
    match ssl {
        Some(ssl) => {
            let keyed = out + "  ssl_certificate "@ + ssl.certificate@ + ";\n  ssl_certificate_key "@
                + ssl.certificate_key@ + ";\n"@;
            match ssl.dh_param {
                Some(dh_param) => keyed + "  ssl_dhparam "@ + dh_param@ + ";\n"@,
                None => keyed,
            }
        },
        None => out,
    }
}

/// Writes the certificate files of a TLS endpoint behind `out`.
fn write_ssl(out: &mut String, ssl: &Option<ProxySslConfig>)
    ensures
        final(out)@ == ssl_text(old(out)@, *ssl),
{
    match ssl {
        Some(ssl) => {
            out.append("  ssl_certificate ");
            out.append(ssl.certificate.as_str());
            out.append(";\n  ssl_certificate_key ");
            out.append(ssl.certificate_key.as_str());
            out.append(";\n");
            match &ssl.dh_param {
                Some(dh_param) => {
                    out.append("  ssl_dhparam ");
                    out.append(dh_param.as_str());
                    out.append(";\n");
                },
                None => {},
            }
        },
        None => {},
    }
}

/// The text of a target that is a cargo: where the cargo has an address, a
/// pass to that address and the target's port, behind `scheme`; where it has
/// none, a line that disables the location and names the cargo.
pub open spec fn cargo_text(
    out: Seq<char>,
    indent: Seq<char>,
    scheme: Seq<char>,
    target: CargoTarget,
    addresses: Seq<CargoAddress>,
) -> Seq<char> {
    match resolved(addresses, target.key@) {
        Some(address) => out + indent + "proxy_pass "@ + scheme + address + ":"@ + decimal(
            target.port as nat,
        ) + ";\n"@,
        None => out + indent + "return 502; # unresolved cargo "@ + target.key@ + "\n"@,
    }
}

/// Writes a target that is a cargo behind `out`: see [`cargo_text`].
fn write_cargo(
    out: &mut String,
    indent: &str,
    scheme: &str,
    target: &CargoTarget,
    addresses: &Vec<CargoAddress>,
)
    ensures
        final(out)@ == cargo_text(old(out)@, indent@, scheme@, *target, addresses@),
{
    out.append(indent);
    match resolve(addresses, target.key.as_str()) {
        Some(i) => {
            out.append("proxy_pass ");
            out.append(scheme);
            out.append(addresses[i].address.as_str());
            out.append(":");
            write_decimal(out, target.port);
            out.append(";\n");
        },
        None => {
            out.append("return 502; # unresolved cargo ");
            out.append(target.key.as_str());
            out.append("\n");
        },
    }
}

/// The text of one location of an http rule.
pub open spec fn location_text(
    out: Seq<char>,
    location: ProxyHttpLocation,
    addresses: Seq<CargoAddress>,
) -> Seq<char> {
    let opened = out + "  location "@ + location.path@ + " {\n"@;
    let filled = match location.target {
        LocationTarget::Cargo(target) => cargo_text(opened, "    "@, "http://"@, target, addresses),
        LocationTarget::Http(target) => match target.redirect {
            Some(redirect) => opened + "    return "@ + redirect.spec_text() + " "@ + target.url@
                + ";\n"@,
            None => opened + "    proxy_pass "@ + target.url@ + ";\n"@,
        },
        LocationTarget::Unix(path) => opened + "    proxy_pass http://unix:"@ + path@ + ";\n"@,
    };
    filled + "  }\n"@
}

/// Writes one location of an http rule behind `out`.
fn write_location(out: &mut String, location: &ProxyHttpLocation, addresses: &Vec<CargoAddress>)
    ensures
        final(out)@ == location_text(old(out)@, *location, addresses@),
{
    out.append("  location ");
    out.append(location.path.as_str());
    out.append(" {\n");
    match &location.target {
        LocationTarget::Cargo(target) => {
            write_cargo(out, "    ", "http://", target, addresses);
        },
        LocationTarget::Http(target) => {
            match &target.redirect {
                Some(redirect) => {
                    out.append("    return ");
                    let code = redirect.to_string();
                    out.append(code.as_str());
                    out.append(" ");
                    out.append(target.url.as_str());
                    out.append(";\n");
                },
                None => {
                    out.append("    proxy_pass ");
                    out.append(target.url.as_str());
                    out.append(";\n");
                },
            }
        },
        LocationTarget::Unix(path) => {
            out.append("    proxy_pass http://unix:");
            out.append(path.as_str());
            out.append(";\n");
        },
    }
    out.append("  }\n");
}

/// The text of the locations of an http rule, in their order.
pub open spec fn locations_text(
    out: Seq<char>,
    locations: Seq<ProxyHttpLocation>,
    addresses: Seq<CargoAddress>,
) -> Seq<char>
    decreases locations.len(),
{
    if locations.len() == 0 {
        out
    } else {
        location_text(
            locations_text(out, locations.drop_last(), addresses),
            locations.last(),
            addresses,
        )
    }
}

/// The text of the files that an http rule includes, in their order.
pub open spec fn includes_text(out: Seq<char>, includes: Seq<String>) -> Seq<char>
    decreases includes.len(),
{
    if includes.len() == 0 {
        out
    } else {
        includes_text(out, includes.drop_last()) + "  include "@ + includes.last()@ + ";\n"@
    }
}

/// The text of an http rule: one server with its network, its domain if it
/// has one, its certificate files, its included files and its locations.
pub open spec fn http_text(out: Seq<char>, rule: ProxyRuleHttp, addresses: Seq<CargoAddress>) -> Seq<
    char,
> {
    let opened = out + "server {\n  listen "@ + rule.network@ + ";\n"@;
    let named = match rule.domain {
        Some(domain) => opened + "  server_name "@ + domain@ + ";\n"@,
        None => opened,
    };
    let secured = ssl_text(named, rule.ssl);
    let included = match rule.includes {
        Some(includes) => includes_text(secured, includes@),
        None => secured,
    };
    locations_text(included, rule.locations@, addresses) + "}\n"@
}

/// Writes an http rule behind `out`.
fn write_http(out: &mut String, rule: &ProxyRuleHttp, addresses: &Vec<CargoAddress>)
    ensures
        final(out)@ == http_text(old(out)@, *rule, addresses@),
{
    out.append("server {\n  listen ");
    out.append(rule.network.as_str());
    out.append(";\n");
    match &rule.domain {
        Some(domain) => {
            out.append("  server_name ");
            out.append(domain.as_str());
            out.append(";\n");
        },
        None => {},
    }
    write_ssl(out, &rule.ssl);
    match &rule.includes {
        Some(includes) => {
            let ghost start = out@;
            let mut i: usize = 0;
            while i < includes.len()
                invariant
                    i <= includes@.len(),
                    out@ == includes_text(start, includes@.take(i as int)),
                decreases includes@.len() - i,
            {
                proof {
                    assert(includes@.take(i + 1).drop_last() =~= includes@.take(i as int));
                }
                out.append("  include ");
                out.append(includes[i].as_str());
                out.append(";\n");
                i += 1;
            }
            proof {
                assert(includes@.take(i as int) =~= includes@);
            }
        },
        None => {},
    }
    let ghost start = out@;
    let mut i: usize = 0;
    while i < rule.locations.len()
        invariant
            i <= rule.locations@.len(),
            out@ == locations_text(start, rule.locations@.take(i as int), addresses@),
        decreases rule.locations@.len() - i,
    {
        proof {
            assert(rule.locations@.take(i + 1).drop_last() =~= rule.locations@.take(i as int));
        }
        write_location(out, &rule.locations[i], addresses);
        i += 1;
    }
    proof {
        assert(rule.locations@.take(i as int) =~= rule.locations@);
    }
    out.append("}\n");
}

/// The text of one entry of a stream rule: one server with its network, its
/// port, its protocol where that is udp, its certificate files and its target.
pub open spec fn stream_text(out: Seq<char>, stream: ProxyRuleStream, addresses: Seq<CargoAddress>) -> Seq<
    char,
> {
    let opened = out + "server {\n  listen "@ + stream.network@ + ":"@ + decimal(
        stream.port as nat,
    );
    let listened = match stream.protocol {
        ProxyStreamProtocol::Tcp => opened + ";\n"@,
        ProxyStreamProtocol::Udp => opened + " udp;\n"@,
    };
    let secured = ssl_text(listened, stream.ssl);
    let filled = match stream.target {
        StreamTarget::Cargo(target) => cargo_text(secured, "  "@, ""@, target, addresses),
        StreamTarget::Uri(target) => secured + "  proxy_pass "@ + target.uri@ + ";\n"@,
        StreamTarget::Unix(path) => secured + "  proxy_pass unix:"@ + path@ + ";\n"@,
    };
    filled + "}\n"@
}

/// Writes one entry of a stream rule behind `out`.
fn write_stream(out: &mut String, stream: &ProxyRuleStream, addresses: &Vec<CargoAddress>)
    ensures
        final(out)@ == stream_text(old(out)@, *stream, addresses@),
{
    out.append("server {\n  listen ");
    out.append(stream.network.as_str());
    out.append(":");
    write_decimal(out, stream.port);
    match stream.protocol {
        ProxyStreamProtocol::Tcp => out.append(";\n"),
        ProxyStreamProtocol::Udp => out.append(" udp;\n"),
    }
    write_ssl(out, &stream.ssl);
    match &stream.target {
        StreamTarget::Cargo(target) => {
            write_cargo(out, "  ", "", target, addresses);
        },
        StreamTarget::Uri(target) => {
            out.append("  proxy_pass ");
            out.append(target.uri.as_str());
            out.append(";\n");
        },
        StreamTarget::Unix(path) => {
            out.append("  proxy_pass unix:");
            out.append(path.as_str());
            out.append(";\n");
        },
    }
    out.append("}\n");
}

/// The text of the entries of a stream rule, in their order.
pub open spec fn streams_text(
    out: Seq<char>,
    streams: Seq<ProxyRuleStream>,
    addresses: Seq<CargoAddress>,
) -> Seq<char>
    decreases streams.len(),
{
    if streams.len() == 0 {
        out
    } else {
        stream_text(streams_text(out, streams.drop_last(), addresses), streams.last(), addresses)
    }
}

/// The content of the file of a rule: a function of the rule and of the
/// addresses of the cargoes alone.
pub open spec fn rule_text(rule: ProxyRule, addresses: Seq<CargoAddress>) -> Seq<char> {
    match rule {
        ProxyRule::Http(http) => http_text(Seq::empty(), http, addresses),
        ProxyRule::Stream(streams) => streams_text(Seq::empty(), streams@, addresses),
    }
}

/// Renders a rule to the content of its file. A target that is a cargo is
/// found in `addresses` by its key; where it is not found, its location is
/// disabled and the rest of the rule is rendered all the same.
pub fn render_rule(rule: &ProxyRule, addresses: &Vec<CargoAddress>) -> (text: String)
    ensures
        text@ == rule_text(*rule, addresses@),
{
    let mut out = String::new();
    match rule {
        ProxyRule::Http(http) => {
            write_http(&mut out, http, addresses);
        },
        ProxyRule::Stream(streams) => {
            let mut i: usize = 0;
            while i < streams.len()
                invariant
                    i <= streams@.len(),
                    out@ == streams_text(Seq::empty(), streams@.take(i as int), addresses@),
                decreases streams@.len() - i,
            {
                proof {
                    assert(streams@.take(i + 1).drop_last() =~= streams@.take(i as int));
                }
                write_stream(&mut out, &streams[i], addresses);
                i += 1;
            }
            proof {
                assert(streams@.take(i as int) =~= streams@);
            }
        },
    }
    out
}

} // verus!
