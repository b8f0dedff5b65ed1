//! The `network` section: the proxy object, the host policy, and the rules
//! that tie a proxy to the backends that can honour it.

use vstd::prelude::*;
use crate::errors::{Logger, WxcError};
use crate::json::{Json, JsonNumber, JsonKind, lookup, json_tree, json_kind, json_bool, json_number,
    json_string, json_object_len, object_member};
use crate::models::{
    ContainerPolicy, ContainerPolicyView, ContainmentBackend, NetworkEnforcementMode, NetworkPolicy,
    ProxyAddress, ProxyAddressView, ProxyConfig, ProxyConfigView, spec_proxy_enabled,
};
use crate::raw::{RawNetwork, RawNetworkV, ov};
use crate::text::{line, push_str, to_owned_string, str_eq};

verus! {

/// What `url::Url::parse` makes of a text: the host and the explicit
/// (non-default) port of the URL, or the error's display text.
pub uninterp spec fn url_host_port(text: Seq<char>) -> Result<(Option<Seq<char>>, Option<u16>), Seq<char>>;

/// A parsed URL's host and port, or the error text, as plain values.
pub open spec fn parsed_url_view(r: Result<(Option<String>, Option<u16>), String>) -> Result<(Option<Seq<char>>, Option<u16>), Seq<char>> {
    match r {
        Ok((h, p)) => Ok((crate::models::opt_view(h), p)),
        Err(e) => Err(e@),
    }
}

/// Calls `url::Url::parse` and reads `host_str` and `port` of the parsed
/// URL. Claims only that the outcome is the named function of the text;
/// that `port` is `None` for a scheme's default port is not stated.
#[verifier::external_body]
pub(crate) fn parse_url_host_port(text: &str) -> (r: Result<(Option<String>, Option<u16>), String>)
    ensures
        parsed_url_view(r) == url_host_port(text@),
{
    match url::Url::parse(text) {
        Ok(u) => {
            let host = match u.host_str() {
                Some(h) => Some(h.to_string()),
                None => None,
            };
            Ok((host, u.port()))
        },
        Err(e) => Err(e.to_string()),
    }
}

pub const MSG_PROXY_NOT_OBJECT: &'static str = "network.proxy must be an object";
pub const MSG_BUILTIN_MUST_BE_TRUE: &'static str = "network.proxy.builtinTestServer must be true when present";
pub const MSG_BUILTIN_ALONE: &'static str = "When builtinTestServer is true, no other proxy options may be set";
pub const MSG_LOCALHOST_NUMBER: &'static str = "network.proxy.localhost must be a number";
pub const MSG_LOCALHOST_RANGE: &'static str = "network.proxy.localhost must be a port between 1 and 65535";
pub const MSG_URL_STRING: &'static str = "network.proxy.url must be a string";
pub const MSG_URL_INVALID: &'static str = "network.proxy.url is invalid: ";
pub const MSG_URL_HOST: &'static str = "network.proxy.url must include a host (e.g., http://localhost:8080), got: ";
pub const MSG_URL_PORT: &'static str = "network.proxy.url must include a port (e.g., http://localhost:8080), got: ";
pub const MSG_PROXY_KIND: &'static str = "network.proxy must specify builtinTestServer, localhost, or url";
pub const PROXY_LOOPBACK: &'static str = "127.0.0.1";

/// The loopback address a `builtinTestServer` or `localhost` proxy uses.
pub open spec fn loopback(port: u16) -> ProxyAddressView {
    ProxyAddressView { address: PROXY_LOOPBACK@, port, original_url: None }
}

/// A `{ "url": ... }` proxy, given what the URL parser made of the text.
pub open spec fn spec_proxy_from_url(url: Seq<char>, parsed: Result<(Option<Seq<char>>, Option<u16>), Seq<char>>) -> Result<ProxyConfigView, Seq<char>> {
    match parsed {
        Err(e) => Err(MSG_URL_INVALID@ + e),
        Ok((None, _)) => Err(MSG_URL_HOST@ + url),
        Ok((Some(_), None)) => Err(MSG_URL_PORT@ + url),
        Ok((Some(h), Some(p))) => Ok(ProxyConfigView {
            address: Some(ProxyAddressView { address: h, port: p, original_url: Some(url) }),
            builtin_test_server: false,
        }),
    }
}

/// The `network.proxy` value: `{ "builtinTestServer": true }` alone, or
/// `{ "localhost": <port 1..65535> }`, or `{ "url": "<url with host and port>" }`,
/// the keys tried in that order.
pub open spec fn spec_parse_proxy(j: Json) -> Result<ProxyConfigView, Seq<char>> {
    match j {
        Json::Object(e) => match lookup(e, "builtinTestServer"@) {
            Some(b) => if b != Json::Bool(true) {
                Err(MSG_BUILTIN_MUST_BE_TRUE@)
            } else if e.len() != 1 {
                Err(MSG_BUILTIN_ALONE@)
            } else {
                Ok(ProxyConfigView { address: Some(loopback(0)), builtin_test_server: true })
            },
            None => match lookup(e, "localhost"@) {
                Some(l) => match l {
                    Json::Number(JsonNumber::PosInt(n)) => if n == 0 || n > 65535 {
                        Err(MSG_LOCALHOST_RANGE@)
                    } else {
                        Ok(ProxyConfigView { address: Some(loopback(n as u16)), builtin_test_server: false })
                    },
                    _ => Err(MSG_LOCALHOST_NUMBER@),
                },
                None => match lookup(e, "url"@) {
                    Some(Json::Str(s)) => spec_proxy_from_url(s, url_host_port(s)),
                    Some(_) => Err(MSG_URL_STRING@),
                    None => Err(MSG_PROXY_KIND@),
                },
            },
        },
        _ => Err(MSG_PROXY_NOT_OBJECT@),
    }
}

/// Builds the proxy of a `{ "url": ... }` object from what the URL parser
/// returned for `url`.
pub fn proxy_from_url(url: &str, parsed: Result<(Option<String>, Option<u16>), String>) -> (r: Result<ProxyConfig, WxcError>)
    ensures
        match r {
            Ok(p) => spec_proxy_from_url(url@, parsed_url_view(parsed)) == Ok::<ProxyConfigView, Seq<char>>(p@),
            Err(e) => spec_proxy_from_url(url@, parsed_url_view(parsed)) == Err::<ProxyConfigView, Seq<char>>(e.spec_message()),
        },
{
    match parsed {
        Err(e) => {
            let mut msg = to_owned_string(MSG_URL_INVALID);
            push_str(&mut msg, e.as_str());
            Err(WxcError::ConfigParse(msg))
        },
        Ok((None, _)) => {
            let mut msg = to_owned_string(MSG_URL_HOST);
            push_str(&mut msg, url);
            Err(WxcError::ConfigParse(msg))
        },
        Ok((Some(_), None)) => {
            let mut msg = to_owned_string(MSG_URL_PORT);
            push_str(&mut msg, url);
            Err(WxcError::ConfigParse(msg))
        },
        Ok((Some(h), Some(p))) => Ok(ProxyConfig {
            address: Some(ProxyAddress::from_url(url, h, p)),
            builtin_test_server: false,
        }),
    }
}

fn config_err(msg: &str) -> (r: WxcError)
    ensures
        r.spec_message() == msg@,
{
    WxcError::ConfigParse(to_owned_string(msg))
}

/// Parses the `network.proxy` value.
pub fn parse_proxy_config(value: &serde_json::Value) -> (r: Result<ProxyConfig, WxcError>)
    ensures
        match r {
            Ok(p) => spec_parse_proxy(json_tree(*value)) == Ok::<ProxyConfigView, Seq<char>>(p@),
            Err(e) => spec_parse_proxy(json_tree(*value)) == Err::<ProxyConfigView, Seq<char>>(e.spec_message()),
        },
{
    if json_kind(value) != JsonKind::Object {
        return Err(config_err(MSG_PROXY_NOT_OBJECT));
    }
    let ghost e = json_tree(*value)->Object_0;
    if let Some(b) = object_member(value, "builtinTestServer") {
        let is_true = json_kind(b) == JsonKind::Bool && json_bool(b);
        if !is_true {
            return Err(config_err(MSG_BUILTIN_MUST_BE_TRUE));
        }
        if json_object_len(value) != 1 {
            return Err(config_err(MSG_BUILTIN_ALONE));
        }
        return Ok(ProxyConfig {
            address: Some(ProxyAddress::new(to_owned_string(PROXY_LOOPBACK), 0)),
            builtin_test_server: true,
        });
    }
    if let Some(l) = object_member(value, "localhost") {
        if json_kind(l) != JsonKind::Number {
            return Err(config_err(MSG_LOCALHOST_NUMBER));
        }
        match json_number(l) {
            JsonNumber::PosInt(n) => {
                if n == 0 || n > 65535 {
                    return Err(config_err(MSG_LOCALHOST_RANGE));
                }
                return Ok(ProxyConfig {
                    address: Some(ProxyAddress::new(to_owned_string(PROXY_LOOPBACK), n as u16)),
                    builtin_test_server: false,
                });
            },
            _ => {
                return Err(config_err(MSG_LOCALHOST_NUMBER));
            },
        }
    }
    if let Some(u) = object_member(value, "url") {
        if json_kind(u) != JsonKind::Str {
            return Err(config_err(MSG_URL_STRING));
        }
        let s = json_string(u);
        let parsed = parse_url_host_port(s.as_str());
        return proxy_from_url(s.as_str(), parsed);
    }
    Err(config_err(MSG_PROXY_KIND))
}


pub const MSG_PROXY_BACKEND: &'static str = "Network proxy is only supported with the 'processcontainer' or 'bubblewrap' containment backends";
pub const MSG_DEFAULT_POLICY_PREFIX: &'static str = "Invalid network.defaultPolicy value '";
pub const MSG_DEFAULT_POLICY_SUFFIX: &'static str = "' (must be 'allow' or 'block')";
pub const MSG_ENFORCEMENT_PREFIX: &'static str = "Invalid network.enforcementMode value '";
pub const MSG_ENFORCEMENT_SUFFIX: &'static str = "' (must be 'capabilities', 'firewall', or 'both')";
pub const MSG_BWRAP_FIREWALL: &'static str = "Bubblewrap: network.proxy cannot be combined with network.enforcementMode='firewall' or 'both'. The cooperative env-var proxy enforces hosts at the proxy layer; iptables-based enforcement requires privilege and is mutually exclusive.";
pub const MSG_BWRAP_EXTERNAL_PROXY: &'static str = "Bubblewrap: an external network.proxy (url/localhost) cannot be combined with allowedHosts, blockedHosts, or defaultPolicy='block'. The external proxy is expected to enforce its own host policy; MXC does not forward host lists to it. Use 'network.proxy.builtinTestServer: true' (testing only) for MXC-enforced host filtering, or remove the host policy.";
pub const MSG_BWRAP_COOPERATIVE: &'static str = "WARNING: Bubblewrap network.proxy with defaultPolicy='block' is cooperative. HTTP_PROXY-aware clients (curl, requests, etc.) are denied at the proxy, but raw-socket clients that ignore HTTP_PROXY bypass the proxy and reach the host network. For strict isolation of all clients, remove network.proxy so --unshare-net applies; for host-list enforcement, add allowedHosts (cooperative tools only).";

/// Only the ProcessContainer and Bubblewrap backends can route a sandbox
/// through a proxy.
pub open spec fn proxy_capable(c: ContainmentBackend) -> bool {
    c == ContainmentBackend::ProcessContainer || c == ContainmentBackend::Bubblewrap
}

/// A `defaultPolicy` wire value.
pub open spec fn spec_default_policy(s: Seq<char>) -> Result<NetworkPolicy, Seq<char>> {
    if s == "allow"@ {
        Ok(NetworkPolicy::Allow)
    } else if s == "block"@ {
        Ok(NetworkPolicy::Block)
    } else {
        Err(MSG_DEFAULT_POLICY_PREFIX@ + s + MSG_DEFAULT_POLICY_SUFFIX@)
    }
}

/// An `enforcementMode` wire value.
pub open spec fn spec_enforcement_mode(s: Seq<char>) -> Result<NetworkEnforcementMode, Seq<char>> {
    if s == "capabilities"@ {
        Ok(NetworkEnforcementMode::Capabilities)
    } else if s == "firewall"@ {
        Ok(NetworkEnforcementMode::Firewall)
    } else if s == "both"@ {
        Ok(NetworkEnforcementMode::Both)
    } else {
        Err(MSG_ENFORCEMENT_PREFIX@ + s + MSG_ENFORCEMENT_SUFFIX@)
    }
}

fn parse_default_policy(s: &str) -> (r: Result<NetworkPolicy, String>)
    ensures
        match r {
            Ok(p) => spec_default_policy(s@) == Ok::<NetworkPolicy, Seq<char>>(p),
            Err(m) => spec_default_policy(s@) == Err::<NetworkPolicy, Seq<char>>(m@),
        },
{
    if str_eq(s, "allow") {
        Ok(NetworkPolicy::Allow)
    } else if str_eq(s, "block") {
        Ok(NetworkPolicy::Block)
    } else {
        let mut msg = to_owned_string(MSG_DEFAULT_POLICY_PREFIX);
        push_str(&mut msg, s);
        push_str(&mut msg, MSG_DEFAULT_POLICY_SUFFIX);
        Err(msg)
    }
}

fn parse_enforcement_mode(s: &str) -> (r: Result<NetworkEnforcementMode, String>)
    ensures
        match r {
            Ok(p) => spec_enforcement_mode(s@) == Ok::<NetworkEnforcementMode, Seq<char>>(p),
            Err(m) => spec_enforcement_mode(s@) == Err::<NetworkEnforcementMode, Seq<char>>(m@),
        },
{
    if str_eq(s, "capabilities") {
        Ok(NetworkEnforcementMode::Capabilities)
    } else if str_eq(s, "firewall") {
        Ok(NetworkEnforcementMode::Firewall)
    } else if str_eq(s, "both") {
        Ok(NetworkEnforcementMode::Both)
    } else {
        let mut msg = to_owned_string(MSG_ENFORCEMENT_PREFIX);
        push_str(&mut msg, s);
        push_str(&mut msg, MSG_ENFORCEMENT_SUFFIX);
        Err(msg)
    }
}

/// The proxy step: a parsed proxy is kept only for a proxy-capable backend
/// (the refusal is logged).
pub open spec fn spec_proxy_step(policy: ContainerPolicyView, proxy: Option<Json>, c: ContainmentBackend) -> (Result<ContainerPolicyView, Seq<char>>, Seq<char>) {
    match proxy {
        None => (Ok(policy), Seq::empty()),
        Some(pj) => match spec_parse_proxy(pj) {
            Err(m) => (Err(m), Seq::empty()),
            Ok(pc) => if spec_proxy_enabled(pc) && !proxy_capable(c) {
                (Err(MSG_PROXY_BACKEND@), line(MSG_PROXY_BACKEND@))
            } else {
                (Ok(ContainerPolicyView { network_proxy: pc, ..policy }), Seq::empty())
            },
        },
    }
}

/// The host-policy fields of the section, each kept from the policy when
/// omitted; an unknown `defaultPolicy` or `enforcementMode` is refused
/// (and logged), in that order.
pub open spec fn spec_host_policy(policy: ContainerPolicyView, n: RawNetworkV) -> (Result<ContainerPolicyView, Seq<char>>, Seq<char>) {
    let dp = match n.default_policy { Some(s) => spec_default_policy(s), None => Ok(policy.default_network_policy) };
    let em = match n.enforcement_mode { Some(s) => spec_enforcement_mode(s), None => Ok(policy.network_enforcement_mode) };
    match dp {
        Err(m) => (Err(m), line(m)),
        Ok(dp) => match em {
            Err(m) => (Err(m), line(m)),
            Ok(em) => (Ok(ContainerPolicyView {
                default_network_policy: dp,
                network_enforcement_mode: em,
                allow_local_network: match n.allow_local_network { Some(b) => b, None => policy.allow_local_network },
                allowed_hosts: match n.allowed_hosts { Some(v) => v, None => policy.allowed_hosts },
                blocked_hosts: match n.blocked_hosts { Some(v) => v, None => policy.blocked_hosts },
                ..policy
            }), Seq::empty()),
        },
    }
}

/// Bubblewrap's proxy rules on a finished policy: a proxy excludes
/// firewall enforcement; an external proxy excludes host lists and a
/// blocking default; a proxy with a blocking default and no lists draws a
/// warning. Refusals and the warning are logged.
pub open spec fn spec_bubblewrap_rules(p: ContainerPolicyView, c: ContainmentBackend) -> (Result<(), Seq<char>>, Seq<char>) {
    let bwrap_proxy = c == ContainmentBackend::Bubblewrap && spec_proxy_enabled(p.network_proxy);
    if bwrap_proxy && (p.network_enforcement_mode == NetworkEnforcementMode::Firewall
        || p.network_enforcement_mode == NetworkEnforcementMode::Both) {
        (Err(MSG_BWRAP_FIREWALL@), line(MSG_BWRAP_FIREWALL@))
    } else if bwrap_proxy && !p.network_proxy.builtin_test_server
        && (p.allowed_hosts.len() > 0 || p.blocked_hosts.len() > 0 || p.default_network_policy == NetworkPolicy::Block) {
        (Err(MSG_BWRAP_EXTERNAL_PROXY@), line(MSG_BWRAP_EXTERNAL_PROXY@))
    } else if bwrap_proxy && p.default_network_policy == NetworkPolicy::Block
        && p.allowed_hosts.len() == 0 && p.blocked_hosts.len() == 0 {
        (Ok(()), line(MSG_BWRAP_COOPERATIVE@))
    } else {
        (Ok(()), Seq::empty())
    }
}

/// The whole `network` section applied to a policy, for backend `c`.
pub open spec fn spec_network(policy: ContainerPolicyView, net: Option<RawNetworkV>, c: ContainmentBackend) -> (Result<ContainerPolicyView, Seq<char>>, Seq<char>) {
    match net {
        None => (Ok(policy), Seq::empty()),
        Some(n) => {
            let (r1, l1) = spec_proxy_step(policy, n.proxy, c);
            match r1 {
                Err(m) => (Err(m), l1),
                Ok(p1) => {
                    let (r2, l2) = spec_host_policy(p1, n);
                    match r2 {
                        Err(m) => (Err(m), l1 + l2),
                        Ok(p2) => {
                            let (r3, l3) = spec_bubblewrap_rules(p2, c);
                            match r3 {
                                Err(m) => (Err(m), l1 + l2 + l3),
                                Ok(_) => (Ok(p2), l1 + l2 + l3),
                            }
                        },
                    }
                },
            }
        },
    }
}

fn proxy_step(policy: &mut ContainerPolicy, proxy: Option<serde_json::Value>, c: ContainmentBackend, logger: &mut Logger) -> (r: Result<(), WxcError>)
    ensures
        final(logger)@ == old(logger)@ + spec_proxy_step(old(policy)@, crate::raw::opt_json(proxy), c).1,
        match r {
            Ok(_) => spec_proxy_step(old(policy)@, crate::raw::opt_json(proxy), c).0 == Ok::<ContainerPolicyView, Seq<char>>(final(policy)@),
            Err(e) => spec_proxy_step(old(policy)@, crate::raw::opt_json(proxy), c).0 == Err::<ContainerPolicyView, Seq<char>>(e.spec_message()),
        },
{
    assert(old(logger)@ + Seq::<char>::empty() =~= old(logger)@);
    if let Some(pv) = proxy {
        let pc = parse_proxy_config(&pv)?;
        if pc.is_enabled() && c != ContainmentBackend::ProcessContainer && c != ContainmentBackend::Bubblewrap {
            logger.log_line(MSG_PROXY_BACKEND);
            return Err(config_err(MSG_PROXY_BACKEND));
        }
        policy.network_proxy = pc;
    }
    Ok(())
}

#[verifier::rlimit(60)]
fn host_policy_step(policy: &mut ContainerPolicy, n: RawNetwork, logger: &mut Logger) -> (r: Result<(), WxcError>)
    ensures
        final(logger)@ == old(logger)@ + spec_host_policy(old(policy)@, n@).1,
        match r {
            Ok(_) => spec_host_policy(old(policy)@, n@).0 == Ok::<ContainerPolicyView, Seq<char>>(final(policy)@),
            Err(e) => spec_host_policy(old(policy)@, n@).0 == Err::<ContainerPolicyView, Seq<char>>(e.spec_message()),
        },
{
    let ghost nv = n@;
    let crate::raw::RawNetworkOf { default_policy, enforcement_mode, allow_local_network, allowed_hosts, blocked_hosts, proxy: _ } = n;
    let dp = match default_policy {
        Some(p) => match parse_default_policy(p.as_str()) {
            Ok(v) => v,
            Err(m) => {
                logger.log_line(m.as_str());
                return Err(WxcError::ConfigParse(m));
            },
        },
        None => policy.default_network_policy,
    };
    let em = match enforcement_mode {
        Some(p) => match parse_enforcement_mode(p.as_str()) {
            Ok(v) => v,
            Err(m) => {
                logger.log_line(m.as_str());
                return Err(WxcError::ConfigParse(m));
            },
        },
        None => policy.network_enforcement_mode,
    };
    assert(old(logger)@ + Seq::<char>::empty() =~= old(logger)@);
    policy.default_network_policy = dp;
    policy.network_enforcement_mode = em;
    if let Some(v) = allow_local_network {
        policy.allow_local_network = v;
    }
    if let Some(v) = allowed_hosts {
        policy.allowed_hosts = v;
    }
    if let Some(v) = blocked_hosts {
        policy.blocked_hosts = v;
    }
    Ok(())
}

fn bubblewrap_rules(p: &ContainerPolicy, c: ContainmentBackend, logger: &mut Logger) -> (r: Result<(), WxcError>)
    ensures
        final(logger)@ == old(logger)@ + spec_bubblewrap_rules(p@, c).1,
        match r {
            Ok(_) => spec_bubblewrap_rules(p@, c).0 is Ok,
            Err(e) => spec_bubblewrap_rules(p@, c).0 == Err::<(), Seq<char>>(e.spec_message()),
        },
{
    let bwrap_proxy = c == ContainmentBackend::Bubblewrap && p.network_proxy.is_enabled();
    let firewall = match p.network_enforcement_mode {
        NetworkEnforcementMode::Firewall | NetworkEnforcementMode::Both => true,
        _ => false,
    };
    let block = match p.default_network_policy {
        NetworkPolicy::Block => true,
        _ => false,
    };
    if bwrap_proxy && firewall {
        logger.log_line(MSG_BWRAP_FIREWALL);
        return Err(config_err(MSG_BWRAP_FIREWALL));
    }
    if bwrap_proxy && !p.network_proxy.builtin_test_server
        && (p.allowed_hosts.len() > 0 || p.blocked_hosts.len() > 0 || block) {
        logger.log_line(MSG_BWRAP_EXTERNAL_PROXY);
        return Err(config_err(MSG_BWRAP_EXTERNAL_PROXY));
    }
    if bwrap_proxy && block && p.allowed_hosts.len() == 0 && p.blocked_hosts.len() == 0 {
        logger.log_line(MSG_BWRAP_COOPERATIVE);
    } else {
        assert(old(logger)@ + Seq::<char>::empty() =~= old(logger)@);
    }
    Ok(())
}

/// Applies the `network` section to `policy` for backend `c`.
pub fn apply_network(policy: &mut ContainerPolicy, net: Option<RawNetwork>, c: ContainmentBackend, logger: &mut Logger) -> (r: Result<(), WxcError>)
    ensures
        final(logger)@ == old(logger)@ + spec_network(old(policy)@, ov(net), c).1,
        match r {
            Ok(_) => spec_network(old(policy)@, ov(net), c).0 == Ok::<ContainerPolicyView, Seq<char>>(final(policy)@),
            Err(e) => spec_network(old(policy)@, ov(net), c).0 == Err::<ContainerPolicyView, Seq<char>>(e.spec_message()),
        },
{
    let n = match net {
        None => {
            assert(old(logger)@ + Seq::<char>::empty() =~= old(logger)@);
            return Ok(());
        },
        Some(n) => n,
    };
    let ghost l0 = logger@;
    let ghost p0 = policy@;
    let ghost nv = n@;
    let crate::raw::RawNetworkOf { default_policy, enforcement_mode, allow_local_network, allowed_hosts, blocked_hosts, proxy } = n;
    let rest = crate::raw::RawNetworkOf { default_policy, enforcement_mode, allow_local_network, allowed_hosts, blocked_hosts, proxy: None };
    assert(spec_host_policy(policy@, rest@) == spec_host_policy(policy@, nv));
    let r1 = proxy_step(policy, proxy, c, logger);
    if r1.is_err() {
        return r1;
    }
    let ghost l1 = logger@;
    let ghost p1 = policy@;
    let r2 = host_policy_step(policy, rest, logger);
    if r2.is_err() {
        assert(logger@ =~= l0 + (spec_proxy_step(p0, nv.proxy, c).1 + spec_host_policy(p1, nv).1));
        return r2;
    }
    let r3 = bubblewrap_rules(policy, c, logger);
    assert(logger@ =~= l0 + (spec_proxy_step(p0, nv.proxy, c).1 + spec_host_policy(p1, nv).1 + spec_bubblewrap_rules(policy@, c).1));
    r3
}

} // verus!
