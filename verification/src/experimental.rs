//! The `experimental` section of a one-shot request: per-backend settings
//! with their defaults, port mappings, and session sizes.

use vstd::prelude::*;
use crate::errors::{Logger, WxcError};
use crate::models::{
    ExperimentalConfig, ExperimentalConfigView, IsolationSessionConfig, IsolationSessionConfigView,
    IsolationSessionConfigurationId, LaunchMethod, PortMapping, PortMappingView, SeatbeltConfig,
    SeatbeltConfigView, TelemetryConfig, TestFeatureConfig, WindowsSandboxConfig,
    WindowsSandboxConfigView, WslcConfig, WslcConfigView, default_wslc, mappings_view, no_experimental,
    strings_view,
};
use crate::raw::{
    RawContainerConfig, RawContainerConfigV, RawExperimental, RawExperimentalV, RawIsolationSession,
    RawIsolationSessionV, RawPortMapping, RawPortMappingV, RawSandbox, RawSandboxV, RawSeatbelt,
    RawSeatbeltV, ov, mapping_views,
};
use crate::text::{decimal, line, push_decimal, push_str, to_owned_string, str_eq};

verus! {

pub open spec fn or_default(o: Option<Seq<char>>, d: Seq<char>) -> Seq<char> {
    match o {
        Some(s) => s,
        None => d,
    }
}

pub open spec fn or_bool(o: Option<bool>, d: bool) -> bool {
    match o {
        Some(b) => b,
        None => d,
    }
}

pub const DEFAULT_IDLE_TIMEOUT_MS: u32 = 300_000;
pub const DEFAULT_DAEMON_PIPE: &'static str = "wxc-windows-sandbox";

/// `experimental.windows_sandbox`: `idleTimeoutMs` wins over the older
/// `idleTimeout`; both default to five minutes.
pub open spec fn spec_sandbox(sb: RawSandboxV) -> WindowsSandboxConfigView {
    WindowsSandboxConfigView {
        idle_timeout_ms: match sb.idle_timeout_ms {
            Some(t) => t,
            None => match sb.idle_timeout {
                Some(t) => t,
                None => DEFAULT_IDLE_TIMEOUT_MS,
            },
        },
        daemon_pipe_name: or_default(sb.daemon_pipe_name, DEFAULT_DAEMON_PIPE@),
    }
}

fn convert_sandbox(sb: RawSandbox) -> (r: WindowsSandboxConfig)
    ensures
        r@ == spec_sandbox(sb@),
{
    let mut config = WindowsSandboxConfig::default();
    let t = match sb.idle_timeout_ms {
        Some(t) => Some(t),
        None => sb.idle_timeout,
    };
    if let Some(t) = t {
        config.idle_timeout_ms = t;
    }
    if let Some(name) = sb.daemon_pipe_name {
        config.daemon_pipe_name = name;
    }
    config
}

pub const MSG_PORT_ZERO_PREFIX: &'static str = "experimental.wslc.portMappings: port 0 is not a valid forward (windowsPort=";
pub const MSG_PORT_ZERO_MIDDLE: &'static str = ", containerPort=";
pub const MSG_PORT_ZERO_SUFFIX: &'static str = ")";
pub const MSG_PROTOCOL_PREFIX: &'static str = "experimental.wslc.portMappings: protocol must be 'tcp' or 'udp', got '";
pub const MSG_PROTOCOL_SUFFIX: &'static str = "'";

pub open spec fn port_zero_msg(w: u16, c: u16) -> Seq<char> {
    MSG_PORT_ZERO_PREFIX@ + decimal(w as nat) + MSG_PORT_ZERO_MIDDLE@ + decimal(c as nat) + MSG_PORT_ZERO_SUFFIX@
}

pub open spec fn protocol_msg(p: Seq<char>) -> Seq<char> {
    MSG_PROTOCOL_PREFIX@ + p + MSG_PROTOCOL_SUFFIX@
}

/// One port mapping: both ports non-zero; the protocol `tcp` (the default)
/// or `udp`.
pub open spec fn spec_port_mapping(m: RawPortMappingV) -> Result<PortMappingView, Seq<char>> {
    let protocol = or_default(m.protocol, "tcp"@);
    if m.windows_port == 0 || m.container_port == 0 {
        Err(port_zero_msg(m.windows_port, m.container_port))
    } else if protocol != "tcp"@ && protocol != "udp"@ {
        Err(protocol_msg(protocol))
    } else {
        Ok(PortMappingView { windows_port: m.windows_port, container_port: m.container_port, protocol })
    }
}

/// All mappings converted in order; the first bad one is the error.
pub open spec fn spec_port_mappings(ms: Seq<RawPortMappingV>) -> Result<Seq<PortMappingView>, Seq<char>>
    decreases ms.len(),
{
    if ms.len() == 0 {
        Ok(Seq::empty())
    } else {
        match spec_port_mappings(ms.drop_last()) {
            Err(e) => Err(e),
            Ok(done) => match spec_port_mapping(ms.last()) {
                Err(e) => Err(e),
                Ok(pm) => Ok(done.push(pm)),
            },
        }
    }
}

fn convert_port_mapping(m: RawPortMapping) -> (r: Result<PortMapping, WxcError>)
    ensures
        match r {
            Ok(pm) => spec_port_mapping(m@) == Ok::<PortMappingView, Seq<char>>(pm@),
            Err(e) => spec_port_mapping(m@) == Err::<PortMappingView, Seq<char>>(e.spec_message()),
        },
{
    if m.windows_port == 0 || m.container_port == 0 {
        let mut msg = to_owned_string(MSG_PORT_ZERO_PREFIX);
        push_decimal(&mut msg, m.windows_port as u64);
        push_str(&mut msg, MSG_PORT_ZERO_MIDDLE);
        push_decimal(&mut msg, m.container_port as u64);
        push_str(&mut msg, MSG_PORT_ZERO_SUFFIX);
        return Err(WxcError::ConfigParse(msg));
    }
    let protocol = match m.protocol {
        Some(p) => p,
        None => to_owned_string("tcp"),
    };
    if !str_eq(protocol.as_str(), "tcp") && !str_eq(protocol.as_str(), "udp") {
        let mut msg = to_owned_string(MSG_PROTOCOL_PREFIX);
        push_str(&mut msg, protocol.as_str());
        push_str(&mut msg, MSG_PROTOCOL_SUFFIX);
        return Err(WxcError::ConfigParse(msg));
    }
    Ok(PortMapping { windows_port: m.windows_port, container_port: m.container_port, protocol })
}

fn convert_port_mappings(ms: Vec<RawPortMapping>) -> (r: Result<Vec<PortMapping>, WxcError>)
    ensures
        match r {
            Ok(v) => spec_port_mappings(mapping_views(ms@)) == Ok::<Seq<PortMappingView>, Seq<char>>(mappings_view(v@)),
            Err(e) => spec_port_mappings(mapping_views(ms@)) == Err::<Seq<PortMappingView>, Seq<char>>(e.spec_message()),
        },
{
    let ghost all = mapping_views(ms@);
    let mut rest = ms;
    let mut converted: Vec<PortMapping> = Vec::new();
    let mut i: usize = 0;
    let n = rest.len();
    assert(all.take(0) =~= Seq::<RawPortMappingV>::empty());
    assert(mappings_view(converted@) =~= Seq::empty());
    while i < n
        invariant
            all == mapping_views(ms@),
            n == all.len(),
            i <= n,
            rest.len() == n - i,
            forall|k: int| 0 <= k < rest.len() ==> #[trigger] rest@[k]@ == all[i + k],
            spec_port_mappings(all.take(i as int)) == Ok::<Seq<PortMappingView>, Seq<char>>(mappings_view(converted@)),
        decreases n - i,
    {
        let m = rest.remove(0);
        assert(m@ == all[i as int]);
        assert(all.take(i + 1).drop_last() =~= all.take(i as int));
        match convert_port_mapping(m) {
            Err(e) => {
                proof {
                    assert(all.take(i + 1).last() == all[i as int]);
                    assert(spec_port_mappings(all.take(i + 1)) == Err::<Seq<PortMappingView>, Seq<char>>(e.spec_message()));
                    lemma_port_mappings_error_persists(all, i as int + 1);
                }
                return Err(e);
            },
            Ok(pm) => {
                assert(all.take(i + 1).last() == all[i as int]);
                let ghost prev = converted@;
                converted.push(pm);
                assert(mappings_view(converted@) =~= mappings_view(prev).push(pm@));
            },
        }
        i = i + 1;
    }
    assert(all.take(n as int) =~= all);
    Ok(converted)
}

proof fn lemma_port_mappings_error_persists(all: Seq<RawPortMappingV>, i: int)
    requires
        0 < i <= all.len(),
        spec_port_mappings(all.take(i)) is Err,
    ensures
        spec_port_mappings(all) == spec_port_mappings(all.take(i)),
    decreases all.len() - i,
{
    if i == all.len() {
        assert(all.take(i) =~= all);
    } else {
        assert(all.take(i + 1).drop_last() =~= all.take(i));
        lemma_port_mappings_error_persists(all, i + 1);
    }
}

/// `experimental.wslc`: each field defaulted; the port mappings converted.
pub open spec fn spec_wslc(cc: RawContainerConfigV) -> Result<WslcConfigView, Seq<char>> {
    let d = default_wslc();
    let base = WslcConfigView {
        target_os: or_default(cc.target_os, d.target_os),
        image: or_default(cc.image, d.image),
        image_tar_path: cc.image_tar_path,
        cpu_count: cc.cpu_count,
        memory_mb: cc.memory_mb,
        gpu: or_bool(cc.gpu, d.gpu),
        storage_path: cc.storage_path,
        port_mappings: d.port_mappings,
    };
    match cc.port_mappings {
        None => Ok(base),
        Some(ms) => match spec_port_mappings(ms) {
            Err(e) => Err(e),
            Ok(v) => Ok(WslcConfigView { port_mappings: v, ..base }),
        },
    }
}

fn convert_wslc(cc: RawContainerConfig) -> (r: Result<WslcConfig, WxcError>)
    ensures
        match r {
            Ok(w) => spec_wslc(cc@) == Ok::<WslcConfigView, Seq<char>>(w@),
            Err(e) => spec_wslc(cc@) == Err::<WslcConfigView, Seq<char>>(e.spec_message()),
        },
{
    let mut config = WslcConfig::default();
    if let Some(os) = cc.target_os {
        config.target_os = os;
    }
    if let Some(img) = cc.image {
        config.image = img;
    }
    config.image_tar_path = cc.image_tar_path;
    config.cpu_count = cc.cpu_count;
    config.memory_mb = cc.memory_mb;
    if let Some(gpu) = cc.gpu {
        config.gpu = gpu;
    }
    config.storage_path = cc.storage_path;
    if let Some(mappings) = cc.port_mappings {
        config.port_mappings = convert_port_mappings(mappings)?;
    }
    Ok(config)
}

pub const MSG_UNKNOWN_SESSION_PREFIX: &'static str = "Unknown isolation_session configurationId '";
pub const MSG_UNKNOWN_SESSION_SUFFIX: &'static str = "', defaulting to 'composable'";

/// A `configurationId`: `small`, `medium`, `large` or `composable`; anything
/// else falls back to `composable`, with a logged notice.
pub open spec fn spec_configuration_id(id: Seq<char>) -> (IsolationSessionConfigurationId, Seq<char>) {
    if id == "small"@ {
        (IsolationSessionConfigurationId::Small, Seq::empty())
    } else if id == "medium"@ {
        (IsolationSessionConfigurationId::Medium, Seq::empty())
    } else if id == "large"@ {
        (IsolationSessionConfigurationId::Large, Seq::empty())
    } else if id == "composable"@ {
        (IsolationSessionConfigurationId::Composable, Seq::empty())
    } else {
        (IsolationSessionConfigurationId::Composable,
            line(MSG_UNKNOWN_SESSION_PREFIX@ + id + MSG_UNKNOWN_SESSION_SUFFIX@))
    }
}

/// `experimental.isolation_session`, and what is logged for it.
pub open spec fn spec_isolation_session(c: RawIsolationSessionV) -> (IsolationSessionConfigView, Seq<char>) {
    match c.configuration_id {
        None => (IsolationSessionConfigView { configuration_id: IsolationSessionConfigurationId::Composable, user: c.user }, Seq::empty()),
        Some(id) => (IsolationSessionConfigView { configuration_id: spec_configuration_id(id).0, user: c.user }, spec_configuration_id(id).1),
    }
}

fn convert_isolation_session(c: RawIsolationSession, logger: &mut Logger) -> (r: IsolationSessionConfig)
    ensures
        r@ == spec_isolation_session(c@).0,
        final(logger)@ == old(logger)@ + spec_isolation_session(c@).1,
{
    let mut config = IsolationSessionConfig::default();
    assert(old(logger)@ + Seq::<char>::empty() =~= old(logger)@);
    if let Some(id) = c.configuration_id {
        config.configuration_id = if str_eq(id.as_str(), "small") {
            IsolationSessionConfigurationId::Small
        } else if str_eq(id.as_str(), "medium") {
            IsolationSessionConfigurationId::Medium
        } else if str_eq(id.as_str(), "large") {
            IsolationSessionConfigurationId::Large
        } else if str_eq(id.as_str(), "composable") {
            IsolationSessionConfigurationId::Composable
        } else {
            let mut msg = to_owned_string(MSG_UNKNOWN_SESSION_PREFIX);
            push_str(&mut msg, id.as_str());
            push_str(&mut msg, MSG_UNKNOWN_SESSION_SUFFIX);
            logger.log_line(msg.as_str());
            IsolationSessionConfigurationId::Composable
        };
    }
    config.user = c.user;
    config
}

/// `experimental.seatbelt`: each field defaulted (`nestedPty` to true).
pub open spec fn spec_seatbelt(sb: RawSeatbeltV) -> SeatbeltConfigView {
    SeatbeltConfigView {
        profile_override: sb.profile_override,
        gui_access: or_bool(sb.gui_access, false),
        launch_method: match sb.launch_method { Some(l) => l, None => LaunchMethod::Exec },
        nested_pty: or_bool(sb.nested_pty, true),
        keychain_access: or_bool(sb.keychain_access, false),
        extra_mach_lookups: match sb.extra_mach_lookups { Some(v) => v, None => Seq::empty() },
    }
}

fn convert_seatbelt(sb: RawSeatbelt) -> (r: SeatbeltConfig)
    ensures
        r@ == spec_seatbelt(sb@),
{
    let extra = match sb.extra_mach_lookups {
        Some(v) => v,
        None => {
            let v: Vec<String> = Vec::new();
            assert(strings_view(v@) =~= Seq::empty());
            v
        },
    };
    SeatbeltConfig {
        profile_override: sb.profile_override,
        gui_access: match sb.gui_access { Some(b) => b, None => false },
        launch_method: match sb.launch_method { Some(l) => l, None => LaunchMethod::Exec },
        nested_pty: match sb.nested_pty { Some(b) => b, None => true },
        keychain_access: match sb.keychain_access { Some(b) => b, None => false },
        extra_mach_lookups: extra,
    }
}

/// The `experimental` section, and what is logged for it. A bad port
/// mapping refuses the request.
pub open spec fn spec_experimental(e: Option<RawExperimentalV>) -> (Result<ExperimentalConfigView, Seq<char>>, Seq<char>) {
    match e {
        None => (Ok(no_experimental()), Seq::empty()),
        Some(x) => {
            let wslc: Result<Option<WslcConfigView>, Seq<char>> = match x.wslc {
                None => Ok(None),
                Some(cc) => match spec_wslc(cc) {
                    Ok(w) => Ok(Some(w)),
                    Err(m) => Err(m),
                },
            };
            match wslc {
                Err(m) => (Err(m), Seq::empty()),
                Ok(w) => {
                    let iso = match x.isolation_session {
                        None => (None, Seq::empty()),
                        Some(c) => (Some(spec_isolation_session(c).0), spec_isolation_session(c).1),
                    };
                    (Ok(ExperimentalConfigView {
                        test: match x.test { Some(m) => Some(or_default(m, Seq::empty())), None => None },
                        windows_sandbox: match x.windows_sandbox { Some(sb) => Some(spec_sandbox(sb)), None => None },
                        wslc: w,
                        isolation_session: iso.0,
                        seatbelt: match x.seatbelt { Some(sb) => Some(spec_seatbelt(sb)), None => None },
                        telemetry: match x.telemetry { Some(en) => Some(TelemetryConfig { enabled: en }), None => None },
                    }), iso.1)
                },
            }
        },
    }
}

/// Converts the `experimental` section (see [`spec_experimental`]).
pub fn convert_experimental(e: Option<RawExperimental>, logger: &mut Logger) -> (r: Result<ExperimentalConfig, WxcError>)
    ensures
        final(logger)@ == old(logger)@ + spec_experimental(ov(e)).1,
        match r {
            Ok(x) => spec_experimental(ov(e)).0 == Ok::<ExperimentalConfigView, Seq<char>>(x@),
            Err(err) => spec_experimental(ov(e)).0 == Err::<ExperimentalConfigView, Seq<char>>(err.spec_message()),
        },
{
    assert(old(logger)@ + Seq::<char>::empty() =~= old(logger)@);
    let x = match e {
        None => return Ok(ExperimentalConfig::default()),
        Some(x) => x,
    };
    let test = match x.test {
        Some(m) => Some(TestFeatureConfig::from_raw(m)),
        None => None,
    };
    let windows_sandbox = match x.windows_sandbox {
        Some(sb) => Some(convert_sandbox(sb)),
        None => None,
    };
    let wslc = match x.wslc {
        Some(cc) => Some(convert_wslc(cc)?),
        None => None,
    };
    let isolation_session = match x.isolation_session {
        Some(c) => Some(convert_isolation_session(c, logger)),
        None => None,
    };
    let seatbelt = match x.seatbelt {
        Some(sb) => Some(convert_seatbelt(sb)),
        None => None,
    };
    let telemetry = match x.telemetry {
        Some(en) => Some(TelemetryConfig { enabled: en }),
        None => None,
    };
    Ok(ExperimentalConfig { test, windows_sandbox, wslc, isolation_session, seatbelt, telemetry })
}

} // verus!
