//! From a configuration document to a validated request: field defaults,
//! legacy aliases, backend selection, and the cross-field rules.

use vstd::prelude::*;
use crate::encoding::{base64_decode, base64_standard_decode};
use crate::errors::{Logger, MxcError, MxcErrorCode, ParseError, ParseErrorView, WxcError};
use crate::experimental::{or_default, or_bool, spec_experimental, convert_experimental};
use crate::json::{Json, JsonKind, json_tree, json_kind, member, object_member, parse_json_text, serde_json_parse};
use crate::models::{
    BaseProcessUiConfigView, ClipboardPolicy, ContainerPolicy, ContainerPolicyView, ContainmentBackend,
    ExecutionRequest, ExecutionRequestView, ExperimentalConfig, ExperimentalConfigView, LifecycleConfig,
    LxcConfig, LxcConfigView, UiPolicy, default_policy, opt_view, strings_view, spec_section_path,
    spec_wire_name,
};
use crate::network::{spec_network, apply_network};
use crate::raw::{
    RawConfig, RawConfigV, RawProcess, RawProcessV, RawProcessContainer, RawProcessContainerV,
    RawFilesystem, RawFilesystemV, RawFallback, RawNetwork, RawNetworkV, RawUi, RawUiV,
    RawExperimental, RawExperimentalV, ov,
};
use crate::schema::{spec_schema_version, validate_schema_version};
use crate::state_aware::{
    MxcRequest, MxcRequestView, ParsedStateAwareRequest, ParsedStateAwareRequestView, Phase, spec_phase,
};
use crate::text::{line, has_char, push_str, to_owned_string, str_eq, contains_char};

verus! {

// ---------------------------------------------------------------------------
// Build target
// ---------------------------------------------------------------------------

/// The operating system the executor is built for; abstract containment
/// intents resolve per target.
#[derive(Clone, Copy, Debug, PartialEq, Eq, Structural)]
pub enum TargetOs {
    Windows,
    Linux,
    MacOs,
    Other,
}

/// The build the parser runs in: target OS, and whether it is a release
/// build (which refuses the AppContainer learning mode).
#[derive(Clone, Copy, Debug, PartialEq, Eq, Structural)]
pub struct BuildTarget {
    pub os: TargetOs,
    pub release: bool,
}

/// The OS-native process sandbox: ProcessContainer on Windows, Bubblewrap on
/// Linux, Seatbelt on macOS.
pub open spec fn process_intent(os: TargetOs) -> ContainmentBackend {
    match os {
        TargetOs::Linux => ContainmentBackend::Bubblewrap,
        TargetOs::MacOs => ContainmentBackend::Seatbelt,
        _ => ContainmentBackend::ProcessContainer,
    }
}

/// Full VM isolation: Windows Sandbox on Windows, the `Vm` placeholder elsewhere.
pub open spec fn vm_intent(os: TargetOs) -> ContainmentBackend {
    match os {
        TargetOs::Windows => ContainmentBackend::WindowsSandbox,
        _ => ContainmentBackend::Vm,
    }
}

fn process_intent_exec(os: TargetOs) -> (r: ContainmentBackend)
    ensures
        r == process_intent(os),
{
    match os {
        TargetOs::Linux => ContainmentBackend::Bubblewrap,
        TargetOs::MacOs => ContainmentBackend::Seatbelt,
        _ => ContainmentBackend::ProcessContainer,
    }
}

fn vm_intent_exec(os: TargetOs) -> (r: ContainmentBackend)
    ensures
        r == vm_intent(os),
{
    match os {
        TargetOs::Windows => ContainmentBackend::WindowsSandbox,
        _ => ContainmentBackend::Vm,
    }
}

// ---------------------------------------------------------------------------
// Messages
// ---------------------------------------------------------------------------

pub const MSG_EMPTY_COMMAND: &'static str = "process.commandLine cannot be empty";
pub const MSG_MISSING_COMMAND: &'static str = "Missing required field: process.commandLine";
pub const MSG_NUL_COMMAND: &'static str = "process.commandLine must not contain null bytes";
pub const MSG_PROCESS_REQUIRED: &'static str = "'process' section is required";
pub const MSG_APPCONTAINER_ALIAS: &'static str = "[deprecated] containment value 'appcontainer' is a legacy alias for 'processcontainer'; update your config to use 'processcontainer' (the 'appcontainer' alias may be removed in a future schema version).";
pub const MSG_MACOS_SANDBOX_ALIAS: &'static str = "[deprecated] containment value 'macos_sandbox' is a legacy alias for 'seatbelt'; update your config to use 'seatbelt' (the 'macos_sandbox' alias may be removed in a future schema version).";
pub const MSG_INVALID_CONTAINMENT_PREFIX: &'static str = "Invalid containment value '";
pub const MSG_INVALID_CONTAINMENT_SUFFIX: &'static str = "' (must be 'process', 'processcontainer', 'windows_sandbox', 'isolation_session', 'wslc', 'lxc', 'vm', 'microvm', 'seatbelt', 'hyperlight', or 'bubblewrap')";

// ---------------------------------------------------------------------------
// Process section
// ---------------------------------------------------------------------------

/// Command line, working directory, timeout and environment of a request.
pub type ProcessParts = (Seq<char>, Seq<char>, u32, Seq<Seq<char>>);

pub open spec fn or_empty(o: Option<Seq<char>>) -> Seq<char> {
    match o {
        Some(s) => s,
        None => Seq::empty(),
    }
}

pub open spec fn or_none(o: Option<Seq<Seq<char>>>) -> Seq<Seq<char>> {
    match o {
        Some(s) => s,
        None => Seq::empty(),
    }
}

/// The `process` section: required (with a non-empty command line) when
/// `command_required`; the command line must hold no NUL character. The
/// second component is what is logged.
pub open spec fn spec_process_stage(p: Option<RawProcessV>, command_required: bool) -> (Result<ProcessParts, Seq<char>>, Seq<char>) {
    match p {
        Some(pr) => {
            let script: Result<Seq<char>, (Seq<char>, Seq<char>)> = match pr.command_line {
                Some(s) => if s.len() > 0 {
                    Ok(s)
                } else if command_required {
                    Err((MSG_EMPTY_COMMAND@, line(MSG_EMPTY_COMMAND@)))
                } else {
                    Ok(Seq::empty())
                },
                None => if command_required {
                    Err((MSG_MISSING_COMMAND@, line(MSG_MISSING_COMMAND@)))
                } else {
                    Ok(Seq::empty())
                },
            };
            match script {
                Err((m, log)) => (Err(m), log),
                Ok(s) => if has_char(s, '\0') {
                    (Err(MSG_NUL_COMMAND@), Seq::empty())
                } else {
                    (Ok((s, or_empty(pr.cwd), match pr.timeout { Some(t) => t, None => 0 }, or_none(pr.env))), Seq::empty())
                },
            }
        },
        None => if command_required {
            (Err(MSG_PROCESS_REQUIRED@), Seq::empty())
        } else {
            (Ok((Seq::empty(), Seq::empty(), 0, Seq::empty())), Seq::empty())
        },
    }
}

/// A configuration error with the given message.
pub fn config_error(msg: &str) -> (r: WxcError)
    ensures
        r.spec_message() == msg@,
{
    WxcError::ConfigParse(to_owned_string(msg))
}

/// The string, or an empty one.
pub fn string_or_empty(o: Option<String>) -> (r: String)
    ensures
        r@ == or_empty(opt_view(o)),
{
    match o {
        Some(s) => s,
        None => String::new(),
    }
}

/// The list, or an empty one.
pub fn strings_or_empty(o: Option<Vec<String>>) -> (r: Vec<String>)
    ensures
        strings_view(r@) == or_none(crate::raw::opt_strings_view(o)),
{
    match o {
        Some(s) => s,
        None => {
            let v: Vec<String> = Vec::new();
            assert(strings_view(v@) =~= Seq::empty());
            v
        },
    }
}

fn process_stage(p: Option<RawProcess>, command_required: bool, logger: &mut Logger) -> (r: Result<(String, String, u32, Vec<String>), WxcError>)
    ensures
        final(logger)@ == old(logger)@ + spec_process_stage(ov(p), command_required).1,
        match r {
            Ok((a, b, c, d)) => spec_process_stage(ov(p), command_required).0 == Ok::<ProcessParts, Seq<char>>((a@, b@, c, strings_view(d@))),
            Err(e) => spec_process_stage(ov(p), command_required).0 == Err::<ProcessParts, Seq<char>>(e.spec_message()),
        },
{
    match p {
        Some(pr) => {
            let script = match pr.command_line {
                Some(s) => {
                    if s.as_str().unicode_len() > 0 {
                        s
                    } else if command_required {
                        logger.log_line(MSG_EMPTY_COMMAND);
                        return Err(config_error(MSG_EMPTY_COMMAND));
                    } else {
                        String::new()
                    }
                },
                None => {
                    if command_required {
                        logger.log_line(MSG_MISSING_COMMAND);
                        return Err(config_error(MSG_MISSING_COMMAND));
                    } else {
                        String::new()
                    }
                },
            };
            if contains_char(script.as_str(), '\0') {
                assert(old(logger)@ + Seq::<char>::empty() =~= old(logger)@);
                return Err(config_error(MSG_NUL_COMMAND));
            }
            let cwd = string_or_empty(pr.cwd);
            let timeout = match pr.timeout {
                Some(t) => t,
                None => 0,
            };
            let env = strings_or_empty(pr.env);
            assert(old(logger)@ + Seq::<char>::empty() =~= old(logger)@);
            Ok((script, cwd, timeout, env))
        },
        None => {
            assert(old(logger)@ + Seq::<char>::empty() =~= old(logger)@);
            if command_required {
                Err(config_error(MSG_PROCESS_REQUIRED))
            } else {
                let env: Vec<String> = Vec::new();
                assert(strings_view(env@) =~= Seq::empty());
                Ok((String::new(), String::new(), 0, env))
            }
        },
    }
}

// ---------------------------------------------------------------------------
// Containment backend
// ---------------------------------------------------------------------------

pub open spec fn invalid_containment(s: Seq<char>) -> Seq<char> {
    MSG_INVALID_CONTAINMENT_PREFIX@ + s + MSG_INVALID_CONTAINMENT_SUFFIX@
}

/// A `containment` wire value: a concrete backend id, an abstract intent
/// resolved for the target, or a legacy alias (which is logged as
/// deprecated). The second component is what is logged.
pub open spec fn spec_containment_value(s: Seq<char>, os: TargetOs) -> (Result<ContainmentBackend, Seq<char>>, Seq<char>) {
    if s == "processcontainer"@ {
        (Ok(ContainmentBackend::ProcessContainer), Seq::empty())
    } else if s == "appcontainer"@ {
        (Ok(ContainmentBackend::ProcessContainer), line(MSG_APPCONTAINER_ALIAS@))
    } else if s == "process"@ {
        (Ok(process_intent(os)), Seq::empty())
    } else if s == "windows_sandbox"@ {
        (Ok(ContainmentBackend::WindowsSandbox), Seq::empty())
    } else if s == "wslc"@ {
        (Ok(ContainmentBackend::Wslc), Seq::empty())
    } else if s == "lxc"@ {
        (Ok(ContainmentBackend::Lxc), Seq::empty())
    } else if s == "vm"@ {
        (Ok(vm_intent(os)), Seq::empty())
    } else if s == "microvm"@ {
        (Ok(ContainmentBackend::MicroVm), Seq::empty())
    } else if s == "isolation_session"@ {
        (Ok(ContainmentBackend::IsolationSession), Seq::empty())
    } else if s == "seatbelt"@ {
        (Ok(ContainmentBackend::Seatbelt), Seq::empty())
    } else if s == "macos_sandbox"@ {
        (Ok(ContainmentBackend::Seatbelt), line(MSG_MACOS_SANDBOX_ALIAS@))
    } else if s == "hyperlight"@ {
        (Ok(ContainmentBackend::Hyperlight), Seq::empty())
    } else if s == "bubblewrap"@ {
        (Ok(ContainmentBackend::Bubblewrap), Seq::empty())
    } else {
        (Err(invalid_containment(s)), line(invalid_containment(s)))
    }
}

/// The `containment` field; when omitted, the OS-native process sandbox.
pub open spec fn spec_containment(c: Option<Seq<char>>, os: TargetOs) -> (Result<ContainmentBackend, Seq<char>>, Seq<char>) {
    match c {
        None => (Ok(process_intent(os)), Seq::empty()),
        Some(s) => spec_containment_value(s, os),
    }
}

/// Parses a `containment` wire value (the state-aware envelope's field and
/// the one-shot field alike).
pub fn parse_containment_str(s: &str, os: TargetOs, logger: &mut Logger) -> (r: Result<ContainmentBackend, WxcError>)
    ensures
        final(logger)@ == old(logger)@ + spec_containment_value(s@, os).1,
        match r {
            Ok(b) => spec_containment_value(s@, os).0 == Ok::<ContainmentBackend, Seq<char>>(b),
            Err(e) => spec_containment_value(s@, os).0 == Err::<ContainmentBackend, Seq<char>>(e.spec_message()),
        },
{
    assert(old(logger)@ + Seq::<char>::empty() =~= old(logger)@);
    if str_eq(s, "processcontainer") {
        Ok(ContainmentBackend::ProcessContainer)
    } else if str_eq(s, "appcontainer") {
        logger.log_line(MSG_APPCONTAINER_ALIAS);
        Ok(ContainmentBackend::ProcessContainer)
    } else if str_eq(s, "process") {
        Ok(process_intent_exec(os))
    } else if str_eq(s, "windows_sandbox") {
        Ok(ContainmentBackend::WindowsSandbox)
    } else if str_eq(s, "wslc") {
        Ok(ContainmentBackend::Wslc)
    } else if str_eq(s, "lxc") {
        Ok(ContainmentBackend::Lxc)
    } else if str_eq(s, "vm") {
        Ok(vm_intent_exec(os))
    } else if str_eq(s, "microvm") {
        Ok(ContainmentBackend::MicroVm)
    } else if str_eq(s, "isolation_session") {
        Ok(ContainmentBackend::IsolationSession)
    } else if str_eq(s, "seatbelt") {
        Ok(ContainmentBackend::Seatbelt)
    } else if str_eq(s, "macos_sandbox") {
        logger.log_line(MSG_MACOS_SANDBOX_ALIAS);
        Ok(ContainmentBackend::Seatbelt)
    } else if str_eq(s, "hyperlight") {
        Ok(ContainmentBackend::Hyperlight)
    } else if str_eq(s, "bubblewrap") {
        Ok(ContainmentBackend::Bubblewrap)
    } else {
        let mut msg = to_owned_string(MSG_INVALID_CONTAINMENT_PREFIX);
        push_str(&mut msg, s);
        push_str(&mut msg, MSG_INVALID_CONTAINMENT_SUFFIX);
        logger.log_line(msg.as_str());
        Err(WxcError::ConfigParse(msg))
    }
}

fn containment_stage(c: &Option<String>, os: TargetOs, logger: &mut Logger) -> (r: Result<ContainmentBackend, WxcError>)
    ensures
        final(logger)@ == old(logger)@ + spec_containment(opt_view(*c), os).1,
        match r {
            Ok(b) => spec_containment(opt_view(*c), os).0 == Ok::<ContainmentBackend, Seq<char>>(b),
            Err(e) => spec_containment(opt_view(*c), os).0 == Err::<ContainmentBackend, Seq<char>>(e.spec_message()),
        },
{
    match c {
        None => {
            assert(old(logger)@ + Seq::<char>::empty() =~= old(logger)@);
            Ok(process_intent_exec(os))
        },
        Some(s) => parse_containment_str(s.as_str(), os, logger),
    }
}


// ---------------------------------------------------------------------------
// One backend section per request
// ---------------------------------------------------------------------------

/// The backend sections a configuration holds, in the order they are named
/// in error messages.
pub open spec fn present_sections(raw: RawConfigV) -> Seq<Seq<char>> {
    let s0: Seq<Seq<char>> = if raw.process_container is Some { seq!["processContainer"@] } else { Seq::empty() };
    let s1 = if raw.lxc is Some { s0.push("lxc"@) } else { s0 };
    match raw.experimental {
        None => s1,
        Some(e) => {
            let s2 = if e.windows_sandbox is Some { s1.push("experimental.windows_sandbox"@) } else { s1 };
            let s3 = if e.wslc is Some { s2.push("experimental.wslc"@) } else { s2 };
            let s4 = if e.seatbelt is Some { s3.push("experimental.seatbelt"@) } else { s3 };
            if e.isolation_session is Some { s4.push("experimental.isolation_session"@) } else { s4 }
        },
    }
}

fn push_section(v: &mut Vec<String>, b: ContainmentBackend)
    requires
        spec_section_path(b) is Some,
    ensures
        strings_view(final(v)@) == strings_view(old(v)@).push(spec_section_path(b)->0),
{
    match b.section_path() {
        Some(p) => {
            v.push(to_owned_string(p));
            assert(strings_view(v@) =~= strings_view(old(v)@).push(spec_section_path(b)->0));
        },
        None => {},
    }
}

/// The backend sections a configuration holds (see [`present_sections`]).
pub fn present_backend_sections(raw: &RawConfig) -> (r: Vec<String>)
    ensures
        strings_view(r@) == present_sections(raw@),
{
    let mut v: Vec<String> = Vec::new();
    assert(strings_view(v@) =~= Seq::empty());
    if raw.process_container.is_some() {
        push_section(&mut v, ContainmentBackend::ProcessContainer);
        assert(strings_view(v@) =~= seq!["processContainer"@]);
    }
    if raw.lxc.is_some() {
        push_section(&mut v, ContainmentBackend::Lxc);
    }
    match &raw.experimental {
        None => {},
        Some(e) => {
            if e.windows_sandbox.is_some() {
                push_section(&mut v, ContainmentBackend::WindowsSandbox);
            }
            if e.wslc.is_some() {
                push_section(&mut v, ContainmentBackend::Wslc);
            }
            if e.seatbelt.is_some() {
                push_section(&mut v, ContainmentBackend::Seatbelt);
            }
            if e.isolation_session.is_some() {
                push_section(&mut v, ContainmentBackend::IsolationSession);
            }
        },
    }
    v
}

/// `items` without the ones equal to `allowed`.
pub open spec fn other_sections(items: Seq<Seq<char>>, allowed: Option<Seq<char>>) -> Seq<Seq<char>>
    decreases items.len(),
{
    if items.len() == 0 {
        Seq::empty()
    } else {
        let rest = other_sections(items.drop_last(), allowed);
        if Some(items.last()) == allowed { rest } else { rest.push(items.last()) }
    }
}

/// The items separated by `sep`.
pub open spec fn join(items: Seq<Seq<char>>, sep: Seq<char>) -> Seq<char>
    decreases items.len(),
{
    if items.len() == 0 {
        Seq::empty()
    } else if items.len() == 1 {
        items[0]
    } else {
        join(items.drop_last(), sep) + sep + items.last()
    }
}

/// The strings separated by `sep`.
pub fn join_strings(items: &Vec<String>, sep: &str) -> (r: String)
    ensures
        r@ == join(strings_view(items@), sep@),
{
    let mut r = String::new();
    let mut i: usize = 0;
    while i < items.len()
        invariant
            i <= items.len(),
            r@ == join(strings_view(items@).take(i as int), sep@),
        decreases items.len() - i,
    {
        let ghost prev = strings_view(items@).take(i as int);
        if i > 0 {
            push_str(&mut r, sep);
        }
        push_str(&mut r, items[i].as_str());
        assert(strings_view(items@).take(i + 1).drop_last() =~= prev);
        if i == 0 {
            assert(strings_view(items@).take(1) =~= seq![items@[0]@]);
        }
        i = i + 1;
    }
    assert(strings_view(items@).take(items.len() as int) =~= strings_view(items@));
    r
}

pub const MSG_MULTI_PREFIX: &'static str = "Multiple containment backends configured: 'containment' is '";
pub const MSG_MULTI_ALLOWS: &'static str = "' (allows the '";
pub const MSG_MULTI_ALLOWS_TAIL: &'static str = "' section), but the config also includes unrelated backend section(s): ";
pub const MSG_MULTI_NONE_TAIL: &'static str = "' (no per-backend section is defined for this backend), but the config includes backend section(s): ";
pub const MSG_MULTI_END: &'static str = ". Only one backend section is allowed; remove the unused section(s).";

/// Only the section that belongs to the selected backend may be present:
/// the message naming the foreign sections, if there are any.
pub open spec fn spec_single_backend(c: ContainmentBackend, present: Seq<Seq<char>>) -> Option<Seq<char>> {
    let allowed = spec_section_path(c);
    let extras = other_sections(present, allowed);
    if extras.len() == 0 {
        None
    } else {
        Some(match allowed {
            Some(name) => MSG_MULTI_PREFIX@ + spec_wire_name(c) + MSG_MULTI_ALLOWS@ + name + MSG_MULTI_ALLOWS_TAIL@ + join(extras, ", "@) + MSG_MULTI_END@,
            None => MSG_MULTI_PREFIX@ + spec_wire_name(c) + MSG_MULTI_NONE_TAIL@ + join(extras, ", "@) + MSG_MULTI_END@,
        })
    }
}

fn is_allowed(s: &String, allowed: Option<&'static str>) -> (r: bool)
    ensures
        r == (Some(s@) == match allowed { Some(a) => Some(a@), None => None::<Seq<char>> }),
{
    match allowed {
        None => false,
        Some(a) => str_eq(s.as_str(), a),
    }
}

/// Rejects backend sections that do not belong to the selected backend
/// (see [`spec_single_backend`]); the refusal is logged.
pub fn validate_single_backend_section(containment: ContainmentBackend, present: &Vec<String>, logger: &mut Logger) -> (r: Result<(), WxcError>)
    ensures
        match spec_single_backend(containment, strings_view(present@)) {
            None => r is Ok && final(logger)@ == old(logger)@,
            Some(m) => r matches Err(e) && e.spec_message() == m && final(logger)@ == old(logger)@ + line(m),
        },
{
    let allowed = containment.section_path();
    let ghost allowed_v = spec_section_path(containment);
    let mut extras: Vec<String> = Vec::new();
    let mut i: usize = 0;
    assert(strings_view(extras@) =~= Seq::empty());
    while i < present.len()
        invariant
            i <= present.len(),
            allowed_v == match allowed { Some(a) => Some(a@), None => None::<Seq<char>> },
            strings_view(extras@) == other_sections(strings_view(present@).take(i as int), allowed_v),
        decreases present.len() - i,
    {
        assert(strings_view(present@).take(i + 1).drop_last() =~= strings_view(present@).take(i as int));
        if !is_allowed(&present[i], allowed) {
            let x = to_owned_string(present[i].as_str());
            extras.push(x);
            assert(strings_view(extras@) =~= strings_view(extras@.drop_last()).push(x@));
        }
        i = i + 1;
    }
    assert(strings_view(present@).take(present.len() as int) =~= strings_view(present@));
    if extras.len() == 0 {
        return Ok(());
    }
    let wire = containment.wire_name();
    let joined = join_strings(&extras, ", ");
    let mut msg = to_owned_string(MSG_MULTI_PREFIX);
    push_str(&mut msg, wire);
    match allowed {
        Some(name) => {
            push_str(&mut msg, MSG_MULTI_ALLOWS);
            push_str(&mut msg, name);
            push_str(&mut msg, MSG_MULTI_ALLOWS_TAIL);
        },
        None => {
            push_str(&mut msg, MSG_MULTI_NONE_TAIL);
        },
    }
    push_str(&mut msg, joined.as_str());
    push_str(&mut msg, MSG_MULTI_END);
    logger.log_line(msg.as_str());
    Err(WxcError::ConfigParse(msg))
}

// ---------------------------------------------------------------------------
// processContainer section
// ---------------------------------------------------------------------------

pub const LEARNING_MODE_CAPABILITY: &'static str = "permissiveLearningMode";
pub const MSG_LEARNING_MODE_DEBUG: &'static str = "WARNING: 'learningMode' enabled - AppContainer restrictions will NOT be enforced (DEBUG BUILD ONLY)\n";
pub const MSG_LEARNING_MODE_RELEASE: &'static str = "SECURITY: 'learningMode' is disabled in release builds. This capability has been removed.\n";
pub const MSG_LEARNING_MODE_STRIPPED: &'static str = "SECURITY: Removed 'permissiveLearningMode' capability (not allowed in release builds)\n";

/// Release builds drop every `permissiveLearningMode` capability, logging
/// each removal.
pub open spec fn strip_learning_mode(caps: Seq<Seq<char>>) -> (Seq<Seq<char>>, Seq<char>)
    decreases caps.len(),
{
    if caps.len() == 0 {
        (Seq::empty(), Seq::empty())
    } else {
        let (kept, log) = strip_learning_mode(caps.drop_last());
        if caps.last() == LEARNING_MODE_CAPABILITY@ {
            (kept, log + MSG_LEARNING_MODE_STRIPPED@)
        } else {
            (kept.push(caps.last()), log)
        }
    }
}

/// Capabilities after the `processContainer` section: the learning-mode
/// capability (debug builds only), the listed capabilities, and in release
/// builds the removal of every learning-mode capability. The second
/// component is what is logged.
pub open spec fn spec_capabilities(caps: Seq<Seq<char>>, learning_mode: Option<bool>, listed: Option<Seq<Seq<char>>>, release: bool) -> (Seq<Seq<char>>, Seq<char>) {
    let (caps1, log1) = if learning_mode == Some(true) {
        if release {
            (caps, MSG_LEARNING_MODE_RELEASE@)
        } else {
            (caps.push(LEARNING_MODE_CAPABILITY@), MSG_LEARNING_MODE_DEBUG@)
        }
    } else {
        (caps, Seq::empty())
    };
    let caps2 = match listed { Some(c) => caps1 + c, None => caps1 };
    let (caps3, log2) = if release { strip_learning_mode(caps2) } else { (caps2, Seq::empty()) };
    (caps3, log1 + log2)
}

/// The BaseContainer UI settings of `processContainer.ui`, each defaulted.
pub open spec fn spec_base_ui(cur: BaseProcessUiConfigView, u: Option<crate::raw::RawBaseProcessUiV>) -> BaseProcessUiConfigView {
    match u {
        Some(u) => BaseProcessUiConfigView {
            isolation: or_default(u.isolation, "container"@),
            desktop_system_control: or_bool(u.desktop_system_control, false),
            system_settings: or_default(u.system_settings, "none"@),
            ime: or_bool(u.ime, false),
        },
        None => cur,
    }
}

/// The `processContainer` section applied to a policy: least-privilege
/// mode, capabilities, and the BaseContainer UI settings. The second
/// component is what is logged.
pub open spec fn spec_process_container(policy: ContainerPolicyView, ac: Option<RawProcessContainerV>, release: bool) -> (ContainerPolicyView, Seq<char>) {
    match ac {
        None => (policy, Seq::empty()),
        Some(ac) => {
            let lp = match ac.least_privilege { Some(b) => b, None => policy.least_privilege_mode };
            let (caps, log) = spec_capabilities(policy.capabilities, ac.learning_mode, ac.capabilities, release);
            (ContainerPolicyView {
                least_privilege_mode: lp,
                capabilities: caps,
                base_process_ui: spec_base_ui(policy.base_process_ui, ac.ui),
                ..policy
            }, log)
        },
    }
}

fn strip_learning_mode_exec(caps: Vec<String>, logger: &mut Logger) -> (r: Vec<String>)
    ensures
        strings_view(r@) == strip_learning_mode(strings_view(caps@)).0,
        final(logger)@ == old(logger)@ + strip_learning_mode(strings_view(caps@)).1,
{
    let mut kept: Vec<String> = Vec::new();
    let mut i: usize = 0;
    assert(strings_view(caps@).take(0) =~= Seq::empty());
    assert(strings_view(kept@) =~= Seq::empty());
    assert(old(logger)@ + Seq::<char>::empty() =~= old(logger)@);
    while i < caps.len()
        invariant
            i <= caps.len(),
            strings_view(kept@) == strip_learning_mode(strings_view(caps@).take(i as int)).0,
            logger@ == old(logger)@ + strip_learning_mode(strings_view(caps@).take(i as int)).1,
        decreases caps.len() - i,
    {
        assert(strings_view(caps@).take(i + 1).drop_last() =~= strings_view(caps@).take(i as int));
        if str_eq(caps[i].as_str(), LEARNING_MODE_CAPABILITY) {
            logger.log(MSG_LEARNING_MODE_STRIPPED);
            assert(logger@ =~= old(logger)@ + strip_learning_mode(strings_view(caps@).take(i + 1)).1);
        } else {
            let x = to_owned_string(caps[i].as_str());
            kept.push(x);
            assert(strings_view(kept@) =~= strings_view(kept@.drop_last()).push(x@));
        }
        i = i + 1;
    }
    assert(strings_view(caps@).take(caps.len() as int) =~= strings_view(caps@));
    kept
}

fn append_strings(dst: &mut Vec<String>, src: Vec<String>)
    ensures
        strings_view(final(dst)@) == strings_view(old(dst)@) + strings_view(src@),
{
    let mut i: usize = 0;
    while i < src.len()
        invariant
            i <= src.len(),
            strings_view(dst@) == strings_view(old(dst)@) + strings_view(src@).take(i as int),
        decreases src.len() - i,
    {
        let x = to_owned_string(src[i].as_str());
        let ghost prev = dst@;
        dst.push(x);
        assert(strings_view(dst@) =~= strings_view(prev).push(x@));
        assert(strings_view(src@).take(i + 1) =~= strings_view(src@).take(i as int).push(x@));
        assert(strings_view(dst@) =~= strings_view(old(dst)@) + strings_view(src@).take(i + 1));
        i = i + 1;
    }
    assert(strings_view(src@).take(src.len() as int) =~= strings_view(src@));
}

fn capabilities_stage(caps: Vec<String>, learning_mode: Option<bool>, listed: Option<Vec<String>>, release: bool, logger: &mut Logger) -> (r: Vec<String>)
    ensures
        strings_view(r@) == spec_capabilities(strings_view(caps@), learning_mode, crate::raw::opt_strings_view(listed), release).0,
        final(logger)@ == old(logger)@ + spec_capabilities(strings_view(caps@), learning_mode, crate::raw::opt_strings_view(listed), release).1,
{
    let ghost caps0 = caps@;
    let mut caps = caps;
    let ghost log0 = logger@;
    if learning_mode == Some(true) {
        if release {
            logger.log(MSG_LEARNING_MODE_RELEASE);
        } else {
            let ghost prev = caps@;
            caps.push(to_owned_string(LEARNING_MODE_CAPABILITY));
            assert(strings_view(caps@) =~= strings_view(prev).push(LEARNING_MODE_CAPABILITY@));
            logger.log(MSG_LEARNING_MODE_DEBUG);
        }
    } else {
        assert(log0 + Seq::<char>::empty() =~= log0);
    }
    let ghost log1 = logger@;
    if let Some(l) = listed {
        append_strings(&mut caps, l);
    }
    if release {
        let r = strip_learning_mode_exec(caps, logger);
        assert(logger@ =~= log0 + spec_capabilities(strings_view(caps0), learning_mode, crate::raw::opt_strings_view(listed), release).1);
        r
    } else {
        assert(log1 + Seq::<char>::empty() =~= log1);
        assert(logger@ =~= log0 + spec_capabilities(strings_view(caps0), learning_mode, crate::raw::opt_strings_view(listed), release).1);
        caps
    }
}

fn base_ui_stage(ui: &mut crate::models::BaseProcessUiConfig, u: Option<crate::raw::RawBaseProcessUi>)
    ensures
        final(ui)@ == spec_base_ui(old(ui)@, ov(u)),
{
    if let Some(raw_ui) = u {
        ui.isolation = match raw_ui.isolation {
            Some(s) => s,
            None => to_owned_string("container"),
        };
        ui.desktop_system_control = match raw_ui.desktop_system_control {
            Some(b) => b,
            None => false,
        };
        ui.system_settings = match raw_ui.system_settings {
            Some(s) => s,
            None => to_owned_string("none"),
        };
        ui.ime = match raw_ui.ime {
            Some(b) => b,
            None => false,
        };
    }
}

fn apply_process_container(policy: &mut ContainerPolicy, ac: Option<RawProcessContainer>, release: bool, logger: &mut Logger)
    ensures
        final(policy)@ == spec_process_container(old(policy)@, ov(ac), release).0,
        final(logger)@ == old(logger)@ + spec_process_container(old(policy)@, ov(ac), release).1,
{
    let ac = match ac {
        None => {
            assert(old(logger)@ + Seq::<char>::empty() =~= old(logger)@);
            return;
        },
        Some(ac) => ac,
    };
    if let Some(lp) = ac.least_privilege {
        policy.least_privilege_mode = lp;
    }
    let mut caps: Vec<String> = Vec::new();
    std::mem::swap(&mut caps, &mut policy.capabilities);
    policy.capabilities = capabilities_stage(caps, ac.learning_mode, ac.capabilities, release, logger);
    base_ui_stage(&mut policy.base_process_ui, ac.ui);
    assert(policy@ =~= spec_process_container(old(policy)@, ov(Some(ac)), release).0);
}


// ---------------------------------------------------------------------------
// Filesystem and fallback sections
// ---------------------------------------------------------------------------

/// The filesystem lists of the `filesystem` section; an omitted list keeps
/// the policy's.
pub open spec fn spec_filesystem(policy: ContainerPolicyView, fs: Option<RawFilesystemV>) -> ContainerPolicyView {
    match fs {
        None => policy,
        Some(f) => ContainerPolicyView {
            denied_paths: match f.denied_paths { Some(v) => v, None => policy.denied_paths },
            readwrite_paths: match f.readwrite_paths { Some(v) => v, None => policy.readwrite_paths },
            readonly_paths: match f.readonly_paths { Some(v) => v, None => policy.readonly_paths },
            ..policy
        },
    }
}

fn apply_filesystem(policy: &mut ContainerPolicy, fs: Option<RawFilesystem>)
    ensures
        final(policy)@ == spec_filesystem(old(policy)@, ov(fs)),
{
    if let Some(f) = fs {
        if let Some(v) = f.denied_paths {
            policy.denied_paths = v;
        }
        if let Some(v) = f.readwrite_paths {
            policy.readwrite_paths = v;
        }
        if let Some(v) = f.readonly_paths {
            policy.readonly_paths = v;
        }
    }
}

/// The first path that holds a double quote.
pub open spec fn first_quoted(paths: Seq<Seq<char>>) -> Option<Seq<char>>
    decreases paths.len(),
{
    if paths.len() == 0 {
        None
    } else if has_char(paths[0], '"') {
        Some(paths[0])
    } else {
        first_quoted(paths.drop_first())
    }
}

pub const MSG_QUOTED_PATH_PREFIX: &'static str = "Filesystem path '";
pub const MSG_QUOTED_PATH_SUFFIX: &'static str = "' contains invalid character '\"'";

pub open spec fn quoted_path_msg(p: Seq<char>) -> Seq<char> {
    MSG_QUOTED_PATH_PREFIX@ + p + MSG_QUOTED_PATH_SUFFIX@
}

/// Paths are handed to tools that quote them: none may hold a double quote.
pub fn validate_paths(paths: &Vec<String>, logger: &mut Logger) -> (r: Result<(), WxcError>)
    ensures
        match first_quoted(strings_view(paths@)) {
            None => r is Ok && final(logger)@ == old(logger)@,
            Some(p) => r matches Err(e) && e.spec_message() == quoted_path_msg(p)
                && final(logger)@ == old(logger)@ + line(quoted_path_msg(p)),
        },
{
    let ghost all = strings_view(paths@);
    let mut i: usize = 0;
    assert(all.skip(0) =~= all);
    while i < paths.len()
        invariant
            all == strings_view(paths@),
            i <= paths.len(),
            first_quoted(all) == first_quoted(all.skip(i as int)),
            logger@ == old(logger)@,
        decreases paths.len() - i,
    {
        assert(all.skip(i as int).drop_first() =~= all.skip(i + 1));
        assert(all.skip(i as int)[0] == paths@[i as int]@);
        if contains_char(paths[i].as_str(), '"') {
            let mut msg = to_owned_string(MSG_QUOTED_PATH_PREFIX);
            push_str(&mut msg, paths[i].as_str());
            push_str(&mut msg, MSG_QUOTED_PATH_SUFFIX);
            logger.log_line(msg.as_str());
            return Err(WxcError::ConfigParse(msg));
        }
        i = i + 1;
    }
    assert(all.skip(i as int).len() == 0);
    Ok(())
}

/// The quoted-path check over the read-only, read-write and denied lists,
/// in that order: the first offending path, if any.
pub open spec fn spec_quoted_in_policy(p: ContainerPolicyView) -> Option<Seq<char>> {
    match first_quoted(p.readonly_paths) {
        Some(x) => Some(x),
        None => match first_quoted(p.readwrite_paths) {
            Some(x) => Some(x),
            None => first_quoted(p.denied_paths),
        },
    }
}

fn validate_filesystem_paths(policy: &ContainerPolicy, logger: &mut Logger) -> (r: Result<(), WxcError>)
    ensures
        match spec_quoted_in_policy(policy@) {
            None => r is Ok && final(logger)@ == old(logger)@,
            Some(p) => r matches Err(e) && e.spec_message() == quoted_path_msg(p)
                && final(logger)@ == old(logger)@ + line(quoted_path_msg(p)),
        },
{
    validate_paths(&policy.readonly_paths, logger)?;
    validate_paths(&policy.readwrite_paths, logger)?;
    validate_paths(&policy.denied_paths, logger)?;
    Ok(())
}

/// The `fallback` section: DACL mutation, when given.
pub open spec fn spec_fallback(policy: ContainerPolicyView, fb: Option<RawFallback>) -> ContainerPolicyView {
    match fb {
        Some(RawFallback { allow_dacl_mutation: Some(v) }) => ContainerPolicyView {
            fallback: crate::models::FallbackPolicy { allow_dacl_mutation: v },
            ..policy
        },
        _ => policy,
    }
}

fn apply_fallback(policy: &mut ContainerPolicy, fb: Option<RawFallback>)
    ensures
        final(policy)@ == spec_fallback(old(policy)@, fb),
{
    if let Some(f) = fb {
        if let Some(v) = f.allow_dacl_mutation {
            policy.fallback.allow_dacl_mutation = v;
        }
    }
}


// ---------------------------------------------------------------------------
// Lifecycle, LXC and UI sections
// ---------------------------------------------------------------------------

/// `lifecycle`: destroy on exit unless told otherwise; keep no policy
/// unless told to.
pub open spec fn spec_lifecycle(lc: Option<crate::raw::RawLifecycle>) -> LifecycleConfig {
    match lc {
        Some(l) => LifecycleConfig {
            destroy_on_exit: or_bool(l.destroy_on_exit, true),
            preserve_policy: or_bool(l.preserve_policy, false),
        },
        None => LifecycleConfig { destroy_on_exit: true, preserve_policy: false },
    }
}

fn convert_lifecycle(lc: Option<crate::raw::RawLifecycle>) -> (r: LifecycleConfig)
    ensures
        r == spec_lifecycle(lc),
{
    match lc {
        Some(l) => LifecycleConfig {
            destroy_on_exit: match l.destroy_on_exit { Some(b) => b, None => true },
            preserve_policy: match l.preserve_policy { Some(b) => b, None => false },
        },
        None => LifecycleConfig { destroy_on_exit: true, preserve_policy: false },
    }
}

/// `lxc`: distribution and release, empty when omitted.
pub open spec fn spec_lxc(l: Option<crate::raw::RawLxcV>) -> LxcConfigView {
    match l {
        Some(l) => LxcConfigView { distribution: or_empty(l.distribution), release: or_empty(l.release) },
        None => LxcConfigView { distribution: Seq::empty(), release: Seq::empty() },
    }
}

fn convert_lxc(l: Option<crate::raw::RawLxc>) -> (r: LxcConfig)
    ensures
        r@ == spec_lxc(ov(l)),
{
    match l {
        Some(l) => LxcConfig { distribution: string_or_empty(l.distribution), release: string_or_empty(l.release) },
        None => LxcConfig { distribution: String::new(), release: String::new() },
    }
}

/// A `ui.clipboard` value: `read`, `write` or `all`; anything else, or
/// nothing, denies the clipboard.
pub open spec fn spec_clipboard(c: Option<Seq<char>>) -> ClipboardPolicy {
    match c {
        Some(s) => if s == "read"@ {
            ClipboardPolicy::Read
        } else if s == "write"@ {
            ClipboardPolicy::Write
        } else if s == "all"@ {
            ClipboardPolicy::All
        } else {
            ClipboardPolicy::Denied
        },
        None => ClipboardPolicy::Denied,
    }
}

/// The `ui` section: replaces the UI policy, each field defaulting to deny.
pub open spec fn spec_ui(cur: UiPolicy, u: Option<RawUiV>) -> UiPolicy {
    match u {
        Some(u) => UiPolicy {
            disable: or_bool(u.disable, true),
            clipboard: spec_clipboard(u.clipboard),
            injection: or_bool(u.injection, false),
        },
        None => cur,
    }
}

fn convert_ui(cur: UiPolicy, u: Option<RawUi>) -> (r: UiPolicy)
    ensures
        r == spec_ui(cur, ov(u)),
{
    match u {
        None => cur,
        Some(u) => {
            let clipboard = match &u.clipboard {
                Some(s) => if str_eq(s.as_str(), "read") {
                    ClipboardPolicy::Read
                } else if str_eq(s.as_str(), "write") {
                    ClipboardPolicy::Write
                } else if str_eq(s.as_str(), "all") {
                    ClipboardPolicy::All
                } else {
                    ClipboardPolicy::Denied
                },
                None => ClipboardPolicy::Denied,
            };
            UiPolicy {
                disable: match u.disable { Some(b) => b, None => true },
                clipboard,
                injection: match u.injection { Some(b) => b, None => false },
            }
        },
    }
}

// ---------------------------------------------------------------------------
// The whole conversion
// ---------------------------------------------------------------------------

/// First stage: the `process` section, the backend, and the one-section rule.
pub open spec fn spec_head(process: Option<RawProcessV>, containment: Option<Seq<char>>, present: Seq<Seq<char>>, command_required: bool, os: TargetOs) -> (Result<(ProcessParts, ContainmentBackend), Seq<char>>, Seq<char>) {
    let (rp, lp) = spec_process_stage(process, command_required);
    match rp {
        Err(m) => (Err(m), lp),
        Ok(parts) => {
            let (rc, lc) = spec_containment(containment, os);
            match rc {
                Err(m) => (Err(m), lp + lc),
                Ok(c) => match spec_single_backend(c, present) {
                    Some(m) => (Err(m), lp + lc + line(m)),
                    None => (Ok((parts, c)), lp + lc),
                },
            }
        },
    }
}

/// Second stage: the container policy, built from the defaults by the
/// `processContainer`, `filesystem`, `fallback` and `network` sections.
pub open spec fn spec_policy(pc: Option<RawProcessContainerV>, fs: Option<RawFilesystemV>, fb: Option<RawFallback>, net: Option<RawNetworkV>, c: ContainmentBackend, release: bool) -> (Result<ContainerPolicyView, Seq<char>>, Seq<char>) {
    let (p1, l1) = spec_process_container(default_policy(), pc, release);
    let p2 = spec_filesystem(p1, fs);
    match spec_quoted_in_policy(p2) {
        Some(q) => (Err(quoted_path_msg(q)), l1 + line(quoted_path_msg(q))),
        None => {
            let (rn, ln) = spec_network(spec_fallback(p2, fb), net, c);
            (rn, l1 + ln)
        },
    }
}

/// Third stage: the schema version check and the `experimental` section.
pub open spec fn spec_tail(version: Seq<char>, e: Option<RawExperimentalV>) -> (Result<ExperimentalConfigView, Seq<char>>, Seq<char>) {
    match spec_schema_version(version) {
        Some(m) => (Err(m), line(m)),
        None => spec_experimental(e),
    }
}

/// The conversion of a read configuration into a request, and everything
/// it logs. `require_process` asks for a `process` section with a command
/// line, unless `allow_missing_command` (a command line supplied elsewhere)
/// waives it.
#[verifier::opaque]
pub open spec fn spec_convert(raw: RawConfigV, require_process: bool, allow_missing_command: bool, target: BuildTarget) -> (Result<ExecutionRequestView, Seq<char>>, Seq<char>) {
    let (rh, lh) = spec_head(raw.process, raw.containment, present_sections(raw), require_process && !allow_missing_command, target.os);
    match rh {
        Err(m) => (Err(m), lh),
        Ok((parts, c)) => {
            let (rp, lpol) = spec_policy(raw.process_container, raw.filesystem, raw.fallback, raw.network, c, target.release);
            match rp {
                Err(m) => (Err(m), lh + lpol),
                Ok(policy) => {
                    let (rt, lt) = spec_tail(or_empty(raw.version), raw.experimental);
                    match rt {
                        Err(m) => (Err(m), lh + lpol + lt),
                        Ok(exp) => (Ok(ExecutionRequestView {
                            schema_version: or_empty(raw.version),
                            container_id: or_empty(raw.container_id),
                            platform: or_default(raw.platform, "windows"@),
                            env: parts.3,
                            script_code: parts.0,
                            working_directory: parts.1,
                            script_timeout: parts.2,
                            containment: c,
                            lifecycle: spec_lifecycle(raw.lifecycle),
                            policy: ContainerPolicyView { ui: spec_ui(policy.ui, raw.ui), ..policy },
                            lxc_config: spec_lxc(raw.lxc),
                            experimental_enabled: false,
                            experimental: exp,
                            dry_run: false,
                        }), lh + lpol + lt),
                    }
                },
            }
        },
    }
}

fn head_stage(process: Option<RawProcess>, containment: &Option<String>, present: &Vec<String>, command_required: bool, os: TargetOs, logger: &mut Logger)
    -> (r: Result<((String, String, u32, Vec<String>), ContainmentBackend), WxcError>)
    ensures
        final(logger)@ == old(logger)@ + spec_head(ov(process), opt_view(*containment), strings_view(present@), command_required, os).1,
        match r {
            Ok(((a, b, t, e), c)) => spec_head(ov(process), opt_view(*containment), strings_view(present@), command_required, os).0
                == Ok::<(ProcessParts, ContainmentBackend), Seq<char>>(((a@, b@, t, strings_view(e@)), c)),
            Err(e) => spec_head(ov(process), opt_view(*containment), strings_view(present@), command_required, os).0
                == Err::<(ProcessParts, ContainmentBackend), Seq<char>>(e.spec_message()),
        },
{
    let ghost l0 = logger@;
    let parts = process_stage(process, command_required, logger)?;
    let ghost l1 = logger@;
    let c = match containment_stage(containment, os, logger) {
        Ok(c) => c,
        Err(e) => {
            assert(logger@ =~= l0 + (spec_process_stage(ov(process), command_required).1 + spec_containment(opt_view(*containment), os).1));
            return Err(e);
        },
    };
    let ghost l2 = logger@;
    let v = validate_single_backend_section(c, present, logger);
    assert(logger@ =~= l0 + (spec_head(ov(process), opt_view(*containment), strings_view(present@), command_required, os).1));
    match v {
        Ok(_) => Ok((parts, c)),
        Err(e) => Err(e),
    }
}

fn policy_stage(pc: Option<RawProcessContainer>, fs: Option<RawFilesystem>, fb: Option<RawFallback>, net: Option<RawNetwork>, c: ContainmentBackend, release: bool, logger: &mut Logger)
    -> (r: Result<ContainerPolicy, WxcError>)
    ensures
        final(logger)@ == old(logger)@ + spec_policy(ov(pc), ov(fs), fb, ov(net), c, release).1,
        match r {
            Ok(p) => spec_policy(ov(pc), ov(fs), fb, ov(net), c, release).0 == Ok::<ContainerPolicyView, Seq<char>>(p@),
            Err(e) => spec_policy(ov(pc), ov(fs), fb, ov(net), c, release).0 == Err::<ContainerPolicyView, Seq<char>>(e.spec_message()),
        },
{
    let ghost l0 = logger@;
    let mut policy = ContainerPolicy::default();
    apply_process_container(&mut policy, pc, release, logger);
    let ghost l1 = logger@;
    apply_filesystem(&mut policy, fs);
    match validate_filesystem_paths(&policy, logger) {
        Ok(_) => {},
        Err(e) => {
            return Err(e);
        },
    }
    apply_fallback(&mut policy, fb);
    let rn = apply_network(&mut policy, net, c, logger);
    assert(logger@ =~= l0 + spec_policy(ov(pc), ov(fs), fb, ov(net), c, release).1);
    match rn {
        Ok(_) => Ok(policy),
        Err(e) => Err(e),
    }
}

fn tail_stage(version: &str, e: Option<RawExperimental>, logger: &mut Logger) -> (r: Result<ExperimentalConfig, WxcError>)
    ensures
        final(logger)@ == old(logger)@ + spec_tail(version@, ov(e)).1,
        match r {
            Ok(x) => spec_tail(version@, ov(e)).0 == Ok::<ExperimentalConfigView, Seq<char>>(x@),
            Err(err) => spec_tail(version@, ov(e)).0 == Err::<ExperimentalConfigView, Seq<char>>(err.spec_message()),
        },
{
    validate_schema_version(version, logger)?;
    convert_experimental(e, logger)
}

/// Converts a read configuration into a request (see [`spec_convert`]).
#[verifier::rlimit(40)]
#[verifier::spinoff_prover]
pub fn convert_raw_config_inner(raw: RawConfig, logger: &mut Logger, require_process: bool, allow_missing_command: bool, target: BuildTarget)
    -> (r: Result<ExecutionRequest, WxcError>)
    ensures
        final(logger)@ == old(logger)@ + spec_convert(raw@, require_process, allow_missing_command, target).1,
        match r {
            Ok(req) => spec_convert(raw@, require_process, allow_missing_command, target).0 == Ok::<ExecutionRequestView, Seq<char>>(req@),
            Err(e) => spec_convert(raw@, require_process, allow_missing_command, target).0 == Err::<ExecutionRequestView, Seq<char>>(e.spec_message()),
        },
{
    let ghost rv = raw@;
    let ghost l0 = logger@;
    proof { reveal(spec_convert); }
    let present = present_backend_sections(&raw);
    let crate::raw::RawConfigOf {
        version, container_id, platform, process, lifecycle, containment, process_container, lxc,
        filesystem, fallback, network, ui, experimental,
    } = raw;
    let schema_version = string_or_empty(version);
    let container_id = string_or_empty(container_id);
    let platform = match platform {
        Some(p) => p,
        None => to_owned_string("windows"),
    };
    let command_required = require_process && !allow_missing_command;
    let ((script_code, working_directory, script_timeout, env), c) =
        head_stage(process, &containment, &present, command_required, target.os, logger)?;
    let ghost l1 = logger@;
    let lxc_config = convert_lxc(lxc);
    let policy = match policy_stage(process_container, filesystem, fallback, network, c, target.release, logger) {
        Ok(p) => p,
        Err(e) => {
            assert(logger@ =~= l0 + spec_convert(rv, require_process, allow_missing_command, target).1);
            return Err(e);
        },
    };
    let ghost l2 = logger@;
    let lifecycle = convert_lifecycle(lifecycle);
    let experimental = match tail_stage(schema_version.as_str(), experimental, logger) {
        Ok(x) => x,
        Err(e) => {
            assert(logger@ =~= l0 + spec_convert(rv, require_process, allow_missing_command, target).1);
            return Err(e);
        },
    };
    let mut policy = policy;
    policy.ui = convert_ui(policy.ui, ui);
    let req = ExecutionRequest {
        schema_version,
        container_id,
        platform,
        env,
        script_code,
        working_directory,
        script_timeout,
        containment: c,
        lifecycle,
        policy,
        lxc_config,
        experimental_enabled: false,
        experimental,
        dry_run: false,
    };
    assert(logger@ =~= l0 + spec_convert(rv, require_process, allow_missing_command, target).1);
    assert(req@ == spec_convert(rv, require_process, allow_missing_command, target).0->Ok_0);
    Ok(req)
}


// ---------------------------------------------------------------------------
// State-aware envelopes
// ---------------------------------------------------------------------------

/// The `experimental.<backend>` key that belongs to a backend, if any.
pub open spec fn experimental_key(c: Option<ContainmentBackend>) -> Option<Seq<char>> {
    match c {
        Some(ContainmentBackend::WindowsSandbox) => Some("windows_sandbox"@),
        Some(ContainmentBackend::Wslc) => Some("wslc"@),
        Some(ContainmentBackend::Seatbelt) => Some("seatbelt"@),
        Some(ContainmentBackend::IsolationSession) => Some("isolation_session"@),
        _ => None,
    }
}

/// The known experimental backend keys an object holds, in the order
/// `windows_sandbox`, `wslc`, `seatbelt`, `isolation_session`.
pub open spec fn known_experimental_keys(j: Json) -> Seq<Seq<char>> {
    let s0: Seq<Seq<char>> = if member(j, "windows_sandbox"@) is Some { seq!["windows_sandbox"@] } else { Seq::empty() };
    let s1 = if member(j, "wslc"@) is Some { s0.push("wslc"@) } else { s0 };
    let s2 = if member(j, "seatbelt"@) is Some { s1.push("seatbelt"@) } else { s1 };
    if member(j, "isolation_session"@) is Some { s2.push("isolation_session"@) } else { s2 }
}

/// Each key prefixed with `experimental.`.
pub open spec fn qualified(keys: Seq<Seq<char>>) -> Seq<Seq<char>> {
    keys.map_values(|k: Seq<char>| "experimental."@ + k)
}

pub const MSG_FOREIGN_EXPERIMENTAL_PREFIX: &'static str = "Multiple containment backends configured: request includes experimental backend section(s) ";
pub const MSG_FOREIGN_EXPERIMENTAL_SUFFIX: &'static str = ". Only one backend section is allowed; remove the unused section(s).";

/// The experimental backend sections that do not match the backend. With a
/// backend that owns an experimental key, every other known key; with a
/// backend that owns none, every known key; with no backend at all (it is
/// resolved later from the sandbox id), all of them when there are two or
/// more, as one alone may belong to that backend. `None` is acceptance.
pub open spec fn spec_foreign_experimental(c: Option<ContainmentBackend>, raw: Option<Json>) -> Option<Seq<char>> {
    match raw {
        Some(j) => if j is Object {
            let present = known_experimental_keys(j);
            let rejected = match c {
                None => if present.len() > 1 { present } else { Seq::empty() },
                Some(_) => match experimental_key(c) {
                    Some(k) => other_sections(present, Some(k)),
                    None => present,
                },
            };
            if rejected.len() == 0 {
                None
            } else {
                Some(MSG_FOREIGN_EXPERIMENTAL_PREFIX@ + join(qualified(rejected), ", "@) + MSG_FOREIGN_EXPERIMENTAL_SUFFIX@)
            }
        } else {
            None
        },
        None => None,
    }
}

fn experimental_key_exec(c: Option<ContainmentBackend>) -> (r: Option<&'static str>)
    ensures
        match r { Some(k) => experimental_key(c) == Some(k@), None => experimental_key(c) is None },
{
    match c {
        Some(ContainmentBackend::WindowsSandbox) => Some("windows_sandbox"),
        Some(ContainmentBackend::Wslc) => Some("wslc"),
        Some(ContainmentBackend::Seatbelt) => Some("seatbelt"),
        Some(ContainmentBackend::IsolationSession) => Some("isolation_session"),
        _ => None,
    }
}

fn push_if_member(v: &mut Vec<String>, obj: &serde_json::Value, key: &'static str)
    requires
        json_tree(*obj) is Object,
    ensures
        strings_view(final(v)@) == if member(json_tree(*obj), key@) is Some {
            strings_view(old(v)@).push(key@)
        } else {
            strings_view(old(v)@)
        },
{
    if object_member(obj, key).is_some() {
        let k = to_owned_string(key);
        v.push(k);
        assert(strings_view(v@) =~= strings_view(old(v)@).push(key@));
    }
}

/// Rejects `experimental.<backend>` sections that do not match the backend
/// (see [`spec_foreign_experimental`]); the refusal is logged.
pub fn validate_experimental_backend_keys(containment: Option<ContainmentBackend>, experimental_raw: Option<&serde_json::Value>, logger: &mut Logger) -> (r: Result<(), WxcError>)
    ensures
        match spec_foreign_experimental(containment, match experimental_raw { Some(v) => Some(json_tree(*v)), None => None }) {
            None => r is Ok && final(logger)@ == old(logger)@,
            Some(m) => r matches Err(e) && e.spec_message() == m && final(logger)@ == old(logger)@ + line(m),
        },
{
    let obj = match experimental_raw {
        None => return Ok(()),
        Some(v) => v,
    };
    if json_kind(obj) != JsonKind::Object {
        return Ok(());
    }
    let mut present: Vec<String> = Vec::new();
    assert(strings_view(present@) =~= Seq::empty());
    push_if_member(&mut present, obj, "windows_sandbox");
    assert(member(json_tree(*obj), "windows_sandbox"@) is Some ==> strings_view(present@) =~= seq!["windows_sandbox"@]);
    push_if_member(&mut present, obj, "wslc");
    push_if_member(&mut present, obj, "seatbelt");
    push_if_member(&mut present, obj, "isolation_session");
    let ghost pv = strings_view(present@);
    assert(pv == known_experimental_keys(json_tree(*obj)));
    let rejected: Vec<String> = match experimental_key_exec(containment) {
        Some(k) => {
            let mut out: Vec<String> = Vec::new();
            let mut i: usize = 0;
            assert(strings_view(out@) =~= Seq::empty());
            while i < present.len()
                invariant
                    i <= present.len(),
                    strings_view(out@) == other_sections(strings_view(present@).take(i as int), Some(k@)),
                decreases present.len() - i,
            {
                assert(strings_view(present@).take(i + 1).drop_last() =~= strings_view(present@).take(i as int));
                if !str_eq(present[i].as_str(), k) {
                    let x = to_owned_string(present[i].as_str());
                    out.push(x);
                    assert(strings_view(out@) =~= strings_view(out@.drop_last()).push(x@));
                }
                i = i + 1;
            }
            assert(strings_view(present@).take(present.len() as int) =~= strings_view(present@));
            out
        },
        None => {
            if containment.is_some() || present.len() > 1 {
                present
            } else {
                let out: Vec<String> = Vec::new();
                assert(strings_view(out@) =~= Seq::empty());
                out
            }
        },
    };
    if rejected.len() == 0 {
        return Ok(());
    }
    let mut names: Vec<String> = Vec::new();
    let mut i: usize = 0;
    assert(strings_view(names@) =~= qualified(strings_view(rejected@).take(0)));
    while i < rejected.len()
        invariant
            i <= rejected.len(),
            strings_view(names@) == qualified(strings_view(rejected@).take(i as int)),
        decreases rejected.len() - i,
    {
        let mut q = to_owned_string("experimental.");
        push_str(&mut q, rejected[i].as_str());
        proof { reveal_strlit("experimental."); }
        let ghost prev = names@;
        names.push(q);
        assert(strings_view(names@) =~= strings_view(prev).push(q@));
        assert(qualified(strings_view(rejected@).take(i + 1)) =~= qualified(strings_view(rejected@).take(i as int)).push("experimental."@ + rejected@[i as int]@));
        i = i + 1;
    }
    assert(strings_view(rejected@).take(rejected.len() as int) =~= strings_view(rejected@));
    let joined = join_strings(&names, ", ");
    let mut msg = to_owned_string(MSG_FOREIGN_EXPERIMENTAL_PREFIX);
    push_str(&mut msg, joined.as_str());
    push_str(&mut msg, MSG_FOREIGN_EXPERIMENTAL_SUFFIX);
    logger.log_line(msg.as_str());
    Err(WxcError::ConfigParse(msg))
}

/// The one-shot configuration a state-aware envelope stands for: its shared
/// fields, and nothing of the one-shot-only sections.
pub open spec fn surrogate(r: crate::raw::RawStateAwareRequestV) -> RawConfigV {
    crate::raw::RawConfigOf {
        version: r.version,
        container_id: None,
        platform: None,
        process: r.process,
        lifecycle: None,
        containment: r.containment,
        process_container: None,
        lxc: None,
        filesystem: r.filesystem,
        fallback: r.fallback,
        network: r.network,
        ui: r.ui,
        experimental: None,
    }
}

/// The conversion of a state-aware envelope, and everything it logs: the
/// phase, the optional backend, the experimental-section rule, then the
/// shared fields converted as a one-shot configuration (a process section
/// is required for the `exec` phase only).
pub open spec fn spec_convert_state_aware(r: crate::raw::RawStateAwareRequestV, allow_missing_command: bool, target: BuildTarget) -> (Result<ParsedStateAwareRequestView, Seq<char>>, Seq<char>) {
    match spec_phase(r.phase) {
        Err(m) => (Err(m), line(m)),
        Ok(phase) => {
            let (rc, lc): (Result<Option<ContainmentBackend>, Seq<char>>, Seq<char>) = match r.containment {
                None => (Ok(None), Seq::empty()),
                Some(w) => match spec_containment_value(w, target.os).0 {
                    Ok(c) => (Ok(Some(c)), spec_containment_value(w, target.os).1),
                    Err(m) => (Err(m), spec_containment_value(w, target.os).1),
                },
            };
            match rc {
                Err(m) => (Err(m), lc),
                Ok(c) => match spec_foreign_experimental(c, r.experimental) {
                    Some(m) => (Err(m), lc + line(m)),
                    None => {
                        let (rr, lr) = spec_convert(surrogate(r), phase == Phase::Exec, allow_missing_command, target);
                        match rr {
                            Err(m) => (Err(m), lc + lr),
                            Ok(req) => (Ok(ParsedStateAwareRequestView {
                                request: req,
                                phase,
                                containment: c,
                                sandbox_id: r.sandbox_id,
                                experimental_raw: r.experimental,
                            }), lc + lr),
                        }
                    },
                },
            }
        },
    }
}

/// Converts a state-aware envelope (see [`spec_convert_state_aware`]).
pub fn convert_raw_state_aware(raw: crate::raw::RawStateAwareRequest, logger: &mut Logger, allow_missing_command: bool, target: BuildTarget)
    -> (r: Result<ParsedStateAwareRequest, WxcError>)
    ensures
        final(logger)@ == old(logger)@ + spec_convert_state_aware(raw@, allow_missing_command, target).1,
        match r {
            Ok(p) => spec_convert_state_aware(raw@, allow_missing_command, target).0 == Ok::<ParsedStateAwareRequestView, Seq<char>>(p@),
            Err(e) => spec_convert_state_aware(raw@, allow_missing_command, target).0 == Err::<ParsedStateAwareRequestView, Seq<char>>(e.spec_message()),
        },
{
    let ghost rv = raw@;
    let ghost l0 = logger@;
    let phase = match Phase::from_wire(raw.phase.as_str()) {
        Ok(p) => p,
        Err(e) => {
            logger.log_line(e.message.as_str());
            return Err(WxcError::ConfigParse(e.message));
        },
    };
    let containment = match &raw.containment {
        None => {
            assert(l0 + Seq::<char>::empty() =~= l0);
            None
        },
        Some(w) => match parse_containment_str(w.as_str(), target.os, logger) {
            Ok(c) => Some(c),
            Err(e) => return Err(e),
        },
    };
    let ghost l1 = logger@;
    let x = match &raw.experimental {
        Some(v) => Some(v),
        None => None,
    };
    match validate_experimental_backend_keys(containment, x, logger) {
        Ok(_) => {},
        Err(e) => return Err(e),
    }
    let crate::raw::RawStateAwareRequestOf {
        version, containment: containment_wire, phase: _, sandbox_id, process, filesystem, fallback, network, ui, experimental,
    } = raw;
    let surrogate_config = crate::raw::RawConfigOf {
        version,
        container_id: None,
        platform: None,
        process,
        lifecycle: None,
        containment: containment_wire,
        process_container: None,
        lxc: None,
        filesystem,
        fallback,
        network,
        ui,
        experimental: None,
    };
    assert(surrogate_config@ == surrogate(rv));
    let require_process = match phase {
        Phase::Exec => true,
        _ => false,
    };
    let request = match convert_raw_config_inner(surrogate_config, logger, require_process, allow_missing_command, target) {
        Ok(req) => req,
        Err(e) => return Err(e),
    };
    Ok(ParsedStateAwareRequest {
        request,
        phase,
        containment,
        sandbox_id,
        experimental_raw: experimental,
    })
}


// ---------------------------------------------------------------------------
// Loading a request
// ---------------------------------------------------------------------------

pub const MSG_BAD_BASE64: &'static str = "Failed to decode base64 configuration";
pub const MSG_BAD_UTF8: &'static str = "Base64 decoded content is not valid UTF-8";
pub const MSG_PARSING_JSON: &'static str = "Error parsing JSON";
pub const MSG_JSON_ERROR_PREFIX: &'static str = "JSON parse error: ";
pub const MSG_NO_VARIANT: &'static str = "data did not match any variant of untagged enum RawMxcRequest";

/// Options of [`load_request_with_options`] and [`load_mxc_request_with_options`].
#[derive(Debug, Clone, Copy, Default)]
pub struct LoadOptions {
    /// `input` is a base64-encoded JSON document rather than the text of a
    /// configuration file.
    pub is_base64: bool,
    /// A missing or empty `process.commandLine` is tolerated (a command
    /// line supplied on the command line replaces it).
    pub allow_missing_command: bool,
}

/// The text of decoded base64 bytes: they must be UTF-8.
pub open spec fn spec_text_from_bytes(decoded: Option<Seq<u8>>) -> (Result<Seq<char>, Seq<char>>, Seq<char>) {
    match decoded {
        None => (Err(MSG_BAD_BASE64@), line(MSG_BAD_BASE64@)),
        Some(b) => if vstd::utf8::valid_utf8(b) {
            (Ok(vstd::utf8::decode_utf8(b)), Seq::empty())
        } else {
            (Err(MSG_BAD_UTF8@), line(MSG_BAD_UTF8@))
        },
    }
}

/// The JSON text a request input holds: the base64 document decoded, or
/// the configuration file's text as it is.
pub open spec fn spec_decode_input(input: Seq<char>, is_base64: bool) -> (Result<Seq<char>, Seq<char>>, Seq<char>) {
    if is_base64 {
        spec_text_from_bytes(base64_standard_decode(input))
    } else {
        (Ok(input), Seq::empty())
    }
}

/// The text of what the base64 decoder returned (`None`: not base64).
pub fn text_from_decoded(decoded: Option<Vec<u8>>, logger: &mut Logger) -> (r: Result<String, WxcError>)
    ensures
        final(logger)@ == old(logger)@ + spec_text_from_bytes(match decoded { Some(b) => Some(b@), None => None }).1,
        match r {
            Ok(t) => spec_text_from_bytes(match decoded { Some(b) => Some(b@), None => None }).0 == Ok::<Seq<char>, Seq<char>>(t@),
            Err(e) => spec_text_from_bytes(match decoded { Some(b) => Some(b@), None => None }).0 == Err::<Seq<char>, Seq<char>>(e.spec_message()),
        },
{
    match decoded {
        None => {
            logger.log_line(MSG_BAD_BASE64);
            Err(config_error(MSG_BAD_BASE64))
        },
        Some(b) => match crate::text::string_from_utf8(b) {
            Some(t) => {
                assert(old(logger)@ + Seq::<char>::empty() =~= old(logger)@);
                Ok(t)
            },
            None => {
                logger.log_line(MSG_BAD_UTF8);
                Err(config_error(MSG_BAD_UTF8))
            },
        },
    }
}

/// The JSON text of a request input. With `is_base64`, `input` is decoded
/// from base64 and must be UTF-8; otherwise `input` is the text of the
/// configuration file, which the caller has read.
pub fn decode_request_input(input: &str, logger: &mut Logger, is_base64: bool) -> (r: Result<String, WxcError>)
    ensures
        final(logger)@ == old(logger)@ + spec_decode_input(input@, is_base64).1,
        match r {
            Ok(t) => spec_decode_input(input@, is_base64).0 == Ok::<Seq<char>, Seq<char>>(t@),
            Err(e) => spec_decode_input(input@, is_base64).0 == Err::<Seq<char>, Seq<char>>(e.spec_message()),
        },
{
    if is_base64 {
        let decoded = base64_decode(input);
        text_from_decoded(decoded, logger)
    } else {
        assert(old(logger)@ + Seq::<char>::empty() =~= old(logger)@);
        Ok(to_owned_string(input))
    }
}

/// The base64 request input that carries `text`: the standard encoding of
/// its UTF-8 bytes, which [`decode_request_input`] turns back into `text`
/// without logging anything.
pub fn encode_request_input(text: &str) -> (r: String)
    requires
        vstd::utf8::encode_utf8(text@).len() <= usize::MAX / 2,
    ensures
        r@ == crate::encoding::base64_standard_encode(vstd::utf8::encode_utf8(text@)),
        spec_decode_input(r@, true) == (Ok::<Seq<char>, Seq<char>>(text@), Seq::<char>::empty()),
{
    let r = crate::encoding::base64_encode_text(text);
    proof {
        vstd::utf8::encode_utf8_valid_utf8(text@);
        vstd::utf8::encode_utf8_decode_utf8(text@);
    }
    r
}

pub open spec fn json_error(m: Seq<char>) -> Seq<char> {
    MSG_JSON_ERROR_PREFIX@ + m
}

fn json_error_exec(m: &str, logger: &mut Logger) -> (r: WxcError)
    ensures
        r.spec_message() == json_error(m@),
        final(logger)@ == old(logger)@ + line(MSG_PARSING_JSON@),
{
    logger.log_line(MSG_PARSING_JSON);
    let mut msg = to_owned_string(MSG_JSON_ERROR_PREFIX);
    push_str(&mut msg, m);
    WxcError::ConfigParse(msg)
}

/// A one-shot request from a JSON document: the document read as a
/// configuration (a failure is a JSON error, logged), then converted.
pub open spec fn spec_request_from_json(j: Json, allow_missing_command: bool, target: BuildTarget) -> (Result<ExecutionRequestView, Seq<char>>, Seq<char>) {
    match crate::raw::de_config(j) {
        Err(m) => (Err(json_error(m)), line(MSG_PARSING_JSON@)),
        Ok(raw) => spec_convert(raw, true, allow_missing_command, target),
    }
}

/// A one-shot request from a JSON text.
pub open spec fn spec_request_from_text(text: Seq<char>, allow_missing_command: bool, target: BuildTarget) -> (Result<ExecutionRequestView, Seq<char>>, Seq<char>) {
    match serde_json_parse(text) {
        Err(m) => (Err(json_error(m)), line(MSG_PARSING_JSON@)),
        Ok(j) => spec_request_from_json(j, allow_missing_command, target),
    }
}

/// A one-shot request from a request input (see [`spec_decode_input`]).
pub open spec fn spec_load_request(input: Seq<char>, opts: LoadOptions, target: BuildTarget) -> (Result<ExecutionRequestView, Seq<char>>, Seq<char>) {
    let (rd, ld) = spec_decode_input(input, opts.is_base64);
    match rd {
        Err(m) => (Err(m), ld),
        Ok(text) => {
            let (r, l) = spec_request_from_text(text, opts.allow_missing_command, target);
            (r, ld + l)
        },
    }
}

/// Builds a one-shot request from a parsed JSON document.
pub fn request_from_json(value: &serde_json::Value, logger: &mut Logger, allow_missing_command: bool, target: BuildTarget)
    -> (r: Result<ExecutionRequest, WxcError>)
    ensures
        final(logger)@ == old(logger)@ + spec_request_from_json(json_tree(*value), allow_missing_command, target).1,
        match r {
            Ok(req) => spec_request_from_json(json_tree(*value), allow_missing_command, target).0 == Ok::<ExecutionRequestView, Seq<char>>(req@),
            Err(e) => spec_request_from_json(json_tree(*value), allow_missing_command, target).0 == Err::<ExecutionRequestView, Seq<char>>(e.spec_message()),
        },
{
    match crate::raw::read_config(value) {
        Err(m) => Err(json_error_exec(m.as_str(), logger)),
        Ok(raw) => convert_raw_config_inner(raw, logger, true, allow_missing_command, target),
    }
}

fn request_from_text(text: &str, logger: &mut Logger, allow_missing_command: bool, target: BuildTarget)
    -> (r: Result<ExecutionRequest, WxcError>)
    ensures
        final(logger)@ == old(logger)@ + spec_request_from_text(text@, allow_missing_command, target).1,
        match r {
            Ok(req) => spec_request_from_text(text@, allow_missing_command, target).0 == Ok::<ExecutionRequestView, Seq<char>>(req@),
            Err(e) => spec_request_from_text(text@, allow_missing_command, target).0 == Err::<ExecutionRequestView, Seq<char>>(e.spec_message()),
        },
{
    match parse_json_text(text) {
        Err(m) => Err(json_error_exec(m.as_str(), logger)),
        Ok(v) => request_from_json(&v, logger, allow_missing_command, target),
    }
}

/// Loads a one-shot request (see [`spec_load_request`]). With `is_base64`,
/// `input` is a base64-encoded JSON document; otherwise it is the text of
/// the configuration file.
///
/// The JSON text is parsed into a `serde_json::Value` and read from it
/// (see `crate::raw`): a key repeated in one object is accepted with its
/// last occurrence kept, and type errors carry this library's texts,
/// without line and column; a section may be written as an object or as an
/// array of its fields in declaration order.
pub fn load_request_with_options(input: &str, logger: &mut Logger, opts: LoadOptions, target: BuildTarget)
    -> (r: Result<ExecutionRequest, WxcError>)
    ensures
        final(logger)@ == old(logger)@ + spec_load_request(input@, opts, target).1,
        match r {
            Ok(req) => spec_load_request(input@, opts, target).0 == Ok::<ExecutionRequestView, Seq<char>>(req@),
            Err(e) => spec_load_request(input@, opts, target).0 == Err::<ExecutionRequestView, Seq<char>>(e.spec_message()),
        },
{
    let ghost l0 = logger@;
    let text = decode_request_input(input, logger, opts.is_base64)?;
    let ghost l1 = logger@;
    let r = request_from_text(text.as_str(), logger, opts.allow_missing_command, target);
    assert(logger@ =~= l0 + spec_load_request(input@, opts, target).1);
    r
}

/// Loads a one-shot request whose `process.commandLine` is required.
pub fn load_request(input: &str, logger: &mut Logger, is_base64: bool, target: BuildTarget)
    -> (r: Result<ExecutionRequest, WxcError>)
    ensures
        final(logger)@ == old(logger)@ + spec_load_request(input@, (LoadOptions { is_base64, allow_missing_command: false }), target).1,
        match r {
            Ok(req) => spec_load_request(input@, (LoadOptions { is_base64, allow_missing_command: false }), target).0 == Ok::<ExecutionRequestView, Seq<char>>(req@),
            Err(e) => spec_load_request(input@, (LoadOptions { is_base64, allow_missing_command: false }), target).0 == Err::<ExecutionRequestView, Seq<char>>(e.spec_message()),
        },
{
    load_request_with_options(input, logger, (LoadOptions { is_base64, allow_missing_command: false }), target)
}

/// A request of either kind from a JSON document: a state-aware envelope
/// when the document reads as one (it has a string `phase`), else a
/// one-shot configuration; a document that is neither is a decode error.
pub open spec fn spec_mxc_from_json(j: Json, allow_missing_command: bool, target: BuildTarget) -> (Result<MxcRequestView, ParseErrorView>, Seq<char>) {
    match crate::raw::de_state_aware(j) {
        Ok(sa) => {
            let (r, l) = spec_convert_state_aware(sa, allow_missing_command, target);
            (match r {
                Ok(p) => Ok(MxcRequestView::StateAware(p)),
                Err(m) => Err(ParseErrorView::StateAware(MxcErrorCode::MalformedRequest, m)),
            }, l)
        },
        Err(_) => match crate::raw::de_config(j) {
            Ok(raw) => {
                let (r, l) = spec_convert(raw, true, allow_missing_command, target);
                (match r {
                    Ok(req) => Ok(MxcRequestView::OneShot(req)),
                    Err(m) => Err(ParseErrorView::OneShot(m)),
                }, l)
            },
            Err(_) => (Err(ParseErrorView::Decode(json_error(MSG_NO_VARIANT@))), line(MSG_PARSING_JSON@)),
        },
    }
}

/// A request of either kind from a request input.
pub open spec fn spec_load_mxc_request(input: Seq<char>, opts: LoadOptions, target: BuildTarget) -> (Result<MxcRequestView, ParseErrorView>, Seq<char>) {
    let (rd, ld) = spec_decode_input(input, opts.is_base64);
    match rd {
        Err(m) => (Err(ParseErrorView::Decode(m)), ld),
        Ok(text) => match serde_json_parse(text) {
            Err(m) => (Err(ParseErrorView::Decode(json_error(m))), ld + line(MSG_PARSING_JSON@)),
            Ok(j) => {
                let (r, l) = spec_mxc_from_json(j, opts.allow_missing_command, target);
                (r, ld + l)
            },
        },
    }
}

/// Builds a request of either kind from a parsed JSON document.
pub fn mxc_request_from_json(value: &serde_json::Value, logger: &mut Logger, allow_missing_command: bool, target: BuildTarget)
    -> (r: Result<MxcRequest, ParseError>)
    ensures
        final(logger)@ == old(logger)@ + spec_mxc_from_json(json_tree(*value), allow_missing_command, target).1,
        match r {
            Ok(m) => spec_mxc_from_json(json_tree(*value), allow_missing_command, target).0 == Ok::<MxcRequestView, ParseErrorView>(m@),
            Err(e) => spec_mxc_from_json(json_tree(*value), allow_missing_command, target).0 == Err::<MxcRequestView, ParseErrorView>(e@),
        },
{
    match crate::raw::read_state_aware(value) {
        Ok(sa) => match convert_raw_state_aware(sa, logger, allow_missing_command, target) {
            Ok(p) => Ok(MxcRequest::StateAware(p)),
            Err(e) => {
                let m = e.message();
                Err(ParseError::StateAware(MxcError::malformed_request(m.as_str())))
            },
        },
        Err(_) => match crate::raw::read_config(value) {
            Ok(raw) => match convert_raw_config_inner(raw, logger, true, allow_missing_command, target) {
                Ok(req) => Ok(MxcRequest::OneShot(req)),
                Err(e) => Err(ParseError::OneShot(e)),
            },
            Err(_) => Err(ParseError::Decode(json_error_exec(MSG_NO_VARIANT, logger))),
        },
    }
}

/// Loads a request of either kind (see [`spec_load_mxc_request`]). With
/// `is_base64`, `input` is a base64-encoded JSON document; otherwise it is
/// the text of the configuration file.
///
/// The JSON text is parsed into a `serde_json::Value` and read from it
/// (see `crate::raw`): a key repeated in one object is accepted with its
/// last occurrence kept, and type errors carry this library's texts,
/// without line and column; a section may be written as an object or as an
/// array of its fields in declaration order.
pub fn load_mxc_request_with_options(input: &str, logger: &mut Logger, opts: LoadOptions, target: BuildTarget)
    -> (r: Result<MxcRequest, ParseError>)
    ensures
        final(logger)@ == old(logger)@ + spec_load_mxc_request(input@, opts, target).1,
        match r {
            Ok(m) => spec_load_mxc_request(input@, opts, target).0 == Ok::<MxcRequestView, ParseErrorView>(m@),
            Err(e) => spec_load_mxc_request(input@, opts, target).0 == Err::<MxcRequestView, ParseErrorView>(e@),
        },
{
    let ghost l0 = logger@;
    let text = match decode_request_input(input, logger, opts.is_base64) {
        Ok(t) => t,
        Err(e) => return Err(ParseError::Decode(e)),
    };
    let ghost l1 = logger@;
    let r = match parse_json_text(text.as_str()) {
        Err(m) => Err(ParseError::Decode(json_error_exec(m.as_str(), logger))),
        Ok(v) => mxc_request_from_json(&v, logger, opts.allow_missing_command, target),
    };
    assert(logger@ =~= l0 + spec_load_mxc_request(input@, opts, target).1);
    r
}

/// Loads a request of either kind whose `process.commandLine` is required.
pub fn load_mxc_request(input: &str, logger: &mut Logger, is_base64: bool, target: BuildTarget)
    -> (r: Result<MxcRequest, ParseError>)
    ensures
        final(logger)@ == old(logger)@ + spec_load_mxc_request(input@, (LoadOptions { is_base64, allow_missing_command: false }), target).1,
        match r {
            Ok(m) => spec_load_mxc_request(input@, (LoadOptions { is_base64, allow_missing_command: false }), target).0 == Ok::<MxcRequestView, ParseErrorView>(m@),
            Err(e) => spec_load_mxc_request(input@, (LoadOptions { is_base64, allow_missing_command: false }), target).0 == Err::<MxcRequestView, ParseErrorView>(e@),
        },
{
    load_mxc_request_with_options(input, logger, (LoadOptions { is_base64, allow_missing_command: false }), target)
}

} // verus!
