//! Properties of the parser that hold of every input: what an accepted
//! request can never contain, and how the loaders relate to each other.

use vstd::prelude::*;
use crate::config_parser::{
    BuildTarget, TargetOs, LEARNING_MODE_CAPABILITY, LoadOptions, other_sections, present_sections,
    spec_containment_value, spec_convert, spec_load_request, spec_mxc_from_json, spec_policy,
    spec_process_container, spec_capabilities, spec_filesystem, spec_fallback, spec_quoted_in_policy,
    spec_head, spec_tail, strip_learning_mode, spec_ui, or_empty, spec_convert_state_aware, surrogate,
    spec_foreign_experimental, spec_load_mxc_request, spec_decode_input,
};
use crate::errors::MxcErrorCode;
use crate::json::serde_json_parse;
use crate::raw::de_config;
use crate::runner::{RunnerChoice, RunnerFeatures, spec_select_runner};
use crate::lxc_driver::{LxcRunnerChoice, LxcRunnerFeatures, spec_select_lxc_runner};
use crate::models::{ClipboardPolicy, FailurePhase};
use crate::driver::{CommandLineContext, spec_context_for_backend, spec_failure_reason_for};
use crate::telemetry::{FailureReason, spec_failure_reason, spec_sanitize};
use crate::state_aware::spec_phase;
use crate::errors::ParseErrorView;
use crate::json::{Json, member};
use crate::models::{
    ContainerPolicyView, ContainmentBackend, NetworkEnforcementMode, NetworkPolicy,
    default_policy, spec_proxy_enabled, spec_section_path, spec_wire_name,
};
use crate::network::{proxy_capable, spec_network};
use crate::raw::{RawConfigV, RawStateAwareRequestV, de_state_aware};
use crate::state_aware::Phase;
use crate::schema::{spec_schema_check, spec_schema_version};
use crate::state_aware::MxcRequestView;
use crate::text::has_char;

verus! {

/// Every backend's wire name parses back to that backend, silently, on
/// every target, except `vm`, which Windows resolves to Windows Sandbox.
pub proof fn law_wire_name_round_trip(b: ContainmentBackend, os: TargetOs)
    requires
        !(b == ContainmentBackend::Vm && os == TargetOs::Windows),
    ensures
        spec_containment_value(spec_wire_name(b), os) == (Ok::<ContainmentBackend, Seq<char>>(b), Seq::<char>::empty()),
{
    reveal_strlit("processcontainer");
    reveal_strlit("appcontainer");
    reveal_strlit("process");
    reveal_strlit("windows_sandbox");
    reveal_strlit("wslc");
    reveal_strlit("lxc");
    reveal_strlit("vm");
    reveal_strlit("microvm");
    reveal_strlit("isolation_session");
    reveal_strlit("seatbelt");
    reveal_strlit("macos_sandbox");
    reveal_strlit("hyperlight");
    reveal_strlit("bubblewrap");
    assert("processcontainer"@.len() == 16);
    assert("appcontainer"@.len() == 12);
    assert("process"@.len() == 7 && "process"@[0] == 'p');
    assert("windows_sandbox"@.len() == 15);
    assert("wslc"@.len() == 4);
    assert("lxc"@.len() == 3);
    assert("vm"@.len() == 2);
    assert("microvm"@.len() == 7 && "microvm"@[0] == 'm');
    assert("isolation_session"@.len() == 17);
    assert("seatbelt"@.len() == 8);
    assert("macos_sandbox"@.len() == 13);
    assert("hyperlight"@.len() == 10 && "hyperlight"@[0] == 'h');
    assert("bubblewrap"@.len() == 10 && "bubblewrap"@[0] == 'b');
}

/// The network section changes only the network fields of a policy.
proof fn lemma_network_frame(p: ContainerPolicyView, net: Option<crate::raw::RawNetworkV>, c: ContainmentBackend)
    requires
        spec_network(p, net, c).0 is Ok,
    ensures
        ({
            let q = spec_network(p, net, c).0->Ok_0;
            &&& q.least_privilege_mode == p.least_privilege_mode
            &&& q.capabilities == p.capabilities
            &&& q.readwrite_paths == p.readwrite_paths
            &&& q.readonly_paths == p.readonly_paths
            &&& q.denied_paths == p.denied_paths
            &&& q.fallback == p.fallback
            &&& q.ui == p.ui
            &&& q.base_process_ui == p.base_process_ui
        }),
{
}

/// The policy of an accepted request, and where it came from.
proof fn lemma_accepted_policy(raw: RawConfigV, require_process: bool, allow_missing_command: bool, target: BuildTarget)
    requires
        spec_convert(raw, require_process, allow_missing_command, target).0 is Ok,
    ensures
        ({
            let req = spec_convert(raw, require_process, allow_missing_command, target).0->Ok_0;
            let head = spec_head(raw.process, raw.containment, present_sections(raw), require_process && !allow_missing_command, target.os).0;
            let pol = spec_policy(raw.process_container, raw.filesystem, raw.fallback, raw.network, req.containment, target.release).0;
            &&& head is Ok
            &&& head->Ok_0.1 == req.containment
            &&& head->Ok_0.0.0 == req.script_code
            &&& pol is Ok
            &&& req.policy == ContainerPolicyView { ui: spec_ui(pol->Ok_0.ui, raw.ui), ..pol->Ok_0 }
            &&& spec_tail(or_empty(raw.version), raw.experimental).0 is Ok
            &&& req.schema_version == or_empty(raw.version)
        }),
{
    reveal(spec_convert);
    reveal_strlit("read");
    reveal_strlit("write");
    reveal_strlit("all");
    assert("write"@.len() != "read"@.len());
    assert("all"@.len() != "read"@.len() && "all"@.len() != "write"@.len());
}

/// An accepted policy: the stages before the network section, and the
/// network section itself, succeeded.
proof fn lemma_policy_stages(pc: Option<crate::raw::RawProcessContainerV>, fs: Option<crate::raw::RawFilesystemV>, fb: Option<crate::raw::RawFallback>,
    net: Option<crate::raw::RawNetworkV>, c: ContainmentBackend, release: bool)
    requires
        spec_policy(pc, fs, fb, net, c, release).0 is Ok,
    ensures
        ({
            let p1 = spec_process_container(default_policy(), pc, release).0;
            let p2 = spec_filesystem(p1, fs);
            let p3 = spec_fallback(p2, fb);
            &&& spec_quoted_in_policy(p2) is None
            &&& spec_network(p3, net, c).0 is Ok
            &&& spec_policy(pc, fs, fb, net, c, release).0 == spec_network(p3, net, c).0
        }),
{
}

/// No learning-mode capability survives the release strip.
proof fn lemma_strip_learning_mode(caps: Seq<Seq<char>>)
    ensures
        !strip_learning_mode(caps).0.contains(LEARNING_MODE_CAPABILITY@),
    decreases caps.len(),
{
    if caps.len() > 0 {
        lemma_strip_learning_mode(caps.drop_last());
        let kept = strip_learning_mode(caps.drop_last()).0;
        if caps.last() != LEARNING_MODE_CAPABILITY@ {
            assert forall|i: int| 0 <= i < kept.push(caps.last()).len() implies kept.push(caps.last())[i] != LEARNING_MODE_CAPABILITY@ by {
                if i < kept.len() {
                    assert(kept[i] == kept.push(caps.last())[i]);
                }
            }
        }
    }
}

/// A release build never grants the AppContainer learning-mode capability,
/// whether asked for with `learningMode` or listed among the capabilities.
pub proof fn law_release_never_grants_learning_mode(raw: RawConfigV, require_process: bool, allow_missing_command: bool, target: BuildTarget)
    requires
        target.release,
        spec_convert(raw, require_process, allow_missing_command, target).0 is Ok,
    ensures
        !spec_convert(raw, require_process, allow_missing_command, target).0->Ok_0.policy.capabilities.contains(LEARNING_MODE_CAPABILITY@),
{
    lemma_accepted_policy(raw, require_process, allow_missing_command, target);
    let req = spec_convert(raw, require_process, allow_missing_command, target).0->Ok_0;
    lemma_policy_stages(raw.process_container, raw.filesystem, raw.fallback, raw.network, req.containment, target.release);
    let p1 = spec_process_container(default_policy(), raw.process_container, target.release).0;
    let p3 = spec_fallback(spec_filesystem(p1, raw.filesystem), raw.fallback);
    lemma_network_frame(p3, raw.network, req.containment);
    match raw.process_container {
        None => {},
        Some(ac) => {
            let caps1 = Seq::<Seq<char>>::empty();
            let listed = match ac.capabilities { Some(c) => caps1 + c, None => caps1 };
            lemma_strip_learning_mode(listed);
            assert(spec_capabilities(caps1, ac.learning_mode, ac.capabilities, true).0 == strip_learning_mode(listed).0);
        },
    }
}

/// A request without `network.defaultPolicy` blocks outbound traffic by
/// default, whatever else it configures.
pub proof fn law_default_network_policy_blocks(raw: RawConfigV, require_process: bool, allow_missing_command: bool, target: BuildTarget)
    requires
        spec_convert(raw, require_process, allow_missing_command, target).0 is Ok,
        raw.network is None || raw.network->0.default_policy is None,
    ensures
        spec_convert(raw, require_process, allow_missing_command, target).0->Ok_0.policy.default_network_policy == NetworkPolicy::Block,
{
    lemma_accepted_policy(raw, require_process, allow_missing_command, target);
    let req = spec_convert(raw, require_process, allow_missing_command, target).0->Ok_0;
    lemma_policy_stages(raw.process_container, raw.filesystem, raw.fallback, raw.network, req.containment, target.release);
}

/// An accepted request uses a proxy only with a backend that can route
/// through one (ProcessContainer or Bubblewrap).
pub proof fn law_proxy_only_with_capable_backend(raw: RawConfigV, require_process: bool, allow_missing_command: bool, target: BuildTarget)
    requires
        spec_convert(raw, require_process, allow_missing_command, target).0 is Ok,
        spec_proxy_enabled(spec_convert(raw, require_process, allow_missing_command, target).0->Ok_0.policy.network_proxy),
    ensures
        proxy_capable(spec_convert(raw, require_process, allow_missing_command, target).0->Ok_0.containment),
{
    lemma_accepted_policy(raw, require_process, allow_missing_command, target);
    let req = spec_convert(raw, require_process, allow_missing_command, target).0->Ok_0;
    lemma_policy_stages(raw.process_container, raw.filesystem, raw.fallback, raw.network, req.containment, target.release);
}

/// With Bubblewrap, an accepted proxy never comes with firewall
/// enforcement, and an external (non-builtin) proxy never comes with host
/// lists or a blocking default.
pub proof fn law_bubblewrap_proxy_rules(raw: RawConfigV, require_process: bool, allow_missing_command: bool, target: BuildTarget)
    requires
        spec_convert(raw, require_process, allow_missing_command, target).0 is Ok,
        spec_convert(raw, require_process, allow_missing_command, target).0->Ok_0.containment == ContainmentBackend::Bubblewrap,
        spec_proxy_enabled(spec_convert(raw, require_process, allow_missing_command, target).0->Ok_0.policy.network_proxy),
    ensures
        ({
            let p = spec_convert(raw, require_process, allow_missing_command, target).0->Ok_0.policy;
            &&& p.network_enforcement_mode == NetworkEnforcementMode::Capabilities
            &&& !p.network_proxy.builtin_test_server ==> p.allowed_hosts.len() == 0 && p.blocked_hosts.len() == 0
                && p.default_network_policy == NetworkPolicy::Allow
        }),
{
    lemma_accepted_policy(raw, require_process, allow_missing_command, target);
    let req = spec_convert(raw, require_process, allow_missing_command, target).0->Ok_0;
    lemma_policy_stages(raw.process_container, raw.filesystem, raw.fallback, raw.network, req.containment, target.release);
}

/// An accepted request holds at most the configuration section of its own
/// backend.
pub proof fn law_single_backend_section(raw: RawConfigV, require_process: bool, allow_missing_command: bool, target: BuildTarget)
    requires
        spec_convert(raw, require_process, allow_missing_command, target).0 is Ok,
    ensures
        other_sections(present_sections(raw), spec_section_path(spec_convert(raw, require_process, allow_missing_command, target).0->Ok_0.containment)).len() == 0,
{
    lemma_accepted_policy(raw, require_process, allow_missing_command, target);
}

/// No filesystem path of an accepted request holds a double quote.
pub proof fn law_no_quoted_paths(raw: RawConfigV, require_process: bool, allow_missing_command: bool, target: BuildTarget)
    requires
        spec_convert(raw, require_process, allow_missing_command, target).0 is Ok,
    ensures
        spec_quoted_in_policy(spec_convert(raw, require_process, allow_missing_command, target).0->Ok_0.policy) is None,
{
    lemma_accepted_policy(raw, require_process, allow_missing_command, target);
    let req = spec_convert(raw, require_process, allow_missing_command, target).0->Ok_0;
    lemma_policy_stages(raw.process_container, raw.filesystem, raw.fallback, raw.network, req.containment, target.release);
    let p1 = spec_process_container(default_policy(), raw.process_container, target.release).0;
    let p3 = spec_fallback(spec_filesystem(p1, raw.filesystem), raw.fallback);
    lemma_network_frame(p3, raw.network, req.containment);
}

/// An accepted request's schema version is empty or in the supported range.
pub proof fn law_supported_schema_only(raw: RawConfigV, require_process: bool, allow_missing_command: bool, target: BuildTarget)
    requires
        spec_convert(raw, require_process, allow_missing_command, target).0 is Ok,
    ensures
        spec_schema_version(spec_convert(raw, require_process, allow_missing_command, target).0->Ok_0.schema_version) is None,
{
    lemma_accepted_policy(raw, require_process, allow_missing_command, target);
}

/// An accepted command line never holds a NUL character, and is non-empty
/// whenever one is required.
pub proof fn law_command_line_well_formed(raw: RawConfigV, require_process: bool, allow_missing_command: bool, target: BuildTarget)
    requires
        spec_convert(raw, require_process, allow_missing_command, target).0 is Ok,
    ensures
        !has_char(spec_convert(raw, require_process, allow_missing_command, target).0->Ok_0.script_code, '\0'),
        require_process && !allow_missing_command ==> spec_convert(raw, require_process, allow_missing_command, target).0->Ok_0.script_code.len() > 0,
{
    lemma_accepted_policy(raw, require_process, allow_missing_command, target);
}

/// A base64 input loads exactly as the text it decodes to.
pub proof fn law_base64_input_is_its_text(input: Seq<char>, bytes: Seq<u8>, allow_missing_command: bool, target: BuildTarget)
    requires
        crate::encoding::base64_standard_decode(input) == Some(bytes),
        vstd::utf8::valid_utf8(bytes),
    ensures
        spec_load_request(input, LoadOptions { is_base64: true, allow_missing_command }, target).0
            == spec_load_request(vstd::utf8::decode_utf8(bytes), LoadOptions { is_base64: false, allow_missing_command }, target).0,
{
}

/// A document without a `phase` member is never taken for a state-aware
/// request, and one that reads as a state-aware envelope is never taken
/// for a one-shot request.
pub proof fn law_phase_routes_requests(j: Json, allow_missing_command: bool, target: BuildTarget)
    ensures
        crate::raw::slot_required(j, "phase"@, 2) is None ==> !(spec_mxc_from_json(j, allow_missing_command, target).0 matches Ok(MxcRequestView::StateAware(_))),
        crate::raw::slot_required(j, "phase"@, 2) is None ==> !(spec_mxc_from_json(j, allow_missing_command, target).0 matches Err(ParseErrorView::StateAware(_, _))),
        de_state_aware(j) is Ok ==> !(spec_mxc_from_json(j, allow_missing_command, target).0 matches Ok(MxcRequestView::OneShot(_))),
        de_state_aware(j) is Ok ==> !(spec_mxc_from_json(j, allow_missing_command, target).0 matches Err(ParseErrorView::OneShot(_))),
{
}

/// An accepted state-aware envelope carries exactly the request its shared
/// fields make as a one-shot configuration (a command line required for
/// `exec` only), and no experimental section of another backend.
pub proof fn law_state_aware_request_is_its_shared_fields(r: RawStateAwareRequestV, allow_missing_command: bool, target: BuildTarget)
    requires
        spec_convert_state_aware(r, allow_missing_command, target).0 is Ok,
    ensures
        ({
            let p = spec_convert_state_aware(r, allow_missing_command, target).0->Ok_0;
            &&& spec_convert(surrogate(r), p.phase == Phase::Exec, allow_missing_command, target).0
                == Ok::<crate::models::ExecutionRequestView, Seq<char>>(p.request)
            &&& spec_foreign_experimental(p.containment, r.experimental) is None
            &&& p.sandbox_id == r.sandbox_id
        }),
{
}

/// Whether a schema version is accepted depends only on its major and
/// minor numbers: the patch number and any pre-release label are ignored.
pub proof fn law_schema_acceptance_ignores_patch_and_label(v1: Seq<char>, v2: Seq<char>, p1: (u64, u64, u64), p2: (u64, u64, u64))
    requires
        v1.len() > 0,
        v2.len() > 0,
        p1.0 == p2.0,
        p1.1 == p2.1,
    ensures
        spec_schema_check(v1, Some(p1)) is None <==> spec_schema_check(v2, Some(p2)) is None,
{
}

/// The JSON document a request input holds, if it is one: `None` when the
/// input does not decode to text or the text is not JSON.
pub open spec fn input_document(input: Seq<char>, is_base64: bool) -> Option<Json> {
    match spec_decode_input(input, is_base64).0 {
        Ok(text) => match serde_json_parse(text) {
            Ok(j) => Some(j),
            Err(_) => None,
        },
        Err(_) => None,
    }
}

/// A one-shot outcome as a request of either kind.
pub open spec fn as_one_shot(r: Result<crate::models::ExecutionRequestView, Seq<char>>) -> Result<MxcRequestView, ParseErrorView> {
    match r {
        Ok(req) => Ok(MxcRequestView::OneShot(req)),
        Err(m) => Err(ParseErrorView::OneShot(m)),
    }
}

/// How a request of either kind is routed: an input that holds no JSON
/// document is a decode error; a document that reads as a state-aware
/// envelope gives a state-aware request or a malformed-request error; a
/// configuration gives exactly what the one-shot loader gives, with the
/// same log; a document that is neither is a decode error, and the
/// one-shot loader refuses it too.
pub proof fn law_mxc_request_routing(input: Seq<char>, opts: LoadOptions, target: BuildTarget)
    ensures
        input_document(input, opts.is_base64) is None
            ==> spec_load_mxc_request(input, opts, target).0 matches Err(ParseErrorView::Decode(_)),
        input_document(input, opts.is_base64) matches Some(j) && de_state_aware(j) is Ok
            ==> (spec_load_mxc_request(input, opts, target).0 matches Ok(MxcRequestView::StateAware(_))
                || spec_load_mxc_request(input, opts, target).0 matches Err(ParseErrorView::StateAware(MxcErrorCode::MalformedRequest, _))),
        input_document(input, opts.is_base64) matches Some(j) && de_state_aware(j) is Err && de_config(j) is Ok
            ==> spec_load_mxc_request(input, opts, target) == (as_one_shot(spec_load_request(input, opts, target).0), spec_load_request(input, opts, target).1),
        input_document(input, opts.is_base64) matches Some(j) && de_state_aware(j) is Err && de_config(j) is Err
            ==> ((spec_load_mxc_request(input, opts, target).0 matches Err(ParseErrorView::Decode(_)))
                && spec_load_request(input, opts, target).0 is Err),
{
}

/// WSLC, MicroVM, Hyperlight, Windows Sandbox and Isolation Session are
/// refused without `--experimental`, whatever the schema version and the
/// compiled features.
pub proof fn law_experimental_backends_need_flag(c: ContainmentBackend, base_version: bool, f: RunnerFeatures)
    requires
        c == ContainmentBackend::Wslc || c == ContainmentBackend::MicroVm || c == ContainmentBackend::Hyperlight
            || c == ContainmentBackend::WindowsSandbox || c == ContainmentBackend::IsolationSession,
    ensures
        spec_select_runner(c, false, base_version, f) is Err,
{
}

/// The BaseContainer-fallback dispatcher runs a request exactly when its
/// backend is ProcessContainer and `--experimental` is given or the schema
/// version is BaseContainer-era; a ProcessContainer request is never
/// refused.
pub proof fn law_base_container_choice(c: ContainmentBackend, experimental: bool, base_version: bool, f: RunnerFeatures)
    ensures
        (spec_select_runner(c, experimental, base_version, f) matches Ok(RunnerChoice::BaseContainerFallback { .. }))
            <==> (c == ContainmentBackend::ProcessContainer && (experimental || base_version)),
        c == ContainmentBackend::ProcessContainer ==> spec_select_runner(c, experimental, base_version, f) is Ok,
{
}

/// `lxc-exec` refuses Hyperlight and MicroVM without `--experimental`,
/// whatever its build offers.
pub proof fn law_lxc_experimental_backends_need_flag(c: ContainmentBackend, f: LxcRunnerFeatures)
    requires
        c == ContainmentBackend::Hyperlight || c == ContainmentBackend::MicroVm,
    ensures
        spec_select_lxc_runner(c, false, f) is Err,
{
}

/// `lxc-exec` runs Bubblewrap exactly on a Linux build, runs LXC directly,
/// and runs every backend it has no runner for on LXC, never refusing it.
pub proof fn law_lxc_runner_routing(c: ContainmentBackend, experimental: bool, f: LxcRunnerFeatures)
    ensures
        c == ContainmentBackend::Bubblewrap ==> (spec_select_lxc_runner(c, experimental, f) is Ok <==> f.linux),
        c == ContainmentBackend::Lxc ==> spec_select_lxc_runner(c, experimental, f) == Ok::<LxcRunnerChoice, Seq<char>>(LxcRunnerChoice::Lxc { fallback: false }),
        (c != ContainmentBackend::Hyperlight && c != ContainmentBackend::MicroVm && c != ContainmentBackend::Bubblewrap
            && c != ContainmentBackend::Lxc)
            ==> spec_select_lxc_runner(c, experimental, f) == Ok::<LxcRunnerChoice, Seq<char>>(LxcRunnerChoice::Lxc { fallback: true }),
{
}

/// An accepted request that has a `ui` section takes its UI policy from
/// it, denying whatever the section leaves out: an omitted `disable` is
/// `true` (the UI is disabled), an omitted `injection` is `false`, and the
/// clipboard is open only for `read`, `write` or `all`.
pub proof fn law_ui_section_defaults_deny(raw: RawConfigV, require_process: bool, allow_missing_command: bool, target: BuildTarget)
    requires
        spec_convert(raw, require_process, allow_missing_command, target).0 is Ok,
        raw.ui is Some,
    ensures
        ({
            let ui = spec_convert(raw, require_process, allow_missing_command, target).0->Ok_0.policy.ui;
            let u = raw.ui->Some_0;
            &&& u.disable is None ==> ui.disable == true
            &&& u.disable matches Some(b) ==> ui.disable == b
            &&& u.injection is None ==> ui.injection == false
            &&& u.injection matches Some(b) ==> ui.injection == b
            &&& u.clipboard is None ==> ui.clipboard == ClipboardPolicy::Denied
            &&& u.clipboard == Some("read"@) ==> ui.clipboard == ClipboardPolicy::Read
            &&& u.clipboard == Some("write"@) ==> ui.clipboard == ClipboardPolicy::Write
            &&& u.clipboard == Some("all"@) ==> ui.clipboard == ClipboardPolicy::All
            &&& (ui.clipboard != ClipboardPolicy::Denied ==>
                    u.clipboard == Some("read"@) || u.clipboard == Some("write"@) || u.clipboard == Some("all"@))
        }),
{
    reveal(spec_convert);
    reveal_strlit("read");
    reveal_strlit("write");
    reveal_strlit("all");
    assert("write"@.len() != "read"@.len());
    assert("all"@.len() != "read"@.len() && "all"@.len() != "write"@.len());
}

/// Each of the five phase names denotes its own phase, and no other text
/// denotes a phase: `provision`, `start`, `exec`, `stop`, `deprovision`.
pub proof fn law_phase_wire_names(s: Seq<char>)
    ensures
        spec_phase("provision"@) == Ok::<Phase, Seq<char>>(Phase::Provision),
        spec_phase("start"@) == Ok::<Phase, Seq<char>>(Phase::Start),
        spec_phase("exec"@) == Ok::<Phase, Seq<char>>(Phase::Exec),
        spec_phase("stop"@) == Ok::<Phase, Seq<char>>(Phase::Stop),
        spec_phase("deprovision"@) == Ok::<Phase, Seq<char>>(Phase::Deprovision),
        spec_phase(s) == Ok::<Phase, Seq<char>>(Phase::Provision) <==> s == "provision"@,
        spec_phase(s) == Ok::<Phase, Seq<char>>(Phase::Start) <==> s == "start"@,
        spec_phase(s) == Ok::<Phase, Seq<char>>(Phase::Exec) <==> s == "exec"@,
        spec_phase(s) == Ok::<Phase, Seq<char>>(Phase::Stop) <==> s == "stop"@,
        spec_phase(s) == Ok::<Phase, Seq<char>>(Phase::Deprovision) <==> s == "deprovision"@,
{
    reveal_strlit("provision");
    reveal_strlit("start");
    reveal_strlit("exec");
    reveal_strlit("stop");
    reveal_strlit("deprovision");
    assert("exec"@[0] != "stop"@[0]);
    assert("provision"@.len() == 9 && "start"@.len() == 5 && "exec"@.len() == 4 && "stop"@.len() == 4
        && "deprovision"@.len() == 11);
}

/// Two texts that denote a phase denote the same phase only when they are
/// the same text.
pub proof fn law_phase_wire_names_injective(a: Seq<char>, b: Seq<char>)
    requires
        spec_phase(a) is Ok,
        spec_phase(a) == spec_phase(b),
    ensures
        a == b,
{
    law_phase_wire_names(a);
    law_phase_wire_names(b);
}

/// An accepted state-aware envelope carries the phase its `phase` text
/// names.
pub proof fn law_state_aware_phase_is_named(r: RawStateAwareRequestV, allow_missing_command: bool, target: BuildTarget)
    requires
        spec_convert_state_aware(r, allow_missing_command, target).0 is Ok,
    ensures
        ({
            let p = spec_convert_state_aware(r, allow_missing_command, target).0->Ok_0.phase;
            &&& p == Phase::Provision <==> r.phase == "provision"@
            &&& p == Phase::Start <==> r.phase == "start"@
            &&& p == Phase::Exec <==> r.phase == "exec"@
            &&& p == Phase::Stop <==> r.phase == "stop"@
            &&& p == Phase::Deprovision <==> r.phase == "deprovision"@
        }),
{
    law_phase_wire_names(r.phase);
}

/// A sanitized message holds no Windows drive path (a letter, `:`, `\`)
/// and no `/` followed by any of `home/`, `tmp/`, `var/`, `usr/`, `etc/`,
/// `root/`, `mnt/` or `opt/`.
pub proof fn law_sanitized_message_names_no_path(msg: Seq<char>)
    ensures
        ({
            let o = spec_sanitize(msg);
            forall|p: int| 0 <= p < o.len() && #[trigger] o[p] == '/' ==> {
                &&& (p + 6 <= o.len() ==> o.subrange(p + 1, p + 6) != "home/"@)
                &&& (p + 5 <= o.len() ==> o.subrange(p + 1, p + 5) != "tmp/"@)
                &&& (p + 5 <= o.len() ==> o.subrange(p + 1, p + 5) != "var/"@)
                &&& (p + 5 <= o.len() ==> o.subrange(p + 1, p + 5) != "usr/"@)
                &&& (p + 5 <= o.len() ==> o.subrange(p + 1, p + 5) != "etc/"@)
                &&& (p + 6 <= o.len() ==> o.subrange(p + 1, p + 6) != "root/"@)
                &&& (p + 5 <= o.len() ==> o.subrange(p + 1, p + 5) != "mnt/"@)
                &&& (p + 5 <= o.len() ==> o.subrange(p + 1, p + 5) != "opt/"@)
            }
        }),
        ({
            let o = spec_sanitize(msg);
            forall|p: int| 0 <= p && p + 2 < o.len() && #[trigger] o[p + 1] == ':' ==>
                !((('a' <= o[p] && o[p] <= 'z') || ('A' <= o[p] && o[p] <= 'Z')) && o[p + 2] == '\\')
        }),
{
    let o = spec_sanitize(msg);
    crate::telemetry::lemma_scrub_path_free(msg, 0);
    crate::telemetry::lemma_truncate_path_free(crate::telemetry::scrub_from(msg, 0));
    assert(crate::telemetry::path_free(o));
    reveal_strlit("home/");
    reveal_strlit("tmp/");
    reveal_strlit("var/");
    reveal_strlit("usr/");
    reveal_strlit("etc/");
    reveal_strlit("root/");
    reveal_strlit("mnt/");
    reveal_strlit("opt/");
    assert forall|p: int| 0 <= p < o.len() && #[trigger] o[p] == '/' implies {
        &&& (p + 6 <= o.len() ==> o.subrange(p + 1, p + 6) != "home/"@)
        &&& (p + 5 <= o.len() ==> o.subrange(p + 1, p + 5) != "tmp/"@)
        &&& (p + 5 <= o.len() ==> o.subrange(p + 1, p + 5) != "var/"@)
        &&& (p + 5 <= o.len() ==> o.subrange(p + 1, p + 5) != "usr/"@)
        &&& (p + 5 <= o.len() ==> o.subrange(p + 1, p + 5) != "etc/"@)
        &&& (p + 6 <= o.len() ==> o.subrange(p + 1, p + 6) != "root/"@)
        &&& (p + 5 <= o.len() ==> o.subrange(p + 1, p + 5) != "mnt/"@)
        &&& (p + 5 <= o.len() ==> o.subrange(p + 1, p + 5) != "opt/"@)
    } by {
        assert(!crate::telemetry::unix_path_at(o, p));
    }
    assert forall|p: int| 0 <= p && p + 2 < o.len() && #[trigger] o[p + 1] == ':' implies
        !((('a' <= o[p] && o[p] <= 'z') || ('A' <= o[p] && o[p] <= 'Z')) && o[p + 2] == '\\') by {
        assert(!crate::telemetry::windows_path_at(o, p));
    }
}

/// The command-line rules each backend's commands are quoted for:
/// Windows Sandbox and Isolation Session run them through `cmd.exe`; WSLC,
/// LXC, Seatbelt and Bubblewrap through a POSIX shell; ProcessContainer,
/// VM, MicroVM and Hyperlight take a `CreateProcess` command line.
pub proof fn law_command_line_context_table()
    ensures
        spec_context_for_backend(ContainmentBackend::WindowsSandbox) == CommandLineContext::WindowsCommandProcessor,
        spec_context_for_backend(ContainmentBackend::IsolationSession) == CommandLineContext::WindowsCommandProcessor,
        spec_context_for_backend(ContainmentBackend::Wslc) == CommandLineContext::PosixShell,
        spec_context_for_backend(ContainmentBackend::Lxc) == CommandLineContext::PosixShell,
        spec_context_for_backend(ContainmentBackend::Seatbelt) == CommandLineContext::PosixShell,
        spec_context_for_backend(ContainmentBackend::Bubblewrap) == CommandLineContext::PosixShell,
        spec_context_for_backend(ContainmentBackend::ProcessContainer) == CommandLineContext::WindowsCreateProcess,
        spec_context_for_backend(ContainmentBackend::Vm) == CommandLineContext::WindowsCreateProcess,
        spec_context_for_backend(ContainmentBackend::MicroVm) == CommandLineContext::WindowsCreateProcess,
        spec_context_for_backend(ContainmentBackend::Hyperlight) == CommandLineContext::WindowsCreateProcess,
{
}

/// A failed run is an initialisation error (`init_error`) exactly when the
/// process could not be launched, and otherwise a process error
/// (`process_error`).
pub proof fn law_failure_category(phase: FailurePhase)
    ensures
        spec_failure_reason_for(FailurePhase::LaunchFailed) == FailureReason::InitError,
        spec_failure_reason_for(FailurePhase::ProcessExited) == FailureReason::ProcessError,
        spec_failure_reason_for(FailurePhase::NoFailure) == FailureReason::ProcessError,
        spec_failure_reason(spec_failure_reason_for(phase)) == (if phase == FailurePhase::LaunchFailed { "init_error"@ } else { "process_error"@ }),
{
}

} // verus!
