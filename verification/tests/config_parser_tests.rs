use base64::Engine;
use wxc_common::config_parser::{
    load_mxc_request, load_mxc_request_with_options, load_request, BuildTarget, LoadOptions, TargetOs,
};
use wxc_common::errors::{Logger, Mode, ParseError};
use wxc_common::models::{
    ClipboardPolicy, ContainmentBackend, IsolationSessionConfigurationId, NetworkEnforcementMode,
    NetworkPolicy,
};
use wxc_common::schema::is_base_container_version;
use wxc_common::state_aware::{MxcRequest, Phase};

const WINDOWS: BuildTarget = BuildTarget { os: TargetOs::Windows, release: false };
const WINDOWS_RELEASE: BuildTarget = BuildTarget { os: TargetOs::Windows, release: true };
const LINUX: BuildTarget = BuildTarget { os: TargetOs::Linux, release: false };
const MACOS: BuildTarget = BuildTarget { os: TargetOs::MacOs, release: false };

const CURRENT_SCHEMA_VERSION: &str = "0.7.0-alpha";

fn base64_encode(bytes: &[u8]) -> String {
    base64::engine::general_purpose::STANDARD.encode(bytes)
}

fn test_logger() -> Logger {
    Logger::new(Mode::Buffer)
}

fn load_mxc(json: &str) -> Result<MxcRequest, ParseError> {
    let encoded = base64_encode(json.as_bytes());
    let mut logger = test_logger();
    load_mxc_request(&encoded, &mut logger, true, WINDOWS)
}

fn load_mxc_with_opts(json: &str, opts: LoadOptions) -> Result<MxcRequest, ParseError> {
    let encoded = base64_encode(json.as_bytes());
    let mut logger = test_logger();
    load_mxc_request_with_options(
        &encoded,
        &mut logger,
        LoadOptions {
            is_base64: true,
            ..opts
        },
        WINDOWS,
    )
}

#[test]
fn allow_missing_command_lets_one_shot_skip_command_line() {
    // No process.commandLine in the policy — without the flag this would
    // be a parse error; with allow_missing_command set the parser yields
    // an empty script_code for the driver to fill in.
    let json = r#"{"process": {"cwd": "C:\\tmp"}}"#;
    let opts = LoadOptions {
        is_base64: true,
        allow_missing_command: true,
    };
    match load_mxc_with_opts(json, opts).unwrap() {
        MxcRequest::OneShot(req) => {
            assert!(req.script_code.is_empty());
            assert_eq!(req.working_directory, "C:\\tmp");
        }
        MxcRequest::StateAware(_) => panic!("expected one-shot"),
    }
}

#[test]
fn allow_missing_command_lets_one_shot_skip_process_block_entirely() {
    let json = r#"{"containment": "processcontainer"}"#;
    let opts = LoadOptions {
        is_base64: true,
        allow_missing_command: true,
    };
    match load_mxc_with_opts(json, opts).unwrap() {
        MxcRequest::OneShot(req) => assert!(req.script_code.is_empty()),
        MxcRequest::StateAware(_) => panic!("expected one-shot"),
    }
}

#[test]
fn allow_missing_command_lets_state_aware_exec_skip_command_line() {
    let json = r#"{
        "phase": "exec",
        "sandboxId": "iso:abcd1234",
        "process": {"cwd": "C:\\tmp"}
    }"#;
    let opts = LoadOptions {
        is_base64: true,
        allow_missing_command: true,
    };
    match load_mxc_with_opts(json, opts).unwrap() {
        MxcRequest::StateAware(p) => {
            assert_eq!(p.phase, Phase::Exec);
            assert!(p.request.script_code.is_empty());
        }
        MxcRequest::OneShot(_) => panic!("expected state-aware"),
    }
}

#[test]
fn default_options_still_reject_missing_command_line() {
    // Sanity: without the flag, the legacy contract holds — missing
    // commandLine is a hard parse error.
    let json = r#"{"process": {"cwd": "C:\\tmp"}}"#;
    let opts = LoadOptions {
        is_base64: true,
        allow_missing_command: false,
    };
    assert!(load_mxc_with_opts(json, opts).is_err());
}

#[test]
fn one_shot_routes_via_load_mxc_request() {
    let json = r#"{"process": {"commandLine": "echo hello"}}"#;
    match load_mxc(json).unwrap() {
        MxcRequest::OneShot(req) => assert_eq!(req.script_code, "echo hello"),
        MxcRequest::StateAware(_) => panic!("expected one-shot"),
    }
}

#[test]
fn state_aware_provision_request_routes_to_state_aware_arm() {
    let json = r#"{
        "phase": "provision",
        "containment": "isolation_session",
        "filesystem": {"readwritePaths": ["C:\\workspace"]}
    }"#;
    match load_mxc(json).unwrap() {
        MxcRequest::StateAware(p) => {
            assert_eq!(p.phase, Phase::Provision);
            assert_eq!(p.containment, Some(ContainmentBackend::IsolationSession));
            assert!(p.sandbox_id.is_none());
            assert!(p.experimental_raw.is_none());
            assert_eq!(p.request.policy.readwrite_paths, vec!["C:\\workspace"]);
            // Non-exec phase: process-related fields stay default.
            assert!(p.request.script_code.is_empty());
        }
        MxcRequest::OneShot(_) => panic!("expected state-aware"),
    }
}

#[test]
fn state_aware_start_request_carries_sandbox_id_and_experimental() {
    let json = r#"{
        "phase": "start",
        "sandboxId": "iso:abcd1234",
        "experimental": {
            "isolation_session": {"start": {"configurationId": "small"}}
        }
    }"#;
    match load_mxc(json).unwrap() {
        MxcRequest::StateAware(p) => {
            assert_eq!(p.phase, Phase::Start);
            assert_eq!(p.sandbox_id.as_deref(), Some("iso:abcd1234"));
            assert!(p.experimental_raw.is_some());
        }
        MxcRequest::OneShot(_) => panic!("expected state-aware"),
    }
}

#[test]
fn state_aware_exec_request_requires_command_line() {
    let json = r#"{
        "phase": "exec",
        "sandboxId": "iso:abcd1234",
        "process": {"commandLine": "echo hello"}
    }"#;
    match load_mxc(json).unwrap() {
        MxcRequest::StateAware(p) => {
            assert_eq!(p.phase, Phase::Exec);
            assert_eq!(p.request.script_code, "echo hello");
        }
        MxcRequest::OneShot(_) => panic!("expected state-aware"),
    }
}

#[test]
fn state_aware_exec_without_process_is_rejected() {
    // Exec phase still requires the process.commandLine wire field.
    let json = r#"{ "phase": "exec", "sandboxId": "iso:abcd1234" }"#;
    let r = load_mxc(json);
    assert!(matches!(r, Err(ParseError::StateAware(_))), "got {:?}", r.as_ref().err());
}

#[test]
fn state_aware_unknown_phase_is_rejected() {
    let json = r#"{"phase": "teleport"}"#;
    let r = load_mxc(json);
    assert!(matches!(r, Err(ParseError::StateAware(_))), "got {:?}", r.as_ref().err());
}

#[test]
fn state_aware_unknown_containment_is_rejected() {
    let json = r#"{"phase": "provision", "containment": "totally_made_up"}"#;
    let r = load_mxc(json);
    assert!(matches!(r, Err(ParseError::StateAware(_))), "got {:?}", r.as_ref().err());
}

#[test]
fn state_aware_provision_works_with_no_containment() {
    // Containment is optional at parse time; the dispatcher enforces it
    // (provision needs containment, non-provision uses sandbox_id prefix).
    let json = r#"{"phase": "provision"}"#;
    match load_mxc(json).unwrap() {
        MxcRequest::StateAware(p) => {
            assert_eq!(p.phase, Phase::Provision);
            assert!(p.containment.is_none());
        }
        MxcRequest::OneShot(_) => panic!("expected state-aware"),
    }
}

#[test]
fn minimal_config() {
    let json = r#"{"process": {"commandLine": "echo hello"}}"#;
    let encoded = base64_encode(json.as_bytes());
    let mut logger = test_logger();

    let req = load_request(&encoded, &mut logger, true, WINDOWS).unwrap();
    assert_eq!(req.script_code, "echo hello");
    assert_eq!(req.script_timeout, 0);
    assert!(req.working_directory.is_empty());
}

#[test]
fn missing_process_section() {
    let json = r#"{"containment": "processcontainer"}"#;
    let encoded = base64_encode(json.as_bytes());
    let mut logger = test_logger();

    let result = load_request(&encoded, &mut logger, true, WINDOWS);
    assert!(result.is_err());
}

#[test]
fn missing_command_line() {
    let json = r#"{"process": {"cwd": "/tmp"}}"#;
    let encoded = base64_encode(json.as_bytes());
    let mut logger = test_logger();

    let result = load_request(&encoded, &mut logger, true, WINDOWS);
    assert!(result.is_err());
}

#[test]
fn empty_command_line() {
    let json = r#"{"process": {"commandLine": ""}}"#;
    let encoded = base64_encode(json.as_bytes());
    let mut logger = test_logger();

    let result = load_request(&encoded, &mut logger, true, WINDOWS);
    assert!(result.is_err());
}

#[test]
fn malicious_command_line() {
    let json = r#"{"process": {"commandLine": "echo hello\0world"}}"#;
    let encoded = base64_encode(json.as_bytes());
    let mut logger = test_logger();

    let result = load_request(&encoded, &mut logger, true, WINDOWS);
    assert!(result.is_err());
}

#[test]
fn full_config() {
    let json = r#"{
        "containerId": "TestProfile",
        "containment": "processcontainer",
        "process": {
            "commandLine": "dir",
            "cwd": "C:\\temp",
            "timeout": 3000
        },
        "processContainer": {
            "leastPrivilege": true,
            "capabilities": ["internetClient"]
        },
        "filesystem": {
            "readwritePaths": ["C:\\rw"],
            "readonlyPaths": ["C:\\ro"],
            "deniedPaths": ["C:\\denied"]
        },
        "network": {
            "defaultPolicy": "block",
            "enforcementMode": "firewall",
            "allowedHosts": ["example.com"],
            "blockedHosts": ["evil.com"]
        }
    }"#;
    let encoded = base64_encode(json.as_bytes());
    let mut logger = test_logger();

    let req = load_request(&encoded, &mut logger, true, WINDOWS).unwrap();
    assert_eq!(req.script_code, "dir");
    assert_eq!(req.working_directory, "C:\\temp");
    assert_eq!(req.script_timeout, 3000);
    assert_eq!(req.container_id, "TestProfile");
    assert!(req.policy.least_privilege_mode);
    assert!(req
        .policy
        .capabilities
        .contains(&"internetClient".to_string()));
    assert_eq!(req.policy.readwrite_paths, vec!["C:\\rw"]);
    assert_eq!(req.policy.readonly_paths, vec!["C:\\ro"]);
    assert_eq!(req.policy.denied_paths, vec!["C:\\denied"]);
    assert_eq!(req.policy.default_network_policy, NetworkPolicy::Block);
    assert_eq!(
        req.policy.network_enforcement_mode,
        NetworkEnforcementMode::Firewall
    );
    assert_eq!(req.policy.allowed_hosts, vec!["example.com"]);
    assert_eq!(req.policy.blocked_hosts, vec!["evil.com"]);
}

#[test]
fn invalid_network_policy() {
    let json =
        r#"{"process": {"commandLine": "echo x"}, "network": {"defaultPolicy": "invalid"}}"#;
    let encoded = base64_encode(json.as_bytes());
    let mut logger = test_logger();

    let result = load_request(&encoded, &mut logger, true, WINDOWS);
    assert!(result.is_err());
}

#[test]
fn invalid_enforcement_mode() {
    let json =
        r#"{"process": {"commandLine": "echo x"}, "network": {"enforcementMode": "invalid"}}"#;
    let encoded = base64_encode(json.as_bytes());
    let mut logger = test_logger();

    let result = load_request(&encoded, &mut logger, true, WINDOWS);
    assert!(result.is_err());
}

#[test]
fn file_not_found() {
    let mut logger = test_logger();
    let result = load_request("nonexistent.json", &mut logger, false, WINDOWS);
    assert!(result.is_err());
}

#[test]
fn invalid_base64() {
    let mut logger = test_logger();
    let result = load_request("not-valid-base64!!!", &mut logger, true, WINDOWS);
    assert!(result.is_err());
}

#[test]
fn invalid_json() {
    let encoded = base64_encode(b"{ not json }");
    let mut logger = test_logger();
    let result = load_request(&encoded, &mut logger, true, WINDOWS);
    assert!(result.is_err());
}

#[test]
fn learning_mode_adds_capability_in_debug() {
    let json = r#"{"process": {"commandLine": "echo x"}, "containment": "processcontainer", "processContainer": {"learningMode": true}}"#;
    let encoded = base64_encode(json.as_bytes());
    let mut logger = test_logger();

    let req = load_request(&encoded, &mut logger, true, WINDOWS).unwrap();
    assert!(req
        .policy
        .capabilities
        .contains(&"permissiveLearningMode".to_string()));
    assert!(logger.get_buffer().contains("WARNING"));
}

#[test]
fn learning_mode_stripped_in_release() {
    let json = r#"{"process": {"commandLine": "echo x"}, "containment": "processcontainer", "processContainer": {"capabilities": ["permissiveLearningMode"]}}"#;
    let encoded = base64_encode(json.as_bytes());
    let mut logger = test_logger();

    let req = load_request(&encoded, &mut logger, true, WINDOWS_RELEASE).unwrap();
    assert!(!req
        .policy
        .capabilities
        .contains(&"permissiveLearningMode".to_string()));
    assert!(logger.get_buffer().contains("SECURITY"));
}

// ====== Configuration parser scenarios ======

#[test]
fn script_with_timeout() {
    let json =
        r#"{"process": {"commandLine": "import sys\nprint(sys.version)", "timeout": 60000}}"#;
    let encoded = base64_encode(json.as_bytes());
    let mut logger = test_logger();

    let req = load_request(&encoded, &mut logger, true, WINDOWS).unwrap();
    assert_eq!(req.script_timeout, 60000);
}

#[test]
fn process_container_capabilities() {
    let json = r#"{
        "process": {"commandLine": "print('test')"},
        "containment": "processcontainer",
        "processContainer": {
            "capabilities": ["internetClient", "privateNetworkClientServer", "documentsLibrary"]
        }
    }"#;
    let encoded = base64_encode(json.as_bytes());
    let mut logger = test_logger();

    let req = load_request(&encoded, &mut logger, true, WINDOWS).unwrap();
    assert_eq!(req.policy.capabilities.len(), 3);
    assert_eq!(req.policy.capabilities[0], "internetClient");
    assert_eq!(req.policy.capabilities[1], "privateNetworkClientServer");
    assert_eq!(req.policy.capabilities[2], "documentsLibrary");
}

#[test]
fn least_privilege_mode() {
    let json = r#"{"process": {"commandLine": "print('test')"}, "containment": "processcontainer", "processContainer": {"leastPrivilege": true}}"#;
    let encoded = base64_encode(json.as_bytes());
    let mut logger = test_logger();

    let req = load_request(&encoded, &mut logger, true, WINDOWS).unwrap();
    assert!(req.policy.least_privilege_mode);
}

#[test]
fn network_default_policy_allow() {
    let json = r#"{"process": {"commandLine": "print('test')"}, "network": {"defaultPolicy": "allow"}}"#;
    let encoded = base64_encode(json.as_bytes());
    let mut logger = test_logger();

    let req = load_request(&encoded, &mut logger, true, WINDOWS).unwrap();
    assert_eq!(req.policy.default_network_policy, NetworkPolicy::Allow);
}

#[test]
fn network_default_policy_block() {
    let json = r#"{"process": {"commandLine": "print('test')"}, "network": {"defaultPolicy": "block"}}"#;
    let encoded = base64_encode(json.as_bytes());
    let mut logger = test_logger();

    let req = load_request(&encoded, &mut logger, true, WINDOWS).unwrap();
    assert_eq!(req.policy.default_network_policy, NetworkPolicy::Block);
}

#[test]
fn network_default_policy_absent_defaults_to_block_on_any_version() {
    // wxc-exec is the trust boundary -- absent `defaultPolicy`
    // resolves to `Block` regardless of declared schema version.
    for version in ["0.4.0-alpha", "0.5.0-alpha", "0.6.0-alpha"] {
        let json = format!(
            r#"{{"version": "{}", "process": {{"commandLine": "echo x"}}}}"#,
            version
        );
        let encoded = base64_encode(json.as_bytes());
        let mut logger = test_logger();
        let req = load_request(&encoded, &mut logger, true, WINDOWS).unwrap();
        assert_eq!(
            req.policy.default_network_policy,
            NetworkPolicy::Block,
            "version {} should default to Block",
            version
        );
    }
}

#[test]
fn network_enforcement_mode_capabilities() {
    let json = r#"{"process": {"commandLine": "print('test')"}, "network": {"enforcementMode": "capabilities"}}"#;
    let encoded = base64_encode(json.as_bytes());
    let mut logger = test_logger();

    let req = load_request(&encoded, &mut logger, true, WINDOWS).unwrap();
    assert_eq!(
        req.policy.network_enforcement_mode,
        NetworkEnforcementMode::Capabilities
    );
}

#[test]
fn network_enforcement_mode_firewall() {
    let json = r#"{"process": {"commandLine": "print('test')"}, "network": {"enforcementMode": "firewall"}}"#;
    let encoded = base64_encode(json.as_bytes());
    let mut logger = test_logger();

    let req = load_request(&encoded, &mut logger, true, WINDOWS).unwrap();
    assert_eq!(
        req.policy.network_enforcement_mode,
        NetworkEnforcementMode::Firewall
    );
}

#[test]
fn network_enforcement_mode_both() {
    let json = r#"{"process": {"commandLine": "print('test')"}, "network": {"enforcementMode": "both"}}"#;
    let encoded = base64_encode(json.as_bytes());
    let mut logger = test_logger();

    let req = load_request(&encoded, &mut logger, true, WINDOWS).unwrap();
    assert_eq!(
        req.policy.network_enforcement_mode,
        NetworkEnforcementMode::Both
    );
}

#[test]
fn network_hosts() {
    let json = r#"{
        "process": {"commandLine": "print('test')"},
        "network": {
            "allowedHosts": ["example.com", "api.trusted.com"],
            "blockedHosts": ["malicious.com", "tracker.net"]
        }
    }"#;
    let encoded = base64_encode(json.as_bytes());
    let mut logger = test_logger();

    let req = load_request(&encoded, &mut logger, true, WINDOWS).unwrap();
    assert_eq!(req.policy.allowed_hosts.len(), 2);
    assert_eq!(req.policy.allowed_hosts[0], "example.com");
    assert_eq!(req.policy.allowed_hosts[1], "api.trusted.com");
    assert_eq!(req.policy.blocked_hosts.len(), 2);
    assert_eq!(req.policy.blocked_hosts[0], "malicious.com");
    assert_eq!(req.policy.blocked_hosts[1], "tracker.net");
}

#[test]
fn network_allow_local_network() {
    let json = r#"{
        "process": {"commandLine": "print('test')"},
        "network": {"allowLocalNetwork": true}
    }"#;
    let encoded = base64_encode(json.as_bytes());
    let mut logger = test_logger();

    let req = load_request(&encoded, &mut logger, true, WINDOWS).unwrap();
    assert!(req.policy.allow_local_network);
}

#[test]
fn network_allow_local_network_defaults_false() {
    let json = r#"{
        "process": {"commandLine": "print('test')"},
        "network": {}
    }"#;
    let encoded = base64_encode(json.as_bytes());
    let mut logger = test_logger();

    let req = load_request(&encoded, &mut logger, true, WINDOWS).unwrap();
    assert!(!req.policy.allow_local_network);
}

#[test]
fn filesystem_paths() {
    let json = r#"{
        "process": {"commandLine": "print('test')"},
        "filesystem": {
            "readwritePaths": ["C:\\Users\\Public", "C:\\Temp\\Data"],
            "deniedPaths": ["C:\\Windows\\System32", "C:\\Program Files"]
        }
    }"#;
    let encoded = base64_encode(json.as_bytes());
    let mut logger = test_logger();

    let req = load_request(&encoded, &mut logger, true, WINDOWS).unwrap();
    assert_eq!(req.policy.readwrite_paths.len(), 2);
    assert_eq!(req.policy.readwrite_paths[0], "C:\\Users\\Public");
    assert_eq!(req.policy.readwrite_paths[1], "C:\\Temp\\Data");
    assert_eq!(req.policy.denied_paths.len(), 2);
    assert_eq!(req.policy.denied_paths[0], "C:\\Windows\\System32");
    assert_eq!(req.policy.denied_paths[1], "C:\\Program Files");
}

#[test]
fn block_evil_filesystem_paths() {
    let json = r#"{
        "process": {"commandLine": "print('test')"},
        "filesystem": {
            "readwritePaths": ["C:\\My \"Evil\\Path"]
        }
    }"#;
    let encoded = base64_encode(json.as_bytes());
    let mut logger = test_logger();

    let result = load_request(&encoded, &mut logger, true, WINDOWS);
    assert!(result.is_err());
}

#[test]
fn base64_complex_config() {
    let json = r#"{
        "containerId": "TestContainer",
        "containment": "processcontainer",
        "process": {
            "commandLine": "import sys\nprint(sys.version)",
            "timeout": 10000
        },
        "processContainer": {
            "capabilities": ["internetClient", "privateNetworkClientServer"]
        }
    }"#;
    let encoded = base64_encode(json.as_bytes());
    let mut logger = test_logger();

    let req = load_request(&encoded, &mut logger, true, WINDOWS).unwrap();
    assert_eq!(req.script_code, "import sys\nprint(sys.version)");
    assert_eq!(req.script_timeout, 10000);
    assert_eq!(req.container_id, "TestContainer");
    assert_eq!(req.policy.capabilities.len(), 2);
}

#[test]
fn invalid_json_syntax() {
    let json = r#"{"process": {"commandLine": "print('test')"}, INVALID_JSON}"#;
    let encoded = base64_encode(json.as_bytes());
    let mut logger = test_logger();

    let result = load_request(&encoded, &mut logger, true, WINDOWS);
    assert!(result.is_err());
}

#[test]
fn default_timeout_is_zero() {
    let json = r#"{"process": {"commandLine": "echo hello"}}"#;
    let encoded = base64_encode(json.as_bytes());
    let mut logger = test_logger();

    let req = load_request(&encoded, &mut logger, true, WINDOWS).unwrap();
    assert_eq!(req.script_timeout, 0);
}

#[test]
fn allow_dacl_mutation_default_true() {
    let json = r#"{"process": {"commandLine": "echo hi"}}"#;
    let encoded = base64_encode(json.as_bytes());
    let mut logger = test_logger();
    let req = load_request(&encoded, &mut logger, true, WINDOWS).unwrap();
    assert!(req.policy.fallback.allow_dacl_mutation);
}

#[test]
fn allow_dacl_mutation_explicit_false() {
    let json = r#"{
        "process": {"commandLine": "echo hi"},
        "fallback": {"allowDaclMutation": false}
    }"#;
    let encoded = base64_encode(json.as_bytes());
    let mut logger = test_logger();
    let req = load_request(&encoded, &mut logger, true, WINDOWS).unwrap();
    assert!(!req.policy.fallback.allow_dacl_mutation);
}

#[test]
fn allow_dacl_mutation_explicit_true() {
    let json = r#"{
        "process": {"commandLine": "echo hi"},
        "fallback": {"allowDaclMutation": true}
    }"#;
    let encoded = base64_encode(json.as_bytes());
    let mut logger = test_logger();
    let req = load_request(&encoded, &mut logger, true, WINDOWS).unwrap();
    assert!(req.policy.fallback.allow_dacl_mutation);
}

// ====== Containment backend selection tests ======

#[test]
fn default_containment_resolves_per_target() {
    // Omitted `containment` resolves to the OS-native process sandbox:
    // ProcessContainer on Windows, Bubblewrap on Linux, Seatbelt on macOS.
    let json = r#"{"process": {"commandLine": "echo hello"}}"#;
    let encoded = base64_encode(json.as_bytes());
    let mut logger = test_logger();

    let req = load_request(&encoded, &mut logger, true, LINUX).unwrap();
    assert_eq!(req.containment, ContainmentBackend::Bubblewrap);
    let req = load_request(&encoded, &mut logger, true, MACOS).unwrap();
    assert_eq!(req.containment, ContainmentBackend::Seatbelt);
    let req = load_request(&encoded, &mut logger, true, WINDOWS).unwrap();
    assert_eq!(req.containment, ContainmentBackend::ProcessContainer);
}

#[test]
fn explicit_processcontainer_containment() {
    let json =
        r#"{"process": {"commandLine": "echo hello"}, "containment": "processcontainer"}"#;
    let encoded = base64_encode(json.as_bytes());
    let mut logger = test_logger();

    let req = load_request(&encoded, &mut logger, true, WINDOWS).unwrap();
    assert_eq!(req.containment, ContainmentBackend::ProcessContainer);
}

#[test]
fn process_containment_resolves_per_target() {
    // Abstract intent "process" resolves to the OS-native process sandbox:
    // ProcessContainer on Windows, Bubblewrap on Linux, Seatbelt on macOS.
    // Callers who want LXC (a full container) must request it explicitly
    // via `"containment": "lxc"`.
    let json = r#"{"process": {"commandLine": "echo hello"}, "containment": "process"}"#;
    let encoded = base64_encode(json.as_bytes());
    let mut logger = test_logger();

    let req = load_request(&encoded, &mut logger, true, LINUX).unwrap();
    assert_eq!(req.containment, ContainmentBackend::Bubblewrap);
    let req = load_request(&encoded, &mut logger, true, MACOS).unwrap();
    assert_eq!(req.containment, ContainmentBackend::Seatbelt);
    let req = load_request(&encoded, &mut logger, true, WINDOWS).unwrap();
    assert_eq!(req.containment, ContainmentBackend::ProcessContainer);
}

#[test]
fn explicit_lxc_containment_unaffected_by_default_shift() {
    // Regression guard: making bubblewrap the Linux default for the
    // abstract `"process"` intent must NOT change how explicit `"lxc"`
    // resolves. LXC remains available to any caller that asks for it.
    let json = r#"{"process": {"commandLine": "echo hello"}, "containment": "lxc"}"#;
    let encoded = base64_encode(json.as_bytes());
    let mut logger = test_logger();

    let req = load_request(&encoded, &mut logger, true, WINDOWS).unwrap();
    assert_eq!(req.containment, ContainmentBackend::Lxc);
}

#[test]
fn explicit_bubblewrap_containment_parses_cleanly() {
    // Bubblewrap no longer requires gating in the parser/SDK; explicit
    // `"bubblewrap"` should parse to the concrete backend on every
    // target without error. (Host availability is checked at runtime by
    // the runner, not here.)
    let json = r#"{"process": {"commandLine": "echo hello"}, "containment": "bubblewrap"}"#;
    let encoded = base64_encode(json.as_bytes());
    let mut logger = test_logger();

    let req = load_request(&encoded, &mut logger, true, WINDOWS).unwrap();
    assert_eq!(req.containment, ContainmentBackend::Bubblewrap);
}

#[test]
fn hyperlight_containment_value_parses() {
    // Lock in that `"hyperlight"` is accepted by the parser (mirrors
    // the `convert_raw_config_inner` arm and keeps `parse_containment_str`
    // in sync for the state-aware path).
    let json = r#"{"process": {"commandLine": "echo hello"}, "containment": "hyperlight"}"#;
    let encoded = base64_encode(json.as_bytes());
    let mut logger = test_logger();

    let req = load_request(&encoded, &mut logger, true, WINDOWS).unwrap();
    assert_eq!(req.containment, ContainmentBackend::Hyperlight);
}

#[test]
fn vm_containment_resolves_per_target() {
    // Abstract intent "vm" resolves to Windows Sandbox on Windows. On
    // other targets there is no concrete VM backend yet, so the parser
    // returns the historical `Vm` placeholder variant which the host
    // binaries surface as a "not implemented" error.
    let json = r#"{"process": {"commandLine": "echo hello"}, "containment": "vm"}"#;
    let encoded = base64_encode(json.as_bytes());
    let mut logger = test_logger();

    let req = load_request(&encoded, &mut logger, true, WINDOWS).unwrap();
    assert_eq!(req.containment, ContainmentBackend::WindowsSandbox);
    let req = load_request(&encoded, &mut logger, true, LINUX).unwrap();
    assert_eq!(req.containment, ContainmentBackend::Vm);
}

#[test]
fn sandbox_containment() {
    let json =
        r#"{"process": {"commandLine": "echo hello"}, "containment": "windows_sandbox"}"#;
    let encoded = base64_encode(json.as_bytes());
    let mut logger = test_logger();

    let req = load_request(&encoded, &mut logger, true, WINDOWS).unwrap();
    assert_eq!(req.containment, ContainmentBackend::WindowsSandbox);
}

#[test]
fn invalid_containment_value() {
    let json = r#"{"process": {"commandLine": "echo hello"}, "containment": "docker"}"#;
    let encoded = base64_encode(json.as_bytes());
    let mut logger = test_logger();

    let result = load_request(&encoded, &mut logger, true, WINDOWS);
    assert!(result.is_err());
}

#[test]
fn sandbox_config_defaults() {
    let json = r#"{"process": {"commandLine": "echo hello"}, "containment": "windows_sandbox", "experimental": {"windows_sandbox": {}}}"#;
    let encoded = base64_encode(json.as_bytes());
    let mut logger = test_logger();

    let req = load_request(&encoded, &mut logger, true, WINDOWS).unwrap();
    let sandbox = req.experimental.windows_sandbox.unwrap();
    assert_eq!(sandbox.idle_timeout_ms, 300_000);
    assert_eq!(sandbox.daemon_pipe_name, "wxc-windows-sandbox");
}

#[test]
fn sandbox_config_custom_values() {
    let json = r#"{
        "process": {"commandLine": "echo hello"},
        "containment": "windows_sandbox",
        "experimental": {
            "windows_sandbox": {
                "idleTimeoutMs": 60000,
                "daemonPipeName": "my-custom-pipe"
            }
        }
    }"#;
    let encoded = base64_encode(json.as_bytes());
    let mut logger = test_logger();

    let req = load_request(&encoded, &mut logger, true, WINDOWS).unwrap();
    let sandbox = req.experimental.windows_sandbox.unwrap();
    assert_eq!(sandbox.idle_timeout_ms, 60000);
    assert_eq!(sandbox.daemon_pipe_name, "my-custom-pipe");
}

// ====== Network proxy configuration tests ======

#[test]
fn no_proxy_leaves_default() {
    let json =
        r#"{"process": {"commandLine": "echo test"}, "network": {"defaultPolicy": "block"}}"#;
    let encoded = base64_encode(json.as_bytes());
    let mut logger = test_logger();

    let req = load_request(&encoded, &mut logger, true, WINDOWS).unwrap();
    assert!(!req.policy.network_proxy.is_enabled());
}

#[test]
fn proxy_localhost_port() {
    let json = r#"{
        "process": {"commandLine": "echo test"},
        "containment": "processcontainer",
        "network": {
            "proxy": { "localhost": 8080 }
        }
    }"#;
    let encoded = base64_encode(json.as_bytes());
    let mut logger = test_logger();

    let req = load_request(&encoded, &mut logger, true, WINDOWS).unwrap();
    assert!(req.policy.network_proxy.is_enabled());
    assert_eq!(
        req.policy.network_proxy.address.as_ref().unwrap().port(),
        8080
    );
}

#[test]
fn proxy_url_parsed() {
    let json = r#"{
        "process": {"commandLine": "echo test"},
        "containment": "processcontainer",
        "network": {
            "proxy": { "url": "http://localhost:3128" }
        }
    }"#;
    let encoded = base64_encode(json.as_bytes());
    let mut logger = test_logger();

    let req = load_request(&encoded, &mut logger, true, WINDOWS).unwrap();
    assert!(req.policy.network_proxy.is_enabled());
    let addr = req.policy.network_proxy.address.as_ref().unwrap();
    assert_eq!(addr.port(), 3128);
    assert_eq!(addr.host(), "localhost");
}

#[test]
fn proxy_url_non_localhost() {
    let json = r#"{
        "process": {"commandLine": "echo test"},
        "containment": "processcontainer",
        "network": {
            "proxy": { "url": "http://proxy.example.com:8080" }
        }
    }"#;
    let encoded = base64_encode(json.as_bytes());
    let mut logger = test_logger();

    let req = load_request(&encoded, &mut logger, true, WINDOWS).unwrap();
    let addr = req.policy.network_proxy.address.as_ref().unwrap();
    assert_eq!(addr.port(), 8080);
    assert_eq!(addr.host(), "proxy.example.com");
}

#[test]
fn proxy_url_missing_port() {
    let json =
        r#"{"process":{"commandLine":"x"},"network":{"proxy":{"url":"http://localhost"}}}"#;
    let encoded = base64_encode(json.as_bytes());
    let mut logger = test_logger();

    let result = load_request(&encoded, &mut logger, true, WINDOWS);
    assert!(result.is_err());
}

#[test]
fn proxy_url_ipv6_loopback() {
    let json = r#"{
        "process": {"commandLine": "echo test"},
        "containment": "processcontainer",
        "network": {
            "proxy": { "url": "http://[::1]:8080" }
        }
    }"#;
    let encoded = base64_encode(json.as_bytes());
    let mut logger = test_logger();

    let req = load_request(&encoded, &mut logger, true, WINDOWS).unwrap();
    let addr = req.policy.network_proxy.address.as_ref().unwrap();
    assert_eq!(addr.port(), 8080);
    assert_eq!(addr.host(), "[::1]");
}

#[test]
fn proxy_with_firewall_fields() {
    let json = r#"{
        "process": {"commandLine": "echo test"},
        "containment": "processcontainer",
        "network": {
            "defaultPolicy": "block",
            "allowedHosts": ["api.github.com"],
            "proxy": { "localhost": 9090 }
        }
    }"#;
    let encoded = base64_encode(json.as_bytes());
    let mut logger = test_logger();

    let req = load_request(&encoded, &mut logger, true, WINDOWS).unwrap();
    assert_eq!(
        req.policy.network_proxy.address.as_ref().unwrap().port(),
        9090
    );
    assert_eq!(req.policy.default_network_policy, NetworkPolicy::Block);
}

#[test]
fn proxy_rejected_with_non_processcontainer() {
    let json = r#"{"process":{"commandLine":"x"},"containment":"lxc","network":{"proxy":{"localhost":8080}}}"#;
    let encoded = base64_encode(json.as_bytes());
    let mut logger = test_logger();

    let result = load_request(&encoded, &mut logger, true, WINDOWS);
    assert!(result.is_err());
}

#[test]
fn proxy_rejects_port_zero() {
    let json = r#"{"process":{"commandLine":"x"},"network":{"proxy":{"localhost":0}}}"#;
    let encoded = base64_encode(json.as_bytes());
    let mut logger = test_logger();

    let result = load_request(&encoded, &mut logger, true, WINDOWS);
    assert!(result.is_err());
}

#[test]
fn proxy_rejects_missing_localhost() {
    let json = r#"{"process":{"commandLine":"x"},"network":{"proxy":{}}}"#;
    let encoded = base64_encode(json.as_bytes());
    let mut logger = test_logger();

    let result = load_request(&encoded, &mut logger, true, WINDOWS);
    assert!(result.is_err());
}

#[test]
fn proxy_rejects_non_object() {
    let json = r#"{"process":{"commandLine":"x"},"network":{"proxy":true}}"#;
    let encoded = base64_encode(json.as_bytes());
    let mut logger = test_logger();

    let result = load_request(&encoded, &mut logger, true, WINDOWS);
    assert!(result.is_err());
}

#[test]
fn proxy_builtin_test_server() {
    let json = r#"{
        "process": {"commandLine": "echo test"},
        "containment": "processcontainer",
        "network": {
            "proxy": { "builtinTestServer": true }
        }
    }"#;
    let encoded = base64_encode(json.as_bytes());
    let mut logger = test_logger();

    let req = load_request(&encoded, &mut logger, true, WINDOWS).unwrap();
    assert!(req.policy.network_proxy.is_enabled());
    assert!(req.policy.network_proxy.builtin_test_server);
    assert!(req.policy.network_proxy.address.is_some());
}

#[test]
fn proxy_builtin_test_server_rejects_extra_keys() {
    let json = r#"{"process":{"commandLine":"x"},"network":{"proxy":{"builtinTestServer":true,"localhost":8080}}}"#;
    let encoded = base64_encode(json.as_bytes());
    let mut logger = test_logger();

    let result = load_request(&encoded, &mut logger, true, WINDOWS);
    assert!(result.is_err());
}

#[test]
fn proxy_builtin_test_server_rejects_false() {
    let json =
        r#"{"process":{"commandLine":"x"},"network":{"proxy":{"builtinTestServer":false}}}"#;
    let encoded = base64_encode(json.as_bytes());
    let mut logger = test_logger();

    let result = load_request(&encoded, &mut logger, true, WINDOWS);
    assert!(result.is_err());
}

#[test]
fn proxy_builtin_test_server_rejected_with_non_processcontainer() {
    // lxc is not allowed -- proxy is gated to processcontainer + bubblewrap.
    let json = r#"{"process":{"commandLine":"x"},"containment":"lxc","network":{"proxy":{"builtinTestServer":true}}}"#;
    let encoded = base64_encode(json.as_bytes());
    let mut logger = test_logger();

    let result = load_request(&encoded, &mut logger, true, WINDOWS);
    assert!(result.is_err());
}

#[test]
fn proxy_accepted_with_bubblewrap() {
    let json = r#"{
        "version": "0.6.0-alpha",
        "platform": "linux",
        "containment": "bubblewrap",
        "process": {"commandLine": "echo hi"},
        "network": {"proxy": {"builtinTestServer": true}}
    }"#;
    let encoded = base64_encode(json.as_bytes());
    let mut logger = test_logger();

    let req = load_request(&encoded, &mut logger, true, WINDOWS).unwrap();
    assert!(req.policy.network_proxy.is_enabled());
    assert!(req.policy.network_proxy.builtin_test_server);
}

#[test]
fn proxy_with_bubblewrap_and_firewall_enforcement_is_rejected() {
    let json = r#"{
        "version": "0.6.0-alpha",
        "platform": "linux",
        "containment": "bubblewrap",
        "process": {"commandLine": "echo hi"},
        "network": {
            "proxy": {"builtinTestServer": true},
            "enforcementMode": "firewall",
            "allowedHosts": ["example.com"]
        }
    }"#;
    let encoded = base64_encode(json.as_bytes());
    let mut logger = test_logger();

    let err = load_request(&encoded, &mut logger, true, WINDOWS).err().unwrap();
    let msg = err.message();
    assert!(
        msg.contains("network.proxy cannot be combined with"),
        "unexpected error message: {}",
        msg
    );
}

#[test]
fn proxy_with_bubblewrap_and_both_enforcement_is_rejected() {
    let json = r#"{
        "version": "0.6.0-alpha",
        "platform": "linux",
        "containment": "bubblewrap",
        "process": {"commandLine": "echo hi"},
        "network": {
            "proxy": {"builtinTestServer": true},
            "enforcementMode": "both",
            "blockedHosts": ["evil.example"]
        }
    }"#;
    let encoded = base64_encode(json.as_bytes());
    let mut logger = test_logger();

    assert!(load_request(&encoded, &mut logger, true, WINDOWS).is_err());
}

#[test]
fn proxy_with_bubblewrap_and_capabilities_enforcement_is_accepted() {
    // Capabilities mode never invokes iptables, so combining it with a
    // proxy is fine and must NOT trigger the conflict guard.
    let json = r#"{
        "version": "0.6.0-alpha",
        "platform": "linux",
        "containment": "bubblewrap",
        "process": {"commandLine": "echo hi"},
        "network": {
            "proxy": {"builtinTestServer": true},
            "enforcementMode": "capabilities",
            "allowedHosts": ["example.com"]
        }
    }"#;
    let encoded = base64_encode(json.as_bytes());
    let mut logger = test_logger();

    let req = load_request(&encoded, &mut logger, true, WINDOWS).unwrap();
    assert!(req.policy.network_proxy.is_enabled());
    assert_eq!(req.policy.allowed_hosts, vec!["example.com".to_string()]);
}

#[test]
fn external_proxy_url_with_bubblewrap_and_allowed_hosts_is_rejected() {
    // The external proxy enforces its own policy; the runner does not
    // forward host lists to it. Combining the two is a silent
    // policy-weakening trap and must be rejected at parse time.
    let json = r#"{
        "version": "0.6.0-alpha",
        "platform": "linux",
        "containment": "bubblewrap",
        "process": {"commandLine": "echo hi"},
        "network": {
            "proxy": {"url": "http://127.0.0.1:8080"},
            "allowedHosts": ["api.github.com"]
        }
    }"#;
    let encoded = base64_encode(json.as_bytes());
    let mut logger = test_logger();

    let err = load_request(&encoded, &mut logger, true, WINDOWS).err().unwrap();
    let msg = err.message();
    assert!(
        msg.contains("external network.proxy") && msg.contains("allowedHosts"),
        "unexpected error message: {}",
        msg
    );
}

#[test]
fn external_proxy_localhost_with_bubblewrap_and_blocked_hosts_is_rejected() {
    let json = r#"{
        "version": "0.6.0-alpha",
        "platform": "linux",
        "containment": "bubblewrap",
        "process": {"commandLine": "echo hi"},
        "network": {
            "proxy": {"localhost": 8080},
            "blockedHosts": ["evil.example.com"]
        }
    }"#;
    let encoded = base64_encode(json.as_bytes());
    let mut logger = test_logger();

    let err = load_request(&encoded, &mut logger, true, WINDOWS).err().unwrap();
    assert!(err.message().contains("external network.proxy"));
}

#[test]
fn external_proxy_with_bubblewrap_and_default_block_is_rejected() {
    // defaultPolicy=block is a hard-block intent; pairing it with an
    // external proxy whose policy we don't control silently weakens
    // enforcement.
    let json = r#"{
        "version": "0.6.0-alpha",
        "platform": "linux",
        "containment": "bubblewrap",
        "process": {"commandLine": "echo hi"},
        "network": {
            "proxy": {"url": "http://127.0.0.1:8080"},
            "defaultPolicy": "block"
        }
    }"#;
    let encoded = base64_encode(json.as_bytes());
    let mut logger = test_logger();

    let err = load_request(&encoded, &mut logger, true, WINDOWS).err().unwrap();
    assert!(err.message().contains("defaultPolicy"));
}

#[test]
fn external_proxy_with_bubblewrap_and_no_host_policy_is_accepted() {
    // Pure delegate-to-external-proxy with no MXC-side host policy is
    // the supported external-proxy use case. Under deny-by-default,
    // callers must explicitly set `defaultPolicy: "allow"` to opt
    // into trusting the external proxy with full policy delegation.
    let json = r#"{
        "version": "0.6.0-alpha",
        "platform": "linux",
        "containment": "bubblewrap",
        "process": {"commandLine": "echo hi"},
        "network": {
            "proxy": {"url": "http://127.0.0.1:8080"},
            "defaultPolicy": "allow"
        }
    }"#;
    let encoded = base64_encode(json.as_bytes());
    let mut logger = test_logger();

    let req = load_request(&encoded, &mut logger, true, WINDOWS).unwrap();
    assert!(req.policy.network_proxy.is_enabled());
    assert!(!req.policy.network_proxy.builtin_test_server);
}

#[test]
fn builtin_proxy_with_bubblewrap_and_host_policy_is_accepted() {
    // The builtin proxy DOES enforce host lists at the proxy layer, so
    // combining it with allowedHosts is fine.
    let json = r#"{
        "version": "0.6.0-alpha",
        "platform": "linux",
        "containment": "bubblewrap",
        "process": {"commandLine": "echo hi"},
        "network": {
            "proxy": {"builtinTestServer": true},
            "allowedHosts": ["api.github.com"],
            "defaultPolicy": "block"
        }
    }"#;
    let encoded = base64_encode(json.as_bytes());
    let mut logger = test_logger();

    let req = load_request(&encoded, &mut logger, true, WINDOWS).unwrap();
    assert!(req.policy.network_proxy.builtin_test_server);
    assert_eq!(req.policy.allowed_hosts, vec!["api.github.com".to_string()]);
}

#[test]
fn bubblewrap_proxy_with_default_block_and_empty_allowlist_warns() {
    // Cooperative mode with no allowlist denies HTTP_PROXY-aware clients
    // but raw-socket clients still reach the host network. Parser must
    // surface a warning (does not reject).
    let json = r#"{
        "version": "0.6.0-alpha",
        "platform": "linux",
        "containment": "bubblewrap",
        "process": {"commandLine": "echo hi"},
        "network": {
            "proxy": {"builtinTestServer": true},
            "defaultPolicy": "block"
        }
    }"#;
    let encoded = base64_encode(json.as_bytes());
    let mut logger = test_logger();

    let req = load_request(&encoded, &mut logger, true, WINDOWS).unwrap();
    assert!(req.policy.network_proxy.is_enabled());
    assert_eq!(req.policy.default_network_policy, NetworkPolicy::Block);
    // Warning is best-effort surfaced via the logger; the request still
    // succeeds.
}

#[test]
fn new_toplevel_fields_parsed() {
    let json = r#"{"version": "0.4.0-alpha", "containerId": "abc-123", "platform": "linux", "containment": "lxc", "process": {"commandLine": "echo hi"}}"#;
    let encoded = base64_encode(json.as_bytes());
    let mut logger = test_logger();

    let req = load_request(&encoded, &mut logger, true, WINDOWS).unwrap();
    assert_eq!(req.schema_version, "0.4.0-alpha");
    assert_eq!(req.container_id, "abc-123");
    assert_eq!(req.platform, "linux");
}

#[test]
fn new_toplevel_fields_default_when_absent() {
    let json = r#"{"process": {"commandLine": "echo hi"}}"#;
    let encoded = base64_encode(json.as_bytes());
    let mut logger = test_logger();

    let req = load_request(&encoded, &mut logger, true, WINDOWS).unwrap();
    assert_eq!(req.schema_version, "");
    assert_eq!(req.container_id, "");
    assert_eq!(req.platform, "windows");
}

#[test]
fn process_section_env_parsed() {
    let json = r#"{
        "process": {
            "commandLine": "echo hi",
            "env": ["FOO=bar", "BAZ=qux"]
        }
    }"#;
    let encoded = base64_encode(json.as_bytes());
    let mut logger = test_logger();

    let req = load_request(&encoded, &mut logger, true, WINDOWS).unwrap();
    assert_eq!(req.env, vec!["FOO=bar", "BAZ=qux"]);
}

#[test]
fn process_section_cwd_parsed() {
    let json = r#"{
        "process": {
            "commandLine": "echo hi",
            "cwd": "/workspace"
        }
    }"#;
    let encoded = base64_encode(json.as_bytes());
    let mut logger = test_logger();

    let req = load_request(&encoded, &mut logger, true, WINDOWS).unwrap();
    assert_eq!(req.working_directory, "/workspace");
}

#[test]
fn process_section_timeout_parsed() {
    let json = r#"{
        "process": {
            "commandLine": "echo hi",
            "timeout": 9000
        }
    }"#;
    let encoded = base64_encode(json.as_bytes());
    let mut logger = test_logger();

    let req = load_request(&encoded, &mut logger, true, WINDOWS).unwrap();
    assert_eq!(req.script_timeout, 9000);
}

#[test]
fn containment_microvm_accepted() {
    let json = r#"{"process": {"commandLine": "echo hi"}, "containment": "microvm"}"#;
    let encoded = base64_encode(json.as_bytes());
    let mut logger = test_logger();

    let req = load_request(&encoded, &mut logger, true, WINDOWS).unwrap();
    assert_eq!(req.containment, ContainmentBackend::MicroVm);
}

#[test]
fn schema_version_too_new_rejected() {
    let json = r#"{"process": {"commandLine": "echo hi"}, "version": "0.8.0"}"#;
    let encoded = base64_encode(json.as_bytes());
    let mut logger = test_logger();

    let result = load_request(&encoded, &mut logger, true, WINDOWS);
    assert!(result.is_err());
}

#[test]
fn schema_version_0_7_alpha_accepted() {
    let json = r#"{"process": {"commandLine": "echo hi"}, "version": "0.7.0-alpha"}"#;
    let encoded = base64_encode(json.as_bytes());
    let mut logger = test_logger();

    let req = load_request(&encoded, &mut logger, true, WINDOWS).unwrap();
    assert_eq!(req.schema_version, "0.7.0-alpha");
}

#[test]
fn schema_version_current_accepted() {
    let json = format!(
        r#"{{"process": {{"commandLine": "echo hi"}}, "version": "{}"}}"#,
        CURRENT_SCHEMA_VERSION
    );
    let encoded = base64_encode(json.as_bytes());
    let mut logger = test_logger();

    let req = load_request(&encoded, &mut logger, true, WINDOWS).unwrap();
    assert_eq!(req.schema_version, CURRENT_SCHEMA_VERSION);
}

#[test]
fn schema_version_0_5_still_accepted() {
    let json = r#"{"process": {"commandLine": "echo hi"}, "version": "0.5.0-alpha"}"#;
    let encoded = base64_encode(json.as_bytes());
    let mut logger = test_logger();

    let req = load_request(&encoded, &mut logger, true, WINDOWS).unwrap();
    assert_eq!(req.schema_version, "0.5.0-alpha");
}

#[test]
fn schema_version_state_aware_06_accepted() {
    // 0.6 is the state-aware schema version (SDK side bumps to it for
    // provision/start/exec/stop/deprovision envelopes); the parser must
    // accept it on the same path used for one-shot 0.5 requests.
    let json = r#"{"process": {"commandLine": "echo hi"}, "version": "0.6.0-alpha"}"#;
    let encoded = base64_encode(json.as_bytes());
    let mut logger = test_logger();

    let req = load_request(&encoded, &mut logger, true, WINDOWS).unwrap();
    assert_eq!(req.schema_version, "0.6.0-alpha");
}

#[test]
fn schema_version_older_accepted() {
    let json = r#"{"process": {"commandLine": "echo hi"}, "version": "0.4.0-alpha"}"#;
    let encoded = base64_encode(json.as_bytes());
    let mut logger = test_logger();

    let req = load_request(&encoded, &mut logger, true, WINDOWS).unwrap();
    assert_eq!(req.schema_version, "0.4.0-alpha");
}

#[test]
fn schema_version_too_old_rejected() {
    let json = r#"{"process": {"commandLine": "echo hi"}, "version": "0.3.0-alpha"}"#;
    let encoded = base64_encode(json.as_bytes());
    let mut logger = test_logger();

    let result = load_request(&encoded, &mut logger, true, WINDOWS);
    assert!(result.is_err());
}

#[test]
fn full_config_with_0_5_0_alpha_accepted() {
    let json = r#"{
        "version": "0.5.0-alpha",
        "containerId": "test-050",
        "containment": "processcontainer",
        "process": { "commandLine": "echo hello", "timeout": 5000 },
        "filesystem": { "readwritePaths": ["C:\\workspace"] },
        "network": { "defaultPolicy": "block" }
    }"#;
    let encoded = base64_encode(json.as_bytes());
    let mut logger = test_logger();

    let req = load_request(&encoded, &mut logger, true, WINDOWS).unwrap();
    assert_eq!(req.schema_version, "0.5.0-alpha");
    assert_eq!(req.container_id, "test-050");
    assert_eq!(req.script_timeout, 5000);
    assert_eq!(req.policy.readwrite_paths, vec!["C:\\workspace"]);
}

#[test]
fn schema_version_absent_accepted() {
    let json = r#"{"process": {"commandLine": "echo hi"}}"#;
    let encoded = base64_encode(json.as_bytes());
    let mut logger = test_logger();

    let req = load_request(&encoded, &mut logger, true, WINDOWS).unwrap();
    assert_eq!(req.schema_version, "");
}

#[test]
fn schema_version_non_semver_rejected() {
    let json = r#"{"process": {"commandLine": "echo hi"}, "version": "x"}"#;
    let encoded = base64_encode(json.as_bytes());
    let mut logger = test_logger();

    let result = load_request(&encoded, &mut logger, true, WINDOWS);
    assert!(result.is_err());
}

#[test]
fn schema_version_major_only_rejected() {
    let json = r#"{"process": {"commandLine": "echo hi"}, "version": "2"}"#;
    let encoded = base64_encode(json.as_bytes());
    let mut logger = test_logger();

    let result = load_request(&encoded, &mut logger, true, WINDOWS);
    assert!(result.is_err());
}

#[test]
fn schema_version_future_major_rejected() {
    let json = r#"{"process": {"commandLine": "echo hi"}, "version": "1.0.0"}"#;
    let encoded = base64_encode(json.as_bytes());
    let mut logger = test_logger();

    let result = load_request(&encoded, &mut logger, true, WINDOWS);
    assert!(result.is_err());
}

#[test]
fn sandbox_idle_timeout_ms_accepted() {
    let json = r#"{"process": {"commandLine": "echo hi"}, "containment": "windows_sandbox", "experimental": {"windows_sandbox": {"idleTimeoutMs": 60000}}}"#;
    let encoded = base64_encode(json.as_bytes());
    let mut logger = test_logger();

    let req = load_request(&encoded, &mut logger, true, WINDOWS).unwrap();
    assert_eq!(
        req.experimental.windows_sandbox.unwrap().idle_timeout_ms,
        60000
    );
}

#[test]
fn sandbox_idle_timeout_ms_overrides_idle_timeout() {
    let json = r#"{"process": {"commandLine": "echo hi"}, "containment": "windows_sandbox", "experimental": {"windows_sandbox": {"idleTimeout": 10000, "idleTimeoutMs": 60000}}}"#;
    let encoded = base64_encode(json.as_bytes());
    let mut logger = test_logger();

    let req = load_request(&encoded, &mut logger, true, WINDOWS).unwrap();
    assert_eq!(
        req.experimental.windows_sandbox.unwrap().idle_timeout_ms,
        60000
    );
}

#[test]
fn container_id_parsed() {
    let json = r#"{"process": {"commandLine": "echo hi"}, "containerId": "my-container"}"#;
    let encoded = base64_encode(json.as_bytes());
    let mut logger = test_logger();

    let req = load_request(&encoded, &mut logger, true, WINDOWS).unwrap();
    assert_eq!(req.container_id, "my-container");
}

#[test]
fn lifecycle_destroy_on_exit_parsed() {
    let json =
        r#"{"process": {"commandLine": "echo hi"}, "lifecycle": {"destroyOnExit": false}}"#;
    let encoded = base64_encode(json.as_bytes());
    let mut logger = test_logger();

    let req = load_request(&encoded, &mut logger, true, WINDOWS).unwrap();
    assert!(!req.lifecycle.destroy_on_exit);
}

#[test]
fn lifecycle_preserve_policy_parsed() {
    let json =
        r#"{"process": {"commandLine": "echo hi"}, "lifecycle": {"preservePolicy": true}}"#;
    let encoded = base64_encode(json.as_bytes());
    let mut logger = test_logger();

    let req = load_request(&encoded, &mut logger, true, WINDOWS).unwrap();
    assert!(req.lifecycle.preserve_policy);
}

#[test]
fn lifecycle_defaults_when_absent() {
    let json = r#"{"process": {"commandLine": "echo hi"}}"#;
    let encoded = base64_encode(json.as_bytes());
    let mut logger = test_logger();

    let req = load_request(&encoded, &mut logger, true, WINDOWS).unwrap();
    assert!(req.lifecycle.destroy_on_exit);
    assert!(!req.lifecycle.preserve_policy);
}

#[test]
fn wslc_section_parsed() {
    let json = r#"{"process": {"commandLine": "echo hi"}, "containment": "wslc", "experimental": {"wslc": {"image": "python:3.12"}}}"#;
    let encoded = base64_encode(json.as_bytes());
    let mut logger = test_logger();

    let req = load_request(&encoded, &mut logger, true, WINDOWS).unwrap();
    let wslc = req.experimental.wslc.unwrap();
    assert_eq!(wslc.image, "python:3.12");
    assert!(wslc.image_tar_path.is_none());
}

#[test]
fn wslc_image_tar_path_parsed() {
    let json = r#"{"process": {"commandLine": "echo hi"}, "containment": "wslc", "experimental": {"wslc": {"image": "my-image:latest", "imageTarPath": "C:\\images\\alpine.tar"}}}"#;
    let encoded = base64_encode(json.as_bytes());
    let mut logger = test_logger();

    let req = load_request(&encoded, &mut logger, true, WINDOWS).unwrap();
    let wslc = req.experimental.wslc.unwrap();
    assert_eq!(wslc.image, "my-image:latest");
    assert_eq!(
        wslc.image_tar_path.as_deref(),
        Some("C:\\images\\alpine.tar")
    );
}

#[test]
fn wslc_port_mappings_parsed() {
    let json = r#"{"process": {"commandLine": "echo hi"}, "containment": "wslc", "experimental": {"wslc": {"image": "python:3.12", "portMappings": [{"windowsPort": 8080, "containerPort": 80, "protocol": "tcp"}, {"windowsPort": 5353, "containerPort": 53, "protocol": "udp"}]}}}"#;
    let encoded = base64_encode(json.as_bytes());
    let mut logger = test_logger();

    let req = load_request(&encoded, &mut logger, true, WINDOWS).unwrap();
    let wslc = req.experimental.wslc.unwrap();
    assert_eq!(wslc.port_mappings.len(), 2);
    assert_eq!(wslc.port_mappings[0].windows_port, 8080);
    assert_eq!(wslc.port_mappings[0].container_port, 80);
    assert_eq!(wslc.port_mappings[0].protocol, "tcp");
    assert_eq!(wslc.port_mappings[1].protocol, "udp");
}

#[test]
fn wslc_port_mappings_default_protocol_is_tcp() {
    let json = r#"{"process": {"commandLine": "echo hi"}, "containment": "wslc", "experimental": {"wslc": {"image": "python:3.12", "portMappings": [{"windowsPort": 8080, "containerPort": 80}]}}}"#;
    let encoded = base64_encode(json.as_bytes());
    let mut logger = test_logger();

    let req = load_request(&encoded, &mut logger, true, WINDOWS).unwrap();
    let wslc = req.experimental.wslc.unwrap();
    assert_eq!(wslc.port_mappings[0].protocol, "tcp");
}

#[test]
fn wslc_port_mappings_missing_windows_port_rejected() {
    let json = r#"{"process": {"commandLine": "echo hi"}, "containment": "wslc", "experimental": {"wslc": {"image": "python:3.12", "portMappings": [{"containerPort": 80}]}}}"#;
    let encoded = base64_encode(json.as_bytes());
    let mut logger = test_logger();

    assert!(load_request(&encoded, &mut logger, true, WINDOWS).is_err());
}

#[test]
fn wslc_port_mappings_zero_port_rejected() {
    let json = r#"{"process": {"commandLine": "echo hi"}, "containment": "wslc", "experimental": {"wslc": {"image": "python:3.12", "portMappings": [{"windowsPort": 0, "containerPort": 80}]}}}"#;
    let encoded = base64_encode(json.as_bytes());
    let mut logger = test_logger();

    assert!(load_request(&encoded, &mut logger, true, WINDOWS).is_err());
}

#[test]
fn wslc_port_mappings_invalid_protocol_rejected() {
    let json = r#"{"process": {"commandLine": "echo hi"}, "containment": "wslc", "experimental": {"wslc": {"image": "python:3.12", "portMappings": [{"windowsPort": 8080, "containerPort": 80, "protocol": "sctp"}]}}}"#;
    let encoded = base64_encode(json.as_bytes());
    let mut logger = test_logger();

    assert!(load_request(&encoded, &mut logger, true, WINDOWS).is_err());
}

// ---------- Experimental feature tests ----------

#[test]
fn experimental_section_parsed_when_present() {
    let json = r#"{"process": {"commandLine": "echo hi"}, "experimental": {"test": {"message": "world"}}}"#;
    let encoded = base64_encode(json.as_bytes());
    let mut logger = test_logger();

    let req = load_request(&encoded, &mut logger, true, WINDOWS).unwrap();
    assert!(req.experimental.test.is_some());
    assert_eq!(req.experimental.test.unwrap().message, "world");
}

#[test]
fn experimental_section_absent_is_ok() {
    let json = r#"{"process": {"commandLine": "echo hi"}}"#;
    let encoded = base64_encode(json.as_bytes());
    let mut logger = test_logger();

    let req = load_request(&encoded, &mut logger, true, WINDOWS).unwrap();
    assert!(req.experimental.test.is_none());
}

#[test]
fn experimental_enabled_defaults_to_false() {
    let json = r#"{"process": {"commandLine": "echo hi"}, "experimental": {"test": {"message": "check"}}}"#;
    let encoded = base64_encode(json.as_bytes());
    let mut logger = test_logger();

    let req = load_request(&encoded, &mut logger, true, WINDOWS).unwrap();
    assert!(!req.experimental_enabled);
}

#[test]
fn unknown_experimental_fields_ignored() {
    let json = r#"{"process": {"commandLine": "echo hi"}, "experimental": {"futureFeature": {"x": 1}, "test": {"message": "hi"}}}"#;
    let encoded = base64_encode(json.as_bytes());
    let mut logger = test_logger();

    let req = load_request(&encoded, &mut logger, true, WINDOWS).unwrap();
    assert!(req.experimental.test.is_some());
}

#[test]
fn experimental_test_message_parsed() {
    let json = r#"{"process": {"commandLine": "echo hi"}, "experimental": {"test": {"message": "greetings"}}}"#;
    let encoded = base64_encode(json.as_bytes());
    let mut logger = test_logger();

    let req = load_request(&encoded, &mut logger, true, WINDOWS).unwrap();
    let test = req.experimental.test.unwrap();
    assert_eq!(test.message, "greetings");
}

#[test]
fn experimental_test_default_message() {
    let json = r#"{"process": {"commandLine": "echo hi"}, "experimental": {"test": {}}}"#;
    let encoded = base64_encode(json.as_bytes());
    let mut logger = test_logger();

    let req = load_request(&encoded, &mut logger, true, WINDOWS).unwrap();
    let test = req.experimental.test.unwrap();
    assert!(test.message.is_empty());
}

#[test]
fn ui_section_parsed() {
    let json = r#"{"process": {"commandLine": "echo hi"}, "ui": {"disable": false, "clipboard": "read", "injection": true}}"#;
    let encoded = base64_encode(json.as_bytes());
    let mut logger = test_logger();

    let req = load_request(&encoded, &mut logger, true, WINDOWS).unwrap();
    assert!(!req.policy.ui.disable);
    assert_eq!(req.policy.ui.clipboard, ClipboardPolicy::Read);
    assert!(req.policy.ui.injection);
}

#[test]
fn ui_section_defaults_when_omitted() {
    let json = r#"{"process": {"commandLine": "echo hi"}}"#;
    let encoded = base64_encode(json.as_bytes());
    let mut logger = test_logger();

    let req = load_request(&encoded, &mut logger, true, WINDOWS).unwrap();
    assert!(req.policy.ui.disable); // default-deny: UI disabled
    assert_eq!(req.policy.ui.clipboard, ClipboardPolicy::Denied);
    assert!(!req.policy.ui.injection);
}

#[test]
fn ui_clipboard_all_parsed() {
    let json = r#"{"process": {"commandLine": "echo hi"}, "ui": {"clipboard": "all"}}"#;
    let encoded = base64_encode(json.as_bytes());
    let mut logger = test_logger();

    let req = load_request(&encoded, &mut logger, true, WINDOWS).unwrap();
    assert_eq!(req.policy.ui.clipboard, ClipboardPolicy::All);
}

#[test]
fn is_base_container_version_recognizes_050() {
    assert!(is_base_container_version("0.5.0-alpha"));
    assert!(is_base_container_version("0.5.0"));
    assert!(is_base_container_version("0.5.1"));
    assert!(is_base_container_version("0.6.0"));
    assert!(is_base_container_version("1.0.0"));
}

#[test]
fn is_base_container_version_rejects_040() {
    assert!(!is_base_container_version("0.4.0-alpha"));
    assert!(!is_base_container_version("0.4.0"));
    assert!(!is_base_container_version("0.4.9"));
    assert!(!is_base_container_version(""));
    assert!(!is_base_container_version("not-a-version"));
}

// ====== Isolation Session containment and config tests ======

#[test]
fn containment_isolation_session_accepted() {
    let json = r#"{"process": {"commandLine": "echo hi"}, "containment": "isolation_session"}"#;
    let encoded = base64_encode(json.as_bytes());
    let mut logger = test_logger();

    let req = load_request(&encoded, &mut logger, true, WINDOWS).unwrap();
    assert_eq!(req.containment, ContainmentBackend::IsolationSession);
}

#[test]
fn isolation_session_config_defaults() {
    let json = r#"{"process": {"commandLine": "echo hi"}, "containment": "isolation_session", "experimental": {"isolation_session": {}}}"#;
    let encoded = base64_encode(json.as_bytes());
    let mut logger = test_logger();

    let req = load_request(&encoded, &mut logger, true, WINDOWS).unwrap();
    let cfg = req.experimental.isolation_session.unwrap();
    assert_eq!(
        cfg.configuration_id,
        IsolationSessionConfigurationId::Composable
    );
}

#[test]
fn isolation_session_config_small() {
    let json = r#"{"process": {"commandLine": "echo hi"}, "containment": "isolation_session", "experimental": {"isolation_session": {"configurationId": "small"}}}"#;
    let encoded = base64_encode(json.as_bytes());
    let mut logger = test_logger();

    let req = load_request(&encoded, &mut logger, true, WINDOWS).unwrap();
    let cfg = req.experimental.isolation_session.unwrap();
    assert_eq!(
        cfg.configuration_id,
        IsolationSessionConfigurationId::Small
    );
}

#[test]
fn isolation_session_config_medium() {
    let json = r#"{"process": {"commandLine": "echo hi"}, "containment": "isolation_session", "experimental": {"isolation_session": {"configurationId": "medium"}}}"#;
    let encoded = base64_encode(json.as_bytes());
    let mut logger = test_logger();

    let req = load_request(&encoded, &mut logger, true, WINDOWS).unwrap();
    let cfg = req.experimental.isolation_session.unwrap();
    assert_eq!(
        cfg.configuration_id,
        IsolationSessionConfigurationId::Medium
    );
}

#[test]
fn isolation_session_config_large() {
    let json = r#"{"process": {"commandLine": "echo hi"}, "containment": "isolation_session", "experimental": {"isolation_session": {"configurationId": "large"}}}"#;
    let encoded = base64_encode(json.as_bytes());
    let mut logger = test_logger();

    let req = load_request(&encoded, &mut logger, true, WINDOWS).unwrap();
    let cfg = req.experimental.isolation_session.unwrap();
    assert_eq!(
        cfg.configuration_id,
        IsolationSessionConfigurationId::Large
    );
}

#[test]
fn isolation_session_config_composable() {
    let json = r#"{"process": {"commandLine": "echo hi"}, "containment": "isolation_session", "experimental": {"isolation_session": {"configurationId": "composable"}}}"#;
    let encoded = base64_encode(json.as_bytes());
    let mut logger = test_logger();

    let req = load_request(&encoded, &mut logger, true, WINDOWS).unwrap();
    let cfg = req.experimental.isolation_session.unwrap();
    assert_eq!(
        cfg.configuration_id,
        IsolationSessionConfigurationId::Composable
    );
}

#[test]
fn isolation_session_config_unknown_defaults_to_composable() {
    let json = r#"{"process": {"commandLine": "echo hi"}, "containment": "isolation_session", "experimental": {"isolation_session": {"configurationId": "xlarge"}}}"#;
    let encoded = base64_encode(json.as_bytes());
    let mut logger = test_logger();

    let req = load_request(&encoded, &mut logger, true, WINDOWS).unwrap();
    let cfg = req.experimental.isolation_session.unwrap();
    assert_eq!(
        cfg.configuration_id,
        IsolationSessionConfigurationId::Composable
    );
}

#[test]
fn isolation_session_absent_from_experimental() {
    let json = r#"{"process": {"commandLine": "echo hi"}, "experimental": {}}"#;
    let encoded = base64_encode(json.as_bytes());
    let mut logger = test_logger();

    let req = load_request(&encoded, &mut logger, true, WINDOWS).unwrap();
    assert!(req.experimental.isolation_session.is_none());
}

#[test]
fn isolation_session_user_field_round_trips_through_one_shot_parser() {
    let json = r#"{"process": {"commandLine": "echo hi"}, "containment": "isolation_session", "experimental": {"isolation_session": {"user": {"upn": "alice@contoso.com", "wamToken": "tok"}}}}"#;
    let encoded = base64_encode(json.as_bytes());
    let mut logger = test_logger();

    let req = load_request(&encoded, &mut logger, true, WINDOWS).unwrap();
    let cfg = req.experimental.isolation_session.unwrap();
    let user = cfg
        .user
        .expect("user field should round-trip through the one-shot parser");
    assert_eq!(user.upn, "alice@contoso.com");
    assert_eq!(user.wam_token, "tok");
}

#[test]
fn isolation_session_user_absent_when_field_omitted() {
    let json = r#"{"process": {"commandLine": "echo hi"}, "containment": "isolation_session", "experimental": {"isolation_session": {"configurationId": "medium"}}}"#;
    let encoded = base64_encode(json.as_bytes());
    let mut logger = test_logger();

    let req = load_request(&encoded, &mut logger, true, WINDOWS).unwrap();
    let cfg = req.experimental.isolation_session.unwrap();
    assert!(cfg.user.is_none());
}

#[test]
fn containment_seatbelt_accepted() {
    let json = r#"{"process": {"commandLine": "echo hi"}, "containment": "seatbelt"}"#;
    let encoded = base64_encode(json.as_bytes());
    let mut logger = test_logger();

    let req = load_request(&encoded, &mut logger, true, WINDOWS).unwrap();
    assert_eq!(req.containment, ContainmentBackend::Seatbelt);
}

#[test]
fn seatbelt_config_defaults() {
    // When no experimental.seatbelt block is provided the parser
    // leaves it unset (None) — runners should fall back to defaults.
    let json = r#"{"process": {"commandLine": "echo hi"}, "containment": "seatbelt"}"#;
    let encoded = base64_encode(json.as_bytes());
    let mut logger = test_logger();

    let req = load_request(&encoded, &mut logger, true, WINDOWS).unwrap();
    assert!(req.experimental.seatbelt.is_none());
}

#[test]
fn seatbelt_profile_override_passed_through() {
    let json = r#"{"process": {"commandLine": "echo hi"}, "containment": "seatbelt", "experimental": {"seatbelt": {"profileOverride": "(version 1)(deny default)"}}}"#;
    let encoded = base64_encode(json.as_bytes());
    let mut logger = test_logger();

    let req = load_request(&encoded, &mut logger, true, WINDOWS).unwrap();
    let cfg = req
        .experimental
        .seatbelt
        .expect("experimental.seatbelt should be populated");
    assert_eq!(
        cfg.profile_override.as_deref(),
        Some("(version 1)(deny default)")
    );
}

#[test]
fn seatbelt_nested_pty_defaults_to_true_when_block_present_but_field_absent() {
    // experimental.seatbelt is present but nestedPty is not specified;
    // the parser should fill in true to match the schema default.
    let json = r#"{"process": {"commandLine": "echo hi"}, "containment": "seatbelt", "experimental": {"seatbelt": {}}}"#;
    let encoded = base64_encode(json.as_bytes());
    let mut logger = test_logger();

    let req = load_request(&encoded, &mut logger, true, WINDOWS).unwrap();
    let cfg = req
        .experimental
        .seatbelt
        .expect("experimental.seatbelt should be populated");
    assert!(cfg.nested_pty);
    assert!(!cfg.keychain_access);
}

#[test]
fn seatbelt_nested_pty_and_keychain_access_pass_through() {
    let json = r#"{"process": {"commandLine": "echo hi"}, "containment": "seatbelt", "experimental": {"seatbelt": {"nestedPty": false, "keychainAccess": true}}}"#;
    let encoded = base64_encode(json.as_bytes());
    let mut logger = test_logger();

    let req = load_request(&encoded, &mut logger, true, WINDOWS).unwrap();
    let cfg = req
        .experimental
        .seatbelt
        .expect("experimental.seatbelt should be populated");
    assert!(!cfg.nested_pty);
    assert!(cfg.keychain_access);
}

// Legacy wire-name aliases. The parser accepts the pre-0.6 wire vocabulary
// (`appcontainer`, `macos_sandbox`, and the `appContainer` /
// `experimental.macos_sandbox` sub-block keys) so that configs declaring
// earlier stable schemas (0.4.0-alpha, 0.5.0-alpha) continue to parse.
// Each alias maps to the canonical backend / sub-block and emits a
// deprecation log so callers know to migrate.

#[test]
fn legacy_appcontainer_wire_value_aliases_processcontainer() {
    let json = r#"{"process": {"commandLine": "echo hi"}, "containment": "appcontainer"}"#;
    let encoded = base64_encode(json.as_bytes());
    let mut logger = test_logger();

    let req = load_request(&encoded, &mut logger, true, WINDOWS).unwrap();
    assert_eq!(req.containment, ContainmentBackend::ProcessContainer);
}

#[test]
fn legacy_macos_sandbox_wire_value_aliases_seatbelt() {
    let json = r#"{"process": {"commandLine": "echo hi"}, "containment": "macos_sandbox"}"#;
    let encoded = base64_encode(json.as_bytes());
    let mut logger = test_logger();

    let req = load_request(&encoded, &mut logger, true, WINDOWS).unwrap();
    assert_eq!(req.containment, ContainmentBackend::Seatbelt);
}

#[test]
fn legacy_app_container_subblock_alias_accepted() {
    // Configs written against 0.4.0-alpha / 0.5.0-alpha still use the
    // `appContainer` JSON key; serde's alias routes it to the same
    // `processContainer` parsing path.
    let json = r#"{
        "process": {"commandLine": "print('test')"},
        "containment": "processcontainer",
        "appContainer": {
            "leastPrivilege": true,
            "capabilities": ["internetClient"]
        }
    }"#;
    let encoded = base64_encode(json.as_bytes());
    let mut logger = test_logger();

    let req = load_request(&encoded, &mut logger, true, WINDOWS).unwrap();
    assert!(req.policy.least_privilege_mode);
    assert_eq!(req.policy.capabilities, vec!["internetClient".to_string()]);
}

#[test]
fn legacy_experimental_macos_sandbox_subblock_alias_accepted() {
    // `experimental.macos_sandbox` is the pre-rename key; serde's alias
    // routes it to the same `seatbelt` parsing path.
    let json = r#"{
        "process": {"commandLine": "echo hi"},
        "containment": "macos_sandbox",
        "experimental": {"macos_sandbox": {"profileOverride": "(version 1)(allow default)"}}
    }"#;
    let encoded = base64_encode(json.as_bytes());
    let mut logger = test_logger();

    let req = load_request(&encoded, &mut logger, true, WINDOWS).unwrap();
    let cfg = req
        .experimental
        .seatbelt
        .expect("experimental.seatbelt should be populated (via macos_sandbox alias)");
    assert_eq!(
        cfg.profile_override.as_deref(),
        Some("(version 1)(allow default)")
    );
}

// ---- Single-backend-section enforcement ----

fn make_multi_backend_config(containment: &str, extra_json: &str) -> String {
    let json = format!(
        r#"{{ "containment": "{containment}", "process": {{"commandLine": "echo hi"}}, {extra_json} }}"#
    );
    base64_encode(json.as_bytes())
}

fn assert_multi_backend_rejected(containment: &str, extra_json: &str, expected_extra: &str) {
    let encoded = make_multi_backend_config(containment, extra_json);
    let mut logger = test_logger();
    let err =
        load_request(&encoded, &mut logger, true, WINDOWS).err().expect("expected rejection but got Ok");
    let msg = format!("{err:?}");
    assert!(
        msg.contains("Multiple containment backends configured"),
        "error did not mention multi-backend rejection: {msg}"
    );
    assert!(
        msg.contains(expected_extra),
        "error did not name the foreign section '{expected_extra}': {msg}"
    );
}

fn assert_config_accepted(containment: &str, extra_json: &str) {
    let encoded = make_multi_backend_config(containment, extra_json);
    let mut logger = test_logger();
    load_request(&encoded, &mut logger, true, WINDOWS)
        .unwrap_or_else(|err| panic!("expected accept, got error: {err:?}"));
}

#[test]
fn lxc_containment_with_processcontainer_section_rejected() {
    assert_multi_backend_rejected(
        "lxc",
        r#""lxc": {"distribution": "alpine", "release": "3.20"}, "processContainer": {"leastPrivilege": true}"#,
        "processContainer",
    );
}

// appContainer is a deprecated alias for processContainer.
#[test]
fn lxc_containment_with_legacy_app_container_alias_rejected() {
    assert_multi_backend_rejected(
        "lxc",
        r#""lxc": {"distribution": "alpine", "release": "3.20"}, "appContainer": {"leastPrivilege": true}"#,
        "processContainer",
    );
}

#[test]
fn processcontainer_containment_with_lxc_section_rejected() {
    assert_multi_backend_rejected(
        "processcontainer",
        r#""lxc": {"distribution": "alpine", "release": "3.20"}"#,
        "lxc",
    );
}

// Per-backend blocks nested under `experimental` are subject to the same
// check as top-level blocks.
#[test]
fn experimental_backend_section_for_other_containment_rejected() {
    assert_multi_backend_rejected(
        "processcontainer",
        r#""experimental": {"seatbelt": {"guiAccess": true}}"#,
        "experimental.seatbelt",
    );
}

// Sectionless backend: bubblewrap doesn't own any per-backend block, so
// any backend block is foreign.
#[test]
fn bubblewrap_containment_with_lxc_section_rejected() {
    assert_multi_backend_rejected(
        "bubblewrap",
        r#""lxc": {"distribution": "alpine", "release": "3.20"}"#,
        "lxc",
    );
}

#[test]
fn bubblewrap_containment_with_process_container_section_rejected() {
    assert_multi_backend_rejected(
        "bubblewrap",
        r#""processContainer": {"leastPrivilege": true}"#,
        "processContainer",
    );
}

#[test]
fn lxc_containment_with_matching_lxc_section_accepted() {
    assert_config_accepted(
        "lxc",
        r#""lxc": {"distribution": "alpine", "release": "3.20"}"#,
    );
}

// `experimental.test` is a generic test feature, not a backend block,
// so it should not trigger the multi-backend check.
#[test]
fn experimental_test_section_does_not_count_as_backend() {
    assert_config_accepted(
        "lxc",
        r#""lxc": {"distribution": "alpine", "release": "3.20"}, "experimental": {"test": {"message": "hello"}}"#,
    );
}

// State-aware path: an `experimental` block whose backend key doesn't
// match the resolved `containment` is rejected the same way as in the
// one-shot path.
#[test]
fn state_aware_foreign_experimental_backend_rejected() {
    let json = r#"{
        "phase": "provision",
        "containment": "isolation_session",
        "experimental": {
            "isolation_session": {},
            "wslc": {"image": "alpine:latest"}
        }
    }"#;
    let encoded = base64_encode(json.as_bytes());
    let mut logger = test_logger();
    let err = load_mxc_request(&encoded, &mut logger, true, WINDOWS)
        .err().expect("state-aware config with foreign experimental backend should be rejected");
    let msg = format!("{err:?}");
    assert!(
        msg.contains("Multiple containment backends configured"),
        "error did not mention multi-backend rejection: {msg}"
    );
    assert!(
        msg.contains("experimental.wslc"),
        "error did not name the foreign section: {msg}"
    );
}

// ---- Abstract-intent coverage ----
// Backend sections paired with `containment: "process"` / "vm" must be
// accepted iff the intent resolves to the owning backend on this OS.

#[test]
fn abstract_process_with_process_container_accepted_on_windows() {
    let json = r#"{
        "process": {"commandLine": "echo hi"},
        "containment": "process",
        "processContainer": {}
    }"#;
    let encoded = base64_encode(json.as_bytes());
    let mut logger = test_logger();
    load_request(&encoded, &mut logger, true, WINDOWS)
        .expect("process resolves to ProcessContainer on Windows");
}

#[test]
fn abstract_process_with_seatbelt_accepted_on_macos() {
    let json = r#"{
        "process": {"commandLine": "echo hi"},
        "containment": "process",
        "experimental": {"seatbelt": {}}
    }"#;
    let encoded = base64_encode(json.as_bytes());
    let mut logger = test_logger();
    load_request(&encoded, &mut logger, true, MACOS).expect("process resolves to Seatbelt on macOS");
}

#[test]
fn abstract_process_with_process_container_rejected_off_windows() {
    let json = r#"{
        "process": {"commandLine": "echo hi"},
        "containment": "process",
        "processContainer": {}
    }"#;
    let encoded = base64_encode(json.as_bytes());
    let mut logger = test_logger();
    load_request(&encoded, &mut logger, true, LINUX)
        .err().expect("processContainer is foreign when process resolves off Windows");
}

#[test]
fn abstract_vm_with_windows_sandbox_accepted_on_windows() {
    let json = r#"{
        "process": {"commandLine": "echo hi"},
        "containment": "vm",
        "experimental": {"windows_sandbox": {}}
    }"#;
    let encoded = base64_encode(json.as_bytes());
    let mut logger = test_logger();
    load_request(&encoded, &mut logger, true, WINDOWS)
        .expect("vm resolves to WindowsSandbox on Windows");
}

#[test]
fn abstract_vm_with_windows_sandbox_rejected_off_windows() {
    let json = r#"{
        "process": {"commandLine": "echo hi"},
        "containment": "vm",
        "experimental": {"windows_sandbox": {}}
    }"#;
    let encoded = base64_encode(json.as_bytes());
    let mut logger = test_logger();
    load_request(&encoded, &mut logger, true, LINUX).err().expect("vm has no resolver off Windows");
}

// ── Telemetry ────────────────────────────────────────────────────

#[test]
fn telemetry_not_set() {
    let json = r#"{"process":{"commandLine":"echo hi"}}"#;
    let encoded = base64_encode(json.as_bytes());
    let mut logger = test_logger();
    let req = load_request(&encoded, &mut logger, true, WINDOWS).unwrap();
    assert!(req.experimental.telemetry.is_none());
}

#[test]
fn telemetry_enabled_true() {
    let json = r#"{"process":{"commandLine":"echo hi"},"experimental":{"telemetry":{"enabled":true}}}"#;
    let encoded = base64_encode(json.as_bytes());
    let mut logger = test_logger();
    let req = load_request(&encoded, &mut logger, true, WINDOWS).unwrap();
    let telem = req.experimental.telemetry.expect("telemetry should be set");
    assert_eq!(telem.enabled, Some(true));
}

#[test]
fn telemetry_enabled_false() {
    let json = r#"{"process":{"commandLine":"echo hi"},"experimental":{"telemetry":{"enabled":false}}}"#;
    let encoded = base64_encode(json.as_bytes());
    let mut logger = test_logger();
    let req = load_request(&encoded, &mut logger, true, WINDOWS).unwrap();
    let telem = req.experimental.telemetry.expect("telemetry should be set");
    assert_eq!(telem.enabled, Some(false));
}

#[test]
fn telemetry_empty_object() {
    let json = r#"{"process":{"commandLine":"echo hi"},"experimental":{"telemetry":{}}}"#;
    let encoded = base64_encode(json.as_bytes());
    let mut logger = test_logger();
    let req = load_request(&encoded, &mut logger, true, WINDOWS).unwrap();
    let telem = req.experimental.telemetry.expect("telemetry should be set");
    assert_eq!(telem.enabled, None);
}
