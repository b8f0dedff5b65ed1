use wxc_common::models::{
    ContainmentBackend, FailurePhase, IsolationSessionUser, ProxyAddress, ProxyConfig, ScriptResponse,
    TestFeatureConfig,
};

#[test]
fn isolation_session_user_debug_redacts_wam_token() {
    let user = IsolationSessionUser {
        upn: "alice@contoso.com".to_string(),
        wam_token: "super-secret-token".to_string(),
    };
    let s = user.redacted_debug();
    assert!(s.contains("alice@contoso.com"), "got {}", s);
    assert!(s.contains("<redacted>"), "got {}", s);
    assert!(!s.contains("super-secret-token"), "got {}", s);
}

#[test]
fn wire_names_and_sections() {
    assert_eq!(ContainmentBackend::ProcessContainer.wire_name(), "processcontainer");
    assert_eq!(ContainmentBackend::WindowsSandbox.wire_name(), "windows_sandbox");
    assert_eq!(ContainmentBackend::Bubblewrap.wire_name(), "bubblewrap");
    assert_eq!(ContainmentBackend::ProcessContainer.section_path(), Some("processContainer"));
    assert_eq!(ContainmentBackend::Wslc.section_path(), Some("experimental.wslc"));
    assert_eq!(ContainmentBackend::Hyperlight.section_path(), None);
}

#[test]
fn proxy_address_urls() {
    let a = ProxyAddress::new("127.0.0.1".to_string(), 8080);
    assert_eq!(a.to_url(), "http://127.0.0.1:8080");
    assert_eq!(a.host(), "127.0.0.1");
    assert_eq!(a.port(), 8080);
    let b = ProxyAddress::from_url("http://proxy.example.com:3128", "proxy.example.com".to_string(), 3128);
    assert_eq!(b.to_url(), "http://proxy.example.com:3128");
    assert_eq!(b.host(), "proxy.example.com");
}

#[test]
fn proxy_enabled_when_it_has_an_address_or_is_builtin() {
    assert!(!ProxyConfig::default().is_enabled());
    let with_address = ProxyConfig { address: Some(ProxyAddress::new("127.0.0.1".to_string(), 1)), builtin_test_server: false };
    assert!(with_address.is_enabled());
    let builtin = ProxyConfig { address: None, builtin_test_server: true };
    assert!(builtin.is_enabled());
}

#[test]
fn script_response_error_fields() {
    let r = ScriptResponse::error("boom");
    assert_eq!(r.exit_code, -1);
    assert_eq!(r.standard_err, "boom");
    assert_eq!(r.error_message, "boom");
    assert!(r.standard_out.is_empty());
    assert!(r.extended_error.is_empty());
    assert_eq!(r.failure_phase, FailurePhase::NoFailure);
}

#[test]
fn test_feature_message_defaults_to_empty() {
    assert_eq!(TestFeatureConfig::from_raw(Some("hi".to_string())).message, "hi");
    assert_eq!(TestFeatureConfig::from_raw(None).message, "");
}
