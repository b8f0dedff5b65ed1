use wxc_common::models::ContainmentBackend;
use wxc_common::runner::{select_runner, RunnerChoice, RunnerFeatures};

const NONE: RunnerFeatures = RunnerFeatures { wslc: false, microvm: false, hyperlight: false, isolation_session: false };
const ALL: RunnerFeatures = RunnerFeatures { wslc: true, microvm: true, hyperlight: true, isolation_session: true };

#[test]
fn process_container_uses_app_container_by_default() {
    assert_eq!(select_runner(ContainmentBackend::ProcessContainer, false, "0.4.0", NONE), Ok(RunnerChoice::AppContainer));
    assert_eq!(select_runner(ContainmentBackend::ProcessContainer, false, "", NONE), Ok(RunnerChoice::AppContainer));
    assert_eq!(select_runner(ContainmentBackend::ProcessContainer, false, "not a version", NONE), Ok(RunnerChoice::AppContainer));
}

#[test]
fn process_container_uses_base_container_from_schema_05() {
    assert_eq!(
        select_runner(ContainmentBackend::ProcessContainer, false, "0.5.0-alpha", NONE),
        Ok(RunnerChoice::BaseContainerFallback { by_schema_version: true })
    );
    assert_eq!(
        select_runner(ContainmentBackend::ProcessContainer, true, "0.6.0", NONE),
        Ok(RunnerChoice::BaseContainerFallback { by_schema_version: true })
    );
}

#[test]
fn process_container_uses_base_container_with_experimental_flag() {
    assert_eq!(
        select_runner(ContainmentBackend::ProcessContainer, true, "0.4.0", NONE),
        Ok(RunnerChoice::BaseContainerFallback { by_schema_version: false })
    );
}

#[test]
fn experimental_backends_need_the_flag() {
    assert_eq!(
        select_runner(ContainmentBackend::Wslc, false, "0.5.0", ALL),
        Err("Error: WSLC is an experimental feature. Use --experimental flag.".to_string())
    );
    assert_eq!(
        select_runner(ContainmentBackend::MicroVm, false, "0.5.0", ALL),
        Err("Error: MicroVM is an experimental feature. Use --experimental flag.".to_string())
    );
    assert_eq!(
        select_runner(ContainmentBackend::Hyperlight, false, "0.5.0", ALL),
        Err("Error: Hyperlight (Hyperlight+Unikraft) is an experimental feature. Use --experimental flag.".to_string())
    );
    assert_eq!(
        select_runner(ContainmentBackend::WindowsSandbox, false, "0.5.0", ALL),
        Err("Error: Windows Sandbox is an experimental feature. Use --experimental flag.".to_string())
    );
    assert_eq!(
        select_runner(ContainmentBackend::IsolationSession, false, "0.5.0", ALL),
        Err("Error: Isolation Session is an experimental feature. Use --experimental flag.".to_string())
    );
}

#[test]
fn experimental_backends_run_with_the_flag() {
    assert_eq!(select_runner(ContainmentBackend::Wslc, true, "", ALL), Ok(RunnerChoice::WslContainer));
    assert_eq!(select_runner(ContainmentBackend::MicroVm, true, "", ALL), Ok(RunnerChoice::NanVix));
    assert_eq!(select_runner(ContainmentBackend::Hyperlight, true, "", ALL), Ok(RunnerChoice::Hyperlight));
    assert_eq!(select_runner(ContainmentBackend::WindowsSandbox, true, "", NONE), Ok(RunnerChoice::WindowsSandbox));
    assert_eq!(select_runner(ContainmentBackend::IsolationSession, true, "", ALL), Ok(RunnerChoice::IsolationSession));
}

#[test]
fn backends_missing_from_the_build_are_refused() {
    assert_eq!(
        select_runner(ContainmentBackend::Wslc, false, "", NONE),
        Err("Error: WSLC backend not compiled. Rebuild with --features wslc.".to_string())
    );
    assert_eq!(
        select_runner(ContainmentBackend::MicroVm, true, "", NONE),
        Err("Error: MicroVM backend not compiled in (build with --features microvm)".to_string())
    );
    assert_eq!(
        select_runner(ContainmentBackend::Hyperlight, false, "", NONE),
        Err("Error: Hyperlight backend requires x86_64 (Hyperlight needs KVM or WHP)".to_string())
    );
    assert_eq!(
        select_runner(ContainmentBackend::IsolationSession, true, "", NONE),
        Err("Error: IsolationSession backend not compiled. Rebuild with --features isolation_session.".to_string())
    );
}

#[test]
fn backends_without_a_windows_runner_are_refused() {
    assert_eq!(
        select_runner(ContainmentBackend::Lxc, true, "", ALL),
        Err("Error: LXC backend not available on Windows".to_string())
    );
    assert_eq!(
        select_runner(ContainmentBackend::Bubblewrap, true, "", ALL),
        Err("Error: Bubblewrap backend not available on Windows".to_string())
    );
    assert_eq!(
        select_runner(ContainmentBackend::Seatbelt, true, "", ALL),
        Err("Error: Seatbelt backend is only available on macOS (use mxc-exec-mac)".to_string())
    );
    assert_eq!(select_runner(ContainmentBackend::Vm, true, "", ALL), Err("Error: VM backend not yet implemented".to_string()));
}
