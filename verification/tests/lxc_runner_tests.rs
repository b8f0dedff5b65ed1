use wxc_common::errors::{Logger, Mode};
use wxc_common::lxc_driver::{select_lxc_runner, LxcRunnerChoice, LxcRunnerFeatures};
use wxc_common::models::ContainmentBackend;

const LINUX_ALL: LxcRunnerFeatures = LxcRunnerFeatures { hyperlight: true, microvm: true, linux: true };
const BARE: LxcRunnerFeatures = LxcRunnerFeatures { hyperlight: false, microvm: false, linux: false };

fn select(c: ContainmentBackend, experimental: bool, f: LxcRunnerFeatures) -> (Result<LxcRunnerChoice, String>, String) {
    let mut logger = Logger::new(Mode::Buffer);
    let r = select_lxc_runner(c, experimental, f, &mut logger);
    (r, logger.get_buffer().to_string())
}

#[test]
fn lxc_runs_directly() {
    assert_eq!(select(ContainmentBackend::Lxc, false, BARE), (Ok(LxcRunnerChoice::Lxc { fallback: false }), String::new()));
}

#[test]
fn bubblewrap_needs_linux() {
    assert_eq!(select(ContainmentBackend::Bubblewrap, false, LINUX_ALL), (Ok(LxcRunnerChoice::Bubblewrap), String::new()));
    assert_eq!(
        select(ContainmentBackend::Bubblewrap, true, BARE),
        (Err("Error: Bubblewrap backend is only available on Linux".to_string()), String::new())
    );
}

#[test]
fn hyperlight_needs_its_build_then_the_flag() {
    assert_eq!(
        select(ContainmentBackend::Hyperlight, false, BARE).0,
        Err("Error: Hyperlight backend requires x86_64 (Hyperlight needs KVM or WHP)".to_string())
    );
    assert_eq!(
        select(ContainmentBackend::Hyperlight, false, LINUX_ALL).0,
        Err("Error: Hyperlight (Hyperlight+Unikraft) is an experimental feature. Use --experimental flag.".to_string())
    );
    assert_eq!(select(ContainmentBackend::Hyperlight, true, LINUX_ALL).0, Ok(LxcRunnerChoice::Hyperlight));
}

#[test]
fn microvm_needs_the_flag_then_its_build() {
    assert_eq!(
        select(ContainmentBackend::MicroVm, false, BARE).0,
        Err("Error: MicroVM is an experimental feature. Use --experimental flag.".to_string())
    );
    assert_eq!(
        select(ContainmentBackend::MicroVm, true, BARE).0,
        Err("Error: MicroVM backend not compiled in (build with --features microvm)".to_string())
    );
    assert_eq!(select(ContainmentBackend::MicroVm, true, LINUX_ALL).0, Ok(LxcRunnerChoice::NanVix));
}

#[test]
fn other_backends_fall_back_to_lxc_with_a_note() {
    assert_eq!(
        select(ContainmentBackend::ProcessContainer, false, LINUX_ALL),
        (
            Ok(LxcRunnerChoice::Lxc { fallback: true }),
            "Note: containment ProcessContainer unsupported on lxc-exec; falling back to LXC.\n".to_string()
        )
    );
    for (c, name) in [
        (ContainmentBackend::Wslc, "Wslc"),
        (ContainmentBackend::Vm, "Vm"),
        (ContainmentBackend::WindowsSandbox, "WindowsSandbox"),
        (ContainmentBackend::IsolationSession, "IsolationSession"),
        (ContainmentBackend::Seatbelt, "Seatbelt"),
    ] {
        let (r, log) = select(c, true, BARE);
        assert_eq!(r, Ok(LxcRunnerChoice::Lxc { fallback: true }));
        assert_eq!(log, format!("Note: containment {c:?} unsupported on lxc-exec; falling back to LXC.\n"));
        assert_eq!(log, format!("Note: containment {name} unsupported on lxc-exec; falling back to LXC.\n"));
    }
}
