//! Which script runner the Windows driver builds for a request: the
//! containment backend, the `--experimental` flag, the schema version and
//! the backends compiled into the build decide it, or refuse the request.

use vstd::prelude::*;
use crate::models::ContainmentBackend;
use crate::schema::{is_base_container_version, spec_is_base_container_version};
use crate::text::to_owned_string;

verus! {

/// The optional backends compiled into the driver.
#[derive(Clone, Copy, Debug, PartialEq, Eq, Structural)]
pub struct RunnerFeatures {
    /// The WSL Container runner (`wslc` feature).
    pub wslc: bool,
    /// The NanVix MicroVM runner (`microvm` feature).
    pub microvm: bool,
    /// The Hyperlight runner (`hyperlight` feature on an x86_64 build).
    pub hyperlight: bool,
    /// The Isolation Session runner (`isolation_session` feature).
    pub isolation_session: bool,
}

/// The runner that executes a request.
#[derive(Clone, Copy, Debug, PartialEq, Eq, Structural)]
pub enum RunnerChoice {
    /// The AppContainer runner.
    AppContainer,
    /// The dispatcher that tries BaseContainer and falls back; chosen by
    /// the schema version (`true`) or else by `--experimental`.
    BaseContainerFallback { by_schema_version: bool },
    /// The WSL Container runner.
    WslContainer,
    /// The NanVix MicroVM runner.
    NanVix,
    /// The Hyperlight runner.
    Hyperlight,
    /// The Windows Sandbox runner.
    WindowsSandbox,
    /// The Isolation Session runner.
    IsolationSession,
}

pub const MSG_WSLC_NOT_COMPILED: &'static str = "Error: WSLC backend not compiled. Rebuild with --features wslc.";
pub const MSG_WSLC_EXPERIMENTAL: &'static str = "Error: WSLC is an experimental feature. Use --experimental flag.";
pub const MSG_LXC_UNAVAILABLE: &'static str = "Error: LXC backend not available on Windows";
pub const MSG_BUBBLEWRAP_UNAVAILABLE: &'static str = "Error: Bubblewrap backend not available on Windows";
pub const MSG_SEATBELT_UNAVAILABLE: &'static str = "Error: Seatbelt backend is only available on macOS (use mxc-exec-mac)";
pub const MSG_VM_UNIMPLEMENTED: &'static str = "Error: VM backend not yet implemented";
pub const MSG_MICROVM_EXPERIMENTAL: &'static str = "Error: MicroVM is an experimental feature. Use --experimental flag.";
pub const MSG_MICROVM_NOT_COMPILED: &'static str = "Error: MicroVM backend not compiled in (build with --features microvm)";
pub const MSG_HYPERLIGHT_EXPERIMENTAL: &'static str = "Error: Hyperlight (Hyperlight+Unikraft) is an experimental feature. Use --experimental flag.";
pub const MSG_HYPERLIGHT_UNAVAILABLE: &'static str = "Error: Hyperlight backend requires x86_64 (Hyperlight needs KVM or WHP)";
pub const MSG_WINDOWS_SANDBOX_EXPERIMENTAL: &'static str = "Error: Windows Sandbox is an experimental feature. Use --experimental flag.";
pub const MSG_ISOLATION_SESSION_EXPERIMENTAL: &'static str = "Error: Isolation Session is an experimental feature. Use --experimental flag.";
pub const MSG_ISOLATION_SESSION_NOT_COMPILED: &'static str = "Error: IsolationSession backend not compiled. Rebuild with --features isolation_session.";

/// The runner for `c`, or the error that refuses it. ProcessContainer runs
/// on the BaseContainer-fallback dispatcher when `--experimental` is given
/// or the schema version is BaseContainer-era (`base_version`), and on
/// AppContainer otherwise. WSLC, MicroVM, Hyperlight, Windows Sandbox and
/// Isolation Session need `--experimental` and, where they are optional,
/// their feature; LXC, Bubblewrap, Seatbelt and VM have no runner here.
pub open spec fn spec_select_runner(c: ContainmentBackend, experimental: bool, base_version: bool, f: RunnerFeatures) -> Result<RunnerChoice, Seq<char>> {
    match c {
        ContainmentBackend::ProcessContainer => if experimental || base_version {
            Ok(RunnerChoice::BaseContainerFallback { by_schema_version: base_version })
        } else {
            Ok(RunnerChoice::AppContainer)
        },
        ContainmentBackend::Wslc => if !f.wslc {
            Err(MSG_WSLC_NOT_COMPILED@)
        } else if !experimental {
            Err(MSG_WSLC_EXPERIMENTAL@)
        } else {
            Ok(RunnerChoice::WslContainer)
        },
        ContainmentBackend::Lxc => Err(MSG_LXC_UNAVAILABLE@),
        ContainmentBackend::Bubblewrap => Err(MSG_BUBBLEWRAP_UNAVAILABLE@),
        ContainmentBackend::Seatbelt => Err(MSG_SEATBELT_UNAVAILABLE@),
        ContainmentBackend::Vm => Err(MSG_VM_UNIMPLEMENTED@),
        ContainmentBackend::MicroVm => if !experimental {
            Err(MSG_MICROVM_EXPERIMENTAL@)
        } else if !f.microvm {
            Err(MSG_MICROVM_NOT_COMPILED@)
        } else {
            Ok(RunnerChoice::NanVix)
        },
        ContainmentBackend::Hyperlight => if !f.hyperlight {
            Err(MSG_HYPERLIGHT_UNAVAILABLE@)
        } else if !experimental {
            Err(MSG_HYPERLIGHT_EXPERIMENTAL@)
        } else {
            Ok(RunnerChoice::Hyperlight)
        },
        ContainmentBackend::WindowsSandbox => if !experimental {
            Err(MSG_WINDOWS_SANDBOX_EXPERIMENTAL@)
        } else {
            Ok(RunnerChoice::WindowsSandbox)
        },
        ContainmentBackend::IsolationSession => if !f.isolation_session {
            Err(MSG_ISOLATION_SESSION_NOT_COMPILED@)
        } else if !experimental {
            Err(MSG_ISOLATION_SESSION_EXPERIMENTAL@)
        } else {
            Ok(RunnerChoice::IsolationSession)
        },
    }
}

/// Whether `r` is the selection `s`: the same runner, or an error with the
/// same text.
pub open spec fn selected(r: Result<RunnerChoice, String>, s: Result<RunnerChoice, Seq<char>>) -> bool {
    match s {
        Ok(c) => r matches Ok(x) && x == c,
        Err(m) => r matches Err(e) && e@ == m,
    }
}

fn refuse(msg: &'static str) -> (r: Result<RunnerChoice, String>)
    ensures
        r matches Err(e) && e@ == msg@,
{
    Err(to_owned_string(msg))
}

/// Selects the runner for a request (see [`spec_select_runner`]), with the
/// schema version's era decided by [`is_base_container_version`].
pub fn select_runner(containment: ContainmentBackend, experimental_enabled: bool, schema_version: &str, features: RunnerFeatures) -> (r: Result<RunnerChoice, String>)
    ensures
        selected(r, spec_select_runner(containment, experimental_enabled, spec_is_base_container_version(schema_version@), features)),
{
    match containment {
        ContainmentBackend::ProcessContainer => {
            let by_version = is_base_container_version(schema_version);
            if experimental_enabled || by_version {
                Ok(RunnerChoice::BaseContainerFallback { by_schema_version: by_version })
            } else {
                Ok(RunnerChoice::AppContainer)
            }
        },
        ContainmentBackend::Wslc => if !features.wslc {
            refuse(MSG_WSLC_NOT_COMPILED)
        } else if !experimental_enabled {
            refuse(MSG_WSLC_EXPERIMENTAL)
        } else {
            Ok(RunnerChoice::WslContainer)
        },
        ContainmentBackend::Lxc => refuse(MSG_LXC_UNAVAILABLE),
        ContainmentBackend::Bubblewrap => refuse(MSG_BUBBLEWRAP_UNAVAILABLE),
        ContainmentBackend::Seatbelt => refuse(MSG_SEATBELT_UNAVAILABLE),
        ContainmentBackend::Vm => refuse(MSG_VM_UNIMPLEMENTED),
        ContainmentBackend::MicroVm => if !experimental_enabled {
            refuse(MSG_MICROVM_EXPERIMENTAL)
        } else if !features.microvm {
            refuse(MSG_MICROVM_NOT_COMPILED)
        } else {
            Ok(RunnerChoice::NanVix)
        },
        ContainmentBackend::Hyperlight => if !features.hyperlight {
            refuse(MSG_HYPERLIGHT_UNAVAILABLE)
        } else if !experimental_enabled {
            refuse(MSG_HYPERLIGHT_EXPERIMENTAL)
        } else {
            Ok(RunnerChoice::Hyperlight)
        },
        ContainmentBackend::WindowsSandbox => if !experimental_enabled {
            refuse(MSG_WINDOWS_SANDBOX_EXPERIMENTAL)
        } else {
            Ok(RunnerChoice::WindowsSandbox)
        },
        ContainmentBackend::IsolationSession => if !features.isolation_session {
            refuse(MSG_ISOLATION_SESSION_NOT_COMPILED)
        } else if !experimental_enabled {
            refuse(MSG_ISOLATION_SESSION_EXPERIMENTAL)
        } else {
            Ok(RunnerChoice::IsolationSession)
        },
    }
}

} // verus!
