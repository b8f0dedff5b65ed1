//! What the `lxc-exec` driver decides and reports: which runner executes a
//! request, and what it logs about the request and its result.

use vstd::prelude::*;
use crate::driver::byte_len;
use crate::errors::Logger;
use crate::models::{ContainmentBackend, ExecutionRequest, ExecutionRequestView};
use crate::runner::{MSG_HYPERLIGHT_EXPERIMENTAL, MSG_HYPERLIGHT_UNAVAILABLE, MSG_MICROVM_EXPERIMENTAL, MSG_MICROVM_NOT_COMPILED};
use crate::text::{decimal, line, push_decimal, push_str, to_owned_string};

pub use crate::driver::display_script_results;

verus! {

/// What `lxc-exec` logs about a request before running it.
pub open spec fn spec_log_request(r: ExecutionRequestView) -> Seq<char> {
    line("Script code length: "@ + decimal(byte_len(r.script_code)))
        + line("Working directory: "@ + r.working_directory)
        + line("Script timeout: "@ + decimal(r.script_timeout as nat))
        + line("Container name: "@ + r.container_id)
}

/// Logs the request's command-line size, directory, timeout and container.
pub fn log_request(request: &ExecutionRequest, logger: &mut Logger)
    ensures
        final(logger)@ == old(logger)@ + spec_log_request(request@),
{
    let ghost l0 = logger@;
    let mut a = to_owned_string("Script code length: ");
    push_decimal(&mut a, request.script_code.as_str().len() as u64);
    logger.log_line(a.as_str());
    let mut b = to_owned_string("Working directory: ");
    push_str(&mut b, request.working_directory.as_str());
    logger.log_line(b.as_str());
    let mut c = to_owned_string("Script timeout: ");
    push_decimal(&mut c, request.script_timeout as u64);
    logger.log_line(c.as_str());
    let mut d = to_owned_string("Container name: ");
    push_str(&mut d, request.container_id.as_str());
    logger.log_line(d.as_str());
    assert(logger@ =~= l0 + spec_log_request(request@));
}

/// What the `lxc-exec` build offers.
#[derive(Clone, Copy, Debug, PartialEq, Eq, Structural)]
pub struct LxcRunnerFeatures {
    /// The Hyperlight runner (`hyperlight` feature on an x86_64 build).
    pub hyperlight: bool,
    /// The NanVix MicroVM runner (`microvm` feature).
    pub microvm: bool,
    /// A Linux build, where the Bubblewrap runner exists.
    pub linux: bool,
}

/// The runner `lxc-exec` builds for a request.
#[derive(Clone, Copy, Debug, PartialEq, Eq, Structural)]
pub enum LxcRunnerChoice {
    /// The Hyperlight runner.
    Hyperlight,
    /// The NanVix MicroVM runner.
    NanVix,
    /// The Bubblewrap runner.
    Bubblewrap,
    /// The LXC runner; `fallback` when the request named a backend that
    /// `lxc-exec` does not run.
    Lxc { fallback: bool },
}

pub const MSG_BUBBLEWRAP_LINUX_ONLY: &'static str = "Error: Bubblewrap backend is only available on Linux";

/// The name a backend is shown by in the fallback note.
pub open spec fn backend_debug_name(c: ContainmentBackend) -> Seq<char> {
    match c {
        ContainmentBackend::ProcessContainer => "ProcessContainer"@,
        ContainmentBackend::Wslc => "Wslc"@,
        ContainmentBackend::Lxc => "Lxc"@,
        ContainmentBackend::Vm => "Vm"@,
        ContainmentBackend::MicroVm => "MicroVm"@,
        ContainmentBackend::Hyperlight => "Hyperlight"@,
        ContainmentBackend::WindowsSandbox => "WindowsSandbox"@,
        ContainmentBackend::IsolationSession => "IsolationSession"@,
        ContainmentBackend::Seatbelt => "Seatbelt"@,
        ContainmentBackend::Bubblewrap => "Bubblewrap"@,
    }
}

fn backend_debug_name_exec(c: ContainmentBackend) -> (r: &'static str)
    ensures
        r@ == backend_debug_name(c),
{
    match c {
        ContainmentBackend::ProcessContainer => "ProcessContainer",
        ContainmentBackend::Wslc => "Wslc",
        ContainmentBackend::Lxc => "Lxc",
        ContainmentBackend::Vm => "Vm",
        ContainmentBackend::MicroVm => "MicroVm",
        ContainmentBackend::Hyperlight => "Hyperlight",
        ContainmentBackend::WindowsSandbox => "WindowsSandbox",
        ContainmentBackend::IsolationSession => "IsolationSession",
        ContainmentBackend::Seatbelt => "Seatbelt",
        ContainmentBackend::Bubblewrap => "Bubblewrap",
    }
}

/// The note logged when `lxc-exec` runs a request of another backend on LXC.
pub open spec fn fallback_note(c: ContainmentBackend) -> Seq<char> {
    "Note: containment "@ + backend_debug_name(c) + " unsupported on lxc-exec; falling back to LXC."@
}

/// The runner for `c`, or the error that refuses it. Hyperlight needs its
/// build and then `--experimental`; MicroVM needs `--experimental` and
/// then its build; Bubblewrap needs a Linux build; LXC runs directly; any
/// other backend falls back to LXC.
pub open spec fn spec_select_lxc_runner(c: ContainmentBackend, experimental: bool, f: LxcRunnerFeatures) -> Result<LxcRunnerChoice, Seq<char>> {
    match c {
        ContainmentBackend::Hyperlight => if !f.hyperlight {
            Err(MSG_HYPERLIGHT_UNAVAILABLE@)
        } else if !experimental {
            Err(MSG_HYPERLIGHT_EXPERIMENTAL@)
        } else {
            Ok(LxcRunnerChoice::Hyperlight)
        },
        ContainmentBackend::MicroVm => if !experimental {
            Err(MSG_MICROVM_EXPERIMENTAL@)
        } else if !f.microvm {
            Err(MSG_MICROVM_NOT_COMPILED@)
        } else {
            Ok(LxcRunnerChoice::NanVix)
        },
        ContainmentBackend::Bubblewrap => if f.linux {
            Ok(LxcRunnerChoice::Bubblewrap)
        } else {
            Err(MSG_BUBBLEWRAP_LINUX_ONLY@)
        },
        ContainmentBackend::Lxc => Ok(LxcRunnerChoice::Lxc { fallback: false }),
        _ => Ok(LxcRunnerChoice::Lxc { fallback: true }),
    }
}

/// Whether `r` is the selection `s`: the same runner, or an error with the
/// same text.
pub open spec fn lxc_selected(r: Result<LxcRunnerChoice, String>, s: Result<LxcRunnerChoice, Seq<char>>) -> bool {
    match s {
        Ok(c) => r matches Ok(x) && x == c,
        Err(m) => r matches Err(e) && e@ == m,
    }
}

fn refuse_lxc(msg: &'static str) -> (r: Result<LxcRunnerChoice, String>)
    ensures
        r matches Err(e) && e@ == msg@,
{
    Err(to_owned_string(msg))
}

/// Selects the runner `lxc-exec` builds for a request (see
/// [`spec_select_lxc_runner`]); a fallback to LXC is noted in the log, and
/// nothing else is logged.
pub fn select_lxc_runner(containment: ContainmentBackend, experimental_enabled: bool, features: LxcRunnerFeatures, logger: &mut Logger)
    -> (r: Result<LxcRunnerChoice, String>)
    ensures
        lxc_selected(r, spec_select_lxc_runner(containment, experimental_enabled, features)),
        final(logger)@ == old(logger)@ + if spec_select_lxc_runner(containment, experimental_enabled, features) == Ok::<LxcRunnerChoice, Seq<char>>(LxcRunnerChoice::Lxc { fallback: true }) {
            line(fallback_note(containment))
        } else {
            Seq::<char>::empty()
        },
        final(logger).spec_mode() == old(logger).spec_mode(),
{
    let r = match containment {
        ContainmentBackend::Hyperlight => if !features.hyperlight {
            refuse_lxc(MSG_HYPERLIGHT_UNAVAILABLE)
        } else if !experimental_enabled {
            refuse_lxc(MSG_HYPERLIGHT_EXPERIMENTAL)
        } else {
            Ok(LxcRunnerChoice::Hyperlight)
        },
        ContainmentBackend::MicroVm => if !experimental_enabled {
            refuse_lxc(MSG_MICROVM_EXPERIMENTAL)
        } else if !features.microvm {
            refuse_lxc(MSG_MICROVM_NOT_COMPILED)
        } else {
            Ok(LxcRunnerChoice::NanVix)
        },
        ContainmentBackend::Bubblewrap => if features.linux {
            Ok(LxcRunnerChoice::Bubblewrap)
        } else {
            refuse_lxc(MSG_BUBBLEWRAP_LINUX_ONLY)
        },
        ContainmentBackend::Lxc => Ok(LxcRunnerChoice::Lxc { fallback: false }),
        other => {
            let mut note = to_owned_string("Note: containment ");
            push_str(&mut note, backend_debug_name_exec(other));
            push_str(&mut note, " unsupported on lxc-exec; falling back to LXC.");
            logger.log_line(note.as_str());
            return Ok(LxcRunnerChoice::Lxc { fallback: true });
        },
    };
    assert(logger@ =~= old(logger)@ + Seq::<char>::empty());
    r
}

} // verus!
