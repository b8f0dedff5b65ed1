//! The decisions of the `wxc-exec` driver: where its configuration comes
//! from, how a command line given after `--` replaces the policy's, and
//! what it reports about a request and its result.

use vstd::prelude::*;
use crate::errors::{Logger, MxcError, MxcErrorCode};
use crate::models::{ContainmentBackend, ExecutionRequest, ExecutionRequestView, ScriptResponse, ScriptResponseView, opt_view, strings_view};
use crate::state_aware::{ParsedStateAwareRequest, Phase};
use crate::text::{decimal, line, push_char, push_decimal, push_str, to_owned_string};
use crate::models::FailurePhase;
use crate::telemetry::FailureReason;

verus! {

/// How a command line is turned into one string for the backend that
/// runs it.
#[derive(Clone, Copy, Debug, PartialEq, Eq, Structural)]
pub enum CommandLineContext {
    /// `CreateProcessW` argument rules.
    WindowsCreateProcess,
    /// `cmd.exe` rules.
    WindowsCommandProcessor,
    /// POSIX shell rules.
    PosixShell,
}

pub open spec fn spec_context_for_backend(b: ContainmentBackend) -> CommandLineContext {
    match b {
        ContainmentBackend::IsolationSession | ContainmentBackend::WindowsSandbox => CommandLineContext::WindowsCommandProcessor,
        ContainmentBackend::Wslc | ContainmentBackend::Lxc | ContainmentBackend::Seatbelt
            | ContainmentBackend::Bubblewrap => CommandLineContext::PosixShell,
        ContainmentBackend::ProcessContainer | ContainmentBackend::Vm | ContainmentBackend::MicroVm
            | ContainmentBackend::Hyperlight => CommandLineContext::WindowsCreateProcess,
    }
}

/// The command-line rules of the shell a backend runs commands through.
pub fn command_line_context_for_backend(backend: &ContainmentBackend) -> (r: CommandLineContext)
    ensures
        r == spec_context_for_backend(*backend),
{
    match backend {
        ContainmentBackend::IsolationSession | ContainmentBackend::WindowsSandbox => CommandLineContext::WindowsCommandProcessor,
        ContainmentBackend::Wslc | ContainmentBackend::Lxc | ContainmentBackend::Seatbelt
            | ContainmentBackend::Bubblewrap => CommandLineContext::PosixShell,
        ContainmentBackend::ProcessContainer | ContainmentBackend::Vm | ContainmentBackend::MicroVm
            | ContainmentBackend::Hyperlight => CommandLineContext::WindowsCreateProcess,
    }
}

pub const MSG_OVERRIDE_EXEC_ONLY: &'static str = "CLI command override is only supported for state-aware exec requests";

/// Whether the command after `--` may replace a state-aware request's, and
/// under which rules: only an `exec` request takes one, quoted for the
/// backend the dispatcher resolved (`backend`, whose failure is passed on).
pub fn command_override_context_for_state_aware(parsed: &ParsedStateAwareRequest, has_command_override: bool, backend: Result<ContainmentBackend, MxcError>)
    -> (r: Result<Option<CommandLineContext>, MxcError>)
    ensures
        !has_command_override ==> r matches Ok(None),
        has_command_override && parsed.phase != Phase::Exec ==> (r matches Err(e)
            && e.code == MxcErrorCode::MalformedRequest && e.message@ == MSG_OVERRIDE_EXEC_ONLY@),
        has_command_override && parsed.phase == Phase::Exec ==> match backend {
            Ok(b) => r == Ok::<Option<CommandLineContext>, MxcError>(Some(spec_context_for_backend(b))),
            Err(e) => (r matches Err(e2) && e2.code == e.code && e2.message@ == e.message@),
        },
{
    if !has_command_override {
        return Ok(None);
    }
    if parsed.phase != Phase::Exec {
        return Err(MxcError::malformed_request(MSG_OVERRIDE_EXEC_ONLY));
    }
    match backend {
        Ok(b) => Ok(Some(command_line_context_for_backend(&b))),
        Err(e) => Err(e),
    }
}

pub const MSG_OVERRIDING: &'static str = "Overriding policy process.commandLine with CLI command: ";

/// Replaces the request's command line with the one given after `--`; a
/// replaced non-empty command line is logged.
pub fn apply_command_override(request: &mut ExecutionRequest, command_override: Option<&str>, logger: &mut Logger)
    ensures
        match command_override {
            None => final(request)@ == old(request)@ && final(logger)@ == old(logger)@,
            Some(cmd) => final(request)@ == (ExecutionRequestView { script_code: cmd@, ..old(request)@ })
                && final(logger)@ == old(logger)@ + (if old(request)@.script_code.len() > 0 {
                    line(MSG_OVERRIDING@ + cmd@)
                } else {
                    Seq::empty()
                }),
        },
{
    if let Some(cmd) = command_override {
        if request.script_code.as_str().unicode_len() > 0 {
            let mut msg = to_owned_string(MSG_OVERRIDING);
            push_str(&mut msg, cmd);
            logger.log_line(msg.as_str());
        } else {
            assert(old(logger)@ + Seq::<char>::empty() =~= old(logger)@);
        }
        request.script_code = to_owned_string(cmd);
    }
}

/// Where the configuration comes from: `--config-base64` (the flag is
/// `true`), else `--config`, else the positional path.
pub fn config_input(config_base64: &Option<String>, config: &Option<String>, config_path: &Option<String>) -> (r: Option<(String, bool)>)
    ensures
        match r {
            None => config_base64.is_none() && config.is_none() && config_path.is_none(),
            Some((s, b64)) => match (config_base64, config, config_path) {
                (Some(x), _, _) => b64 && s@ == x@,
                (None, Some(x), _) => !b64 && s@ == x@,
                (None, None, Some(x)) => !b64 && s@ == x@,
                (None, None, None) => false,
            },
        },
{
    if let Some(b) = config_base64 {
        Some((to_owned_string(b.as_str()), true))
    } else if let Some(p) = config {
        Some((to_owned_string(p.as_str()), false))
    } else if let Some(p) = config_path {
        Some((to_owned_string(p.as_str()), false))
    } else {
        None
    }
}

/// With a named configuration (`--config` or `--config-base64`), a
/// positional argument is the first word of the command, not a path.
pub fn normalize_named_config_command(config_path: Option<String>, named_config: bool, command: Vec<String>) -> (r: (Option<String>, Vec<String>))
    ensures
        named_config ==> match config_path {
            Some(first) => r.0 is None && strings_view(r.1@) == seq![first@] + strings_view(command@),
            None => r.0 is None && strings_view(r.1@) == strings_view(command@),
        },
        !named_config ==> opt_view(r.0) == opt_view(config_path) && strings_view(r.1@) == strings_view(command@),
{
    if named_config {
        match config_path {
            Some(first) => {
                let ghost f = first@;
                let mut command = command;
                let ghost before = command@;
                command.insert(0, first);
                assert(strings_view(command@) =~= seq![f] + strings_view(before));
                (None, command)
            },
            None => (None, command),
        }
    } else {
        (config_path, command)
    }
}

/// Whether a command was given after `--`.
pub fn has_cli_command(command: &Vec<String>) -> (r: bool)
    ensures
        r == (command@.len() > 0),
{
    command.len() > 0
}

/// The byte length of a text, as std's `str::len` reports it.
pub open spec fn byte_len(s: Seq<char>) -> nat {
    (vstd::utf8::encode_utf8(s).len() as usize) as nat
}

/// What `wxc-exec` logs about a request before running it.
pub open spec fn spec_log_request(r: ExecutionRequestView) -> Seq<char> {
    (if r.container_id.len() > 0 { line("Container ID: "@ + r.container_id) } else { Seq::empty() })
        + line("Platform: "@ + r.platform)
        + line("Script code length: "@ + decimal(byte_len(r.script_code)))
        + line("Working directory: "@ + r.working_directory)
        + line("Script timeout: "@ + decimal(r.script_timeout as nat))
        + line("Container name: "@ + (if r.container_id.len() > 0 { r.container_id } else { "CLI"@ }))
}

fn log_labelled(logger: &mut Logger, label: &str, value: &str)
    ensures
        final(logger)@ == old(logger)@ + line(label@ + value@),
{
    let mut msg = to_owned_string(label);
    push_str(&mut msg, value);
    logger.log_line(msg.as_str());
}

fn log_labelled_number(logger: &mut Logger, label: &str, value: u64)
    ensures
        final(logger)@ == old(logger)@ + line(label@ + decimal(value as nat)),
{
    let mut msg = to_owned_string(label);
    push_decimal(&mut msg, value);
    logger.log_line(msg.as_str());
}

/// Logs the request's identity, command-line size, directory and timeout.
pub fn log_request(request: &ExecutionRequest, logger: &mut Logger)
    ensures
        final(logger)@ == old(logger)@ + spec_log_request(request@),
{
    let ghost l0 = logger@;
    let has_id = request.container_id.as_str().unicode_len() > 0;
    if has_id {
        log_labelled(logger, "Container ID: ", request.container_id.as_str());
    }
    let ghost l1 = logger@;
    log_labelled(logger, "Platform: ", request.platform.as_str());
    log_labelled_number(logger, "Script code length: ", request.script_code.as_str().len() as u64);
    log_labelled(logger, "Working directory: ", request.working_directory.as_str());
    log_labelled_number(logger, "Script timeout: ", request.script_timeout as u64);
    if has_id {
        log_labelled(logger, "Container name: ", request.container_id.as_str());
    } else {
        log_labelled(logger, "Container name: ", "CLI");
    }
    proof {
        if !has_id {
            assert(l1 =~= l0 + Seq::<char>::empty());
        }
    }
    assert(logger@ =~= l0 + spec_log_request(request@));
}

pub open spec fn hex_char(d: nat) -> char {
    if d < 10 { crate::text::digit_char(d) }
    else if d == 10 { 'A' }
    else if d == 11 { 'B' }
    else if d == 12 { 'C' }
    else if d == 13 { 'D' }
    else if d == 14 { 'E' }
    else { 'F' }
}

/// The `n` low hexadecimal digits of `v`, upper case, most significant first.
pub open spec fn hex_digits(v: nat, n: nat) -> Seq<char>
    decreases n,
{
    if n == 0 {
        Seq::empty()
    } else {
        hex_digits(v / 16, (n - 1) as nat).push(hex_char(v % 16))
    }
}

fn hex_digit(d: u32) -> (c: char)
    requires
        d < 16,
    ensures
        c == hex_char(d as nat),
{
    if d == 0 { '0' }
    else if d == 1 { '1' }
    else if d == 2 { '2' }
    else if d == 3 { '3' }
    else if d == 4 { '4' }
    else if d == 5 { '5' }
    else if d == 6 { '6' }
    else if d == 7 { '7' }
    else if d == 8 { '8' }
    else if d == 9 { '9' }
    else if d == 10 { 'A' }
    else if d == 11 { 'B' }
    else if d == 12 { 'C' }
    else if d == 13 { 'D' }
    else if d == 14 { 'E' }
    else { 'F' }
}

fn push_hex_digits(s: &mut String, v: u32, n: u32)
    ensures
        final(s)@ == old(s)@ + hex_digits(v as nat, n as nat),
    decreases n,
{
    if n > 0 {
        push_hex_digits(s, v / 16, n - 1);
        push_char(s, hex_digit(v % 16));
        assert(hex_digits(v as nat, n as nat) =~= hex_digits((v / 16) as nat, (n - 1) as nat).push(hex_char((v % 16) as nat)));
    } else {
        assert(old(s)@ + hex_digits(v as nat, 0) =~= old(s)@);
    }
}

/// The decimal form of a signed number.
pub open spec fn signed_decimal(i: int) -> Seq<char> {
    if i < 0 { "-"@ + decimal((-i) as nat) } else { decimal(i as nat) }
}

/// The 32-bit two's-complement value of an exit code.
pub open spec fn as_unsigned(code: i32) -> nat {
    if code < 0 { (code + 0x1_0000_0000) as nat } else { code as nat }
}

/// What the driver logs about a result: the exit code in decimal and in
/// eight hexadecimal digits, and the error message, if any.
pub open spec fn spec_script_results(r: ScriptResponseView) -> Seq<char> {
    line("Exit code: "@ + signed_decimal(r.exit_code as int) + " (0x"@ + hex_digits(as_unsigned(r.exit_code), 8) + ")"@)
        + (if r.error_message.len() > 0 { line("Error: "@ + r.error_message) } else { Seq::empty() })
}

/// Logs a script's exit code and error message.
pub fn display_script_results(response: &ScriptResponse, logger: &mut Logger)
    ensures
        final(logger)@ == old(logger)@ + spec_script_results(response@),
{
    let code = response.exit_code;
    let mut msg = to_owned_string("Exit code: ");
    if code < 0 {
        push_str(&mut msg, "-");
        let magnitude: u64 = (0i64 - code as i64) as u64;
        push_decimal(&mut msg, magnitude);
    } else {
        push_decimal(&mut msg, code as u64);
    }
    push_str(&mut msg, " (0x");
    let unsigned: u32 = if code < 0 { (code as i64 + 0x1_0000_0000i64) as u32 } else { code as u32 };
    push_hex_digits(&mut msg, unsigned, 8);
    push_str(&mut msg, ")");
    logger.log_line(msg.as_str());
    let ghost l1 = logger@;
    if response.error_message.as_str().unicode_len() > 0 {
        log_labelled(logger, "Error: ", response.error_message.as_str());
    } else {
        assert(l1 + Seq::<char>::empty() =~= l1);
    }
    assert(logger@ =~= old(logger)@ + spec_script_results(response@));
}


/// The failure category of a failed run: a launch failure is an
/// initialisation error, anything else a process error.
pub open spec fn spec_failure_reason_for(phase: FailurePhase) -> FailureReason {
    match phase {
        FailurePhase::LaunchFailed => FailureReason::InitError,
        _ => FailureReason::ProcessError,
    }
}

/// The failure category for a failure phase.
pub fn failure_reason_for(phase: FailurePhase) -> (r: FailureReason)
    ensures
        r == spec_failure_reason_for(phase),
{
    match phase {
        FailurePhase::LaunchFailed => FailureReason::InitError,
        _ => FailureReason::ProcessError,
    }
}

/// The outcome and failure category an execution event reports: success
/// exactly when the exit code is 0, and then no category.
pub fn execution_outcome(response: &ScriptResponse) -> (r: (&'static str, Option<FailureReason>))
    ensures
        response.exit_code == 0 ==> r.0@ == "success"@ && r.1 is None,
        response.exit_code != 0 ==> r.0@ == "failure"@ && r.1 == Some(spec_failure_reason_for(response.failure_phase)),
{
    if response.exit_code == 0 {
        ("success", None)
    } else {
        ("failure", Some(failure_reason_for(response.failure_phase)))
    }
}

} // verus!
