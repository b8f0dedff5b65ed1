//! State-aware requests: one phase of a sandbox's life per request.

use vstd::prelude::*;
use crate::errors::{MxcError, MxcErrorCode};
use crate::json::{Json, json_tree};
use crate::models::{ContainmentBackend, ExecutionRequest, ExecutionRequestView, opt_view};
use crate::text::{push_str, to_owned_string, str_eq};

verus! {

/// The lifecycle phase a state-aware request asks for.
#[derive(Clone, Copy, Debug, PartialEq, Eq, Structural)]
pub enum Phase {
    Provision,
    Start,
    Exec,
    Stop,
    Deprovision,
}

pub const MSG_UNSUPPORTED_PHASE_PREFIX: &'static str = "Unsupported phase '";
pub const MSG_UNSUPPORTED_PHASE_SUFFIX: &'static str = "' (must be 'provision', 'start', 'exec', 'stop', or 'deprovision')";

/// The phase a wire name denotes, or the message of the refusal.
pub open spec fn spec_phase(s: Seq<char>) -> Result<Phase, Seq<char>> {
    if s == "provision"@ {
        Ok(Phase::Provision)
    } else if s == "start"@ {
        Ok(Phase::Start)
    } else if s == "exec"@ {
        Ok(Phase::Exec)
    } else if s == "stop"@ {
        Ok(Phase::Stop)
    } else if s == "deprovision"@ {
        Ok(Phase::Deprovision)
    } else {
        Err(MSG_UNSUPPORTED_PHASE_PREFIX@ + s + MSG_UNSUPPORTED_PHASE_SUFFIX@)
    }
}

impl Phase {
    /// Parses a wire phase name; an unknown one is an `UnsupportedPhase` error.
    pub fn from_wire(s: &str) -> (r: Result<Phase, MxcError>)
        ensures
            match r {
                Ok(p) => spec_phase(s@) == Ok::<Phase, Seq<char>>(p),
                Err(e) => spec_phase(s@) == Err::<Phase, Seq<char>>(e.message@)
                    && e.code == MxcErrorCode::UnsupportedPhase,
            },
    {
        if str_eq(s, "provision") {
            Ok(Phase::Provision)
        } else if str_eq(s, "start") {
            Ok(Phase::Start)
        } else if str_eq(s, "exec") {
            Ok(Phase::Exec)
        } else if str_eq(s, "stop") {
            Ok(Phase::Stop)
        } else if str_eq(s, "deprovision") {
            Ok(Phase::Deprovision)
        } else {
            let mut msg = to_owned_string(MSG_UNSUPPORTED_PHASE_PREFIX);
            push_str(&mut msg, s);
            push_str(&mut msg, MSG_UNSUPPORTED_PHASE_SUFFIX);
            Err(MxcError { code: MxcErrorCode::UnsupportedPhase, message: msg })
        }
    }
}

/// A parsed state-aware request: the execution request built from the
/// envelope's shared fields, the phase, the explicitly requested backend,
/// the sandbox id, and the `experimental` block as raw JSON.
pub struct ParsedStateAwareRequest {
    pub request: ExecutionRequest,
    pub phase: Phase,
    pub containment: Option<ContainmentBackend>,
    pub sandbox_id: Option<String>,
    pub experimental_raw: Option<serde_json::Value>,
}

/// What a [`ParsedStateAwareRequest`] holds, as plain values.
pub struct ParsedStateAwareRequestView {
    pub request: ExecutionRequestView,
    pub phase: Phase,
    pub containment: Option<ContainmentBackend>,
    pub sandbox_id: Option<Seq<char>>,
    pub experimental_raw: Option<Json>,
}

impl View for ParsedStateAwareRequest {
    type V = ParsedStateAwareRequestView;

    open spec fn view(&self) -> ParsedStateAwareRequestView {
        ParsedStateAwareRequestView {
            request: self.request@,
            phase: self.phase,
            containment: self.containment,
            sandbox_id: opt_view(self.sandbox_id),
            experimental_raw: match self.experimental_raw { Some(v) => Some(json_tree(v)), None => None },
        }
    }
}

/// A loaded request: one-shot, or one phase of a state-aware lifecycle.
pub enum MxcRequest {
    OneShot(ExecutionRequest),
    StateAware(ParsedStateAwareRequest),
}

/// What an [`MxcRequest`] holds, as plain values.
pub enum MxcRequestView {
    OneShot(ExecutionRequestView),
    StateAware(ParsedStateAwareRequestView),
}

impl View for MxcRequest {
    type V = MxcRequestView;

    open spec fn view(&self) -> MxcRequestView {
        match self {
            MxcRequest::OneShot(r) => MxcRequestView::OneShot(r@),
            MxcRequest::StateAware(p) => MxcRequestView::StateAware(p@),
        }
    }
}

} // verus!
