//! Error types of the configuration loader and the diagnostic logger.

use vstd::prelude::*;
use crate::text::{push_str, to_owned_string};

verus! {

/// An error in loading or validating a request.
#[derive(Debug, Clone)]
pub enum WxcError {
    /// The configuration could not be read, parsed or validated.
    ConfigParse(String),
}

impl WxcError {
    /// The message the error carries.
    pub fn message(&self) -> (r: String)
        ensures
            r@ == self.spec_message(),
    {
        match self {
            WxcError::ConfigParse(m) => to_owned_string(m.as_str()),
        }
    }

    pub open spec fn spec_message(&self) -> Seq<char> {
        match self {
            WxcError::ConfigParse(m) => m@,
        }
    }
}

/// Machine-readable category of a state-aware error envelope.
#[derive(Debug, Clone, Copy, PartialEq, Eq, Structural)]
pub enum MxcErrorCode {
    MalformedRequest,
    UnsupportedPhase,
    BackendError,
}

/// A typed error reported in a state-aware response envelope.
#[derive(Debug, Clone)]
pub struct MxcError {
    pub code: MxcErrorCode,
    pub message: String,
}

impl MxcError {
    /// A `MalformedRequest` error with the given message.
    pub fn malformed_request(message: &str) -> (r: Self)
        ensures
            r.code == MxcErrorCode::MalformedRequest,
            r.message@ == message@,
    {
        MxcError { code: MxcErrorCode::MalformedRequest, message: to_owned_string(message) }
    }
}

/// Categorised error of `load_mxc_request`: the variant tells whether the
/// input could not be discriminated, or failed as a one-shot or as a
/// state-aware request.
#[derive(Debug)]
pub enum ParseError {
    /// base64 or top-level JSON failure: the input could not be discriminated.
    Decode(WxcError),
    /// Discriminated as one-shot; conversion to `ExecutionRequest` failed.
    OneShot(WxcError),
    /// Discriminated as state-aware; conversion failed.
    StateAware(MxcError),
}

/// The plain content of a [`ParseError`]: its category and message (and,
/// for a state-aware failure, the envelope's error code).
pub enum ParseErrorView {
    Decode(Seq<char>),
    OneShot(Seq<char>),
    StateAware(MxcErrorCode, Seq<char>),
}

impl View for ParseError {
    type V = ParseErrorView;

    open spec fn view(&self) -> ParseErrorView {
        match self {
            ParseError::Decode(e) => ParseErrorView::Decode(e.spec_message()),
            ParseError::OneShot(e) => ParseErrorView::OneShot(e.spec_message()),
            ParseError::StateAware(e) => ParseErrorView::StateAware(e.code, e.message@),
        }
    }
}

/// Where a logger's output goes once the run reports it.
#[derive(Debug, Clone, Copy, PartialEq, Eq, Structural)]
pub enum Mode {
    Console,
    Buffer,
}

/// Diagnostic logger: an append-only text buffer.
#[derive(Debug)]
pub struct Logger {
    mode: Mode,
    buffer: String,
}

impl View for Logger {
    type V = Seq<char>;

    closed spec fn view(&self) -> Seq<char> {
        self.buffer@
    }
}

impl Logger {
    /// Where the output goes once the run reports it.
    pub closed spec fn spec_mode(&self) -> Mode {
        self.mode
    }

    /// An empty logger.
    pub fn new(mode: Mode) -> (r: Self)
        ensures
            r@ == Seq::<char>::empty(),
            r.spec_mode() == mode,
    {
        Logger { mode, buffer: String::new() }
    }

    /// Where the output goes.
    pub fn mode(&self) -> (r: Mode)
        ensures
            r == self.spec_mode(),
    {
        self.mode
    }

    /// Appends `msg`.
    pub fn log(&mut self, msg: &str)
        ensures
            final(self)@ == old(self)@ + msg@,
            final(self).spec_mode() == old(self).spec_mode(),
    {
        push_str(&mut self.buffer, msg);
    }

    /// Appends `msg` and a line break.
    pub fn log_line(&mut self, msg: &str)
        ensures
            final(self)@ == old(self)@ + crate::text::line(msg@),
            final(self).spec_mode() == old(self).spec_mode(),
    {
        push_str(&mut self.buffer, msg);
        push_str(&mut self.buffer, "\n");
        proof {
            reveal_strlit("\n");
        }
        assert(crate::text::line(msg@) =~= msg@ + "\n"@);
    }

    /// Everything logged so far.
    pub fn get_buffer(&self) -> (r: &str)
        ensures
            r@ == self@,
    {
        self.buffer.as_str()
    }
}

} // verus!
