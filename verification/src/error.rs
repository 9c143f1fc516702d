//! The terminal errors of a think invocation.

use vstd::prelude::*;
use vstd::string::*;

verus! {

/// Why a think invocation ended without a result.
#[derive(Debug)]
pub enum Error {
    /// The connection to the agent closed before it was established.
    ConnectionClosed,
    /// The session stopped without the completion tool ever being invoked.
    NoResult,
    /// The transport or the protocol failed while sending or reading; the
    /// text is the failure as the transport reported it.
    Transport(String),
    /// A caller registered a tool under the name reserved for the completion
    /// tool.
    ReservedToolName,
    /// A caller registered two tools under this one name.
    DuplicateTool(String),
}

/// The mathematical value of an [`Error`].
pub enum ErrorView {
    ConnectionClosed,
    NoResult,
    Transport(Seq<char>),
    ReservedToolName,
    DuplicateTool(Seq<char>),
}

impl View for Error {
    type V = ErrorView;

    open spec fn view(&self) -> ErrorView {
        match self {
            Error::ConnectionClosed => ErrorView::ConnectionClosed,
            Error::NoResult => ErrorView::NoResult,
            Error::Transport(msg) => ErrorView::Transport(msg@),
            Error::ReservedToolName => ErrorView::ReservedToolName,
            Error::DuplicateTool(name) => ErrorView::DuplicateTool(name@),
        }
    }
}

/// The text by which an error presents itself.
pub open spec fn error_text(e: ErrorView) -> Seq<char> {
    match e {
        ErrorView::ConnectionClosed => "connection closed"@,
        ErrorView::NoResult => "no result returned from think block"@,
        ErrorView::Transport(msg) => "transport error: "@ + msg,
        ErrorView::ReservedToolName => "tool name `return_result` is reserved"@,
        ErrorView::DuplicateTool(name) => "tool registered twice: "@ + name,
    }
}

impl Error {
    /// A human-readable description of the error.
    pub fn message(&self) -> (r: String)
        ensures
            r@ == error_text(self@),
    {
        match self {
            Error::ConnectionClosed => "connection closed".to_owned(),
            Error::NoResult => "no result returned from think block".to_owned(),
            Error::Transport(msg) => {
                let mut s = "transport error: ".to_owned();
                s.append(msg.as_str());
                s
            },
            Error::ReservedToolName => "tool name `return_result` is reserved".to_owned(),
            Error::DuplicateTool(name) => {
                let mut s = "tool registered twice: ".to_owned();
                s.append(name.as_str());
                s
            },
        }
    }

    /// Whether this is the absence-of-result condition.
    pub fn is_no_result(&self) -> (r: bool)
        ensures
            r == (self@ is NoResult),
    {
        match self {
            Error::NoResult => true,
            _ => false,
        }
    }
}

} // verus!
