//! The two layers of failure: what a server reports on the wire, and what a
//! client call can end in.

use vstd::prelude::*;
use vstd::string::*;
use crate::wire::error_text;

verus! {

/// A failure that the server answers with instead of data.
#[derive(Clone, Debug, PartialEq, Eq)]
pub enum ServerError {
    /// The request envelope held nothing the dispatcher serves.
    BadRequest,
    /// The request bytes could not be decoded; the text says why.
    DecodingError(String),
    /// The service rejected the request; the text is its error, stringified.
    ProcessorError(String),
}

/// The mathematical value of a [`ServerError`].
pub enum ServerErrorView {
    BadRequest,
    DecodingError(Seq<char>),
    ProcessorError(Seq<char>),
}

impl View for ServerError {
    type V = ServerErrorView;

    open spec fn view(&self) -> ServerErrorView {
        match self {
            ServerError::BadRequest => ServerErrorView::BadRequest,
            ServerError::DecodingError(text) => ServerErrorView::DecodingError(text@),
            ServerError::ProcessorError(text) => ServerErrorView::ProcessorError(text@),
        }
    }
}

/// A text as `Debug` shows it: between double quotes, with what needs it
/// escaped.
pub uninterp spec fn quoted(text: Seq<char>) -> Seq<char>;

/// `Debug` of `str`, through `format!`: the text between double quotes, with
/// what needs it escaped.
#[verifier::external_body]
fn debug_text(text: &str) -> (shown: String)
    ensures
        shown@ == quoted(text@),
{
    format!("{:?}", text)
}

impl ServerErrorView {
    /// The error as it is shown: the variant's name, and the text in
    /// parentheses where there is one.
    pub open spec fn message(self) -> Seq<char> {
        match self {
            ServerErrorView::BadRequest => "BadRequest"@,
            ServerErrorView::DecodingError(text) => "DecodingError("@ + quoted(text) + ")"@,
            ServerErrorView::ProcessorError(text) => "ProcessorError("@ + quoted(text) + ")"@,
        }
    }
}

impl ServerError {
    /// The error as it is shown.
    pub fn message(&self) -> (shown: String)
        ensures
            shown@ == self@.message(),
    {
        match self {
            ServerError::BadRequest => String::from_str("BadRequest"),
            ServerError::DecodingError(text) => {
                let mut shown = String::from_str("DecodingError(");
                shown.append(debug_text(text.as_str()).as_str());
                shown.append(")");
                shown
            },
            ServerError::ProcessorError(text) => {
                let mut shown = String::from_str("ProcessorError(");
                shown.append(debug_text(text.as_str()).as_str());
                shown.append(")");
                shown
            },
        }
    }
}

/// The kinds of I/O failure that the runtime tells apart.
#[derive(Clone, Copy, Debug, PartialEq, Eq, Structural)]
pub enum IoErrorKind {
    /// Nothing is ready yet: the sentinel that sends the accept loop to sleep.
    WouldBlock,
    /// The other end of a queue or stream is gone.
    BrokenPipe,
    /// The address names no socket.
    AddrNotAvailable,
    /// Any other failure.
    Other,
}

/// An I/O failure, as plain values: its kind and its message.
#[derive(Clone, Debug, PartialEq, Eq)]
pub struct IoError {
    pub kind: IoErrorKind,
    pub message: String,
}

/// The mathematical value of an [`IoError`].
pub struct IoErrorView {
    pub kind: IoErrorKind,
    pub message: Seq<char>,
}

impl View for IoError {
    type V = IoErrorView;

    open spec fn view(&self) -> IoErrorView {
        IoErrorView { kind: self.kind, message: self.message@ }
    }
}

impl IoError {
    /// An I/O failure of the given kind.
    pub fn new(kind: IoErrorKind, message: String) -> (e: IoError)
        ensures
            e@ == (IoErrorView { kind, message: message@ }),
    {
        IoError { kind, message }
    }
}

/// What a client call can end in, short of a value.
#[derive(Clone, Debug, PartialEq, Eq)]
pub enum RpcError {
    /// The transport failed to move bytes.
    Io(IoError),
    /// Bytes that are no message, or a message that has no bytes; the text
    /// says why.
    Codec(String),
    /// The server answered with an error.
    Server(ServerError),
    /// The server answered with data of another method.
    InvalidResponseType,
    /// The address names no socket.
    NoSocketAddress,
    /// The transport is not bound.
    NotRunning,
}

/// The mathematical value of an [`RpcError`].
pub enum RpcErrorView {
    Io(IoErrorView),
    Codec(Seq<char>),
    Server(ServerErrorView),
    InvalidResponseType,
    NoSocketAddress,
    NotRunning,
}

impl View for RpcError {
    type V = RpcErrorView;

    open spec fn view(&self) -> RpcErrorView {
        match self {
            RpcError::Io(e) => RpcErrorView::Io(e@),
            RpcError::Codec(text) => RpcErrorView::Codec(text@),
            RpcError::Server(e) => RpcErrorView::Server(e@),
            RpcError::InvalidResponseType => RpcErrorView::InvalidResponseType,
            RpcError::NoSocketAddress => RpcErrorView::NoSocketAddress,
            RpcError::NotRunning => RpcErrorView::NotRunning,
        }
    }
}

impl RpcErrorView {
    /// The failure as it is shown: the message of an I/O failure and of a codec
    /// failure, and the variant as it stands for any other.
    pub open spec fn message(self) -> Seq<char> {
        match self {
            RpcErrorView::Io(err) => err.message,
            RpcErrorView::Codec(text) => text,
            RpcErrorView::Server(err) => "Server("@ + err.message() + ")"@,
            RpcErrorView::InvalidResponseType => "InvalidResponseType"@,
            RpcErrorView::NoSocketAddress => "NoSocketAddress"@,
            RpcErrorView::NotRunning => "NotRunning"@,
        }
    }
}

impl RpcError {
    /// The failure as it is shown.
    pub fn message(&self) -> (shown: String)
        ensures
            shown@ == self@.message(),
    {
        match self {
            RpcError::Io(err) => err.message.clone(),
            RpcError::Codec(text) => text.clone(),
            RpcError::Server(err) => {
                let mut shown = String::from_str("Server(");
                shown.append(err.message().as_str());
                shown.append(")");
                shown
            },
            RpcError::InvalidResponseType => String::from_str("InvalidResponseType"),
            RpcError::NoSocketAddress => String::from_str("NoSocketAddress"),
            RpcError::NotRunning => String::from_str("NotRunning"),
        }
    }

    /// Wraps an error that the server answered with.
    pub fn from_server_err(err: ServerError) -> (e: RpcError)
        ensures
            e == RpcError::Server(err),
    {
        RpcError::Server(err)
    }

    /// A codec failure, by its message.
    pub fn from_codec(err: &serde_json::Error) -> (e: RpcError)
        ensures
            e@ == RpcErrorView::Codec(crate::wire::message_of(*err)),
    {
        RpcError::Codec(error_text(err))
    }

    /// Whether the cause is an I/O failure of the kind "operation would block".
    pub fn would_block(&self) -> (b: bool)
        ensures
            b == self.spec_would_block(),
    {
        match self {
            RpcError::Io(err) => match err.kind {
                IoErrorKind::WouldBlock => true,
                _ => false,
            },
            _ => false,
        }
    }

    /// The meaning of [`RpcError::would_block`].
    pub open spec fn spec_would_block(&self) -> bool {
        self matches RpcError::Io(err) && err.kind == IoErrorKind::WouldBlock
    }
}

impl From<IoError> for RpcError {
    fn from(err: IoError) -> (e: RpcError) {
        RpcError::Io(err)
    }
}

impl vstd::std_specs::convert::FromSpecImpl<IoError> for RpcError {
    open spec fn obeys_from_spec() -> bool {
        true
    }

    open spec fn from_spec(err: IoError) -> RpcError {
        RpcError::Io(err)
    }
}

} // verus!
