//! The reference transport: one TCP connection per call, one JSON document
//! each way. The request ends where the client closes its writing half, the
//! response where the server closes the connection.
//!
//! The sockets themselves are held by the program around this library. What
//! stands here is what the transport decides and computes: where to bind and
//! where to connect, what an accepted connection or a failed accept leads to,
//! and the reply to the bytes that a connection delivered.

use vstd::prelude::*;
use vstd::string::*;
use crate::error::{IoError, IoErrorKind, IoErrorView, RpcError, RpcErrorView, ServerError};
use crate::executor::{PoolView, ThreadPool};
use crate::group::{Address, SocketAddress};
use crate::wire::{ClientData, ServerData, Tagged};
use crate::{Request, Response, ResponseView};

verus! {

/// The milliseconds that the accept loop sleeps when nothing is ready.
pub const WAIT_TIMEOUT: u64 = 100;

/// The milliseconds after which a read on an accepted connection gives up.
pub const READ_TIMEOUT: u64 = 5000;

/// The milliseconds after which a write on an accepted connection gives up.
pub const WRITE_TIMEOUT: u64 = 5000;

/// The number of workers that a server transport starts.
pub const POOL_SIZE: usize = 4;

/// A failure of the transport, flat: kinds and texts only.
#[derive(Clone, Debug, PartialEq, Eq)]
pub enum TcpError {
    IoError(String),
    SerdeError(String),
    NoSocketAddress,
    NotRunning,
}

/// The mathematical value of a [`TcpError`].
pub enum TcpErrorView {
    IoError(Seq<char>),
    SerdeError(Seq<char>),
    NoSocketAddress,
    NotRunning,
}

impl View for TcpError {
    type V = TcpErrorView;

    open spec fn view(&self) -> TcpErrorView {
        match self {
            TcpError::IoError(text) => TcpErrorView::IoError(text@),
            TcpError::SerdeError(text) => TcpErrorView::SerdeError(text@),
            TcpError::NoSocketAddress => TcpErrorView::NoSocketAddress,
            TcpError::NotRunning => TcpErrorView::NotRunning,
        }
    }
}

impl TcpError {
    /// An I/O failure, by its message.
    pub fn from_io(err: &IoError) -> (e: TcpError)
        ensures
            e@ == TcpErrorView::IoError(err@.message),
    {
        TcpError::IoError(err.message.clone())
    }

    /// A failure of the JSON library, by its message.
    pub fn from_codec(err: &serde_json::Error) -> (e: TcpError)
        ensures
            e@ == TcpErrorView::SerdeError(crate::wire::message_of(*err)),
    {
        TcpError::SerdeError(crate::wire::error_text(err))
    }
}

impl From<TcpError> for RpcError {
    fn from(err: TcpError) -> (e: RpcError) {
        match err {
            TcpError::IoError(message) => RpcError::Io(IoError { kind: IoErrorKind::Other, message }),
            TcpError::SerdeError(message) => RpcError::Codec(message),
            TcpError::NoSocketAddress => RpcError::NoSocketAddress,
            TcpError::NotRunning => RpcError::NotRunning,
        }
    }
}

impl vstd::std_specs::convert::FromSpecImpl<TcpError> for RpcError {
    open spec fn obeys_from_spec() -> bool {
        true
    }

    open spec fn from_spec(err: TcpError) -> RpcError {
        match err {
            TcpError::IoError(message) => RpcError::Io(IoError { kind: IoErrorKind::Other, message }),
            TcpError::SerdeError(message) => RpcError::Codec(message),
            TcpError::NoSocketAddress => RpcError::NoSocketAddress,
            TcpError::NotRunning => RpcError::NotRunning,
        }
    }
}

/// What the server answers to a decoded request: a request that did not
/// decode is answered with its decoding error, and the processor is not
/// called; any other is answered by the processor.
pub fn answer<P>(decoded: Result<Request<ClientData>, ServerError>, processor: &P) -> (resp:
    Response<ServerData>) where P: Fn(Request<ClientData>) -> Response<ServerData>
    requires
        forall|req: Request<ClientData>| call_requires(processor, (req,)),
    ensures
        match decoded {
            Ok(req) => call_ensures(processor, (req,), resp),
            Err(e) => resp == Response::<ServerData>::Error(e),
        },
{
    match decoded {
        Ok(req) => processor(req),
        Err(e) => Response::Error(e),
    }
}

/// The reply to the bytes that a connection delivered: they are decoded, the
/// request is answered, and the response is encoded. Bytes that are no request
/// are answered with their decoding error, and the processor is not asked;
/// any other bytes are answered with what the processor returned to their
/// request.
pub fn serve<P>(bytes: &[u8], processor: &P) -> (reply: Vec<u8>) where
    P: Fn(Request<ClientData>) -> Response<ServerData>,

    requires
        forall|req: Request<ClientData>| call_requires(processor, (req,)),
    ensures
        match crate::wire::decoded_request(bytes@) {
            Ok(sent) => exists|req: Request<ClientData>, resp: Response<ServerData>|
                req@ == sent && call_ensures(processor, (req,), resp) && reply@
                    == crate::wire::printed(crate::wire::response_document(resp@)),
            Err(e) => reply@ == crate::wire::printed(
                crate::wire::response_document(ResponseView::Error(e)),
            ),
        },
        bytes@.len() == 0 ==> crate::wire::decoded_request(bytes@) is Err,
{
    let decoded = crate::wire::decode_request(bytes);
    let resp = answer(decoded, processor);
    crate::wire::encode_response(resp)
}

/// The server side of the transport: the address, and whether the listener
/// is bound.
pub struct TcpServerTransport {
    pub addr: Address,
    pub bound: bool,
}

impl TcpServerTransport {
    /// A transport for the address, not bound yet.
    pub fn new(addr: Address) -> (t: TcpServerTransport)
        ensures
            t.addr == addr,
            !t.bound,
    {
        TcpServerTransport { addr, bound: false }
    }

    /// The pool that handles what the transport accepts: [`POOL_SIZE`] idle
    /// workers over connections of type `J`.
    pub fn pool<J>() -> (pool: ThreadPool<J>)
        ensures
            pool@ == PoolView::<J>::fresh(POOL_SIZE as nat),
    {
        ThreadPool::new(POOL_SIZE)
    }

    /// The address that identifies the server.
    pub fn get_addr(&self) -> (addr: Address)
        ensures
            addr@ == self.addr@,
    {
        match &self.addr {
            Address::Local(name) => Address::Local(name.clone()),
            Address::Socket(socket) => Address::Socket(*socket),
        }
    }

    /// Where the listener is to be bound: the socket address; a local address
    /// names none.
    pub fn target(&self) -> (r: Result<SocketAddress, RpcError>)
        ensures
            match self.addr.spec_socket_addr() {
                Some(socket) => r == Ok::<_, RpcError>(socket),
                None => r == Err::<SocketAddress, _>(RpcError::NoSocketAddress),
            },
    {
        match self.addr.get_socket_addr() {
            Some(socket) => Ok(socket),
            None => Err(RpcError::NoSocketAddress),
        }
    }

    /// Books what binding the listener came to. With a local address nothing
    /// was to be bound, and the transport stays as it is; with a socket
    /// address the transport is bound once binding succeeded, and a failure to
    /// bind is handed on.
    pub fn connect(&mut self, bind: Result<(), IoError>) -> (r: Result<(), RpcError>)
        ensures
            final(self).addr == old(self).addr,
            match old(self).addr.spec_socket_addr() {
                None => r == Err::<(), _>(RpcError::NoSocketAddress) && final(self).bound == old(
                    self,
                ).bound,
                Some(_) => match bind {
                    Ok(_) => r is Ok && final(self).bound,
                    Err(e) => r == Err::<(), _>(RpcError::Io(e)) && final(self).bound == old(
                        self,
                    ).bound,
                },
            },
    {
        match self.addr.get_socket_addr() {
            None => Err(RpcError::NoSocketAddress),
            Some(_) => match bind {
                Ok(_) => {
                    self.bound = true;
                    Ok(())
                },
                Err(e) => Err(RpcError::Io(e)),
            },
        }
    }

    /// Books what one accept came to. A transport that is not bound is not
    /// running. An accepted connection is handed to the pool, behind those
    /// that wait there. A failed accept is handed on as it is: where nothing
    /// was ready, that is the error that would block.
    pub fn next<J>(&self, pool: &mut ThreadPool<J>, accepted: Result<J, IoError>) -> (r: Result<
        (),
        RpcError,
    >)
        ensures
            !self.bound ==> r == Err::<(), _>(RpcError::NotRunning) && final(pool)@ == old(pool)@,
            self.bound ==> match accepted {
                Ok(job) => {
                    &&& final(pool)@ == old(pool)@.execute(job)
                    &&& old(pool)@.open ==> r is Ok
                    &&& !old(pool)@.open ==> (r matches Err(RpcError::Io(e)) && e@
                        == (IoErrorView {
                        kind: IoErrorKind::BrokenPipe,
                        message: crate::executor::closed_queue(),
                    }))
                },
                Err(e) => r == Err::<(), _>(RpcError::Io(e)) && final(pool)@ == old(pool)@,
            },
    {
        if !self.bound {
            return Err(RpcError::NotRunning);
        }
        match accepted {
            Ok(job) => match pool.execute(job) {
                Ok(_) => Ok(()),
                Err(e) => Err(RpcError::Io(e)),
            },
            Err(e) => Err(RpcError::Io(e)),
        }
    }
}

/// The client side of the transport: the address of the server.
pub struct TcpClientTransport {
    pub addr: Address,
}

impl TcpClientTransport {
    /// A transport that will connect to the server at the address.
    pub fn new(addr: Address) -> (t: TcpClientTransport)
        ensures
            t.addr == addr,
    {
        TcpClientTransport { addr }
    }

    /// Where to connect: the socket address; a local address names none.
    pub fn target(&self) -> (r: Result<SocketAddress, RpcError>)
        ensures
            match self.addr.spec_socket_addr() {
                Some(socket) => r == Ok::<_, RpcError>(socket),
                None => r == Err::<SocketAddress, _>(RpcError::NoSocketAddress),
            },
    {
        match self.addr.get_socket_addr() {
            Some(socket) => Ok(socket),
            None => Err(RpcError::NoSocketAddress),
        }
    }

    /// What a call comes to, given what the connection delivered: a failure
    /// of the connection is handed on as it is, and bytes are decoded as a
    /// response. Bytes that are no response are a codec failure, and no bytes
    /// at all (a connection closed without a reply) are no response.
    pub fn receive(&self, delivered: Result<Vec<u8>, IoError>) -> (r: Result<
        Response<ServerData>,
        RpcError,
    >)
        ensures
            match delivered {
                Ok(bytes) => match r {
                    Ok(resp) => crate::wire::decoded_response(bytes@) == Ok::<_, RpcErrorView>(
                        resp@,
                    ),
                    Err(e) => crate::wire::decoded_response(bytes@) == Err::<
                        ResponseView<Tagged>,
                        _,
                    >(e@),
                },
                Err(e) => r == Err::<Response<ServerData>, _>(RpcError::Io(e)),
            },
            delivered matches Ok(bytes) && bytes@.len() == 0 ==> r is Err,
            delivered is Ok ==> (r matches Err(e) ==> e is Codec),
    {
        match delivered {
            Ok(bytes) => crate::wire::decode_response(bytes.as_slice()),
            Err(e) => Err(RpcError::Io(e)),
        }
    }
}

} // verus!
