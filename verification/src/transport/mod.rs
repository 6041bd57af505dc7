//! What a transport has to offer: one set of operations for the side that
//! accepts connections, one for the side that opens them.

pub mod tcp;

use vstd::prelude::*;
use crate::error::RpcError;
use crate::group::Address;

verus! {

/// How a server receives requests. Framing, the concurrency of the work per
/// connection and the codec are the transport's own concern.
pub trait ServerTransport<Req, Rep> {
    /// What turns a request into its response.
    type Processor;

    /// The endpoint that the transport will bind.
    fn get_addr(&self) -> Address;

    /// Binds the acceptor, and leaves it in non-blocking mode.
    fn connect(&mut self) -> Result<(), RpcError>;

    /// Tries to accept one connection and schedules its handling; where no
    /// connection is ready, fails with an error that would block.
    fn next(&mut self, processor: Self::Processor) -> Result<(), RpcError>;

    /// Blocks until some I/O is ready or the timeout, in milliseconds, is over.
    fn wait(&mut self, timeout: u64) -> Result<(), RpcError>;
}

/// One connection of a client: a request goes out, its response comes back, by
/// a single round trip.
pub trait Connection<Req, Rep> {
    fn call(&self, req: Req) -> Result<Rep, RpcError>;
}

/// How a client reaches a server.
pub trait ClientTransport<Req, Rep> {
    type Connection: Connection<Req, Rep>;

    /// A connection for one request.
    fn connect(&self) -> Self::Connection;
}

} // verus!
