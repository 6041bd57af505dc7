//! A small typed request/response RPC runtime with a JSON wire format.

pub mod error;
pub mod executor;
pub mod group;
pub mod interface;
pub mod stub;
pub mod transport;
pub mod wire;

pub use crate::error::{IoError, IoErrorKind, RpcError, ServerError};
pub use crate::interface::service;

use vstd::prelude::*;
use crate::error::ServerErrorView;
use crate::group::Address;
use crate::transport::tcp::WAIT_TIMEOUT;

verus! {

/// The envelope of a request: data today, room for control messages later.
#[derive(Clone, Debug, PartialEq, Eq)]
pub enum Request<T> {
    Data(T),
}

/// The envelope of a response: the server's error, or data.
#[derive(Clone, Debug, PartialEq, Eq)]
pub enum Response<T> {
    Error(ServerError),
    Data(T),
}

/// The mathematical value of a [`Response`].
pub enum ResponseView<V> {
    Error(ServerErrorView),
    Data(V),
}

impl<T: View> View for Request<T> {
    type V = Request<T::V>;

    open spec fn view(&self) -> Request<T::V> {
        match self {
            Request::Data(data) => Request::Data(data@),
        }
    }
}

impl<T: View> View for Response<T> {
    type V = ResponseView<T::V>;

    open spec fn view(&self) -> ResponseView<T::V> {
        match self {
            Response::Error(err) => ResponseView::Error(err@),
            Response::Data(data) => ResponseView::Data(data@),
        }
    }
}

/// Where a server stands in its life.
#[derive(Clone, Copy, Debug, PartialEq, Eq, Structural)]
pub enum Lifecycle {
    /// No bound address, no accept loop.
    Idle,
    /// The transport is bound and the accept loop runs.
    Running,
    /// Shutdown was asked for; the accept loop is still to end.
    Stopping,
    /// The accept loop has ended.
    Stopped,
}

/// A server: its place in its life, and the address that it serves.
pub struct Server {
    pub state: Lifecycle,
    pub addr: Option<Address>,
}

impl Server {
    /// An idle server.
    pub fn new() -> (srv: Server)
        ensures
            srv.state == Lifecycle::Idle,
            srv.addr is None,
    {
        Server { state: Lifecycle::Idle, addr: None }
    }

    /// Starts the server on the transport's address, given what binding the
    /// transport came to. The address is kept either way. Where the transport
    /// is bound the server runs; where it is not, the server stays idle and
    /// the failure is handed on.
    pub fn run(&mut self, addr: Address, connected: Result<(), RpcError>) -> (r: Result<
        (),
        RpcError,
    >)
        requires
            old(self).state == Lifecycle::Idle,
        ensures
            final(self).addr == Some(addr),
            r == connected,
            final(self).state == if connected is Ok {
                Lifecycle::Running
            } else {
                Lifecycle::Idle
            },
    {
        self.addr = Some(addr);
        if connected.is_ok() {
            self.state = Lifecycle::Running;
        }
        connected
    }

    /// Asks for shutdown, and says whether there is an accept loop to signal
    /// and to wait for: there is one exactly where the server was running. A
    /// server that never ran is stopped at once.
    pub fn stop(&mut self) -> (signal: bool)
        ensures
            final(self).addr == old(self).addr,
            signal == (old(self).state == Lifecycle::Running),
            final(self).state == match old(self).state {
                Lifecycle::Idle => Lifecycle::Stopped,
                Lifecycle::Running => Lifecycle::Stopping,
                Lifecycle::Stopping => Lifecycle::Stopping,
                Lifecycle::Stopped => Lifecycle::Stopped,
            },
    {
        match self.state {
            Lifecycle::Idle => {
                self.state = Lifecycle::Stopped;
                false
            },
            Lifecycle::Running => {
                self.state = Lifecycle::Stopping;
                true
            },
            Lifecycle::Stopping => false,
            Lifecycle::Stopped => false,
        }
    }

    /// Books that the accept loop has ended: a stopping server is stopped.
    pub fn joined(&mut self)
        ensures
            final(self).addr == old(self).addr,
            final(self).state == if old(self).state == Lifecycle::Stopping {
                Lifecycle::Stopped
            } else {
                old(self).state
            },
    {
        match self.state {
            Lifecycle::Stopping => {
                self.state = Lifecycle::Stopped;
            },
            _ => {},
        }
    }
}

/// What the accept loop has just learnt.
#[derive(Debug, PartialEq, Eq)]
pub enum LoopEvent {
    /// What the transport's `next` returned.
    Next(Result<(), RpcError>),
    /// Whether the shutdown channel held a signal.
    Shutdown(bool),
    /// What the transport's `wait` returned.
    Waited(Result<(), RpcError>),
}

/// What the accept loop does next.
#[derive(Clone, Copy, Debug, PartialEq, Eq, Structural)]
pub enum LoopAction {
    /// Call the transport's `next`.
    Next,
    /// Look into the shutdown channel, without blocking.
    PollShutdown,
    /// Call the transport's `wait` with this timeout in milliseconds.
    Wait(u64),
    /// Leave the loop.
    Exit,
}

/// The accept loop's rule. After `next`: go on at once where a connection was
/// scheduled; look for shutdown where it would block; leave on any other
/// error. After the look: leave where shutdown was signalled, else sleep one
/// idle tick. After the sleep: go on, or leave where the sleep failed.
pub open spec fn loop_rule(event: LoopEvent) -> LoopAction {
    match event {
        LoopEvent::Next(Ok(_)) => LoopAction::Next,
        LoopEvent::Next(Err(e)) => if e.spec_would_block() {
            LoopAction::PollShutdown
        } else {
            LoopAction::Exit
        },
        LoopEvent::Shutdown(signalled) => if signalled {
            LoopAction::Exit
        } else {
            LoopAction::Wait(WAIT_TIMEOUT)
        },
        LoopEvent::Waited(Ok(_)) => LoopAction::Next,
        LoopEvent::Waited(Err(_)) => LoopAction::Exit,
    }
}

/// One step of the accept loop: what to do after `event`.
pub fn accept_step(event: &LoopEvent) -> (action: LoopAction)
    ensures
        action == loop_rule(*event),
{
    match event {
        LoopEvent::Next(Ok(_)) => LoopAction::Next,
        LoopEvent::Next(Err(e)) => if e.would_block() {
            LoopAction::PollShutdown
        } else {
            LoopAction::Exit
        },
        LoopEvent::Shutdown(signalled) => if *signalled {
            LoopAction::Exit
        } else {
            LoopAction::Wait(WAIT_TIMEOUT)
        },
        LoopEvent::Waited(Ok(_)) => LoopAction::Next,
        LoopEvent::Waited(Err(_)) => LoopAction::Exit,
    }
}

/// Once shutdown is signalled, an accept loop that finds nothing to accept
/// leaves within the same idle tick: the error that would block sends it to
/// the shutdown channel, and the signal there makes it leave.
pub proof fn lemma_shutdown_is_seen(blocked: RpcError)
    requires
        blocked.spec_would_block(),
    ensures
        loop_rule(LoopEvent::Next(Err(blocked))) == LoopAction::PollShutdown,
        loop_rule(LoopEvent::Shutdown(true)) == LoopAction::Exit,
{
}

/// The accept loop never sleeps longer than one idle tick at a time, and
/// sleeps only after it has looked for shutdown.
pub proof fn lemma_sleep_is_one_tick(event: LoopEvent)
    ensures
        loop_rule(event) matches LoopAction::Wait(ms) ==> ms == WAIT_TIMEOUT && event
            == LoopEvent::Shutdown(false),
{
}

} // verus!
