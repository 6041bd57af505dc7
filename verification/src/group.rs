//! Addresses: where a server listens and where a client connects.

use vstd::prelude::*;
use vstd::string::*;
use crate::error::{IoError, IoErrorKind, IoErrorView};

verus! {

/// An IP address, version 4 by its four octets or version 6 by its 128 bits.
#[derive(Clone, Copy, Debug, PartialEq, Eq, Structural)]
pub enum IpAddress {
    V4(u8, u8, u8, u8),
    V6(u128),
}

/// A socket address: an IP address and a port.
#[derive(Clone, Copy, Debug, PartialEq, Eq, Structural)]
pub struct SocketAddress {
    pub ip: IpAddress,
    pub port: u16,
}

/// An endpoint: a name of this process's own, or a socket address.
#[derive(Clone, Debug, PartialEq, Eq)]
pub enum Address {
    Local(String),
    Socket(SocketAddress),
}

/// The mathematical value of an [`Address`].
pub enum AddressView {
    Local(Seq<char>),
    Socket(SocketAddress),
}

impl View for Address {
    type V = AddressView;

    open spec fn view(&self) -> AddressView {
        match self {
            Address::Local(name) => AddressView::Local(name@),
            Address::Socket(addr) => AddressView::Socket(*addr),
        }
    }
}

/// The message of the failure that a local address resolves to.
pub open spec fn not_a_socket() -> Seq<char> {
    "not a socket type address"@
}

impl Address {
    /// The socket address, where this is one.
    pub fn get_socket_addr(&self) -> (addr: Option<SocketAddress>)
        ensures
            addr == self.spec_socket_addr(),
    {
        match self {
            Address::Socket(addr) => Some(*addr),
            Address::Local(_) => None,
        }
    }

    /// The meaning of [`Address::get_socket_addr`].
    pub open spec fn spec_socket_addr(&self) -> Option<SocketAddress> {
        match self {
            Address::Socket(addr) => Some(*addr),
            Address::Local(_) => None,
        }
    }

    /// The socket address of an IP address and a port.
    pub fn from_ip(ip: IpAddress, port: u16) -> (addr: Address)
        ensures
            addr@ == AddressView::Socket(SocketAddress { ip, port }),
    {
        Address::Socket(SocketAddress { ip, port })
    }

    /// The address that a text names. `parsed` is what the text reads as when
    /// taken for `ip:port`: where it reads as a socket address the result is
    /// that one, and for any other text a local address of that name.
    pub fn from_str(addr: &str, parsed: Option<SocketAddress>) -> (r: Address)
        ensures
            r@ == match parsed {
                Some(socket) => AddressView::Socket(socket),
                None => AddressView::Local(addr@),
            },
    {
        match parsed {
            Some(socket) => Address::Socket(socket),
            None => Address::Local(String::from_str(addr)),
        }
    }

    /// The socket addresses that this address resolves to: itself, where it is
    /// one; a local address resolves to none and fails as not available.
    pub fn to_socket_addrs(&self) -> (r: Result<Vec<SocketAddress>, IoError>)
        ensures
            match self.spec_socket_addr() {
                Some(addr) => r matches Ok(addrs) && addrs@ == seq![addr],
                None => r matches Err(e) && e@ == (IoErrorView {
                    kind: IoErrorKind::AddrNotAvailable,
                    message: not_a_socket(),
                }),
            },
    {
        match self {
            Address::Socket(addr) => {
                let mut addrs = Vec::new();
                addrs.push(*addr);
                Ok(addrs)
            },
            Address::Local(_) => Err(
                IoError::new(
                    IoErrorKind::AddrNotAvailable,
                    String::from_str("not a socket type address"),
                ),
            ),
        }
    }
}

} // verus!
