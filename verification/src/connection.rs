//! Roles and addresses of a connection.

use vstd::prelude::*;

verus! {

/// The role this side plays on a connection.
#[derive(Debug, Copy, Clone, PartialEq, Eq, Hash, Structural)]
pub enum Endpoint {
    Dialer,
    Listener,
}

impl Endpoint {
    /// The other role.
    pub open spec fn flipped(self) -> Endpoint {
        match self {
            Endpoint::Dialer => Endpoint::Listener,
            Endpoint::Listener => Endpoint::Dialer,
        }
    }

    pub fn is_dialer(self) -> (b: bool)
        ensures
            b == (self is Dialer),
    {
        match self {
            Endpoint::Dialer => true,
            Endpoint::Listener => false,
        }
    }

    pub fn is_listener(self) -> (b: bool)
        ensures
            b == (self is Listener),
    {
        match self {
            Endpoint::Dialer => false,
            Endpoint::Listener => true,
        }
    }
}

impl std::ops::Not for Endpoint {
    type Output = Endpoint;

    fn not(self) -> (other: Endpoint) {
        match self {
            Endpoint::Dialer => Endpoint::Listener,
            Endpoint::Listener => Endpoint::Dialer,
        }
    }
}

impl vstd::std_specs::ops::NotSpecImpl for Endpoint {
    open spec fn obeys_not_spec() -> bool {
        true
    }

    open spec fn not_req(self) -> bool {
        true
    }

    open spec fn not_spec(self) -> Endpoint {
        self.flipped()
    }
}

/// An IPv4 or IPv6 socket address, held as plain integers.
///
/// `ip` is the address in network order read as one big-endian number.
#[derive(Debug, Copy, Clone, PartialEq, Eq, Hash, Structural)]
pub enum SocketAddr {
    V4 { ip: u32, port: u16 },
    V6 { ip: u128, port: u16, flowinfo: u32, scope_id: u32 },
}

impl SocketAddr {
    pub open spec fn port_spec(self) -> u16 {
        match self {
            SocketAddr::V4 { port, .. } => port,
            SocketAddr::V6 { port, .. } => port,
        }
    }

    pub fn is_ipv4(&self) -> (b: bool)
        ensures
            b == (*self is V4),
    {
        match self {
            SocketAddr::V4 { .. } => true,
            SocketAddr::V6 { .. } => false,
        }
    }

    pub fn is_ipv6(&self) -> (b: bool)
        ensures
            b == (*self is V6),
    {
        match self {
            SocketAddr::V4 { .. } => false,
            SocketAddr::V6 { .. } => true,
        }
    }

    pub fn port(&self) -> (p: u16)
        ensures
            p == self.port_spec(),
    {
        match self {
            SocketAddr::V4 { port, .. } => *port,
            SocketAddr::V6 { port, .. } => *port,
        }
    }
}

/// The role and the addresses of one connection, fixed when it is dialed or
/// accepted.
#[derive(PartialEq, Eq, Debug, Copy, Clone, Hash, Structural)]
pub enum ConnectedPoint {
    /// We dialed the remote at `addr`.
    Dialer { addr: SocketAddr },
    /// The remote dialed us.
    Listener { local_addr: SocketAddr, remote_addr: SocketAddr },
}

impl ConnectedPoint {
    /// The role that this side plays at the point.
    pub open spec fn endpoint(self) -> Endpoint {
        match self {
            ConnectedPoint::Dialer { .. } => Endpoint::Dialer,
            ConnectedPoint::Listener { .. } => Endpoint::Listener,
        }
    }

    pub fn is_dialer(&self) -> (b: bool)
        ensures
            b == (*self is Dialer),
    {
        match self {
            ConnectedPoint::Dialer { .. } => true,
            ConnectedPoint::Listener { .. } => false,
        }
    }

    pub fn is_listener(&self) -> (b: bool)
        ensures
            b == (*self is Listener),
    {
        match self {
            ConnectedPoint::Dialer { .. } => false,
            ConnectedPoint::Listener { .. } => true,
        }
    }
}

/// Flipping a role twice gives the role back, and a flipped role differs
/// from the role itself.
pub proof fn lemma_flip_involutive(e: Endpoint)
    ensures
        e.flipped().flipped() == e,
        e.flipped() != e,
{
}

} // verus!
