//! The TCP transport: its configuration and its listener, without the
//! sockets.

use vstd::prelude::*;
use std::io;
use crate::connection::SocketAddr;
use crate::poll::{Poll, Stream};
use crate::transport::{run_in_order, EventKind, ListenerEvent};
use crate::upgrade::ready::ReadyFuture;

verus! {

/// The configuration of the TCP transport.
#[derive(Clone, Debug)]
pub struct Config {
    /// The time-to-live of the packets, if it is set.
    pub ttl: Option<u32>,
    /// Whether small writes are sent at once.
    pub nodelay: bool,
    /// The length of the queue of connections that wait to be accepted.
    pub backlog: u32,
}

/// The options that a TCP socket is made with, in the order in which they
/// are set.
#[derive(Clone, Copy, Debug, PartialEq, Eq)]
pub struct SocketOptions {
    /// Whether the socket is an IPv6 socket that takes no IPv4 traffic.
    pub only_v6: bool,
    pub ttl: Option<u32>,
    pub nodelay: bool,
    pub reuse_address: bool,
    pub nonblocking: bool,
}

impl Config {
    /// The default configuration: no time-to-live, no delay, and a backlog
    /// of 1024.
    pub fn new() -> (config: Self)
        ensures
            config.ttl is None,
            config.nodelay,
            config.backlog == 1024,
    {
        Self { ttl: None, nodelay: true, backlog: 1024 }
    }

    pub fn ttl(self, value: u32) -> (config: Self)
        ensures
            config.ttl == Some(value),
            config.nodelay == self.nodelay,
            config.backlog == self.backlog,
    {
        let mut config = self;
        config.ttl = Some(value);
        config
    }

    pub fn nodelay(self, value: bool) -> (config: Self)
        ensures
            config.nodelay == value,
            config.ttl == self.ttl,
            config.backlog == self.backlog,
    {
        let mut config = self;
        config.nodelay = value;
        config
    }

    pub fn listen_backlog(self, backlog: u32) -> (config: Self)
        ensures
            config.backlog == backlog,
            config.ttl == self.ttl,
            config.nodelay == self.nodelay,
    {
        let mut config = self;
        config.backlog = backlog;
        config
    }

    /// The options of the socket for `socket_addr`: IPv6 only for an IPv6
    /// address, the time-to-live and the delay of the configuration, and
    /// always address reuse and non-blocking mode.
    pub fn create_socket(&self, socket_addr: SocketAddr) -> (options: SocketOptions)
        ensures
            options == (SocketOptions {
                only_v6: socket_addr is V6,
                ttl: self.ttl,
                nodelay: self.nodelay,
                reuse_address: true,
                nonblocking: true,
            }),
    {
        SocketOptions {
            only_v6: socket_addr.is_ipv6(),
            ttl: self.ttl,
            nodelay: self.nodelay,
            reuse_address: true,
            nonblocking: true,
        }
    }
}

impl Default for Config {
    fn default() -> (config: Self)
        ensures
            config.ttl is None,
            config.nodelay,
            config.backlog == 1024,
    {
        Self::new()
    }
}

/// The listener of the TCP transport. `L` is the listening socket and `S`
/// the stream of an accepted connection.
pub struct ListenStream<L, S> {
    pub listener_addr: SocketAddr,
    pub listener: L,
    /// The event to hand out before the socket is polled.
    pub pending_event: Option<ListenerEvent<ReadyFuture<S, io::Error>, io::Error>>,
}

impl<L, S> Stream for ListenStream<L, S> {
    type Item = ListenerEvent<ReadyFuture<S, io::Error>, io::Error>;
}

/// The event for what accepting on the socket at `listener_addr` gave: a
/// connection comes in at that address, with an upgrade that is ready; a
/// failure is an error that does not end the listener.
pub open spec fn accept_event<S>(
    listener_addr: SocketAddr,
    accepted: Result<(S, SocketAddr), io::Error>,
) -> ListenerEvent<ReadyFuture<S, io::Error>, io::Error> {
    match accepted {
        Ok((stream, remote_addr)) => ListenerEvent::Incoming {
            local_addr: listener_addr,
            remote_addr,
            upgrade: ReadyFuture { value: Some(Ok(stream)) },
        },
        Err(e) => ListenerEvent::Error(e),
    }
}

/// The address that a listener announces: the address that was asked for,
/// or, where port 0 was asked for, the address that the socket is bound to.
pub open spec fn announced_addr(requested: SocketAddr, bound: SocketAddr) -> SocketAddr {
    if requested.port_spec() == 0 {
        bound
    } else {
        requested
    }
}

impl<L, S> ListenStream<L, S> {
    /// A listener on the socket `listener`, which was asked to listen on
    /// `requested` and is bound to `bound`. Its first event is `Listened`
    /// with the address that `announced_addr` gives, which is also the local
    /// address of every connection that comes in.
    pub fn new(listener: L, requested: SocketAddr, bound: SocketAddr) -> (stream: Self)
        ensures
            stream.listener == listener,
            stream.listener_addr == announced_addr(requested, bound),
            stream.pending_event == Some(
                ListenerEvent::<ReadyFuture<S, io::Error>, io::Error>::Listened(
                    announced_addr(requested, bound),
                ),
            ),
    {
        let listener_addr = if requested.port() == 0 {
            bound
        } else {
            requested
        };
        let listened_event = ListenerEvent::Listened(listener_addr);
        ListenStream { listener_addr, listener, pending_event: Some(listened_event) }
    }

    /// The first half of a poll: the event that waits to be handed out, if
    /// there is one. It is handed out once; the socket is polled only when
    /// there is none.
    pub fn pending(&mut self) -> (event: Option<ListenerEvent<ReadyFuture<S, io::Error>, io::Error>>)
        ensures
            event == old(self).pending_event,
            final(self).pending_event is None,
            final(self).listener == old(self).listener,
            final(self).listener_addr == old(self).listener_addr,
    {
        self.pending_event.take()
    }

    /// The second half of a poll. `accepted` is what accepting on the socket
    /// reported: pending stays pending, everything else is the event that
    /// `accept_event` gives. The listener does not end.
    pub fn poll_next(&self, accepted: Poll<Result<(S, SocketAddr), io::Error>>) -> (out: Poll<
        Option<ListenerEvent<ReadyFuture<S, io::Error>, io::Error>>,
    >)
        requires
            self.pending_event is None,
        ensures
            match accepted {
                Poll::Pending => out is Pending,
                Poll::Ready(r) => out == Poll::Ready(Some(accept_event(self.listener_addr, r))),
            },
    {
        match accepted {
            Poll::Ready(Ok((stream, remote_addr))) => Poll::Ready(
                Some(
                    ListenerEvent::Incoming {
                        local_addr: self.listener_addr,
                        remote_addr,
                        upgrade: ReadyFuture { value: Some(Ok(stream)) },
                    },
                ),
            ),
            Poll::Ready(Err(e)) => Poll::Ready(Some(ListenerEvent::Error(e))),
            Poll::Pending => Poll::Pending,
        }
    }
}

/// The events of a TCP listener are in order.
///
/// A listener made by `new` that announces `addr` hands out
/// `Listened(addr)` first and then one event for each connection or failure
/// that accepting gave: these events, from the start, begin with
/// `Listened(addr)`, hold no second `Listened`, and hold no `Closed` at all.
pub proof fn lemma_tcp_run_in_order<S>(
    addr: SocketAddr,
    accepted: Seq<Result<(S, SocketAddr), io::Error>>,
)
    ensures
        run_in_order(
            seq![ListenerEvent::<ReadyFuture<S, io::Error>, io::Error>::Listened(addr)]
                + accepted.map_values(
                |r: Result<(S, SocketAddr), io::Error>| accept_event(addr, r),
            ),
            addr,
        ),
{
    let first = seq![ListenerEvent::<ReadyFuture<S, io::Error>, io::Error>::Listened(addr)];
    let rest = accepted.map_values(|r: Result<(S, SocketAddr), io::Error>| accept_event(addr, r));
    let events = first + rest;
    assert(events[0] == first[0]);
    assert forall|i: int| 0 < i < events.len() implies (#[trigger] events[i]).kind()
        != EventKind::Listened && events[i].kind() != EventKind::Closed by {
        assert(events[i] == rest[i - 1]);
        assert(rest[i - 1] == accept_event(addr, accepted[i - 1]));
    }
}

} // verus!
