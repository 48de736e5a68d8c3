//! The capability to produce connections, and the events of a listener.

pub mod and_then;
pub mod boxed;
pub mod map;
pub mod map_err;
pub mod upgrade;

use vstd::prelude::*;
use std::sync::Arc;
use crate::connection::{ConnectedPoint, SocketAddr};
use crate::poll::{Stream, TryFuture};
use crate::transport::and_then::AndThen;
use crate::transport::map::MapOutput;
use crate::transport::map_err::{MapErr, MapErrFuture};
use crate::transport::upgrade::Builder;

pub use boxed::Boxed;

verus! {

/// `Arc::clone` of the standard library: another pointer to the same value.
/// A combinator hands its function to every connection this way.
#[verifier::external_body]
pub(crate) fn share<T>(a: &Arc<T>) -> (shared: Arc<T>)
    ensures
        shared == *a,
{
    Arc::clone(a)
}

/// A producer of connections.
///
/// `connect` and `listen` succeed or fail at once; the handles that they
/// return are polled by the driver. What an implementation promises of the
/// two is its `connect_spec` and `listen_spec`: a transport that talks to
/// the network leaves them at `true`. What it needs in order to be used is
/// its `wf`: a combinator asks there that its functions can be called.
pub trait Transport: Sized {
    type Output;

    type Error;

    type Dialer: TryFuture<Ok = Self::Output, Error = Self::Error>;

    type ListenerUpgrade: TryFuture<Ok = Self::Output, Error = Self::Error>;

    type Listener: Stream<Item = ListenerEvent<Self::ListenerUpgrade, Self::Error>>;

    /// Whether the transport can be dialed and listened on.
    open spec fn wf(&self) -> bool {
        true
    }

    /// Whether `listen(addr)` may return `r`.
    open spec fn listen_spec(&self, addr: SocketAddr, r: Result<Self::Listener, Self::Error>) -> bool {
        true
    }

    /// Whether `connect(addr)` may return `r`.
    open spec fn connect_spec(&self, addr: SocketAddr, r: Result<Self::Dialer, Self::Error>) -> bool {
        true
    }

    fn listen(&self, addr: SocketAddr) -> (r: Result<Self::Listener, Self::Error>)
        requires
            self.wf(),
        ensures
            self.listen_spec(addr, r),
    ;

    fn connect(&self, addr: SocketAddr) -> (r: Result<Self::Dialer, Self::Error>)
        requires
            self.wf(),
        ensures
            self.connect_spec(addr, r),
    ;

    /// Applies `f` to the output of every connection.
    fn map<F, O>(self, f: F) -> (mapped: MapOutput<Self, F>) where
        F: Fn(Self::Output, ConnectedPoint) -> O,

        ensures
            mapped.transport == self,
            *mapped.fun == f,
    {
        MapOutput::new(self, f)
    }

    /// Runs the future that `f` returns on the output of every connection.
    fn and_then<TMap, TFut>(self, f: TMap) -> (chained: AndThen<Self, TMap, TFut>) where
        TMap: Fn(Self::Output, ConnectedPoint) -> TFut,
        TFut: TryFuture,

        ensures
            chained.transport == self,
            *chained.map == f,
    {
        AndThen::new(self, f)
    }

    /// Applies `f` to every error of the transport.
    fn map_err<F, O>(self, f: F) -> (mapped: MapErr<Self, F, O>) where F: Fn(Self::Error) -> O
        ensures
            mapped.transport == self,
            *mapped.fun == f,
    {
        MapErr::new(self, f)
    }

    /// Starts a pipeline of upgrades on this transport.
    fn upgrade(self) -> (builder: Builder<Self>)
        ensures
            builder.inner == self,
    {
        Builder::new(self)
    }
}

/// An event of a listener.
pub enum ListenerEvent<T, E> {
    /// The listening socket is bound to this address.
    Listened(SocketAddr),
    /// A connection came in; `upgrade` resolves to its output.
    Incoming { local_addr: SocketAddr, remote_addr: SocketAddr, upgrade: T },
    /// The listener closed: no event follows.
    Closed(Result<(), E>),
    /// An error that does not end the listener.
    Error(E),
}

/// The four kinds of listener event.
#[derive(Debug, Copy, Clone, PartialEq, Eq, Structural)]
pub enum EventKind {
    Listened,
    Incoming,
    Closed,
    Error,
}

impl<U, E> ListenerEvent<U, E> {
    pub open spec fn kind(self) -> EventKind {
        match self {
            ListenerEvent::Listened(_) => EventKind::Listened,
            ListenerEvent::Incoming { .. } => EventKind::Incoming,
            ListenerEvent::Closed(_) => EventKind::Closed,
            ListenerEvent::Error(_) => EventKind::Error,
        }
    }

    /// What an event shows besides its payload: its kind and, for a
    /// `Listened`, the address.
    pub open spec fn shape(self) -> (EventKind, Option<SocketAddr>) {
        match self {
            ListenerEvent::Listened(addr) => (EventKind::Listened, Some(addr)),
            _ => (self.kind(), None),
        }
    }

    /// Whether `out` is this event with `f` applied to the upgrade of an
    /// `Incoming`, everything else unchanged.
    pub open spec fn upgrade_mapped<F, O>(self, f: F, out: ListenerEvent<O, E>) -> bool where
        F: FnOnce(U) -> O,
     {
        match self {
            ListenerEvent::Listened(addr) => out == ListenerEvent::<O, E>::Listened(addr),
            ListenerEvent::Incoming { local_addr, remote_addr, upgrade } => {
                &&& out matches ListenerEvent::Incoming {
                    local_addr: l,
                    remote_addr: r,
                    upgrade: mapped,
                }
                &&& l == local_addr
                &&& r == remote_addr
                &&& call_ensures(f, (upgrade,), mapped)
            },
            ListenerEvent::Closed(result) => out == ListenerEvent::<O, E>::Closed(result),
            ListenerEvent::Error(err) => out == ListenerEvent::<O, E>::Error(err),
        }
    }

    /// Whether `out` is this event with `f` applied to the error of an `Error`
    /// or of a `Closed(Err(_))`, everything else unchanged.
    pub open spec fn err_mapped<F, O>(self, f: F, out: ListenerEvent<U, O>) -> bool where
        F: FnOnce(E) -> O,
     {
        match self {
            ListenerEvent::Listened(addr) => out == ListenerEvent::<U, O>::Listened(addr),
            ListenerEvent::Incoming { local_addr, remote_addr, upgrade } => out
                == (ListenerEvent::<U, O>::Incoming { local_addr, remote_addr, upgrade }),
            ListenerEvent::Closed(Ok(())) => out == ListenerEvent::<U, O>::Closed(Ok(())),
            ListenerEvent::Closed(Err(err)) => {
                &&& out matches ListenerEvent::Closed(Err(mapped))
                &&& call_ensures(f, (err,), mapped)
            },
            ListenerEvent::Error(err) => {
                &&& out matches ListenerEvent::Error(mapped)
                &&& call_ensures(f, (err,), mapped)
            },
        }
    }

    /// Wraps the upgrade of an `Incoming` so that `f` is applied to its
    /// error; everything else is unchanged.
    pub fn map_upgrade_err<F, O>(self, f: Arc<F>) -> (out: ListenerEvent<MapErrFuture<U, F>, E>) where
        U: TryFuture<Error = E>,
        F: Fn(E) -> O,

        ensures
            match self {
                ListenerEvent::Listened(addr) => out == ListenerEvent::<
                    MapErrFuture<U, F>,
                    E,
                >::Listened(addr),
                ListenerEvent::Incoming { local_addr, remote_addr, upgrade } => out == (
                ListenerEvent::<MapErrFuture<U, F>, E>::Incoming {
                    local_addr,
                    remote_addr,
                    upgrade: MapErrFuture { inner: upgrade, fun: Some(f) },
                }),
                ListenerEvent::Closed(result) => out == ListenerEvent::<
                    MapErrFuture<U, F>,
                    E,
                >::Closed(result),
                ListenerEvent::Error(err) => out == ListenerEvent::<MapErrFuture<U, F>, E>::Error(
                    err,
                ),
            },
    {
        match self {
            ListenerEvent::Listened(addr) => ListenerEvent::Listened(addr),
            ListenerEvent::Incoming { local_addr, remote_addr, upgrade } => ListenerEvent::Incoming {
                local_addr,
                remote_addr,
                upgrade: MapErrFuture { inner: upgrade, fun: Some(f) },
            },
            ListenerEvent::Closed(result) => ListenerEvent::Closed(result),
            ListenerEvent::Error(err) => ListenerEvent::Error(err),
        }
    }

    /// Applies `f` to the upgrade of an `Incoming`.
    pub fn map_upgrade<F, O>(self, f: F) -> (out: ListenerEvent<O, E>) where
        F: FnOnce(U) -> O,

        requires
            self matches ListenerEvent::Incoming { upgrade, .. } ==> call_requires(f, (upgrade,)),
        ensures
            self.upgrade_mapped(f, out),
    {
        match self {
            ListenerEvent::Listened(addr) => ListenerEvent::Listened(addr),
            ListenerEvent::Incoming { local_addr, remote_addr, upgrade } => ListenerEvent::Incoming {
                local_addr,
                remote_addr,
                upgrade: f(upgrade),
            },
            ListenerEvent::Closed(result) => ListenerEvent::Closed(result),
            ListenerEvent::Error(err) => ListenerEvent::Error(err),
        }
    }

    /// Applies `f` to the error of an `Error` or of a `Closed(Err(_))`.
    pub fn map_err<F, O>(self, f: F) -> (out: ListenerEvent<U, O>) where
        F: FnOnce(E) -> O,

        requires
            self matches ListenerEvent::Closed(Err(err)) ==> call_requires(f, (err,)),
            self matches ListenerEvent::Error(err) ==> call_requires(f, (err,)),
        ensures
            self.err_mapped(f, out),
    {
        match self {
            ListenerEvent::Listened(addr) => ListenerEvent::Listened(addr),
            ListenerEvent::Incoming { local_addr, remote_addr, upgrade } => ListenerEvent::Incoming {
                local_addr,
                remote_addr,
                upgrade,
            },
            ListenerEvent::Closed(Ok(())) => ListenerEvent::Closed(Ok(())),
            ListenerEvent::Closed(Err(err)) => ListenerEvent::Closed(Err(f(err))),
            ListenerEvent::Error(err) => ListenerEvent::Error(f(err)),
        }
    }
}

/// Whether `events`, the events of a listener from its start, are in order
/// for a listener on `addr`: the first is `Listened(addr)`, no later one is a
/// `Listened`, and a `Closed` is the last.
pub open spec fn run_in_order<U, E>(events: Seq<ListenerEvent<U, E>>, addr: SocketAddr) -> bool {
    &&& events.len() > 0 ==> events[0].shape() == (EventKind::Listened, Some(addr))
    &&& forall|i: int| 0 < i < events.len() ==> (#[trigger] events[i]).kind() != EventKind::Listened
    &&& forall|i: int| 0 <= i < events.len() - 1 ==> (#[trigger] events[i]).kind() != EventKind::Closed
}

/// Events that have the shapes of a run in order are a run in order: a
/// listener that hands every event on in its shape keeps the order of the
/// listener below it.
pub proof fn lemma_order_kept<U1, E1, U2, E2>(
    inner: Seq<ListenerEvent<U1, E1>>,
    outer: Seq<ListenerEvent<U2, E2>>,
    addr: SocketAddr,
)
    requires
        inner.len() == outer.len(),
        forall|i: int| 0 <= i < inner.len() ==> (#[trigger] inner[i]).shape() == outer[i].shape(),
        run_in_order(inner, addr),
    ensures
        run_in_order(outer, addr),
{
    assert forall|i: int| 0 < i < outer.len() implies (#[trigger] outer[i]).kind()
        != EventKind::Listened by {
        assert(inner[i].shape() == outer[i].shape());
    }
    assert forall|i: int| 0 <= i < outer.len() - 1 implies (#[trigger] outer[i]).kind()
        != EventKind::Closed by {
        assert(inner[i].shape() == outer[i].shape());
    }
    if outer.len() > 0 {
        assert(inner[0].shape() == outer[0].shape());
    }
}

/// `map_upgrade`, `map_err` and `map_upgrade_err` keep the shape of an
/// event.
pub proof fn lemma_maps_keep_shape<U, E, F, G, O, X>(
    event: ListenerEvent<U, E>,
    f: F,
    upgraded: ListenerEvent<O, E>,
    g: G,
    mapped: ListenerEvent<U, X>,
) where F: FnOnce(U) -> O, G: FnOnce(E) -> X
    ensures
        event.upgrade_mapped(f, upgraded) ==> upgraded.shape() == event.shape(),
        event.err_mapped(g, mapped) ==> mapped.shape() == event.shape(),
{
}

} // verus!
