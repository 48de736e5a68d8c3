//! Mapping the output of a transport.

use vstd::prelude::*;
use std::sync::Arc;
use crate::connection::{ConnectedPoint, SocketAddr};
use crate::poll::{Poll, Stream, TryFuture};
use crate::transport::{share, ListenerEvent, Transport};

verus! {

/// A transport whose outputs pass through a function. The function is
/// shared with every connection of the transport.
#[derive(Debug)]
pub struct MapOutput<T, TMap> {
    pub transport: T,
    pub fun: Arc<TMap>,
}

impl<T, TMap> MapOutput<T, TMap> {
    pub fn new(transport: T, fun: TMap) -> (mapped: Self)
        ensures
            mapped.transport == transport,
            *mapped.fun == fun,
    {
        MapOutput { transport, fun: Arc::new(fun) }
    }

    pub fn inner(&self) -> (t: &T)
        ensures
            *t == self.transport,
    {
        &self.transport
    }
}

impl<T: Clone, TMap> Clone for MapOutput<T, TMap> {
    fn clone(&self) -> (copy: Self)
        ensures
            cloned(self.transport, copy.transport),
            copy.fun == self.fun,
    {
        MapOutput { transport: self.transport.clone(), fun: share(&self.fun) }
    }
}

impl<T, TMap, O> Transport for MapOutput<T, TMap> where
    T: Transport,
    TMap: Fn(T::Output, ConnectedPoint) -> O,
 {
    type Output = O;

    type Error = T::Error;

    type ListenerUpgrade = MapFuture<T::ListenerUpgrade, TMap>;

    type Dialer = MapFuture<T::Dialer, TMap>;

    type Listener = MapListener<T, TMap>;

    open spec fn wf(&self) -> bool {
        self.transport.wf()
    }

    /// The inner transport dials; the future holds the function and the
    /// point `Dialer { addr }`. An inner failure is handed on.
    open spec fn connect_spec(&self, addr: SocketAddr, r: Result<Self::Dialer, Self::Error>) -> bool {
        match r {
            Ok(fut) => {
                &&& self.transport.connect_spec(addr, Ok(fut.inner))
                &&& fut.args == Some((self.fun, ConnectedPoint::Dialer { addr }))
            },
            Err(e) => self.transport.connect_spec(addr, Err(e)),
        }
    }

    /// The inner transport listens; the listener holds the function. An
    /// inner failure is handed on.
    open spec fn listen_spec(&self, addr: SocketAddr, r: Result<Self::Listener, Self::Error>) -> bool {
        match r {
            Ok(listener) => {
                &&& self.transport.listen_spec(addr, Ok(listener.inner))
                &&& listener.fun == self.fun
            },
            Err(e) => self.transport.listen_spec(addr, Err(e)),
        }
    }

    fn connect(&self, addr: SocketAddr) -> (r: Result<Self::Dialer, Self::Error>) {
        match self.transport.connect(addr) {
            Ok(dialer) => Ok(
                MapFuture {
                    inner: dialer,
                    args: Some((share(&self.fun), ConnectedPoint::Dialer { addr })),
                },
            ),
            Err(e) => Err(e),
        }
    }

    fn listen(&self, addr: SocketAddr) -> (r: Result<Self::Listener, Self::Error>) {
        match self.transport.listen(addr) {
            Ok(listener) => Ok(MapListener { inner: listener, fun: share(&self.fun) }),
            Err(e) => Err(e),
        }
    }
}

/// The listener of a mapped transport.
pub struct MapListener<T, TMap> where T: Transport {
    pub inner: T::Listener,
    pub fun: Arc<TMap>,
}

impl<T, TMap, O> Stream for MapListener<T, TMap> where
    T: Transport,
    TMap: Fn(T::Output, ConnectedPoint) -> O,
 {
    type Item = ListenerEvent<MapFuture<T::ListenerUpgrade, TMap>, T::Error>;
}

impl<T, TMap, O> MapListener<T, TMap> where
    T: Transport,
    TMap: Fn(T::Output, ConnectedPoint) -> O,
 {
    /// The inner `event` as the mapped listener hands it on: the upgrade of
    /// an `Incoming` wrapped with the function and the point
    /// `Listener { local_addr, remote_addr }`, every address and error
    /// unchanged.
    pub open spec fn mapped_event(
        &self,
        event: ListenerEvent<T::ListenerUpgrade, T::Error>,
    ) -> ListenerEvent<MapFuture<T::ListenerUpgrade, TMap>, T::Error> {
        match event {
            ListenerEvent::Listened(addr) => ListenerEvent::Listened(addr),
            ListenerEvent::Incoming { local_addr, remote_addr, upgrade } => ListenerEvent::Incoming {
                local_addr,
                remote_addr,
                upgrade: MapFuture {
                    inner: upgrade,
                    args: Some((self.fun, ConnectedPoint::Listener { local_addr, remote_addr })),
                },
            },
            ListenerEvent::Closed(result) => ListenerEvent::Closed(result),
            ListenerEvent::Error(err) => ListenerEvent::Error(err),
        }
    }

    /// One poll. `polled` is what the inner listener reported: its
    /// readiness and its end are handed on, its events as `mapped_event`
    /// gives them.
    pub fn poll_next(
        &self,
        polled: Poll<Option<ListenerEvent<T::ListenerUpgrade, T::Error>>>,
    ) -> (out: Poll<Option<ListenerEvent<MapFuture<T::ListenerUpgrade, TMap>, T::Error>>>)
        ensures
            out == (match polled {
                Poll::Pending => Poll::Pending,
                Poll::Ready(None) => Poll::Ready(None),
                Poll::Ready(Some(event)) => Poll::Ready(Some(self.mapped_event(event))),
            }),
    {
        let event = match polled {
            Poll::Ready(Some(event)) => match event {
                ListenerEvent::Listened(addr) => ListenerEvent::Listened(addr),
                ListenerEvent::Incoming { local_addr, remote_addr, upgrade } => ListenerEvent::Incoming {
                    local_addr,
                    remote_addr,
                    upgrade: MapFuture {
                        inner: upgrade,
                        args: Some(
                            (share(&self.fun), ConnectedPoint::Listener { local_addr, remote_addr }),
                        ),
                    },
                },
                ListenerEvent::Closed(result) => ListenerEvent::Closed(result),
                ListenerEvent::Error(err) => ListenerEvent::Error(err),
            },
            Poll::Ready(None) => return Poll::Ready(None),
            Poll::Pending => return Poll::Pending,
        };
        Poll::Ready(Some(event))
    }
}

/// The future of a mapped connection: the inner future, and the function with
/// the connected point until the function has run.
#[derive(Debug)]
pub struct MapFuture<T, F> {
    pub inner: T,
    pub args: Option<(Arc<F>, ConnectedPoint)>,
}

impl<T, A, F, B> TryFuture for MapFuture<T, F> where
    T: TryFuture<Ok = A>,
    F: Fn(A, ConnectedPoint) -> B,
 {
    type Ok = B;

    type Error = T::Error;
}

impl<T, A, F, B> MapFuture<T, F> where T: TryFuture<Ok = A>, F: Fn(A, ConnectedPoint) -> B {
    /// Whether a poll in state `self` that found the inner future at
    /// `polled` may report `out` and leave the state `after`.
    pub open spec fn poll_spec(
        self,
        polled: Poll<Result<A, T::Error>>,
        after: Self,
        out: Poll<Result<B, T::Error>>,
    ) -> bool {
        &&& after.inner == self.inner
        &&& match polled {
            Poll::Pending => out is Pending && after.args == self.args,
            Poll::Ready(Err(e)) => out == Poll::<Result<B, T::Error>>::Ready(Err(e)) && after.args
                == self.args,
            Poll::Ready(Ok(v)) => {
                &&& self.args matches Some((f, point))
                &&& out matches Poll::Ready(Ok(mapped))
                &&& call_ensures(*f, (v, point), mapped)
                &&& after.args is None
            },
        }
    }

    /// One poll. `polled` is what the inner future reported.
    ///
    /// The function runs when the inner future resolves to a value, and the
    /// future then lets go of it: the future is not polled again after that.
    pub fn poll(&mut self, polled: Poll<Result<A, T::Error>>) -> (out: Poll<Result<B, T::Error>>)
        requires
            polled matches Poll::Ready(Ok(v)) ==> (old(self).args matches Some((f, point))
                && call_requires(*f, (v, point))),
        ensures
            old(self).poll_spec(polled, *final(self), out),
    {
        match polled {
            Poll::Pending => Poll::Pending,
            Poll::Ready(Err(e)) => Poll::Ready(Err(e)),
            Poll::Ready(Ok(v)) => {
                let (f, point) = self.args.take().unwrap();
                Poll::Ready(Ok((*f)(v, point)))
            },
        }
    }
}

/// A mapped future yields the function's value, once.
///
/// When the inner future resolves to `o`, the mapped future resolves to a
/// value that the function returned for `o` and the connected point that
/// the future was made with. The function is then gone: no later poll can
/// take a value from the inner future.
pub proof fn lemma_map_yields_once<T, A, F, B>(
    fut: MapFuture<T, F>,
    o: A,
    after: MapFuture<T, F>,
    out: Poll<Result<B, T::Error>>,
) where T: TryFuture<Ok = A>, F: Fn(A, ConnectedPoint) -> B
    requires
        fut.poll_spec(Poll::Ready(Ok(o)), after, out),
    ensures
        fut.args matches Some((f, point)) && out matches Poll::Ready(Ok(b)) && call_ensures(
            *f,
            (o, point),
            b,
        ),
        forall|o2: A, later: MapFuture<T, F>, out2: Poll<Result<B, T::Error>>|
            !#[trigger] after.poll_spec(Poll::Ready(Ok(o2)), later, out2),
{
}

/// Until the inner future resolves to a value, a mapped future reports what
/// the inner future reports and keeps the function: an error is handed on
/// unchanged.
pub proof fn lemma_map_keeps_errors<T, A, F, B>(
    fut: MapFuture<T, F>,
    polled: Poll<Result<A, T::Error>>,
    after: MapFuture<T, F>,
    out: Poll<Result<B, T::Error>>,
) where T: TryFuture<Ok = A>, F: Fn(A, ConnectedPoint) -> B
    requires
        fut.poll_spec(polled, after, out),
        !(polled matches Poll::Ready(Ok(_))),
    ensures
        after == fut,
        polled is Pending ==> out is Pending,
        polled matches Poll::Ready(Err(e)) ==> out == Poll::<Result<B, T::Error>>::Ready(Err(e)),
{
}

/// A dialed connection of a mapped transport yields `f(o, p)`: `f` is the
/// transport's function, `o` the output of the inner connection and `p` the
/// point `Dialer { addr }`.
pub proof fn lemma_map_dialed_output<T, TMap, O>(
    transport: MapOutput<T, TMap>,
    addr: SocketAddr,
    fut: MapFuture<T::Dialer, TMap>,
    o: T::Output,
    after: MapFuture<T::Dialer, TMap>,
    out: Poll<Result<O, T::Error>>,
) where T: Transport, TMap: Fn(T::Output, ConnectedPoint) -> O
    requires
        transport.connect_spec(addr, Ok(fut)),
        fut.poll_spec(Poll::Ready(Ok(o)), after, out),
    ensures
        out matches Poll::Ready(Ok(b)) && call_ensures(
            *transport.fun,
            (o, ConnectedPoint::Dialer { addr }),
            b,
        ),
        after.args is None,
{
}

/// An accepted connection of a mapped transport yields `f(o, p)`: `f` is
/// the listener's function, `o` the output of the inner connection and `p`
/// the point `Listener { local_addr, remote_addr }` of the event.
pub proof fn lemma_map_accepted_output<T, TMap, O>(
    listener: MapListener<T, TMap>,
    local_addr: SocketAddr,
    remote_addr: SocketAddr,
    upgrade: T::ListenerUpgrade,
    o: T::Output,
    after: MapFuture<T::ListenerUpgrade, TMap>,
    out: Poll<Result<O, T::Error>>,
) where T: Transport, TMap: Fn(T::Output, ConnectedPoint) -> O
    requires
        listener.mapped_event(
            ListenerEvent::Incoming { local_addr, remote_addr, upgrade },
        )->upgrade.poll_spec(Poll::Ready(Ok(o)), after, out),
    ensures
        out matches Poll::Ready(Ok(b)) && call_ensures(
            *listener.fun,
            (o, ConnectedPoint::Listener { local_addr, remote_addr }),
            b,
        ),
        after.args is None,
{
}

/// The listener of a mapped transport hands every event on in its shape.
pub proof fn lemma_map_listener_keeps_shape<T, TMap, O>(
    listener: MapListener<T, TMap>,
    event: ListenerEvent<T::ListenerUpgrade, T::Error>,
) where T: Transport, TMap: Fn(T::Output, ConnectedPoint) -> O
    ensures
        listener.mapped_event(event).shape() == event.shape(),
{
}

} // verus!
