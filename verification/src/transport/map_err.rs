//! Mapping the errors of a transport.

use vstd::prelude::*;
use std::marker::PhantomData;
use std::sync::Arc;
use crate::connection::SocketAddr;
use crate::poll::{Poll, Stream, TryFuture};
use crate::transport::{share, ListenerEvent, Transport};

verus! {

/// A transport whose errors pass through a function. The function is
/// shared with every connection of the transport.
///
/// `TErr` is the error that the function returns.
#[derive(Debug)]
pub struct MapErr<T, TMap, TErr> {
    pub transport: T,
    pub fun: Arc<TMap>,
    pub marker: PhantomData<TErr>,
}

impl<T, TMap, TErr> MapErr<T, TMap, TErr> {
    pub fn new(transport: T, fun: TMap) -> (mapped: Self)
        ensures
            mapped.transport == transport,
            *mapped.fun == fun,
    {
        MapErr { transport, fun: Arc::new(fun), marker: PhantomData }
    }
}

impl<T: Clone, TMap, TErr> Clone for MapErr<T, TMap, TErr> {
    fn clone(&self) -> (copy: Self)
        ensures
            cloned(self.transport, copy.transport),
            copy.fun == self.fun,
    {
        MapErr { transport: self.transport.clone(), fun: share(&self.fun), marker: PhantomData }
    }
}

/// A future whose error passes through a function. The function is held
/// until the future has resolved.
#[derive(Debug)]
pub struct MapErrFuture<T, F> {
    pub inner: T,
    pub fun: Option<Arc<F>>,
}

impl<T, F, E> TryFuture for MapErrFuture<T, F> where T: TryFuture, F: Fn(T::Error) -> E {
    type Ok = T::Ok;

    type Error = E;
}

/// Whether `fun` can be called on every error.
pub open spec fn total_on_errors<F, E, O>(fun: F) -> bool where F: Fn(E) -> O {
    forall|err: E| #[trigger] call_requires(fun, (err,))
}

impl<T, F, E> MapErrFuture<T, F> where T: TryFuture, F: Fn(T::Error) -> E {
    /// Whether a poll in state `self` that found the inner future at
    /// `polled` may report `out` and leave the state `after`: a value is
    /// handed on as it is, an error goes through the function, and either
    /// way the future lets go of the function.
    pub open spec fn poll_spec(
        self,
        polled: Poll<Result<T::Ok, T::Error>>,
        after: Self,
        out: Poll<Result<T::Ok, E>>,
    ) -> bool {
        &&& after.inner == self.inner
        &&& match polled {
            Poll::Pending => out is Pending && after.fun == self.fun,
            Poll::Ready(Ok(v)) => out == Poll::<Result<T::Ok, E>>::Ready(Ok(v)) && after.fun is None,
            Poll::Ready(Err(e)) => {
                &&& self.fun matches Some(f)
                &&& out matches Poll::Ready(Err(mapped))
                &&& call_ensures(*f, (e,), mapped)
                &&& after.fun is None
            },
        }
    }

    /// One poll. `polled` is what the inner future reported. The future is
    /// not polled again once it has resolved.
    pub fn poll(&mut self, polled: Poll<Result<T::Ok, T::Error>>) -> (out: Poll<Result<T::Ok, E>>)
        requires
            old(self).fun matches Some(f) && (polled matches Poll::Ready(Err(e)) ==> call_requires(
                *f,
                (e,),
            )),
        ensures
            old(self).poll_spec(polled, *final(self), out),
    {
        match polled {
            Poll::Pending => Poll::Pending,
            Poll::Ready(Ok(v)) => {
                self.fun = None;
                Poll::Ready(Ok(v))
            },
            Poll::Ready(Err(e)) => {
                let f = self.fun.take().unwrap();
                Poll::Ready(Err((*f)(e)))
            },
        }
    }
}

impl<T, TMap, E, TErr> MapErr<T, TMap, TErr> where T: Transport<Error = E>, TMap: Fn(E) -> TErr {
    /// What the transport needs in order to be used: the inner transport
    /// can be used, and the function can be called on every error.
    pub open spec fn usable(&self) -> bool {
        self.transport.wf() && total_on_errors::<TMap, E, TErr>(*self.fun)
    }

    /// Whether `connect(addr)` may return `r`: the inner transport dials;
    /// the future holds the function. An inner failure goes through the
    /// function.
    pub open spec fn connects(
        &self,
        addr: SocketAddr,
        r: Result<MapErrFuture<T::Dialer, TMap>, TErr>,
    ) -> bool {
        match r {
            Ok(fut) => {
                &&& self.transport.connect_spec(addr, Ok(fut.inner))
                &&& fut.fun == Some(self.fun)
            },
            Err(mapped) => exists|e: E|
                #![trigger self.transport.connect_spec(addr, Err(e))]
                #![trigger call_ensures(*self.fun, (e,), mapped)]
                self.transport.connect_spec(addr, Err(e)) && call_ensures(*self.fun, (e,), mapped),
        }
    }

    /// Whether `listen(addr)` may return `r`: the inner transport listens;
    /// the listener holds the function. An inner failure goes through the
    /// function.
    pub open spec fn listens(&self, addr: SocketAddr, r: Result<MapErrListener<T, TMap>, TErr>) -> bool {
        match r {
            Ok(listener) => {
                &&& self.transport.listen_spec(addr, Ok(listener.inner))
                &&& listener.map == self.fun
            },
            Err(mapped) => exists|e: E|
                #![trigger self.transport.listen_spec(addr, Err(e))]
                #![trigger call_ensures(*self.fun, (e,), mapped)]
                self.transport.listen_spec(addr, Err(e)) && call_ensures(*self.fun, (e,), mapped),
        }
    }
}

/// The contract of a transport with mapped errors, spelled out: `wf` is
/// `usable`, `connect_spec` is `connects` and `listen_spec` is `listens`.
pub proof fn lemma_map_err_contract<T, TMap, E, TErr>(
    transport: MapErr<T, TMap, TErr>,
    addr: SocketAddr,
    dialed: Result<MapErrFuture<T::Dialer, TMap>, TErr>,
    listening: Result<MapErrListener<T, TMap>, TErr>,
) where T: Transport<Error = E>, TMap: Fn(E) -> TErr
    ensures
        transport.wf() == transport.usable(),
        transport.connect_spec(addr, dialed) == transport.connects(addr, dialed),
        transport.listen_spec(addr, listening) == transport.listens(addr, listening),
{
}

impl<T, TMap, TErr> Transport for MapErr<T, TMap, TErr> where
    T: Transport,
    TMap: Fn(T::Error) -> TErr,
 {
    type Output = T::Output;

    type Error = TErr;

    type ListenerUpgrade = MapErrFuture<T::ListenerUpgrade, TMap>;

    type Dialer = MapErrFuture<T::Dialer, TMap>;

    type Listener = MapErrListener<T, TMap>;

    open spec fn wf(&self) -> bool {
        self.usable()
    }

    open spec fn connect_spec(&self, addr: SocketAddr, r: Result<Self::Dialer, Self::Error>) -> bool {
        self.connects(addr, r)
    }

    open spec fn listen_spec(&self, addr: SocketAddr, r: Result<Self::Listener, Self::Error>) -> bool {
        self.listens(addr, r)
    }

    fn connect(&self, addr: SocketAddr) -> (r: Result<Self::Dialer, Self::Error>) {
        match self.transport.connect(addr) {
            Ok(dialer) => Ok(MapErrFuture { inner: dialer, fun: Some(share(&self.fun)) }),
            Err(e) => Err((*self.fun)(e)),
        }
    }

    fn listen(&self, addr: SocketAddr) -> (r: Result<Self::Listener, Self::Error>) {
        match self.transport.listen(addr) {
            Ok(listener) => Ok(MapErrListener { inner: listener, map: share(&self.fun) }),
            Err(e) => Err((*self.fun)(e)),
        }
    }
}

/// The listener of a transport with mapped errors.
pub struct MapErrListener<T, TMap> where T: Transport {
    pub inner: T::Listener,
    pub map: Arc<TMap>,
}

impl<T, TMap, TErr> Stream for MapErrListener<T, TMap> where
    T: Transport,
    TMap: Fn(T::Error) -> TErr,
 {
    type Item = ListenerEvent<MapErrFuture<T::ListenerUpgrade, TMap>, TErr>;
}

impl<T, TMap, TErr> MapErrListener<T, TMap> where T: Transport, TMap: Fn(T::Error) -> TErr {
    /// Whether `out` is the inner `event` as this listener hands it on: the
    /// upgrade of an `Incoming` wrapped with the function, the error of an
    /// `Error` or a `Closed(Err(_))` passed through the function, every
    /// address unchanged.
    pub open spec fn event_spec(
        &self,
        event: ListenerEvent<T::ListenerUpgrade, T::Error>,
        out: ListenerEvent<MapErrFuture<T::ListenerUpgrade, TMap>, TErr>,
    ) -> bool {
        match event {
            ListenerEvent::Listened(addr) => out == ListenerEvent::<
                MapErrFuture<T::ListenerUpgrade, TMap>,
                TErr,
            >::Listened(addr),
            ListenerEvent::Incoming { local_addr, remote_addr, upgrade } => out == (
            ListenerEvent::<MapErrFuture<T::ListenerUpgrade, TMap>, TErr>::Incoming {
                local_addr,
                remote_addr,
                upgrade: MapErrFuture { inner: upgrade, fun: Some(self.map) },
            }),
            ListenerEvent::Closed(Ok(())) => out == ListenerEvent::<
                MapErrFuture<T::ListenerUpgrade, TMap>,
                TErr,
            >::Closed(Ok(())),
            ListenerEvent::Closed(Err(err)) => {
                &&& out matches ListenerEvent::Closed(Err(mapped))
                &&& call_ensures(*self.map, (err,), mapped)
            },
            ListenerEvent::Error(err) => {
                &&& out matches ListenerEvent::Error(mapped)
                &&& call_ensures(*self.map, (err,), mapped)
            },
        }
    }

    /// One poll. `polled` is what the inner listener reported: its
    /// readiness and its end are handed on, its events as `event_spec` says.
    ///
    /// The function must be callable on every error, as it is for a
    /// listener of a transport that can be used.
    pub fn poll_next(
        &self,
        polled: Poll<Option<ListenerEvent<T::ListenerUpgrade, T::Error>>>,
    ) -> (out: Poll<Option<ListenerEvent<MapErrFuture<T::ListenerUpgrade, TMap>, TErr>>>)
        requires
            total_on_errors::<TMap, T::Error, TErr>(*self.map),
        ensures
            match polled {
                Poll::Pending => out is Pending,
                Poll::Ready(None) => out matches Poll::Ready(None),
                Poll::Ready(Some(event)) => {
                    &&& out matches Poll::Ready(Some(mapped))
                    &&& self.event_spec(event, mapped)
                },
            },
    {
        let event = match polled {
            Poll::Ready(Some(event)) => match event.map_upgrade_err(share(&self.map)) {
                ListenerEvent::Listened(addr) => ListenerEvent::Listened(addr),
                ListenerEvent::Incoming { local_addr, remote_addr, upgrade } => ListenerEvent::Incoming {
                    local_addr,
                    remote_addr,
                    upgrade,
                },
                ListenerEvent::Closed(Ok(())) => ListenerEvent::Closed(Ok(())),
                ListenerEvent::Closed(Err(err)) => ListenerEvent::Closed(Err((*self.map)(err))),
                ListenerEvent::Error(err) => ListenerEvent::Error((*self.map)(err)),
            },
            Poll::Ready(None) => return Poll::Ready(None),
            Poll::Pending => return Poll::Pending,
        };
        Poll::Ready(Some(event))
    }
}

/// Mapping the error keeps the outputs: the future resolves to a value
/// exactly when the inner future does, and to the same value; it is pending
/// exactly when the inner future is.
pub proof fn lemma_map_err_keeps_output<T, F, E>(
    fut: MapErrFuture<T, F>,
    polled: Poll<Result<T::Ok, T::Error>>,
    after: MapErrFuture<T, F>,
    out: Poll<Result<T::Ok, E>>,
) where T: TryFuture, F: Fn(T::Error) -> E
    requires
        fut.poll_spec(polled, after, out),
    ensures
        forall|v: T::Ok|
            (polled == Poll::<Result<T::Ok, T::Error>>::Ready(Ok(v))) <==> (out == Poll::<
                Result<T::Ok, E>,
            >::Ready(Ok(v))),
        polled is Pending <==> out is Pending,
{
}

/// An error is mapped once: the future resolves to what the function
/// returned for the inner error, and then lets go of the function.
pub proof fn lemma_map_err_maps_once<T, F, E>(
    fut: MapErrFuture<T, F>,
    e: T::Error,
    after: MapErrFuture<T, F>,
    out: Poll<Result<T::Ok, E>>,
) where T: TryFuture, F: Fn(T::Error) -> E
    requires
        fut.poll_spec(Poll::Ready(Err(e)), after, out),
    ensures
        fut.fun matches Some(f) && out matches Poll::Ready(Err(mapped)) && call_ensures(
            *f,
            (e,),
            mapped,
        ),
        after.fun is None,
{
}

/// What a usable transport with mapped errors hands out can be polled: its
/// listener holds a function that can be called on every error, and so does
/// every future of it, of a dialed and of an accepted connection.
pub proof fn lemma_map_err_parts_usable<T, TMap, TErr>(
    transport: MapErr<T, TMap, TErr>,
    addr: SocketAddr,
    fut: MapErrFuture<T::Dialer, TMap>,
    listener: MapErrListener<T, TMap>,
    event: ListenerEvent<T::ListenerUpgrade, T::Error>,
    out: ListenerEvent<MapErrFuture<T::ListenerUpgrade, TMap>, TErr>,
) where T: Transport, TMap: Fn(T::Error) -> TErr
    requires
        transport.wf(),
    ensures
        transport.connect_spec(addr, Ok(fut)) ==> (fut.fun matches Some(f) && total_on_errors::<
            TMap,
            T::Error,
            TErr,
        >(*f)),
        transport.listen_spec(addr, Ok(listener)) ==> total_on_errors::<TMap, T::Error, TErr>(
            *listener.map,
        ),
        transport.listen_spec(addr, Ok(listener)) && listener.event_spec(event, out) ==> (
        out matches ListenerEvent::Incoming { upgrade, .. } ==> (upgrade.fun matches Some(f)
            && total_on_errors::<TMap, T::Error, TErr>(*f))),
{
}

/// The listener of a transport with mapped errors hands every event on in
/// its shape.
pub proof fn lemma_map_err_listener_keeps_shape<T, TMap, TErr>(
    listener: MapErrListener<T, TMap>,
    event: ListenerEvent<T::ListenerUpgrade, T::Error>,
    out: ListenerEvent<MapErrFuture<T::ListenerUpgrade, TMap>, TErr>,
) where T: Transport, TMap: Fn(T::Error) -> TErr
    requires
        listener.event_spec(event, out),
    ensures
        out.shape() == event.shape(),
{
}

/// A failure of the inner transport comes out as what the function makes
/// of it, and of nothing else.
///
/// When the inner transport can fail to dial `addr` with `e` only, and the
/// function returns `mapped` for `e` only, then a failed dial of the
/// transport with mapped errors fails with `mapped`.
pub proof fn lemma_map_err_failed_dial<T, TMap, E, TErr>(
    transport: MapErr<T, TMap, TErr>,
    addr: SocketAddr,
    r: Result<MapErrFuture<T::Dialer, TMap>, TErr>,
    e: E,
    mapped: TErr,
) where T: Transport<Error = E>, TMap: Fn(E) -> TErr
    requires
        transport.connect_spec(addr, r),
        r is Err,
        forall|other: E| transport.transport.connect_spec(addr, Err(other)) ==> other == e,
        forall|o: TErr| call_ensures(*transport.fun, (e,), o) ==> o == mapped,
    ensures
        r == Err::<MapErrFuture<T::Dialer, TMap>, TErr>(mapped),
        transport.transport.connect_spec(addr, Err(e)),
{
}

/// The same for listening: when the inner transport can fail to listen on
/// `addr` with `e` only, and the function returns `mapped` for `e` only,
/// a failed `listen` fails with `mapped`.
pub proof fn lemma_map_err_failed_listen<T, TMap, E, TErr>(
    transport: MapErr<T, TMap, TErr>,
    addr: SocketAddr,
    r: Result<MapErrListener<T, TMap>, TErr>,
    e: E,
    mapped: TErr,
) where T: Transport<Error = E>, TMap: Fn(E) -> TErr
    requires
        transport.listen_spec(addr, r),
        r is Err,
        forall|other: E| transport.transport.listen_spec(addr, Err(other)) ==> other == e,
        forall|o: TErr| call_ensures(*transport.fun, (e,), o) ==> o == mapped,
    ensures
        r == Err::<MapErrListener<T, TMap>, TErr>(mapped),
        transport.transport.listen_spec(addr, Err(e)),
{
}

} // verus!
