//! Chaining a second future onto every connection of a transport.

use vstd::prelude::*;
use std::marker::PhantomData;
use std::sync::Arc;
use crate::connection::{ConnectedPoint, SocketAddr};
use crate::either::Either;
use crate::poll::{Poll, Progress, Stream, TryFuture};
use crate::transport::{share, ListenerEvent, Transport};

verus! {

/// A transport on whose outputs a function starts a second future. The
/// function is shared with every connection of the transport.
///
/// `TFut` is the future that the function returns.
#[derive(Debug)]
pub struct AndThen<T, TMap, TFut> {
    pub transport: T,
    pub map: Arc<TMap>,
    pub marker: PhantomData<TFut>,
}

impl<T, TMap, TFut> AndThen<T, TMap, TFut> {
    pub fn new(transport: T, fun: TMap) -> (chained: Self)
        ensures
            chained.transport == transport,
            *chained.map == fun,
    {
        AndThen { transport, map: Arc::new(fun), marker: PhantomData }
    }
}

impl<T: Clone, TMap, TFut> Clone for AndThen<T, TMap, TFut> {
    fn clone(&self) -> (copy: Self)
        ensures
            cloned(self.transport, copy.transport),
            copy.map == self.map,
    {
        AndThen { transport: self.transport.clone(), map: share(&self.map), marker: PhantomData }
    }
}

impl<T, TMap, TFut> AndThen<T, TMap, TFut> where
    T: Transport,
    TMap: Fn(T::Output, ConnectedPoint) -> TFut,
    TFut: TryFuture,
 {
    /// What the transport needs in order to be used: that the inner
    /// transport can be used.
    pub open spec fn usable(&self) -> bool {
        self.transport.wf()
    }

    /// Whether `connect(addr)` may return `r`: the inner transport dials;
    /// the future starts at the inner future and holds the function and the
    /// point `Dialer { addr }`. An inner failure is handed on under `Left`.
    pub open spec fn connects(
        &self,
        addr: SocketAddr,
        r: Result<AndThenFuture<T::Dialer, TMap, TFut>, Either<T::Error, TFut::Error>>,
    ) -> bool {
        match r {
            Ok(fut) => {
                &&& fut.inner matches Either::Left(dialer)
                &&& self.transport.connect_spec(addr, Ok(dialer))
                &&& fut.args == Some((self.map, ConnectedPoint::Dialer { addr }))
            },
            Err(Either::Left(e)) => self.transport.connect_spec(addr, Err(e)),
            Err(Either::Right(_)) => false,
        }
    }

    /// Whether `listen(addr)` may return `r`: the inner transport listens;
    /// the listener holds the function. An inner failure is handed on under
    /// `Left`.
    pub open spec fn listens(
        &self,
        addr: SocketAddr,
        r: Result<AndThenListener<T, TMap>, Either<T::Error, TFut::Error>>,
    ) -> bool {
        match r {
            Ok(listener) => {
                &&& self.transport.listen_spec(addr, Ok(listener.inner))
                &&& listener.map == self.map
            },
            Err(Either::Left(e)) => self.transport.listen_spec(addr, Err(e)),
            Err(Either::Right(_)) => false,
        }
    }
}

/// The contract of a chained transport, spelled out: `wf` is `usable`,
/// `connect_spec` is `connects` and `listen_spec` is `listens`.
pub proof fn lemma_and_then_contract<T, TMap, TFut>(
    transport: AndThen<T, TMap, TFut>,
    addr: SocketAddr,
    dialed: Result<AndThenFuture<T::Dialer, TMap, TFut>, Either<T::Error, TFut::Error>>,
    listening: Result<AndThenListener<T, TMap>, Either<T::Error, TFut::Error>>,
) where T: Transport, TMap: Fn(T::Output, ConnectedPoint) -> TFut, TFut: TryFuture
    ensures
        transport.wf() == transport.usable(),
        transport.connect_spec(addr, dialed) == transport.connects(addr, dialed),
        transport.listen_spec(addr, listening) == transport.listens(addr, listening),
{
}

impl<T, TMap, TFut> Transport for AndThen<T, TMap, TFut> where
    T: Transport,
    TMap: Fn(T::Output, ConnectedPoint) -> TFut,
    TFut: TryFuture,
 {
    type Output = TFut::Ok;

    type Error = Either<T::Error, TFut::Error>;

    type ListenerUpgrade = AndThenFuture<T::ListenerUpgrade, TMap, TFut>;

    type Dialer = AndThenFuture<T::Dialer, TMap, TFut>;

    type Listener = AndThenListener<T, TMap>;

    open spec fn wf(&self) -> bool {
        self.usable()
    }

    open spec fn connect_spec(&self, addr: SocketAddr, r: Result<Self::Dialer, Self::Error>) -> bool {
        self.connects(addr, r)
    }

    open spec fn listen_spec(&self, addr: SocketAddr, r: Result<Self::Listener, Self::Error>) -> bool {
        self.listens(addr, r)
    }

    fn connect(&self, addr: SocketAddr) -> (r: Result<Self::Dialer, Self::Error>) {
        match self.transport.connect(addr) {
            Ok(dialer) => Ok(
                AndThenFuture {
                    inner: Either::Left(dialer),
                    args: Some((share(&self.map), ConnectedPoint::Dialer { addr })),
                },
            ),
            Err(e) => Err(Either::Left(e)),
        }
    }

    fn listen(&self, addr: SocketAddr) -> (r: Result<Self::Listener, Self::Error>) {
        match self.transport.listen(addr) {
            Ok(listener) => Ok(AndThenListener { inner: listener, map: share(&self.map) }),
            Err(e) => Err(Either::Left(e)),
        }
    }
}

/// The listener of a chained transport.
pub struct AndThenListener<T, TMap> where T: Transport {
    pub inner: T::Listener,
    pub map: Arc<TMap>,
}

impl<T, TMap, TFut> Stream for AndThenListener<T, TMap> where
    T: Transport,
    TMap: Fn(T::Output, ConnectedPoint) -> TFut,
    TFut: TryFuture,
 {
    type Item = ListenerEvent<
        AndThenFuture<T::ListenerUpgrade, TMap, TFut>,
        Either<T::Error, TFut::Error>,
    >;
}

impl<T, TMap, TFut> AndThenListener<T, TMap> where
    T: Transport,
    TMap: Fn(T::Output, ConnectedPoint) -> TFut,
    TFut: TryFuture,
 {
    /// Whether `out` is the inner `event` as the chained listener hands it
    /// on: the upgrade of an `Incoming` becomes a chained future at its
    /// first stage, with the function and the point
    /// `Listener { local_addr, remote_addr }`; an error goes under `Left`;
    /// every address is unchanged.
    pub open spec fn event_spec(
        &self,
        event: ListenerEvent<T::ListenerUpgrade, T::Error>,
        out: ListenerEvent<
            AndThenFuture<T::ListenerUpgrade, TMap, TFut>,
            Either<T::Error, TFut::Error>,
        >,
    ) -> bool {
        match event {
            ListenerEvent::Listened(addr) => out == ListenerEvent::<
                AndThenFuture<T::ListenerUpgrade, TMap, TFut>,
                Either<T::Error, TFut::Error>,
            >::Listened(addr),
            ListenerEvent::Incoming { local_addr, remote_addr, upgrade } => {
                &&& out matches ListenerEvent::Incoming { local_addr: l, remote_addr: r, upgrade: fut }
                &&& l == local_addr
                &&& r == remote_addr
                &&& fut.inner == Either::<T::ListenerUpgrade, TFut>::Left(upgrade)
                &&& fut.args == Some(
                    (self.map, ConnectedPoint::Listener { local_addr, remote_addr }),
                )
            },
            ListenerEvent::Closed(Ok(())) => out == ListenerEvent::<
                AndThenFuture<T::ListenerUpgrade, TMap, TFut>,
                Either<T::Error, TFut::Error>,
            >::Closed(Ok(())),
            ListenerEvent::Closed(Err(err)) => out == ListenerEvent::<
                AndThenFuture<T::ListenerUpgrade, TMap, TFut>,
                Either<T::Error, TFut::Error>,
            >::Closed(Err(Either::Left(err))),
            ListenerEvent::Error(err) => out == ListenerEvent::<
                AndThenFuture<T::ListenerUpgrade, TMap, TFut>,
                Either<T::Error, TFut::Error>,
            >::Error(Either::Left(err)),
        }
    }

    /// One poll. `polled` is what the inner listener reported: its
    /// readiness and its end are handed on, its events as `event_spec` says.
    pub fn poll_next(
        &self,
        polled: Poll<Option<ListenerEvent<T::ListenerUpgrade, T::Error>>>,
    ) -> (out: Poll<
        Option<
            ListenerEvent<
                AndThenFuture<T::ListenerUpgrade, TMap, TFut>,
                Either<T::Error, TFut::Error>,
            >,
        >,
    >)
        ensures
            match polled {
                Poll::Pending => out is Pending,
                Poll::Ready(None) => out matches Poll::Ready(None),
                Poll::Ready(Some(event)) => {
                    &&& out matches Poll::Ready(Some(mapped))
                    &&& self.event_spec(event, mapped)
                },
            },
    {
        let event = match polled {
            Poll::Ready(Some(event)) => match event {
                ListenerEvent::Listened(addr) => ListenerEvent::Listened(addr),
                ListenerEvent::Incoming { local_addr, remote_addr, upgrade } => ListenerEvent::Incoming {
                    local_addr,
                    remote_addr,
                    upgrade: AndThenFuture {
                        inner: Either::Left(upgrade),
                        args: Some(
                            (share(&self.map), ConnectedPoint::Listener { local_addr, remote_addr }),
                        ),
                    },
                },
                ListenerEvent::Closed(Ok(())) => ListenerEvent::Closed(Ok(())),
                ListenerEvent::Closed(Err(err)) => ListenerEvent::Closed(Err(Either::Left(err))),
                ListenerEvent::Error(err) => ListenerEvent::Error(Either::Left(err)),
            },
            Poll::Ready(None) => return Poll::Ready(None),
            Poll::Pending => return Poll::Pending,
        };
        Poll::Ready(Some(event))
    }
}

/// The future of a chained connection: at its first stage the inner future,
/// at its second the future that the function returned.
#[derive(Debug)]
pub struct AndThenFuture<TFut, TMap, TMapFut> {
    pub inner: Either<TFut, TMapFut>,
    pub args: Option<(Arc<TMap>, ConnectedPoint)>,
}

impl<TFut, TMap, TMapFut> TryFuture for AndThenFuture<TFut, TMap, TMapFut> where
    TFut: TryFuture,
    TMapFut: TryFuture,
    TMap: Fn(TFut::Ok, ConnectedPoint) -> TMapFut,
 {
    type Ok = TMapFut::Ok;

    type Error = Either<TFut::Error, TMapFut::Error>;
}

impl<TFut, TMap, TMapFut> AndThenFuture<TFut, TMap, TMapFut> where
    TFut: TryFuture,
    TMapFut: TryFuture,
    TMap: Fn(TFut::Ok, ConnectedPoint) -> TMapFut,
 {
    /// Whether a poll in state `self` that found `polled` may report `out`
    /// and leave the state `after`.
    ///
    /// At the first stage: pending stays; an error ends the future under
    /// `Left`, and the function is still there, never called; a value is
    /// given to the function together with the connected point, and the
    /// future that it returns becomes the second stage (`Advanced`). At the
    /// second stage the readiness is handed on, an error under `Right`.
    pub open spec fn poll_spec(
        self,
        polled: Either<
            Poll<Result<TFut::Ok, TFut::Error>>,
            Poll<Result<TMapFut::Ok, TMapFut::Error>>,
        >,
        after: Self,
        out: Progress<Result<TMapFut::Ok, Either<TFut::Error, TMapFut::Error>>>,
    ) -> bool {
        match (self.inner, polled) {
            (Either::Left(_), Either::Left(Poll::Pending)) => out is Pending && after == self,
            (Either::Left(_), Either::Left(Poll::Ready(Err(e)))) => {
                &&& out == Progress::<
                    Result<TMapFut::Ok, Either<TFut::Error, TMapFut::Error>>,
                >::Ready(Err(Either::Left(e)))
                &&& after == self
            },
            (Either::Left(_), Either::Left(Poll::Ready(Ok(v)))) => {
                &&& self.args matches Some((f, point))
                &&& out is Advanced
                &&& after.inner matches Either::Right(second)
                &&& call_ensures(*f, (v, point), second)
                &&& after.args is None
            },
            (Either::Right(_), Either::Right(Poll::Pending)) => out is Pending && after == self,
            (Either::Right(_), Either::Right(Poll::Ready(Ok(v)))) => {
                &&& out == Progress::<
                    Result<TMapFut::Ok, Either<TFut::Error, TMapFut::Error>>,
                >::Ready(Ok(v))
                &&& after == self
            },
            (Either::Right(_), Either::Right(Poll::Ready(Err(e)))) => {
                &&& out == Progress::<
                    Result<TMapFut::Ok, Either<TFut::Error, TMapFut::Error>>,
                >::Ready(Err(Either::Right(e)))
                &&& after == self
            },
            _ => false,
        }
    }

    /// Whether `polled` comes from the stage that is live, and the function
    /// can be called on the value that the first stage resolved to.
    pub open spec fn expects(
        &self,
        polled: Either<
            Poll<Result<TFut::Ok, TFut::Error>>,
            Poll<Result<TMapFut::Ok, TMapFut::Error>>,
        >,
    ) -> bool {
        &&& (self.inner is Left) == (polled is Left)
        &&& polled matches Either::Left(Poll::Ready(Ok(v))) ==> (self.args matches Some((f, point))
            && call_requires(*f, (v, point)))
    }

    /// One step. `polled` is what the live stage reported, under `Left` for
    /// the inner future and under `Right` for the future of the function.
    pub fn poll(
        &mut self,
        polled: Either<
            Poll<Result<TFut::Ok, TFut::Error>>,
            Poll<Result<TMapFut::Ok, TMapFut::Error>>,
        >,
    ) -> (out: Progress<Result<TMapFut::Ok, Either<TFut::Error, TMapFut::Error>>>)
        requires
            old(self).expects(polled),
        ensures
            old(self).poll_spec(polled, *final(self), out),
    {
        match polled {
            Either::Left(Poll::Pending) => Progress::Pending,
            Either::Left(Poll::Ready(Err(e))) => Progress::Ready(Err(Either::Left(e))),
            Either::Left(Poll::Ready(Ok(output))) => {
                let (map, connection_point) = self.args.take().unwrap();
                let future = (*map)(output, connection_point);
                self.inner = Either::Right(future);
                Progress::Advanced
            },
            Either::Right(Poll::Pending) => Progress::Pending,
            Either::Right(Poll::Ready(Ok(v))) => Progress::Ready(Ok(v)),
            Either::Right(Poll::Ready(Err(e))) => Progress::Ready(Err(Either::Right(e))),
        }
    }
}

/// The second future is made only from a value of the first.
///
/// A chained future at its first stage moves to its second stage exactly
/// when the inner future resolves to a value `o`; the second stage is then
/// what the function returned for `o` and the connected point. When the
/// inner future fails, the chained future fails with that error under
/// `Left`, and the function is still there: it was not called.
pub proof fn lemma_and_then_order<TFut, TMap, TMapFut>(
    fut: AndThenFuture<TFut, TMap, TMapFut>,
    polled: Either<Poll<Result<TFut::Ok, TFut::Error>>, Poll<Result<TMapFut::Ok, TMapFut::Error>>>,
    after: AndThenFuture<TFut, TMap, TMapFut>,
    out: Progress<Result<TMapFut::Ok, Either<TFut::Error, TMapFut::Error>>>,
) where
    TFut: TryFuture,
    TMapFut: TryFuture,
    TMap: Fn(TFut::Ok, ConnectedPoint) -> TMapFut,

    requires
        fut.inner is Left,
        fut.poll_spec(polled, after, out),
    ensures
        after.inner is Right <==> polled matches Either::Left(Poll::Ready(Ok(_))),
        polled matches Either::Left(Poll::Ready(Ok(o))) ==> {
            &&& fut.args matches Some((f, point))
            &&& after.inner matches Either::Right(second)
            &&& call_ensures(*f, (o, point), second)
        },
        polled matches Either::Left(Poll::Ready(Err(e))) ==> {
            &&& out == Progress::<Result<TMapFut::Ok, Either<TFut::Error, TMapFut::Error>>>::Ready(
                Err(Either::Left(e)),
            )
            &&& after.args == fut.args
            &&& after.inner == fut.inner
        },
{
}

/// A chained future never goes back: at its second stage it stays there,
/// and reports what the second future reports, an error under `Right`.
pub proof fn lemma_and_then_second_stage<TFut, TMap, TMapFut>(
    fut: AndThenFuture<TFut, TMap, TMapFut>,
    polled: Either<Poll<Result<TFut::Ok, TFut::Error>>, Poll<Result<TMapFut::Ok, TMapFut::Error>>>,
    after: AndThenFuture<TFut, TMap, TMapFut>,
    out: Progress<Result<TMapFut::Ok, Either<TFut::Error, TMapFut::Error>>>,
) where
    TFut: TryFuture,
    TMapFut: TryFuture,
    TMap: Fn(TFut::Ok, ConnectedPoint) -> TMapFut,

    requires
        fut.inner is Right,
        fut.poll_spec(polled, after, out),
    ensures
        after == fut,
        polled matches Either::Right(Poll::Pending) ==> out is Pending,
        polled matches Either::Right(Poll::Ready(Ok(v))) ==> out == Progress::<
            Result<TMapFut::Ok, Either<TFut::Error, TMapFut::Error>>,
        >::Ready(Ok(v)),
        polled matches Either::Right(Poll::Ready(Err(e))) ==> out == Progress::<
            Result<TMapFut::Ok, Either<TFut::Error, TMapFut::Error>>,
        >::Ready(Err(Either::Right(e))),
{
}

/// The listener of a chained transport hands every event on in its shape.
pub proof fn lemma_and_then_listener_keeps_shape<T, TMap, TFut>(
    listener: AndThenListener<T, TMap>,
    event: ListenerEvent<T::ListenerUpgrade, T::Error>,
    out: ListenerEvent<AndThenFuture<T::ListenerUpgrade, TMap, TFut>, Either<T::Error, TFut::Error>>,
) where T: Transport, TMap: Fn(T::Output, ConnectedPoint) -> TFut, TFut: TryFuture
    requires
        listener.event_spec(event, out),
    ensures
        out.shape() == event.shape(),
{
}

/// The second future of a dialed connection is what the transport's
/// function returns: once the inner future resolves to `o`, the second
/// stage is a future that the function returns for `o` and the point
/// `Dialer { addr }`.
pub proof fn lemma_and_then_dialed<T, TMap, TFut>(
    transport: AndThen<T, TMap, TFut>,
    addr: SocketAddr,
    fut: AndThenFuture<T::Dialer, TMap, TFut>,
    o: T::Output,
    after: AndThenFuture<T::Dialer, TMap, TFut>,
    out: Progress<Result<TFut::Ok, Either<T::Error, TFut::Error>>>,
) where T: Transport, TMap: Fn(T::Output, ConnectedPoint) -> TFut, TFut: TryFuture
    requires
        transport.connect_spec(addr, Ok(fut)),
        fut.poll_spec(Either::Left(Poll::Ready(Ok(o))), after, out),
    ensures
        out is Advanced,
        after.inner matches Either::Right(second) && call_ensures(
            *transport.map,
            (o, ConnectedPoint::Dialer { addr }),
            second,
        ),
{
}

/// The same for an accepted connection: the second stage is a future that
/// the function returns for `o` and the point
/// `Listener { local_addr, remote_addr }` of the event.
pub proof fn lemma_and_then_accepted<T, TMap, TFut>(
    listener: AndThenListener<T, TMap>,
    local_addr: SocketAddr,
    remote_addr: SocketAddr,
    upgrade: T::ListenerUpgrade,
    event: ListenerEvent<AndThenFuture<T::ListenerUpgrade, TMap, TFut>, Either<T::Error, TFut::Error>>,
    o: T::Output,
    after: AndThenFuture<T::ListenerUpgrade, TMap, TFut>,
    out: Progress<Result<TFut::Ok, Either<T::Error, TFut::Error>>>,
) where T: Transport, TMap: Fn(T::Output, ConnectedPoint) -> TFut, TFut: TryFuture
    requires
        listener.event_spec(ListenerEvent::Incoming { local_addr, remote_addr, upgrade }, event),
        event matches ListenerEvent::Incoming { upgrade: fut, .. } && fut.poll_spec(
            Either::Left(Poll::Ready(Ok(o))),
            after,
            out,
        ),
    ensures
        out is Advanced,
        after.inner matches Either::Right(second) && call_ensures(
            *listener.map,
            (o, ConnectedPoint::Listener { local_addr, remote_addr }),
            second,
        ),
{
}

} // verus!
