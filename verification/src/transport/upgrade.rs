//! Building the pipeline: authenticate, then apply upgrades, then multiplex.

use vstd::prelude::*;
use std::marker::PhantomData;
use crate::connection::{ConnectedPoint, Endpoint, SocketAddr};
use crate::either::Either;
use crate::identity::PeerId;
use crate::muxing::StreamMuxer;
use crate::negotiation::Negotiated;
use crate::poll::{Poll, Progress, Stream, TryFuture};
use crate::transport::and_then::{AndThen, AndThenFuture};
use crate::transport::boxed::{boxed, Boxed};
use crate::transport::map_err::total_on_errors;
use crate::transport::{ListenerEvent, Transport};
use crate::upgrade::apply::{ApplyEvent, UpgradeApply, UpgradeApplyState};
use crate::upgrade::{Upgrade, UpgradeError, UpgradeInfo};

verus! {

/// The start of a pipeline: a transport whose connections are raw streams.
#[derive(Clone)]
pub struct Builder<T> {
    pub inner: T,
}

/// Whether `apply` is the upgrade `upgrade` as it starts on `io` in the role
/// that `point` gives: outbound when we dialed, inbound when we were dialed.
pub open spec fn starts_upgrade<C, U>(
    upgrade: U,
    io: C,
    point: ConnectedPoint,
    apply: UpgradeApply<C, U>,
) -> bool where U: Upgrade<Negotiated<C>> {
    starts_role(upgrade, io, point.endpoint(), apply)
}

/// Whether `apply` is a clone of `upgrade` as it starts on `io` in the role
/// that `point` gives. Every connection runs a clone of the upgrade that the
/// pipeline was built with.
pub open spec fn starts_clone<C, U>(
    upgrade: U,
    io: C,
    point: ConnectedPoint,
    apply: UpgradeApply<C, U>,
) -> bool where U: Upgrade<Negotiated<C>> + Clone {
    exists|held: U| cloned(upgrade, held) && #[trigger] starts_upgrade(held, io, point, apply)
}

/// Starts `upgrade` on `io` in the role that `point` gives.
pub fn start_upgrade<C, U>(upgrade: U, io: C, point: ConnectedPoint) -> (apply: UpgradeApply<
    C,
    U,
>) where U: Upgrade<Negotiated<C>>
    ensures
        starts_upgrade(upgrade, io, point, apply),
{
    if point.is_dialer() {
        UpgradeApply::new_outbound(io, upgrade)
    } else {
        UpgradeApply::new_inbound(io, upgrade)
    }
}

impl<T> Builder<T> {
    pub fn new(inner: T) -> (builder: Builder<T>)
        ensures
            builder.inner == inner,
    {
        Builder { inner }
    }
}

impl<T> Builder<T> where T: Transport {
    /// Authenticates every connection with `upgrade`, which turns the raw
    /// stream `C` into the peer's identity and a stream `D`.
    ///
    /// The function of the returned `AndThen` can be called on every stream
    /// and point, and returns a clone of `upgrade` as it starts on that
    /// stream in the role of that point.
    pub fn authenticate<C, D, U, E>(self, upgrade: U) -> (builder: AuthenticatedBuilder<
        AndThen<T, impl Fn(C, ConnectedPoint) -> Authenticate<C, U>, Authenticate<C, U>>,
    >) where
        T: Transport<Output = C>,
        U: Upgrade<Negotiated<C>, Output = (PeerId, D), Error = E> + Clone,

        ensures
            builder.0.inner.transport == self.inner,
            forall|io: C, point: ConnectedPoint| #[trigger]
                call_requires(*builder.0.inner.map, (io, point)),
            forall|io: C, point: ConnectedPoint, fut: Authenticate<C, U>| #[trigger]
                call_ensures(*builder.0.inner.map, (io, point), fut) ==> starts_clone(
                    upgrade,
                    io,
                    point,
                    fut.inner,
                ),
    {
        AuthenticatedBuilder(
            Builder::new(
                self.inner.and_then(
                    move |io: C, endpoint: ConnectedPoint| -> (fut: Authenticate<C, U>)
                        ensures starts_clone(upgrade, io, endpoint, fut.inner)
                    {
                        let held = upgrade.clone();
                        let apply = start_upgrade(held, io, endpoint);
                        proof {
                            assert(cloned(upgrade, held) && starts_upgrade(held, io, endpoint, apply));
                        }
                        Authenticate { inner: apply }
                    },
                ),
            ),
        )
    }
}

/// A pipeline whose connections are authenticated: their output is the
/// peer's identity and a stream.
#[derive(Clone)]
pub struct AuthenticatedBuilder<T>(pub Builder<T>);

impl<T> AuthenticatedBuilder<T> where T: Transport {
    /// Applies `upgrade` to the stream of every authenticated connection;
    /// the identity is kept.
    pub fn apply<C, D, U, E>(self, upgrade: U) -> (builder: AuthenticatedBuilder<
        WithUpgrade<T, U, C>,
    >) where
        T: Transport<Output = (PeerId, C)>,
        U: Upgrade<Negotiated<C>, Output = D, Error = E> + Clone,

        ensures
            builder.0.inner.inner == self.0.inner,
            builder.0.inner.upgrade == upgrade,
    {
        AuthenticatedBuilder(Builder::new(WithUpgrade::new(self.0.inner, upgrade)))
    }

    /// Ends the pipeline with `upgrade`, which turns the stream of every
    /// authenticated connection into a stream muxer; the identity is kept.
    ///
    /// The function of the returned `AndThen` can be called on every output
    /// and point, and returns a future that holds the identity and a clone
    /// of `upgrade` as it starts on the stream in the role of the point.
    pub fn multiplex<C, M, U, E>(self, upgrade: U) -> (multiplexed: Multiplexed<
        AndThen<T, impl Fn((PeerId, C), ConnectedPoint) -> Multiplex<C, U>, Multiplex<C, U>>,
    >) where
        T: Transport<Output = (PeerId, C)>,
        M: StreamMuxer,
        U: Upgrade<Negotiated<C>, Output = M, Error = E> + Clone,

        ensures
            multiplexed.0.transport == self.0.inner,
            forall|out: (PeerId, C), point: ConnectedPoint| #[trigger]
                call_requires(*multiplexed.0.map, (out, point)),
            forall|out: (PeerId, C), point: ConnectedPoint, fut: Multiplex<C, U>| #[trigger]
                call_ensures(*multiplexed.0.map, (out, point), fut) ==> fut.peer_id == Some(out.0)
                    && starts_clone(upgrade, out.1, point, fut.upgrade),
    {
        Multiplexed(
            self.0.inner.and_then(
                move |out: (PeerId, C), endpoint: ConnectedPoint| -> (fut: Multiplex<C, U>)
                    ensures fut.peer_id == Some(out.0)
                        && starts_clone(upgrade, out.1, endpoint, fut.upgrade)
                {
                    let (id, io) = out;
                    let held = upgrade.clone();
                    let apply = start_upgrade(held, io, endpoint);
                    proof {
                        assert(cloned(upgrade, held) && starts_upgrade(held, io, endpoint, apply));
                    }
                    Multiplex { peer_id: Some(id), upgrade: apply }
                },
            ),
        )
    }
}

/// The future of an authentication: the upgrade as it is applied.
pub struct Authenticate<C, U> where U: Upgrade<Negotiated<C>> {
    pub inner: UpgradeApply<C, U>,
}

impl<C, U> TryFuture for Authenticate<C, U> where U: Upgrade<Negotiated<C>> {
    type Ok = U::Output;

    type Error = UpgradeError<U::Error>;
}

impl<C, U> Authenticate<C, U> where U: Upgrade<Negotiated<C>> {
    /// One step: the step of the upgrade that is applied.
    pub fn poll(&mut self, event: ApplyEvent<U::Output, U::Error>) -> (out: Progress<
        Result<U::Output, UpgradeError<U::Error>>,
    >)
        requires
            old(self).inner.wf(),
            old(self).inner.expects(event),
        ensures
            old(self).inner.poll_spec(event, final(self).inner, out),
            final(self).inner.wf(),
    {
        self.inner.poll(event)
    }
}

/// A transport with one more upgrade applied to its authenticated
/// connections.
///
/// `C` is the stream that the upgrade is applied to.
#[derive(Debug)]
pub struct WithUpgrade<T, U, C> {
    pub inner: T,
    pub upgrade: U,
    pub marker: PhantomData<C>,
}

impl<T, U, C> WithUpgrade<T, U, C> {
    pub fn new(inner: T, upgrade: U) -> (transport: Self)
        ensures
            transport.inner == inner,
            transport.upgrade == upgrade,
    {
        WithUpgrade { inner, upgrade, marker: PhantomData }
    }
}

impl<T: Clone, U: Clone, C> Clone for WithUpgrade<T, U, C> {
    fn clone(&self) -> (copy: Self)
        ensures
            cloned(self.inner, copy.inner),
            cloned(self.upgrade, copy.upgrade),
    {
        WithUpgrade { inner: self.inner.clone(), upgrade: self.upgrade.clone(), marker: PhantomData }
    }
}

impl<T, C, U> Transport for WithUpgrade<T, U, C> where
    T: Transport<Output = (PeerId, C)>,
    U: Upgrade<Negotiated<C>> + Clone,
 {
    type Output = (PeerId, U::Output);

    type Error = TransportUpgradeError<T::Error, U::Error>;

    type Dialer = UpgradeFuture<T::Dialer, U, C>;

    type ListenerUpgrade = UpgradeFuture<T::ListenerUpgrade, U, C>;

    type Listener = MapListener<T, U, C>;

    open spec fn wf(&self) -> bool {
        self.inner.wf()
    }

    /// The inner transport dials; the future starts at the inner future, in
    /// the role of the dialer, with a clone of the upgrade. An inner failure
    /// is handed on under `Transport`.
    open spec fn connect_spec(&self, addr: SocketAddr, r: Result<Self::Dialer, Self::Error>) -> bool {
        match r {
            Ok(fut) => {
                &&& self.inner.connect_spec(addr, Ok(fut.inner_fut))
                &&& fut.role == Endpoint::Dialer
                &&& fut.upgrade matches Either::Left(Some(upgrade))
                &&& cloned(self.upgrade, upgrade)
            },
            Err(TransportUpgradeError::Transport(e)) => self.inner.connect_spec(addr, Err(e)),
            Err(TransportUpgradeError::Upgrade(_)) => false,
        }
    }

    /// The inner transport listens; the listener holds a clone of the
    /// upgrade. An inner failure is handed on under `Transport`.
    open spec fn listen_spec(&self, addr: SocketAddr, r: Result<Self::Listener, Self::Error>) -> bool {
        match r {
            Ok(listener) => {
                &&& self.inner.listen_spec(addr, Ok(listener.inner))
                &&& cloned(self.upgrade, listener.upgrade)
            },
            Err(TransportUpgradeError::Transport(e)) => self.inner.listen_spec(addr, Err(e)),
            Err(TransportUpgradeError::Upgrade(_)) => false,
        }
    }

    fn connect(&self, addr: SocketAddr) -> (r: Result<Self::Dialer, Self::Error>) {
        match self.inner.connect(addr) {
            Ok(fut) => Ok(
                UpgradeFuture {
                    inner_fut: fut,
                    role: Endpoint::Dialer,
                    upgrade: Either::Left(Some(self.upgrade.clone())),
                },
            ),
            Err(e) => Err(TransportUpgradeError::Transport(e)),
        }
    }

    fn listen(&self, addr: SocketAddr) -> (r: Result<Self::Listener, Self::Error>) {
        match self.inner.listen(addr) {
            Ok(listener) => Ok(
                MapListener { inner: listener, upgrade: self.upgrade.clone(), marker: PhantomData },
            ),
            Err(e) => Err(TransportUpgradeError::Transport(e)),
        }
    }
}

/// The listener of a transport with one more upgrade.
pub struct MapListener<T, U, C> where T: Transport {
    pub inner: T::Listener,
    pub upgrade: U,
    pub marker: PhantomData<C>,
}

impl<T, C, U> Stream for MapListener<T, U, C> where
    T: Transport<Output = (PeerId, C)>,
    U: Upgrade<Negotiated<C>> + Clone,
 {
    type Item = ListenerEvent<
        UpgradeFuture<T::ListenerUpgrade, U, C>,
        TransportUpgradeError<T::Error, U::Error>,
    >;
}

impl<T, C, U> MapListener<T, U, C> where
    T: Transport<Output = (PeerId, C)>,
    U: Upgrade<Negotiated<C>> + Clone,
 {
    /// Whether `out` is the inner `event` as this listener hands it on: the
    /// upgrade of an `Incoming` becomes an upgrading future at its first
    /// stage, in the role of the listener, with a clone of the upgrade; an
    /// error goes under `Transport`; every address is unchanged.
    pub open spec fn event_spec(
        &self,
        event: ListenerEvent<T::ListenerUpgrade, T::Error>,
        out: ListenerEvent<
            UpgradeFuture<T::ListenerUpgrade, U, C>,
            TransportUpgradeError<T::Error, U::Error>,
        >,
    ) -> bool {
        match event {
            ListenerEvent::Listened(addr) => out == ListenerEvent::<
                UpgradeFuture<T::ListenerUpgrade, U, C>,
                TransportUpgradeError<T::Error, U::Error>,
            >::Listened(addr),
            ListenerEvent::Incoming { local_addr, remote_addr, upgrade } => {
                &&& out matches ListenerEvent::Incoming { local_addr: l, remote_addr: r, upgrade: fut }
                &&& l == local_addr
                &&& r == remote_addr
                &&& fut.inner_fut == upgrade
                &&& fut.role == Endpoint::Listener
                &&& fut.upgrade matches Either::Left(Some(held))
                &&& cloned(self.upgrade, held)
            },
            ListenerEvent::Closed(Ok(())) => out == ListenerEvent::<
                UpgradeFuture<T::ListenerUpgrade, U, C>,
                TransportUpgradeError<T::Error, U::Error>,
            >::Closed(Ok(())),
            ListenerEvent::Closed(Err(err)) => out == ListenerEvent::<
                UpgradeFuture<T::ListenerUpgrade, U, C>,
                TransportUpgradeError<T::Error, U::Error>,
            >::Closed(Err(TransportUpgradeError::Transport(err))),
            ListenerEvent::Error(err) => out == ListenerEvent::<
                UpgradeFuture<T::ListenerUpgrade, U, C>,
                TransportUpgradeError<T::Error, U::Error>,
            >::Error(TransportUpgradeError::Transport(err)),
        }
    }

    /// One poll. `polled` is what the inner listener reported: its
    /// readiness and its end are handed on, its events as `event_spec` says.
    pub fn poll_next(
        &self,
        polled: Poll<Option<ListenerEvent<T::ListenerUpgrade, T::Error>>>,
    ) -> (out: Poll<
        Option<
            ListenerEvent<
                UpgradeFuture<T::ListenerUpgrade, U, C>,
                TransportUpgradeError<T::Error, U::Error>,
            >,
        >,
    >)
        ensures
            match polled {
                Poll::Pending => out is Pending,
                Poll::Ready(None) => out matches Poll::Ready(None),
                Poll::Ready(Some(event)) => {
                    &&& out matches Poll::Ready(Some(mapped))
                    &&& self.event_spec(event, mapped)
                },
            },
    {
        match polled {
            Poll::Ready(Some(event)) => {
                let upgrade = self.upgrade.clone();
                let event = event.map_upgrade(
                    move |up: T::ListenerUpgrade| -> (fut: UpgradeFuture<T::ListenerUpgrade, U, C>)
                        ensures fut.inner_fut == up && fut.role == Endpoint::Listener
                            && fut.upgrade == Either::<Option<U>, (PeerId, UpgradeApply<C, U>)>::Left(
                            Some(upgrade),
                        )
                    {
                        UpgradeFuture {
                            inner_fut: up,
                            role: Endpoint::Listener,
                            upgrade: Either::Left(Some(upgrade)),
                        }
                    },
                ).map_err(
                    |err: T::Error| -> (e: TransportUpgradeError<T::Error, U::Error>)
                        ensures e == TransportUpgradeError::<T::Error, U::Error>::Transport(err)
                    {
                        TransportUpgradeError::Transport(err)
                    },
                );
                Poll::Ready(Some(event))
            },
            Poll::Ready(None) => Poll::Ready(None),
            Poll::Pending => Poll::Pending,
        }
    }
}

/// The future of a connection with one more upgrade: first the inner
/// future, then the upgrade as it is applied to the stream that the inner
/// future resolved to.
pub struct UpgradeFuture<Fut, U, C> where U: Upgrade<Negotiated<C>> {
    pub inner_fut: Fut,
    pub role: Endpoint,
    pub upgrade: Either<Option<U>, (PeerId, UpgradeApply<C, U>)>,
}

impl<Fut, U, C, D> TryFuture for UpgradeFuture<Fut, U, C> where
    Fut: TryFuture<Ok = (PeerId, C)>,
    U: Upgrade<Negotiated<C>, Output = D>,
 {
    type Ok = (PeerId, D);

    type Error = TransportUpgradeError<Fut::Error, U::Error>;
}

impl<Fut, U, C, D> UpgradeFuture<Fut, U, C> where
    Fut: TryFuture<Ok = (PeerId, C)>,
    U: Upgrade<Negotiated<C>, Output = D>,
 {
    /// At the second stage, the upgrade that is applied is well formed.
    pub open spec fn wf(&self) -> bool {
        self.upgrade matches Either::Right((_, apply)) ==> apply.wf()
    }

    /// Whether `polled` is what the future can take in this state: at the
    /// first stage what the inner future reported, with the upgrade still
    /// there; at the second an event that the applied upgrade expects.
    pub open spec fn expects(
        &self,
        polled: Either<Poll<Result<(PeerId, C), Fut::Error>>, ApplyEvent<D, U::Error>>,
    ) -> bool {
        match (self.upgrade, polled) {
            (Either::Left(held), Either::Left(_)) => held is Some,
            (Either::Right((_, apply)), Either::Right(event)) => apply.expects(event),
            _ => false,
        }
    }

    /// Whether a step in state `self` that found `polled` may report `out`
    /// and leave the state `after`.
    ///
    /// At the first stage: pending stays; an error ends the future under
    /// `Transport`; a value starts the upgrade on the stream, in the role of
    /// the future, keeps the identity and reports `Advanced`. At the second
    /// stage the upgrade takes its step: its progress is handed on, its
    /// value paired with the identity, its error under `Upgrade`.
    pub open spec fn poll_spec(
        self,
        polled: Either<Poll<Result<(PeerId, C), Fut::Error>>, ApplyEvent<D, U::Error>>,
        after: Self,
        out: Progress<Result<(PeerId, D), TransportUpgradeError<Fut::Error, U::Error>>>,
    ) -> bool {
        &&& after.inner_fut == self.inner_fut
        &&& after.role == self.role
        &&& match (self.upgrade, polled) {
            (Either::Left(_), Either::Left(Poll::Pending)) => out is Pending && after.upgrade
                == self.upgrade,
            (Either::Left(_), Either::Left(Poll::Ready(Err(e)))) => {
                &&& out == Progress::<
                    Result<(PeerId, D), TransportUpgradeError<Fut::Error, U::Error>>,
                >::Ready(Err(TransportUpgradeError::Transport(e)))
                &&& after.upgrade == self.upgrade
            },
            (Either::Left(Some(upgrade)), Either::Left(Poll::Ready(Ok((peer_id, io))))) => {
                &&& out is Advanced
                &&& after.upgrade matches Either::Right((kept, apply))
                &&& kept == peer_id
                &&& starts_role(upgrade, io, self.role, apply)
            },
            (Either::Right((peer_id, apply)), Either::Right(event)) => {
                &&& after.upgrade matches Either::Right((kept, stepped))
                &&& kept == peer_id
                &&& exists|progress: Progress<Result<D, UpgradeError<U::Error>>>|
                    {
                        &&& #[trigger] apply.poll_spec(event, stepped, progress)
                        &&& out == pair_progress::<D, Fut::Error, U::Error>(peer_id, progress)
                    }
            },
            _ => false,
        }
    }

    /// One step. `polled` is what the driver found: under `Left` what the
    /// inner future reported, under `Right` the event for the upgrade.
    pub fn poll(
        &mut self,
        polled: Either<Poll<Result<(PeerId, C), Fut::Error>>, ApplyEvent<D, U::Error>>,
    ) -> (out: Progress<Result<(PeerId, D), TransportUpgradeError<Fut::Error, U::Error>>>)
        requires
            old(self).wf(),
            old(self).expects(polled),
        ensures
            old(self).poll_spec(polled, *final(self), out),
            final(self).wf(),
    {
        match polled {
            Either::Left(Poll::Pending) => Progress::Pending,
            Either::Left(Poll::Ready(Err(e))) => Progress::Ready(
                Err(TransportUpgradeError::Transport(e)),
            ),
            Either::Left(Poll::Ready(Ok((peer_id, io)))) => {
                let mut held = Either::Left(None);
                std::mem::swap(&mut self.upgrade, &mut held);
                let upgrade = match held {
                    Either::Left(Some(upgrade)) => upgrade,
                    _ => vstd::pervasive::unreached(),
                };
                let apply = match self.role {
                    Endpoint::Dialer => UpgradeApply::new_outbound(io, upgrade),
                    Endpoint::Listener => UpgradeApply::new_inbound(io, upgrade),
                };
                self.upgrade = Either::Right((peer_id, apply));
                Progress::Advanced
            },
            Either::Right(event) => {
                let mut held = Either::Left(None);
                std::mem::swap(&mut self.upgrade, &mut held);
                let (peer_id, mut apply) = match held {
                    Either::Right(pair) => pair,
                    _ => vstd::pervasive::unreached(),
                };
                let ghost before = apply;
                let progress = apply.poll(event);
                proof {
                    assert(before.poll_spec(event, apply, progress));
                }
                self.upgrade = Either::Right((peer_id, apply));
                match progress {
                    Progress::Pending => Progress::Pending,
                    Progress::Advanced => Progress::Advanced,
                    Progress::Ready(Ok(output)) => Progress::Ready(Ok((peer_id, output))),
                    Progress::Ready(Err(e)) => Progress::Ready(
                        Err(TransportUpgradeError::Upgrade(e)),
                    ),
                }
            },
        }
    }
}

/// Whether `apply` is the upgrade `upgrade` as it starts on `io` in `role`:
/// nothing is negotiated yet, the request holds `io` and the protocols that
/// `upgrade` offers, and the negotiation is the dialer's for `Dialer` and
/// the listener's for `Listener`.
pub open spec fn starts_role<C, U>(upgrade: U, io: C, role: Endpoint, apply: UpgradeApply<C, U>) -> bool where
    U: Upgrade<Negotiated<C>>,
 {
    &&& apply.wf()
    &&& match role {
        Endpoint::Dialer => {
            &&& apply.inner matches UpgradeApplyState::DialerInit { future, upgrade: held }
            &&& held == upgrade
            &&& future.io == io
            &&& upgrade.protocol_info_spec(future.protocols@)
        },
        Endpoint::Listener => {
            &&& apply.inner matches UpgradeApplyState::ListenerInit { future, upgrade: held }
            &&& held == upgrade
            &&& future.io == io
            &&& upgrade.protocol_info_spec(future.protocols@)
        },
    }
}

/// The progress of an upgrade as the future around it reports it: the value
/// paired with the identity, the error under `Upgrade`.
pub open spec fn pair_progress<D, TE, UE>(
    peer_id: PeerId,
    progress: Progress<Result<D, UpgradeError<UE>>>,
) -> Progress<Result<(PeerId, D), TransportUpgradeError<TE, UE>>> {
    match progress {
        Progress::Pending => Progress::Pending,
        Progress::Advanced => Progress::Advanced,
        Progress::Ready(Ok(output)) => Progress::Ready(Ok((peer_id, output))),
        Progress::Ready(Err(e)) => Progress::Ready(Err(TransportUpgradeError::Upgrade(e))),
    }
}

/// The failure of a connection that is upgraded: of the transport below, or
/// of the upgrade.
#[derive(Debug, Copy, Clone, PartialEq, Eq)]
pub enum TransportUpgradeError<TE, UE> {
    Transport(TE),
    Upgrade(UpgradeError<UE>),
}

impl<TE, UE> From<UpgradeError<UE>> for TransportUpgradeError<TE, UE> {
    /// The failure of an upgrade is the failure `Upgrade`.
    fn from(err: UpgradeError<UE>) -> (e: Self) {
        TransportUpgradeError::Upgrade(err)
    }
}

impl<TE, UE> vstd::std_specs::convert::FromSpecImpl<UpgradeError<UE>> for TransportUpgradeError<TE, UE> {
    open spec fn obeys_from_spec() -> bool {
        true
    }

    open spec fn from_spec(err: UpgradeError<UE>) -> Self {
        TransportUpgradeError::Upgrade(err)
    }
}

/// A pipeline that ends in a stream muxer: it can be dialed, listened on or
/// boxed.
#[derive(Clone)]
pub struct Multiplexed<T>(pub T);

/// The future of the multiplexing step: the identity, and the upgrade as it
/// is applied.
pub struct Multiplex<C, U> where U: Upgrade<Negotiated<C>> {
    pub peer_id: Option<PeerId>,
    pub upgrade: UpgradeApply<C, U>,
}

impl<C, U> TryFuture for Multiplex<C, U> where U: Upgrade<Negotiated<C>> {
    type Ok = (PeerId, U::Output);

    type Error = UpgradeError<U::Error>;
}

/// The progress of the multiplexing upgrade as the future around it reports
/// it: the muxer paired with the identity.
pub open spec fn pair_muxer<M, E>(
    peer_id: PeerId,
    progress: Progress<Result<M, UpgradeError<E>>>,
) -> Progress<Result<(PeerId, M), UpgradeError<E>>> {
    match progress {
        Progress::Pending => Progress::Pending,
        Progress::Advanced => Progress::Advanced,
        Progress::Ready(Ok(m)) => Progress::Ready(Ok((peer_id, m))),
        Progress::Ready(Err(e)) => Progress::Ready(Err(e)),
    }
}

impl<C, U> Multiplex<C, U> where U: Upgrade<Negotiated<C>> {
    /// One step: the upgrade takes its step. Its progress is handed on; its
    /// value, the muxer, is paired with the identity, which is then gone.
    pub fn poll(&mut self, event: ApplyEvent<U::Output, U::Error>) -> (out: Progress<
        Result<(PeerId, U::Output), UpgradeError<U::Error>>,
    >)
        requires
            old(self).upgrade.wf(),
            old(self).upgrade.expects(event),
            old(self).peer_id is Some,
        ensures
            exists|progress: Progress<Result<U::Output, UpgradeError<U::Error>>>|
                {
                    &&& #[trigger] old(self).upgrade.poll_spec(event, final(self).upgrade, progress)
                    &&& out == pair_muxer(old(self).peer_id->0, progress)
                    &&& final(self).peer_id == if progress matches Progress::Ready(Ok(_)) {
                        None
                    } else {
                        old(self).peer_id
                    }
                },
            final(self).upgrade.wf(),
    {
        let ghost before = self.upgrade;
        let progress = self.upgrade.poll(event);
        proof {
            assert(before.poll_spec(event, self.upgrade, progress));
        }
        match progress {
            Progress::Ready(Ok(m)) => {
                let i = self.peer_id.take().unwrap();
                Progress::Ready(Ok((i, m)))
            },
            Progress::Ready(Err(err)) => Progress::Ready(Err(err)),
            Progress::Pending => Progress::Pending,
            Progress::Advanced => Progress::Advanced,
        }
    }
}

impl<T> Multiplexed<T> {
    /// Ends the pipeline: every error of it becomes an I/O error, and every
    /// output is kept. The result can be used where the pipeline can.
    pub fn boxed<M>(self) -> (b: Boxed<Multiplexed<T>, impl Fn(T::Error) -> std::io::Error>) where
        T: Transport<Output = (PeerId, M)>,
        T::Error: std::error::Error + Send + Sync + 'static,
        M: StreamMuxer,

        ensures
            b.inner.transport == self,
            total_on_errors::<_, T::Error, std::io::Error>(*b.inner.fun),
            self.wf() ==> b.wf(),
    {
        boxed::<Multiplexed<T>, T::Error>(self)
    }
}

impl<T> Transport for Multiplexed<T> where T: Transport {
    type Output = T::Output;

    type Error = T::Error;

    type ListenerUpgrade = T::ListenerUpgrade;

    type Dialer = T::Dialer;

    type Listener = T::Listener;

    open spec fn wf(&self) -> bool {
        self.0.wf()
    }

    /// Whatever the pipeline returns.
    open spec fn connect_spec(&self, addr: SocketAddr, r: Result<Self::Dialer, Self::Error>) -> bool {
        self.0.connect_spec(addr, r)
    }

    /// Whatever the pipeline returns.
    open spec fn listen_spec(&self, addr: SocketAddr, r: Result<Self::Listener, Self::Error>) -> bool {
        self.0.listen_spec(addr, r)
    }

    fn connect(&self, addr: SocketAddr) -> (r: Result<Self::Dialer, Self::Error>) {
        self.0.connect(addr)
    }

    fn listen(&self, addr: SocketAddr) -> (r: Result<Self::Listener, Self::Error>) {
        self.0.listen(addr)
    }
}

/// An upgrade of the pipeline starts only on the output of the step before.
///
/// An upgrading future at its first stage moves to its second stage, where
/// its upgrade is applied, exactly when the future of the step before
/// resolves to an identity and a stream; the upgrade then starts on that
/// stream, in the role of the future, and the identity is kept. When the
/// step before fails, the upgrade is still there: it was not started.
pub proof fn lemma_upgrade_after_inner<Fut, U, C, D>(
    fut: UpgradeFuture<Fut, U, C>,
    polled: Either<Poll<Result<(PeerId, C), Fut::Error>>, ApplyEvent<D, U::Error>>,
    after: UpgradeFuture<Fut, U, C>,
    out: Progress<Result<(PeerId, D), TransportUpgradeError<Fut::Error, U::Error>>>,
) where Fut: TryFuture<Ok = (PeerId, C)>, U: Upgrade<Negotiated<C>, Output = D>
    requires
        fut.upgrade is Left,
        fut.poll_spec(polled, after, out),
    ensures
        after.upgrade is Right <==> polled matches Either::Left(Poll::Ready(Ok(_))),
        polled matches Either::Left(Poll::Ready(Ok((peer_id, io)))) ==> {
            &&& fut.upgrade matches Either::Left(Some(upgrade))
            &&& after.upgrade matches Either::Right((kept, apply))
            &&& kept == peer_id
            &&& starts_role(upgrade, io, fut.role, apply)
        },
        polled matches Either::Left(Poll::Ready(Err(e))) ==> {
            &&& out == Progress::<
                Result<(PeerId, D), TransportUpgradeError<Fut::Error, U::Error>>,
            >::Ready(Err(TransportUpgradeError::Transport(e)))
            &&& after.upgrade == fut.upgrade
        },
{
}

/// The identity is threaded through: whatever an upgrading future at its
/// second stage resolves to carries the identity that the step before
/// resolved to.
pub proof fn lemma_upgrade_keeps_identity<Fut, U, C, D>(
    fut: UpgradeFuture<Fut, U, C>,
    polled: Either<Poll<Result<(PeerId, C), Fut::Error>>, ApplyEvent<D, U::Error>>,
    after: UpgradeFuture<Fut, U, C>,
    out: Progress<Result<(PeerId, D), TransportUpgradeError<Fut::Error, U::Error>>>,
) where Fut: TryFuture<Ok = (PeerId, C)>, U: Upgrade<Negotiated<C>, Output = D>
    requires
        fut.upgrade matches Either::Right(_),
        fut.poll_spec(polled, after, out),
    ensures
        after.upgrade matches Either::Right((kept, _)) && kept == fut.upgrade->Right_0.0,
        out matches Progress::Ready(Ok((peer_id, _))) ==> peer_id == fut.upgrade->Right_0.0,
{
}

/// The listener of a transport with one more upgrade hands every event on
/// in its shape.
pub proof fn lemma_upgrade_listener_keeps_shape<T, C, U>(
    listener: MapListener<T, U, C>,
    event: ListenerEvent<T::ListenerUpgrade, T::Error>,
    out: ListenerEvent<
        UpgradeFuture<T::ListenerUpgrade, U, C>,
        TransportUpgradeError<T::Error, U::Error>,
    >,
) where T: Transport<Output = (PeerId, C)>, U: Upgrade<Negotiated<C>> + Clone
    requires
        listener.event_spec(event, out),
    ensures
        out.shape() == event.shape(),
{
}

/// Authentication comes first, and in the right role.
///
/// `transport` is what `authenticate` builds for `upgrade`, its function
/// as `authenticate` promises it. When a dialed raw connection resolves to
/// the stream `io`, the connection moves on to the authentication: a clone
/// of `upgrade` as it starts on `io`, outbound, with nothing negotiated yet.
/// Before that, no upgrade has started.
pub proof fn lemma_authenticate_starts_on_raw_stream<T, TMap, C, U>(
    transport: AndThen<T, TMap, Authenticate<C, U>>,
    upgrade: U,
    addr: SocketAddr,
    fut: AndThenFuture<T::Dialer, TMap, Authenticate<C, U>>,
    io: C,
    after: AndThenFuture<T::Dialer, TMap, Authenticate<C, U>>,
    out: Progress<Result<U::Output, Either<T::Error, UpgradeError<U::Error>>>>,
) where
    T: Transport<Output = C>,
    TMap: Fn(C, ConnectedPoint) -> Authenticate<C, U>,
    U: Upgrade<Negotiated<C>> + Clone,

    requires
        forall|io: C, point: ConnectedPoint, auth: Authenticate<C, U>| #[trigger]
            call_ensures(*transport.map, (io, point), auth) ==> starts_clone(
                upgrade,
                io,
                point,
                auth.inner,
            ),
        transport.connect_spec(addr, Ok(fut)),
        fut.poll_spec(Either::Left(Poll::Ready(Ok(io))), after, out),
    ensures
        fut.inner is Left,
        after.inner matches Either::Right(auth) && starts_clone(
            upgrade,
            io,
            ConnectedPoint::Dialer { addr },
            auth.inner,
        ),
        after.inner matches Either::Right(auth) && auth.inner.inner is DialerInit,
{
}

/// Multiplexing comes after authentication.
///
/// `transport` is what `multiplex` builds for `upgrade` on an authenticated
/// pipeline, its function as `multiplex` promises it. Only when a dialed
/// connection of the pipeline has resolved to an identity and a stream does
/// the connection move on to the multiplexing: a clone of `upgrade` as it
/// starts on that stream, outbound, with the identity kept beside it.
pub proof fn lemma_multiplex_starts_on_authenticated_stream<T, TMap, C, U>(
    transport: AndThen<T, TMap, Multiplex<C, U>>,
    upgrade: U,
    addr: SocketAddr,
    fut: AndThenFuture<T::Dialer, TMap, Multiplex<C, U>>,
    authenticated: (PeerId, C),
    after: AndThenFuture<T::Dialer, TMap, Multiplex<C, U>>,
    out: Progress<Result<(PeerId, U::Output), Either<T::Error, UpgradeError<U::Error>>>>,
) where
    T: Transport<Output = (PeerId, C)>,
    TMap: Fn((PeerId, C), ConnectedPoint) -> Multiplex<C, U>,
    U: Upgrade<Negotiated<C>> + Clone,

    requires
        forall|o: (PeerId, C), point: ConnectedPoint, mux: Multiplex<C, U>| #[trigger]
            call_ensures(*transport.map, (o, point), mux) ==> mux.peer_id == Some(o.0)
                && starts_clone(upgrade, o.1, point, mux.upgrade),
        transport.connect_spec(addr, Ok(fut)),
        fut.poll_spec(Either::Left(Poll::Ready(Ok(authenticated))), after, out),
    ensures
        fut.inner is Left,
        after.inner matches Either::Right(mux) && mux.peer_id == Some(authenticated.0)
            && starts_clone(
            upgrade,
            authenticated.1,
            ConnectedPoint::Dialer { addr },
            mux.upgrade,
        ),
{
}

} // verus!
