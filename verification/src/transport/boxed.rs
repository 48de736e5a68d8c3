//! A transport whose errors are all I/O errors.
//!
//! This is the last layer of a pipeline. The library normalises the errors
//! here; hiding the types of the futures and of the listener behind one
//! interface is left to the driver, which owns them.

use vstd::prelude::*;
use std::io;
use crate::connection::SocketAddr;
use crate::poll::Poll;
use crate::transport::map_err::{total_on_errors, MapErr, MapErrFuture, MapErrListener};
use crate::transport::{ListenerEvent, Transport};

verus! {

/// An I/O error of the standard library. The library only carries it.
#[verifier::external_type_specification]
#[verifier::external_body]
pub struct ExIoError(std::io::Error);

/// `std::io::Error::other`: an I/O error that holds `e` as its cause.
/// Nothing is claimed of the result.
#[verifier::external_body]
pub(crate) fn box_err<E: std::error::Error + Send + Sync + 'static>(e: E) -> io::Error {
    io::Error::other(e)
}

/// A transport with its errors normalised to I/O errors by `TMap`.
pub struct Boxed<T, TMap> {
    pub inner: MapErr<T, TMap, io::Error>,
}

/// Boxes `transport`: every error of it goes through `std::io::Error::other`.
/// The result can be used where `transport` can.
pub(crate) fn boxed<T, E>(transport: T) -> (b: Boxed<T, impl Fn(E) -> io::Error>) where
    T: Transport<Error = E>,
    E: std::error::Error + Send + Sync + 'static,

    ensures
        b.inner.transport == transport,
        total_on_errors::<_, E, io::Error>(*b.inner.fun),
        transport.wf() ==> b.wf(),
{
    Boxed { inner: MapErr::new(transport, |e: E| -> (err: io::Error) { box_err(e) }) }
}

impl<T, TMap> Transport for Boxed<T, TMap> where T: Transport, TMap: Fn(T::Error) -> io::Error {
    type Output = T::Output;

    type Error = io::Error;

    type ListenerUpgrade = MapErrFuture<T::ListenerUpgrade, TMap>;

    type Dialer = MapErrFuture<T::Dialer, TMap>;

    type Listener = MapErrListener<T, TMap>;

    open spec fn wf(&self) -> bool {
        self.inner.wf()
    }

    /// What the transport with mapped errors returns.
    open spec fn connect_spec(&self, addr: SocketAddr, r: Result<Self::Dialer, Self::Error>) -> bool {
        self.inner.connect_spec(addr, r)
    }

    /// What the transport with mapped errors returns.
    open spec fn listen_spec(&self, addr: SocketAddr, r: Result<Self::Listener, Self::Error>) -> bool {
        self.inner.listen_spec(addr, r)
    }

    fn connect(&self, addr: SocketAddr) -> (r: Result<Self::Dialer, Self::Error>) {
        self.inner.connect(addr)
    }

    fn listen(&self, addr: SocketAddr) -> (r: Result<Self::Listener, Self::Error>) {
        self.inner.listen(addr)
    }
}

/// Boxing keeps the outputs: a future of a boxed transport resolves to a
/// value exactly when the future of the transport inside does, and to the
/// same value; only errors change.
pub proof fn lemma_boxed_keeps_output<T, TMap>(
    transport: Boxed<T, TMap>,
    addr: SocketAddr,
    fut: MapErrFuture<T::Dialer, TMap>,
    polled: Poll<Result<T::Output, T::Error>>,
    after: MapErrFuture<T::Dialer, TMap>,
    out: Poll<Result<T::Output, io::Error>>,
) where T: Transport, TMap: Fn(T::Error) -> io::Error
    requires
        transport.connect_spec(addr, Ok(fut)),
        fut.poll_spec(polled, after, out),
    ensures
        transport.inner.transport.connect_spec(addr, Ok(fut.inner)),
        forall|v: T::Output|
            (polled == Poll::<Result<T::Output, T::Error>>::Ready(Ok(v))) <==> (out == Poll::<
                Result<T::Output, io::Error>,
            >::Ready(Ok(v))),
        polled is Pending <==> out is Pending,
        polled matches Poll::Ready(Err(_)) <==> out matches Poll::Ready(Err(_)),
{
}

/// The listener of a boxed transport hands the events of the listener
/// inside on one for one: every event keeps its kind and its addresses, the
/// upgrade of an `Incoming` is the inner upgrade with the error function
/// beside it, and an error is what the error function returns for the inner
/// error.
pub proof fn lemma_boxed_listener_hands_on<T, TMap>(
    transport: Boxed<T, TMap>,
    addr: SocketAddr,
    listener: MapErrListener<T, TMap>,
    event: ListenerEvent<T::ListenerUpgrade, T::Error>,
    out: ListenerEvent<MapErrFuture<T::ListenerUpgrade, TMap>, io::Error>,
) where T: Transport, TMap: Fn(T::Error) -> io::Error
    requires
        transport.wf(),
        transport.listen_spec(addr, Ok(listener)),
        listener.event_spec(event, out),
    ensures
        transport.inner.transport.listen_spec(addr, Ok(listener.inner)),
        total_on_errors::<TMap, T::Error, io::Error>(*listener.map),
        out.shape() == event.shape(),
        event matches ListenerEvent::Incoming { local_addr, remote_addr, upgrade } ==> out == (
        ListenerEvent::<MapErrFuture<T::ListenerUpgrade, TMap>, io::Error>::Incoming {
            local_addr,
            remote_addr,
            upgrade: MapErrFuture { inner: upgrade, fun: Some(transport.inner.fun) },
        }),
        event matches ListenerEvent::Error(e) ==> (out matches ListenerEvent::Error(mapped)
            && call_ensures(*transport.inner.fun, (e,), mapped)),
        event matches ListenerEvent::Closed(Err(e)) ==> (out matches ListenerEvent::Closed(
            Err(mapped),
        ) && call_ensures(*transport.inner.fun, (e,), mapped)),
        event matches ListenerEvent::Closed(Ok(_)) ==> out matches ListenerEvent::Closed(Ok(_)),
{
}

} // verus!
