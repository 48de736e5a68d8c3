//! The QUIC transport: its configuration, its handshake, its muxer and its
//! streams, without the sockets.
//!
//! The peer's identity is the SHA-256 digest of the public key in the
//! certificate that the peer presented.

use vstd::prelude::*;
use std::io;
use std::time::Duration;
use quinn::{ConnectError, ConnectionError};
use sha2::{Digest, Sha256};
use x509_parser::prelude::{FromDer, X509Certificate};
use crate::connection::SocketAddr;
use crate::either::Either;
use crate::identity::PeerId;
use crate::poll::{Poll, Progress};
use crate::transport::{run_in_order, EventKind, ListenerEvent};

verus! {

/// `quinn::ConnectError`: why a connection could not be started.
#[verifier::external_type_specification]
#[verifier::external_body]
pub struct ExConnectError(quinn::ConnectError);

/// `quinn::ConnectionError`: why a connection was lost.
#[verifier::external_type_specification]
#[verifier::external_body]
pub struct ExConnectionError(quinn::ConnectionError);

/// `std::io::ErrorKind`: the kind of an I/O error.
#[verifier::external_type_specification]
#[verifier::external_body]
pub struct ExErrorKind(std::io::ErrorKind);

/// An error of the QUIC transport.
#[derive(Debug)]
pub enum Error {
    Connect(ConnectError),
    Connection(ConnectionError),
    Io(io::Error),
    /// The handshake with the remote did not finish in time.
    HandshakeTimedOut,
    /// The muxer has been closed.
    Closed,
}

/// Why a connection closed, as far as the muxer tells reasons apart.
#[derive(Debug)]
pub enum CloseReason {
    /// The local side closed the connection.
    LocallyClosed,
    /// Anything else.
    Other(ConnectionError),
}

/// The SHA-256 digest of `data`.
pub uninterp spec fn sha256(data: Seq<u8>) -> Seq<u8>;

/// The subject public key info of the X.509 certificate that `der` encodes,
/// in its DER form; `None` when `der` is no certificate.
pub uninterp spec fn subject_public_key_info(der: Seq<u8>) -> Option<Seq<u8>>;

/// `sha2::Sha256::digest`: the 32 bytes of the SHA-256 digest of `data`.
#[verifier::external_body]
fn sha256_digest(data: &[u8]) -> (digest: [u8; 32])
    ensures
        digest@ == sha256(data@),
{
    Sha256::digest(data).into()
}

/// `x509_parser`'s `X509Certificate::from_der`, and of the certificate that
/// it parsed the field `public_key().raw`: the bytes of the subject public
/// key info. `None` when the parser rejects `der`.
#[verifier::external_body]
fn public_key_der(der: &[u8]) -> (raw: Option<Vec<u8>>)
    ensures
        raw matches Some(key) ==> subject_public_key_info(der@) == Some(key@),
        raw is None ==> subject_public_key_info(der@) is None,
{
    match X509Certificate::from_der(der) {
        Ok((_, cert)) => Some(cert.public_key().raw.to_vec()),
        Err(_) => None,
    }
}

/// Tells `quinn::ConnectionError::LocallyClosed` apart from every other
/// reason; another reason is handed on as it is.
#[verifier::external_body]
fn close_reason(err: ConnectionError) -> (reason: CloseReason)
    ensures
        reason matches CloseReason::Other(other) ==> other == err,
{
    match err {
        ConnectionError::LocallyClosed => CloseReason::LocallyClosed,
        other => CloseReason::Other(other),
    }
}

/// The identity that belongs to the public key `key`: its SHA-256 digest.
pub fn peer_id_of_key(key: &[u8]) -> (id: PeerId)
    ensures
        id.bytes@ == sha256(key@),
{
    PeerId::from_bytes(sha256_digest(key))
}

/// The certificates that a peer presented hold a first certificate that
/// parses.
pub open spec fn presents_identity(certificates: Seq<Vec<u8>>) -> bool {
    certificates.len() > 0 && subject_public_key_info(certificates[0]@) is Some
}

/// The identity of the peer that presented `certificates`, its own
/// certificate first: the SHA-256 digest of the public key of that first
/// certificate.
///
/// The peer must have presented a certificate that parses.
pub fn remote_peer_id(certificates: &Vec<Vec<u8>>) -> (id: PeerId)
    requires
        presents_identity(certificates@),
    ensures
        id.bytes@ == sha256(subject_public_key_info(certificates@[0]@)->0),
{
    let end_entity = &certificates[0];
    match public_key_der(end_entity.as_slice()) {
        Some(key) => peer_id_of_key(key.as_slice()),
        None => vstd::pervasive::unreached(),
    }
}

/// The identity of the peer that presented `certificates`, or `None` when
/// it presented none or its first certificate does not parse.
pub fn try_remote_peer_id(certificates: &Vec<Vec<u8>>) -> (id: Option<PeerId>)
    ensures
        presents_identity(certificates@) ==> (id matches Some(p) && p.bytes@ == sha256(
            subject_public_key_info(certificates@[0]@)->0,
        )),
        !presents_identity(certificates@) ==> id is None,
{
    if certificates.len() == 0 {
        return None;
    }
    match public_key_der(certificates[0].as_slice()) {
        Some(_) => Some(remote_peer_id(certificates)),
        None => None,
    }
}

/// What the library holds of the configuration of the QUIC transport.
#[derive(Clone, Copy, Debug)]
pub struct Config {
    /// How long a handshake may take.
    pub handshake_timeout: Duration,
}

impl Config {
    pub fn handshake_timeout(self, timeout: Duration) -> (config: Self)
        ensures
            config.handshake_timeout == timeout,
    {
        let mut config = self;
        config.handshake_timeout = timeout;
        config
    }

    /// The local address to dial `addr` from: the unspecified address of the
    /// family of `addr`, with port 0.
    pub fn local_listen_addr(addr: SocketAddr) -> (local: SocketAddr)
        ensures
            local == (match addr {
                SocketAddr::V4 { .. } => SocketAddr::V4 { ip: 0, port: 0 },
                SocketAddr::V6 { .. } => SocketAddr::V6 { ip: 0, port: 0, flowinfo: 0, scope_id: 0 },
            }),
    {
        match addr {
            SocketAddr::V4 { .. } => SocketAddr::V4 { ip: 0, port: 0 },
            SocketAddr::V6 { .. } => SocketAddr::V6 { ip: 0, port: 0, flowinfo: 0, scope_id: 0 },
        }
    }
}

/// Whether the UDP socket for `socket_addr` is an IPv6 socket that takes no
/// IPv4 traffic: it is for an IPv6 address.
pub fn create_socket(socket_addr: SocketAddr) -> (only_v6: bool)
    ensures
        only_v6 == (socket_addr is V6),
{
    socket_addr.is_ipv6()
}

/// A handshake that races a timer. `H` is the handshake with its timer.
#[derive(Debug)]
pub struct Connecting<H> {
    pub connecting: H,
    pub timeout: Duration,
}

/// The muxer on the connection of a finished handshake. `Q` is the
/// connection itself, `F` a future that opens or accepts a stream, `G` the
/// future that waits for the connection to close.
pub struct Connection<Q, F, G> {
    pub connection: Q,
    pub incoming: Option<F>,
    pub outgoing: Option<F>,
    pub closing: Option<G>,
    /// Whether closing the muxer has succeeded. A closed muxer gives no
    /// stream and no event any more.
    pub closed: bool,
}

impl<H> Connecting<H> {
    pub fn new(connecting: H, timeout: Duration) -> (c: Self)
        ensures
            c.connecting == connecting,
            c.timeout == timeout,
    {
        Connecting { connecting, timeout }
    }

    /// One poll. `polled` is what the race reported: under `Left` the end of
    /// the handshake, with the connection and the identity derived from the
    /// peer's certificates, under `Right` the timer.
    ///
    /// The timer gives `HandshakeTimedOut`, a failed handshake its error
    /// under `Connection`, a finished handshake the identity and a fresh
    /// muxer on the connection.
    pub fn poll<Q, F, G>(
        &self,
        polled: Poll<Either<Result<(Q, PeerId), ConnectionError>, ()>>,
    ) -> (out: Poll<Result<(PeerId, Connection<Q, F, G>), Error>>)
        ensures
            match polled {
                Poll::Pending => out is Pending,
                Poll::Ready(Either::Right(_)) => out matches Poll::Ready(
                    Err(Error::HandshakeTimedOut),
                ),
                Poll::Ready(Either::Left(Err(e))) => out matches Poll::Ready(
                    Err(Error::Connection(cause)),
                ) && cause == e,
                Poll::Ready(Either::Left(Ok((connection, peer_id)))) => {
                    &&& out matches Poll::Ready(Ok((id, muxer)))
                    &&& id == peer_id
                    &&& muxer == Connection::<Q, F, G>::fresh(connection)
                },
            },
    {
        match polled {
            Poll::Pending => Poll::Pending,
            Poll::Ready(Either::Right(_)) => Poll::Ready(Err(Error::HandshakeTimedOut)),
            Poll::Ready(Either::Left(Err(e))) => Poll::Ready(Err(Error::Connection(e))),
            Poll::Ready(Either::Left(Ok((connection, peer_id)))) => {
                let muxer = Connection::new(connection);
                Poll::Ready(Ok((peer_id, muxer)))
            },
        }
    }
}

/// A stream of a QUIC connection: its two halves, and how closing it went
/// once it has been closed.
pub struct Stream<Snd, Rcv> {
    pub send: Snd,
    pub recv: Rcv,
    pub close_result: Option<Result<(), io::ErrorKind>>,
}

/// What a poll for a stream reports, on an open muxer that found `polled`:
/// the stream, fresh, or the error under `Connection`.
pub open spec fn stream_polled<Snd, Rcv>(
    polled: Poll<Result<(Snd, Rcv), ConnectionError>>,
    out: Poll<Result<Stream<Snd, Rcv>, Error>>,
) -> bool {
    match polled {
        Poll::Pending => out is Pending,
        Poll::Ready(Err(e)) => out matches Poll::Ready(Err(Error::Connection(cause))) && cause == e,
        Poll::Ready(Ok((send, recv))) => out matches Poll::Ready(Ok(stream)) && stream == (Stream {
            send,
            recv,
            close_result: None,
        }),
    }
}

impl<Q, F, G> Connection<Q, F, G> {
    /// The muxer on `connection` before anything was polled: open, with no
    /// future started.
    pub open spec fn fresh(connection: Q) -> Self {
        Connection { connection, incoming: None, outgoing: None, closing: None, closed: false }
    }

    pub fn new(connection: Q) -> (muxer: Self)
        ensures
            muxer == Self::fresh(connection),
    {
        Connection { connection, incoming: None, outgoing: None, closing: None, closed: false }
    }

    /// One poll for a stream of the remote. `polled` is what the future in
    /// `incoming` reported, `None` when it was not polled because the muxer
    /// is closed.
    ///
    /// A closed muxer reports the error `Closed`. On an open muxer a stream
    /// clears `incoming`, so that the next poll starts a new future; an
    /// error or pending keeps it.
    pub fn poll_inbound<Snd, Rcv>(
        &mut self,
        polled: Option<Poll<Result<(Snd, Rcv), ConnectionError>>>,
    ) -> (out: Poll<Result<Stream<Snd, Rcv>, Error>>)
        requires
            polled is None <==> old(self).closed,
            !old(self).closed ==> old(self).incoming is Some,
        ensures
            final(self).connection == old(self).connection,
            final(self).outgoing == old(self).outgoing,
            final(self).closing == old(self).closing,
            final(self).closed == old(self).closed,
            match polled {
                None => out matches Poll::Ready(Err(Error::Closed)) && final(self).incoming == old(
                    self,
                ).incoming,
                Some(p) => {
                    &&& stream_polled(p, out)
                    &&& final(self).incoming == if p matches Poll::Ready(Ok(_)) {
                        None
                    } else {
                        old(self).incoming
                    }
                },
            },
    {
        match polled {
            None => Poll::Ready(Err(Error::Closed)),
            Some(Poll::Pending) => Poll::Pending,
            Some(Poll::Ready(Err(e))) => Poll::Ready(Err(Error::Connection(e))),
            Some(Poll::Ready(Ok((send, recv)))) => {
                self.incoming = None;
                Poll::Ready(Ok(Stream::new(send, recv)))
            },
        }
    }

    /// One poll for a stream of our own. `polled` is what the future in
    /// `outgoing` reported, `None` when it was not polled because the muxer
    /// is closed.
    ///
    /// A closed muxer reports the error `Closed`. On an open muxer a stream
    /// clears `outgoing`, so that the next poll starts a new future; an
    /// error or pending keeps it.
    pub fn poll_outbound<Snd, Rcv>(
        &mut self,
        polled: Option<Poll<Result<(Snd, Rcv), ConnectionError>>>,
    ) -> (out: Poll<Result<Stream<Snd, Rcv>, Error>>)
        requires
            polled is None <==> old(self).closed,
            !old(self).closed ==> old(self).outgoing is Some,
        ensures
            final(self).connection == old(self).connection,
            final(self).incoming == old(self).incoming,
            final(self).closing == old(self).closing,
            final(self).closed == old(self).closed,
            match polled {
                None => out matches Poll::Ready(Err(Error::Closed)) && final(self).outgoing == old(
                    self,
                ).outgoing,
                Some(p) => {
                    &&& stream_polled(p, out)
                    &&& final(self).outgoing == if p matches Poll::Ready(Ok(_)) {
                        None
                    } else {
                        old(self).outgoing
                    }
                },
            },
    {
        match polled {
            None => Poll::Ready(Err(Error::Closed)),
            Some(Poll::Pending) => Poll::Pending,
            Some(Poll::Ready(Err(e))) => Poll::Ready(Err(Error::Connection(e))),
            Some(Poll::Ready(Ok((send, recv)))) => {
                self.outgoing = None;
                Poll::Ready(Ok(Stream::new(send, recv)))
            },
        }
    }

    /// Whether a poll of the closing in state `self` that found `polled`
    /// may report `out` and leave the state `after`.
    ///
    /// A muxer that is closed reports success again, without a poll. On an
    /// open muxer pending stays pending; a local close is the success and
    /// closes the muxer; every other reason is the error, under
    /// `Connection`, and the muxer stays open.
    pub open spec fn close_spec(
        self,
        polled: Option<Poll<CloseReason>>,
        after: Self,
        out: Poll<Result<(), Error>>,
    ) -> bool {
        &&& after.connection == self.connection
        &&& after.incoming == self.incoming
        &&& after.outgoing == self.outgoing
        &&& after.closing == self.closing
        &&& match polled {
            None => out matches Poll::Ready(Ok(_)) && after.closed,
            Some(Poll::Pending) => out is Pending && !after.closed,
            Some(Poll::Ready(CloseReason::LocallyClosed)) => out matches Poll::Ready(Ok(_))
                && after.closed,
            Some(Poll::Ready(CloseReason::Other(e))) => {
                &&& out matches Poll::Ready(Err(Error::Connection(cause)))
                &&& cause == e
                &&& !after.closed
            },
        }
    }

    /// One poll of the closing. `polled` is why the connection closed, as
    /// the future in `closing` reported it, `None` when it was not polled
    /// because the muxer is closed.
    pub fn poll_close(&mut self, polled: Option<Poll<CloseReason>>) -> (out: Poll<Result<(), Error>>)
        requires
            polled is None <==> old(self).closed,
        ensures
            old(self).close_spec(polled, *final(self), out),
    {
        match polled {
            None => Poll::Ready(Ok(())),
            Some(Poll::Pending) => Poll::Pending,
            Some(Poll::Ready(CloseReason::LocallyClosed)) => {
                self.closed = true;
                Poll::Ready(Ok(()))
            },
            Some(Poll::Ready(CloseReason::Other(e))) => Poll::Ready(Err(Error::Connection(e))),
        }
    }

    /// One poll of the closing, from the reason as quinn gives it: the
    /// reason is told apart and `poll_close` takes the step. The step is the
    /// one for a local close, or the one for this reason as another reason.
    pub fn poll_closing(&mut self, polled: Option<Poll<ConnectionError>>) -> (out: Poll<
        Result<(), Error>,
    >)
        requires
            polled is None <==> old(self).closed,
        ensures
            match polled {
                None => old(self).close_spec(None, *final(self), out),
                Some(Poll::Pending) => old(self).close_spec(Some(Poll::Pending), *final(self), out),
                Some(Poll::Ready(err)) => old(self).close_spec(
                    Some(Poll::Ready(CloseReason::LocallyClosed)),
                    *final(self),
                    out,
                ) || old(self).close_spec(
                    Some(Poll::Ready(CloseReason::Other(err))),
                    *final(self),
                    out,
                ),
            },
    {
        match polled {
            None => self.poll_close(None),
            Some(Poll::Pending) => self.poll_close(Some(Poll::Pending)),
            Some(Poll::Ready(err)) => {
                let reason = close_reason(err);
                self.poll_close(Some(Poll::Ready(reason)))
            },
        }
    }

    /// One poll for an event of the muxer. There is no event: an open muxer
    /// is pending, a closed muxer reports the error `Closed`.
    pub fn poll(&self) -> (out: Poll<Result<crate::muxing::StreamMuxerEvent, Error>>)
        ensures
            self.closed ==> out matches Poll::Ready(Err(Error::Closed)),
            !self.closed ==> out is Pending,
    {
        if self.closed {
            Poll::Ready(Err(Error::Closed))
        } else {
            Poll::Pending
        }
    }
}

impl<Snd, Rcv> Stream<Snd, Rcv> {
    pub fn new(send: Snd, recv: Rcv) -> (stream: Self)
        ensures
            stream == (Stream { send, recv, close_result: None }),
    {
        Self { send, recv, close_result: None }
    }

    /// Whether reading is over because closing the stream failed: a read
    /// then reports 0 bytes, and the receiving half is not polled.
    pub fn read_is_over(&self) -> (over: bool)
        ensures
            over == (self.close_result matches Some(Err(_))),
    {
        match &self.close_result {
            Some(Err(_)) => true,
            _ => false,
        }
    }

    /// One poll of a read. `polled` is what the receiving half reported,
    /// `None` when it was not polled because reading is over.
    pub fn poll_read<E>(&self, polled: Option<Poll<Result<usize, E>>>) -> (out: Poll<
        Result<usize, E>,
    >)
        requires
            polled is None <==> (self.close_result matches Some(Err(_))),
        ensures
            match polled {
                None => out == Poll::<Result<usize, E>>::Ready(Ok(0)),
                Some(p) => out == p,
            },
    {
        match polled {
            None => Poll::Ready(Ok(0)),
            Some(p) => p,
        }
    }

    /// One poll of a write: what the sending half reported.
    pub fn poll_write<E>(&self, polled: Poll<Result<usize, E>>) -> (out: Poll<Result<usize, E>>)
        ensures
            out == polled,
    {
        polled
    }

    /// One poll of a flush: what the sending half reported.
    pub fn poll_flush<E>(&self, polled: Poll<Result<(), E>>) -> (out: Poll<Result<(), E>>)
        ensures
            out == polled,
    {
        polled
    }

    /// The result of closing the stream, once it has been closed: success,
    /// or the kind of the error. A stream that has been closed is not closed
    /// again; every later poll of the closing reports this result.
    pub fn closed(&self) -> (kept: &Option<Result<(), io::ErrorKind>>)
        ensures
            *kept == self.close_result,
    {
        &self.close_result
    }

    /// One poll of the closing of a stream that has not been closed yet.
    /// `polled` is what the sending half reported, an error by its kind.
    ///
    /// The first result that is ready is kept, and the poll is then over;
    /// pending keeps nothing. Returns whether the poll is over.
    pub fn poll_close(&mut self, polled: Poll<Result<(), io::ErrorKind>>) -> (ready: bool)
        requires
            old(self).close_result is None,
        ensures
            final(self).send == old(self).send,
            final(self).recv == old(self).recv,
            ready == (polled is Ready),
            final(self).close_result == match polled {
                Poll::Pending => None,
                Poll::Ready(r) => Some(r),
            },
    {
        match polled {
            Poll::Pending => false,
            Poll::Ready(r) => {
                self.close_result = Some(r);
                true
            },
        }
    }
}

/// The listener of the QUIC transport. `E` is the endpoint and `A` the
/// future that accepts on it.
pub struct ListenerStream<E, A> {
    /// The address that the socket is bound to.
    pub local_addr: SocketAddr,
    pub endpoint: E,
    pub accept: A,
    pub handshake_timeout: Duration,
    /// Whether `Listened(local_addr)` has been handed out.
    pub listened: bool,
}

/// The event for what accepting at `local_addr` gave: a handshake to drive,
/// with the timeout `timeout`, from the remote address given, or the error
/// of a connection that could not be accepted.
pub open spec fn accepted_event<H>(
    local_addr: SocketAddr,
    timeout: Duration,
    accepted: Result<(H, SocketAddr), ConnectionError>,
    out: ListenerEvent<Connecting<H>, Error>,
) -> bool {
    match accepted {
        Ok((connecting, remote_addr)) => {
            &&& out matches ListenerEvent::Incoming { local_addr: local, remote_addr: remote, upgrade }
            &&& local == local_addr
            &&& remote == remote_addr
            &&& upgrade == (Connecting { connecting, timeout })
        },
        Err(e) => out matches ListenerEvent::Error(Error::Connection(cause)) && cause == e,
    }
}

impl<E, A> ListenerStream<E, A> {
    /// A listener on `endpoint`, whose socket is bound to `local_addr`, with
    /// `accept` the future that accepts on it. Its first event is
    /// `Listened(local_addr)`.
    pub fn new(endpoint: E, accept: A, local_addr: SocketAddr, handshake_timeout: Duration) -> (stream:
        Self)
        ensures
            stream == (ListenerStream {
                local_addr,
                endpoint,
                accept,
                handshake_timeout,
                listened: false,
            }),
    {
        ListenerStream { local_addr, endpoint, accept, handshake_timeout, listened: false }
    }

    /// The first half of a poll: `Listened(local_addr)`, once, before the
    /// endpoint is polled for the first time; `None` ever after.
    pub fn pending<H>(&mut self) -> (event: Option<ListenerEvent<Connecting<H>, Error>>)
        ensures
            final(self).listened,
            final(self).local_addr == old(self).local_addr,
            final(self).endpoint == old(self).endpoint,
            final(self).accept == old(self).accept,
            final(self).handshake_timeout == old(self).handshake_timeout,
            old(self).listened ==> event is None,
            !old(self).listened ==> (event matches Some(ListenerEvent::Listened(addr)) && addr
                == old(self).local_addr),
    {
        if self.listened {
            None
        } else {
            self.listened = true;
            Some(ListenerEvent::Listened(self.local_addr))
        }
    }

    /// The second half of a poll. `polled` is what accepting reported, with
    /// `rearmed` the future that accepts next: a handshake or the error of
    /// a connection, `None` when the endpoint gave nothing.
    ///
    /// Pending stays pending. Otherwise `rearmed` becomes the accepting
    /// future; what was accepted is the event that `accepted_event` gives,
    /// and nothing means that the driver polls again at once. The listener
    /// does not end.
    pub fn poll_next<H>(
        &mut self,
        polled: Poll<(Option<Result<(H, SocketAddr), ConnectionError>>, A)>,
    ) -> (out: Progress<Option<ListenerEvent<Connecting<H>, Error>>>)
        requires
            old(self).listened,
        ensures
            final(self).local_addr == old(self).local_addr,
            final(self).endpoint == old(self).endpoint,
            final(self).handshake_timeout == old(self).handshake_timeout,
            final(self).listened,
            match polled {
                Poll::Pending => out is Pending && final(self).accept == old(self).accept,
                Poll::Ready((None, rearmed)) => out is Advanced && final(self).accept == rearmed,
                Poll::Ready((Some(accepted), rearmed)) => {
                    &&& final(self).accept == rearmed
                    &&& out matches Progress::Ready(Some(event))
                    &&& accepted_event(
                        old(self).local_addr,
                        old(self).handshake_timeout,
                        accepted,
                        event,
                    )
                },
            },
    {
        match polled {
            Poll::Pending => Progress::Pending,
            Poll::Ready((incoming, rearmed)) => {
                self.accept = rearmed;
                match incoming {
                    None => Progress::Advanced,
                    Some(Err(e)) => Progress::Ready(
                        Some(ListenerEvent::Error(Error::Connection(e))),
                    ),
                    Some(Ok((connecting, remote_addr))) => Progress::Ready(
                        Some(
                            ListenerEvent::Incoming {
                                local_addr: self.local_addr,
                                remote_addr,
                                upgrade: Connecting::new(connecting, self.handshake_timeout),
                            },
                        ),
                    ),
                }
            },
        }
    }
}

/// The events of a QUIC listener are in order.
///
/// A listener made by `new` at `addr` hands out `Listened(addr)` first and
/// then one event for each handshake or failure that accepting gave: events
/// of these shapes, from the start, begin with `Listened(addr)`, hold no
/// second `Listened`, and hold no `Closed` at all.
pub proof fn lemma_quic_run_in_order<H>(
    addr: SocketAddr,
    timeout: Duration,
    accepted: Seq<Result<(H, SocketAddr), ConnectionError>>,
    events: Seq<ListenerEvent<Connecting<H>, Error>>,
)
    requires
        events.len() == accepted.len() + 1,
        events[0] matches ListenerEvent::Listened(a) && a == addr,
        forall|i: int|
            0 <= i < accepted.len() ==> accepted_event(
                addr,
                timeout,
                #[trigger] accepted[i],
                events[i + 1],
            ),
    ensures
        run_in_order(events, addr),
{
    assert forall|i: int| 0 < i < events.len() implies (#[trigger] events[i]).kind()
        != EventKind::Listened && events[i].kind() != EventKind::Closed by {
        assert(accepted_event(addr, timeout, accepted[i - 1], events[i - 1 + 1]));
    }
}

/// A closed muxer gives nothing more.
///
/// Once a poll of the closing has reported success, the muxer is closed;
/// it then stays closed whatever is polled, and a poll for a stream or for
/// an event can only be the one of a closed muxer, which reports the error
/// `Closed`.
pub proof fn lemma_closed_muxer_stays_closed<Q, F, G>(
    muxer: Connection<Q, F, G>,
    polled: Option<Poll<CloseReason>>,
    after: Connection<Q, F, G>,
    out: Poll<Result<(), Error>>,
)
    requires
        polled is None <==> muxer.closed,
        muxer.close_spec(polled, after, out),
    ensures
        out matches Poll::Ready(Ok(_)) <==> after.closed,
        muxer.closed ==> after.closed,
{
}

} // verus!
