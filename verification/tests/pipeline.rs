use airio::connection::{ConnectedPoint, Endpoint, SocketAddr};
use airio::either::Either;
use airio::identity::PeerId;
use airio::muxing::{StreamMuxer, StreamMuxerEvent, StreamMuxerExt};
use airio::negotiation::{Negotiated, NegotiationError};
use airio::poll::{Poll, Progress, Stream, TryFuture};
use airio::transport::and_then::AndThenFuture;
use airio::transport::upgrade::{
    Authenticate, Multiplex, Multiplexed, TransportUpgradeError, UpgradeFuture, WithUpgrade,
};
use airio::transport::{ListenerEvent, Transport};
use airio::upgrade::apply::{ApplyEvent, UpgradeApply, UpgradeApplyState};
use airio::upgrade::ready::ReadyFuture;
use airio::upgrade::{ReadyUpgrade, SelectUpgrade, Upgrade, UpgradeError, UpgradeInfo};
use std::cell::RefCell;
use std::collections::VecDeque;
use std::rc::Rc;
use std::task::{Context, Waker};

/// What the two ends of one in-memory connection share.
#[derive(Debug, Default)]
struct Link {
    opened: VecDeque<Rc<RefCell<VecDeque<u8>>>>,
    dropped_ends: u32,
    closed: bool,
}

/// One end of an in-memory connection; `remote` tells who is at the other end.
#[derive(Debug)]
struct Wire {
    remote: u8,
    link: Rc<RefCell<Link>>,
}

impl Drop for Wire {
    fn drop(&mut self) {
        self.link.borrow_mut().dropped_ends += 1;
    }
}

fn wires(dialer: u8, listener: u8) -> (Wire, Wire, Rc<RefCell<Link>>) {
    let link = Rc::new(RefCell::new(Link::default()));
    (
        Wire { remote: listener, link: link.clone() },
        Wire { remote: dialer, link: link.clone() },
        link,
    )
}

fn peer(tag: u8) -> PeerId {
    PeerId::from_bytes([tag; 32])
}

#[derive(Debug, PartialEq)]
struct Handle;

impl TryFuture for Handle {
    type Ok = Wire;
    type Error = String;
}

struct Events;

impl Stream for Events {
    type Item = ListenerEvent<Handle, String>;
}

#[derive(Clone)]
struct Memory;

impl Transport for Memory {
    type Output = Wire;
    type Error = String;
    type Dialer = Handle;
    type ListenerUpgrade = Handle;
    type Listener = Events;

    fn listen(&self, _addr: SocketAddr) -> Result<Events, String> {
        Ok(Events)
    }

    fn connect(&self, _addr: SocketAddr) -> Result<Handle, String> {
        Ok(Handle)
    }
}

/// Authenticates by reading who is at the other end of the wire.
#[derive(Clone)]
struct Identify(&'static str);

impl UpgradeInfo for Identify {
    type Info = &'static str;

    fn protocol_info(&self) -> Vec<&'static str> {
        vec![self.0]
    }
}

impl Upgrade<Negotiated<Wire>> for Identify {
    type Output = (PeerId, Wire);
    type Error = String;
    type Future = ReadyFuture<(PeerId, Wire), String>;

    fn upgrade_inbound(self, stream: Negotiated<Wire>, _info: &'static str) -> Self::Future {
        let wire = stream.into_inner();
        ReadyFuture { value: Some(Ok((peer(wire.remote), wire))) }
    }

    fn upgrade_outbound(self, stream: Negotiated<Wire>, _info: &'static str) -> Self::Future {
        let wire = stream.into_inner();
        ReadyFuture { value: Some(Ok((peer(wire.remote), wire))) }
    }
}

/// A muxer whose substreams are byte queues on the link.
#[derive(Debug)]
struct Muxer {
    wire: Wire,
    role: Endpoint,
}

#[derive(Debug)]
struct Substream(Rc<RefCell<VecDeque<u8>>>);

impl StreamMuxer for Muxer {
    type Substream = Substream;
    type Error = String;

    fn poll_inbound(&mut self, _cx: &mut Context<'_>) -> Poll<Result<Substream, String>> {
        if self.wire.link.borrow().closed {
            return Poll::Ready(Err("closed".to_string()));
        }
        match self.wire.link.borrow_mut().opened.pop_front() {
            Some(queue) => Poll::Ready(Ok(Substream(queue))),
            None => Poll::Pending,
        }
    }

    fn poll_outbound(&mut self, _cx: &mut Context<'_>) -> Poll<Result<Substream, String>> {
        if self.wire.link.borrow().closed {
            return Poll::Ready(Err("closed".to_string()));
        }
        let queue = Rc::new(RefCell::new(VecDeque::new()));
        self.wire.link.borrow_mut().opened.push_back(queue.clone());
        Poll::Ready(Ok(Substream(queue)))
    }

    fn poll_close(&mut self, _cx: &mut Context<'_>) -> Poll<Result<(), String>> {
        self.wire.link.borrow_mut().closed = true;
        Poll::Ready(Ok(()))
    }

    fn poll(&mut self, _cx: &mut Context<'_>) -> Poll<Result<StreamMuxerEvent, String>> {
        if self.wire.link.borrow().closed {
            return Poll::Ready(Err("closed".to_string()));
        }
        Poll::Pending
    }
}

#[derive(Clone)]
struct Mux(&'static str);

impl UpgradeInfo for Mux {
    type Info = &'static str;

    fn protocol_info(&self) -> Vec<&'static str> {
        vec![self.0]
    }
}

impl Upgrade<Negotiated<Wire>> for Mux {
    type Output = Muxer;
    type Error = String;
    type Future = ReadyFuture<Muxer, String>;

    fn upgrade_inbound(self, stream: Negotiated<Wire>, _info: &'static str) -> Self::Future {
        ReadyFuture { value: Some(Ok(Muxer { wire: stream.into_inner(), role: Endpoint::Listener })) }
    }

    fn upgrade_outbound(self, stream: Negotiated<Wire>, _info: &'static str) -> Self::Future {
        ReadyFuture { value: Some(Ok(Muxer { wire: stream.into_inner(), role: Endpoint::Dialer })) }
    }
}

fn addr(port: u16) -> SocketAddr {
    SocketAddr::V4 { ip: 0x7f00_0001, port }
}

/// Negotiates between a dialing and an accepting upgrade, in memory: what
/// each side's negotiation reports.
fn negotiate<U, V>(
    dialer: &UpgradeApply<Wire, U>,
    listener: &UpgradeApply<Wire, V>,
) -> (Result<usize, NegotiationError>, Result<usize, NegotiationError>)
where
    U: Upgrade<Negotiated<Wire>>,
    V: Upgrade<Negotiated<Wire>>,
{
    match (&dialer.inner, &listener.inner) {
        (
            UpgradeApplyState::DialerInit { future: offered, .. },
            UpgradeApplyState::ListenerInit { future: supported, .. },
        ) => match offered.negotiate(supported) {
            Ok((i, j)) => (Ok(i), Ok(j)),
            Err(e) => (Err(e), Err(e)),
        },
        _ => panic!("one side dials and the other accepts"),
    }
}

/// Drives an upgrade whose future is ready at once, from what the
/// negotiation reported to the end.
fn finish<U>(
    apply: &mut UpgradeApply<Wire, U>,
    negotiated: Result<usize, NegotiationError>,
) -> Result<U::Output, UpgradeError<U::Error>>
where
    U: Upgrade<Negotiated<Wire>, Future = ReadyFuture<<U as Upgrade<Negotiated<Wire>>>::Output, <U as Upgrade<Negotiated<Wire>>>::Error>>,
{
    match apply.poll(ApplyEvent::Negotiated(Poll::Ready(negotiated))) {
        Progress::Ready(r) => return r,
        Progress::Advanced => {}
        Progress::Pending => panic!("the negotiation was ready"),
    }
    let polled = match &mut apply.inner {
        UpgradeApplyState::Upgrade { future, .. } => future.poll(),
        _ => panic!("the upgrade runs after the negotiation"),
    };
    match apply.poll(ApplyEvent::Upgraded(polled)) {
        Progress::Ready(r) => r,
        _ => panic!("the upgrade was ready"),
    }
}

type Chained<F1, F2> =
    AndThenFuture<AndThenFuture<Handle, F1, Authenticate<Wire, Identify>>, F2, Multiplex<Wire, Mux>>;

/// Runs both ends of one connection through authentication and
/// multiplexing, and returns what each end resolved to.
fn connect_both<F1, F2, G1, G2>(
    mut dialer: Chained<F1, F2>,
    mut listener: Chained<G1, G2>,
    wire_d: Wire,
    wire_l: Wire,
) -> (
    Result<(PeerId, Muxer), Either<Either<String, UpgradeError<String>>, UpgradeError<String>>>,
    Result<(PeerId, Muxer), Either<Either<String, UpgradeError<String>>, UpgradeError<String>>>,
)
where
    F1: Fn(Wire, ConnectedPoint) -> Authenticate<Wire, Identify>,
    F2: Fn((PeerId, Wire), ConnectedPoint) -> Multiplex<Wire, Mux>,
    G1: Fn(Wire, ConnectedPoint) -> Authenticate<Wire, Identify>,
    G2: Fn((PeerId, Wire), ConnectedPoint) -> Multiplex<Wire, Mux>,
{
    // The raw connections are there: both authentications start.
    let first_d = match &mut dialer.inner {
        Either::Left(first) => first,
        Either::Right(_) => panic!("a new future is at its first stage"),
    };
    let first_l = match &mut listener.inner {
        Either::Left(first) => first,
        Either::Right(_) => panic!("a new future is at its first stage"),
    };
    assert!(matches!(first_d.poll(Either::Left(Poll::Pending)), Progress::Pending));
    assert!(first_d.inner.is_left());
    assert!(matches!(first_d.poll(Either::Left(Poll::Ready(Ok(wire_d)))), Progress::Advanced));
    assert!(matches!(first_l.poll(Either::Left(Poll::Ready(Ok(wire_l)))), Progress::Advanced));
    let (auth_d, auth_l) = match (&mut first_d.inner, &mut first_l.inner) {
        (Either::Right(d), Either::Right(l)) => (d, l),
        _ => panic!("both ends authenticate"),
    };
    assert!(matches!(auth_d.inner.inner, UpgradeApplyState::DialerInit { .. }));
    assert!(matches!(auth_l.inner.inner, UpgradeApplyState::ListenerInit { .. }));
    let (agreed_d, agreed_l) = negotiate(&auth_d.inner, &auth_l.inner);
    let authed_d = finish(&mut auth_d.inner, agreed_d);
    let authed_l = finish(&mut auth_l.inner, agreed_l);
    let out_d = first_d.poll(Either::Right(Poll::Ready(authed_d)));
    let out_l = first_l.poll(Either::Right(Poll::Ready(authed_l)));
    let (id_d, id_l) = match (out_d, out_l) {
        (Progress::Ready(Ok(d)), Progress::Ready(Ok(l))) => (d, l),
        (Progress::Ready(Err(d)), Progress::Ready(Err(l))) => {
            // The multiplexing upgrade never starts.
            let end_d = dialer.poll(Either::Left(Poll::Ready(Err(d))));
            let end_l = listener.poll(Either::Left(Poll::Ready(Err(l))));
            assert!(dialer.args.is_some());
            assert!(listener.args.is_some());
            match (end_d, end_l) {
                (Progress::Ready(d), Progress::Ready(l)) => return (d, l),
                _ => panic!("a failed authentication ends the connection"),
            }
        }
        _ => panic!("both ends finish the authentication alike"),
    };
    // The authentications are done: both multiplexing upgrades start.
    assert!(matches!(dialer.poll(Either::Left(Poll::Ready(Ok(id_d)))), Progress::Advanced));
    assert!(matches!(listener.poll(Either::Left(Poll::Ready(Ok(id_l)))), Progress::Advanced));
    let (mux_d, mux_l) = match (&mut dialer.inner, &mut listener.inner) {
        (Either::Right(d), Either::Right(l)) => (d, l),
        _ => panic!("both ends multiplex"),
    };
    let (agreed_d, agreed_l) = negotiate(&mux_d.upgrade, &mux_l.upgrade);
    let muxed_d = drive_multiplex(mux_d, agreed_d);
    let muxed_l = drive_multiplex(mux_l, agreed_l);
    let end_d = dialer.poll(Either::Right(Poll::Ready(muxed_d)));
    let end_l = listener.poll(Either::Right(Poll::Ready(muxed_l)));
    match (end_d, end_l) {
        (Progress::Ready(d), Progress::Ready(l)) => (d, l),
        _ => panic!("both ends are done"),
    }
}

fn drive_multiplex(
    mux: &mut Multiplex<Wire, Mux>,
    negotiated: Result<usize, NegotiationError>,
) -> Result<(PeerId, Muxer), UpgradeError<String>> {
    match mux.poll(ApplyEvent::Negotiated(Poll::Ready(negotiated))) {
        Progress::Ready(r) => return r,
        Progress::Advanced => {}
        Progress::Pending => panic!("the negotiation was ready"),
    }
    assert!(mux.peer_id.is_some());
    let polled = match &mut mux.upgrade.inner {
        UpgradeApplyState::Upgrade { future, .. } => future.poll(),
        _ => panic!("the upgrade runs after the negotiation"),
    };
    match mux.poll(ApplyEvent::Upgraded(polled)) {
        Progress::Ready(r) => {
            assert!(mux.peer_id.is_none());
            r
        }
        _ => panic!("the upgrade was ready"),
    }
}

#[test]
fn loopback_echo() {
    let stack = |id: &'static str, mux: &'static str| {
        Memory.upgrade().authenticate(Identify(id)).multiplex(Mux(mux))
    };
    let server = stack("/id", "/mux");
    let client = stack("/id", "/mux");
    let listener = server.listen(addr(0)).ok().unwrap();
    let dialing = client.connect(addr(4001)).ok().unwrap();
    assert!(matches!(dialing.args, Some((_, ConnectedPoint::Dialer { addr: a })) if a == addr(4001)));

    // The listener's events go through both layers in their shape.
    let listened = listener.inner.poll_next(Poll::Ready(Some(ListenerEvent::Listened(addr(4001)))));
    assert!(matches!(
        listener.poll_next(listened),
        Poll::Ready(Some(ListenerEvent::Listened(a))) if a == addr(4001)
    ));
    let raw = ListenerEvent::Incoming { local_addr: addr(4001), remote_addr: addr(5000), upgrade: Handle };
    let accepting = match listener.poll_next(listener.inner.poll_next(Poll::Ready(Some(raw)))) {
        Poll::Ready(Some(ListenerEvent::Incoming { local_addr, remote_addr, upgrade })) => {
            assert_eq!(local_addr, addr(4001));
            assert_eq!(remote_addr, addr(5000));
            upgrade
        }
        _ => panic!("an Incoming stays an Incoming"),
    };
    let point = ConnectedPoint::Listener { local_addr: addr(4001), remote_addr: addr(5000) };
    assert!(matches!(accepting.args, Some((_, p)) if p == point));

    let (wire_d, wire_l, _link) = wires(1, 2);
    let (dialed, accepted) = connect_both(dialing, accepting, wire_d, wire_l);
    let (seen_by_dialer, mut muxer_d) = dialed.ok().unwrap();
    let (seen_by_listener, mut muxer_l) = accepted.ok().unwrap();
    assert_eq!(seen_by_dialer, peer(2));
    assert_eq!(seen_by_listener, peer(1));
    assert_eq!(muxer_d.role, Endpoint::Dialer);
    assert_eq!(muxer_l.role, Endpoint::Listener);

    // A substream that the dialer opens is accepted by the listener, and
    // carries the bytes unchanged.
    let mut cx = Context::from_waker(Waker::noop());
    assert!(matches!(muxer_l.poll_inbound_unpin(&mut cx), Poll::Pending));
    let out = match muxer_d.poll_outbound_unpin(&mut cx) {
        Poll::Ready(Ok(substream)) => substream,
        _ => panic!("the dialer opens a substream"),
    };
    out.0.borrow_mut().extend([104u8, 101, 108, 108, 111]);
    let inc = match muxer_l.poll_inbound_unpin(&mut cx) {
        Poll::Ready(Ok(substream)) => substream,
        _ => panic!("the listener accepts the substream"),
    };
    let read: Vec<u8> = inc.0.borrow_mut().drain(..).collect();
    assert_eq!(read, vec![104u8, 101, 108, 108, 111]);
    assert!(matches!(muxer_d.poll_unpin(&mut cx), Poll::Pending));

    // After the close every other operation fails.
    let mut closing = muxer_d.close();
    assert!(matches!(closing.poll(&mut cx), Poll::Ready(Ok(()))));
    assert!(matches!(muxer_l.poll_inbound_unpin(&mut cx), Poll::Ready(Err(_))));
    assert!(matches!(muxer_l.poll_outbound_unpin(&mut cx), Poll::Ready(Err(_))));
    assert!(matches!(muxer_l.poll_unpin(&mut cx), Poll::Ready(Err(_))));
    assert!(matches!(muxer_l.poll_close_unpin(&mut cx), Poll::Ready(Ok(()))));
}

#[test]
fn negotiation_mismatch() {
    let server = Memory.upgrade().authenticate(Identify("/c")).multiplex(Mux("/mux"));
    let client = Memory.upgrade().authenticate(Identify("/a")).multiplex(Mux("/mux"));
    let listener = server.listen(addr(0)).ok().unwrap();
    let accept = |remote: u16| {
        let raw = ListenerEvent::Incoming { local_addr: addr(1), remote_addr: addr(remote), upgrade: Handle };
        match listener.poll_next(listener.inner.poll_next(Poll::Ready(Some(raw)))) {
            Poll::Ready(Some(ListenerEvent::Incoming { upgrade, .. })) => upgrade,
            _ => panic!("an Incoming stays an Incoming"),
        }
    };
    let accepting = accept(9);
    let dialing = client.connect(addr(1)).ok().unwrap();
    let (wire_d, wire_l, _link) = wires(1, 2);
    let (dialed, accepted) = connect_both(dialing, accepting, wire_d, wire_l);
    let select = UpgradeError::Select(NegotiationError::NoCommonProtocol);
    assert_eq!(dialed.err(), Some(Either::Left(Either::Right(select.clone()))));
    assert_eq!(accepted.err(), Some(Either::Left(Either::Right(select))));
    // The listener goes on accepting.
    let again = accept(10);
    assert!(again.inner.is_left());
    assert!(again.args.is_some());
}

#[test]
fn select_upgrade_mismatch_reports_select_on_the_dialer() {
    let offered = SelectUpgrade::new(ReadyUpgrade::new("/a"), ReadyUpgrade::new("/b"));
    let supported = ReadyUpgrade::new("/c");
    let (wire_d, wire_l, _link) = wires(1, 2);
    let mut dialer = UpgradeApply::new_outbound(wire_d, offered);
    let mut listener = UpgradeApply::new_inbound(wire_l, supported);
    let outcome = match (&dialer.inner, &listener.inner) {
        (
            UpgradeApplyState::DialerInit { future: d, .. },
            UpgradeApplyState::ListenerInit { future: l, .. },
        ) => d.negotiate(l),
        _ => panic!("one side dials and the other accepts"),
    };
    assert_eq!(outcome, Err(NegotiationError::NoCommonProtocol));
    let failed = Poll::Ready(Err(NegotiationError::NoCommonProtocol));
    match dialer.poll(ApplyEvent::Negotiated(failed)) {
        Progress::Ready(Err(UpgradeError::Select(NegotiationError::NoCommonProtocol))) => {}
        _ => panic!("the dialer reports the failed negotiation"),
    }
    match listener.poll(ApplyEvent::Negotiated(failed)) {
        Progress::Ready(Err(UpgradeError::Select(NegotiationError::NoCommonProtocol))) => {}
        _ => panic!("the listener reports the failed negotiation"),
    }
}

#[test]
fn select_upgrade_agreement_is_in_both_lists() {
    let offered = SelectUpgrade::new(ReadyUpgrade::new("/a"), ReadyUpgrade::new("/b"));
    let supported = SelectUpgrade::new(ReadyUpgrade::new("/b"), ReadyUpgrade::new("/c"));
    let (wire_d, wire_l, _link) = wires(1, 2);
    let mut dialer = UpgradeApply::new_outbound(wire_d, offered);
    let mut listener = UpgradeApply::new_inbound(wire_l, supported);
    let (agreed_d, agreed_l) = negotiate(&dialer, &listener);
    assert_eq!((agreed_d, agreed_l), (Ok(1), Ok(0)));
    assert!(matches!(dialer.poll(ApplyEvent::Negotiated(Poll::Ready(agreed_d))), Progress::Advanced));
    assert!(matches!(listener.poll(ApplyEvent::Negotiated(Poll::Ready(agreed_l))), Progress::Advanced));
    match (&dialer.inner, &listener.inner) {
        (UpgradeApplyState::Upgrade { name: d, .. }, UpgradeApplyState::Upgrade { name: l, .. }) => {
            assert_eq!(d, "/b");
            assert_eq!(l, "/b");
        }
        _ => panic!("both upgrades run"),
    }
}

#[test]
fn cancellation_releases_the_stream() {
    let (wire_d, wire_l, link) = wires(1, 2);
    let blocked = UpgradeApply::new_outbound(wire_d, Identify("/id"));
    assert_eq!(link.borrow().dropped_ends, 0);
    drop(blocked);
    assert_eq!(link.borrow().dropped_ends, 1);

    let client = Memory.upgrade().authenticate(Identify("/id"));
    let mut dialing = client.0.inner.connect(addr(1)).ok().unwrap();
    assert!(matches!(dialing.poll(Either::Left(Poll::Ready(Ok(wire_l)))), Progress::Advanced));
    assert_eq!(link.borrow().dropped_ends, 1);
    drop(dialing);
    assert_eq!(link.borrow().dropped_ends, 2);
}

#[test]
fn apply_threads_the_identity_through() {
    let base = Memory.map(|wire: Wire, _point: ConnectedPoint| (peer(wire.remote), wire));
    let transport: WithUpgrade<_, _, Wire> = WithUpgrade::new(base, Mux("/x"));
    let mut fut: UpgradeFuture<_, Mux, Wire> = transport.connect(addr(2)).ok().unwrap();
    assert_eq!(fut.role, Endpoint::Dialer);
    assert!(matches!(fut.poll(Either::Left(Poll::Pending)), Progress::Pending));
    assert!(matches!(fut.upgrade, Either::Left(Some(_))));
    let (wire, _other, _link) = wires(1, 7);
    assert!(matches!(fut.poll(Either::Left(Poll::Ready(Ok((peer(7), wire))))), Progress::Advanced));
    match &fut.upgrade {
        Either::Right((id, apply)) => {
            assert_eq!(*id, peer(7));
            assert!(matches!(apply.inner, UpgradeApplyState::DialerInit { .. }));
        }
        Either::Left(_) => panic!("the upgrade has started"),
    }
    assert!(matches!(fut.poll(Either::Right(ApplyEvent::Negotiated(Poll::Pending))), Progress::Pending));
    assert!(matches!(
        fut.poll(Either::Right(ApplyEvent::Negotiated(Poll::Ready(Ok(0))))),
        Progress::Advanced
    ));
    let polled = match &mut fut.upgrade {
        Either::Right((_, apply)) => match &mut apply.inner {
            UpgradeApplyState::Upgrade { future, name } => {
                assert_eq!(name, "/x");
                future.poll()
            }
            _ => panic!("the upgrade runs after the negotiation"),
        },
        Either::Left(_) => panic!("the upgrade has started"),
    };
    match fut.poll(Either::Right(ApplyEvent::Upgraded(polled))) {
        Progress::Ready(Ok((id, muxer))) => {
            assert_eq!(id, peer(7));
            assert_eq!(muxer.role, Endpoint::Dialer);
        }
        _ => panic!("the upgraded connection keeps the identity"),
    }
}

#[test]
fn apply_tags_the_failures_by_their_source() {
    let base = Memory.map(|wire: Wire, _point: ConnectedPoint| (peer(wire.remote), wire));
    let transport: WithUpgrade<_, _, Wire> = WithUpgrade::new(base, Mux("/x"));
    let mut fut: UpgradeFuture<_, Mux, Wire> = transport.connect(addr(2)).ok().unwrap();
    match fut.poll(Either::Left(Poll::Ready(Err("reset".to_string())))) {
        Progress::Ready(Err(TransportUpgradeError::Transport(e))) => assert_eq!(e, "reset"),
        _ => panic!("an inner failure is a Transport failure"),
    }
    assert!(matches!(fut.upgrade, Either::Left(Some(_))));
    let (wire, _other, _link) = wires(1, 7);
    assert!(matches!(fut.poll(Either::Left(Poll::Ready(Ok((peer(7), wire))))), Progress::Advanced));
    let failed = ApplyEvent::Negotiated(Poll::Ready(Err(NegotiationError::PrematureEof)));
    match fut.poll(Either::Right(failed)) {
        Progress::Ready(Err(TransportUpgradeError::Upgrade(UpgradeError::Select(e)))) => {
            assert_eq!(e, NegotiationError::PrematureEof)
        }
        _ => panic!("a failed negotiation is an Upgrade failure"),
    }
    let e: TransportUpgradeError<u8, u8> = TransportUpgradeError::from(UpgradeError::Apply(3));
    assert_eq!(e, TransportUpgradeError::Upgrade(UpgradeError::Apply(3)));
}

#[test]
fn apply_listener_wraps_incoming_in_the_listener_role() {
    let base = Memory.map(|wire: Wire, _point: ConnectedPoint| (peer(wire.remote), wire));
    let transport: WithUpgrade<_, _, Wire> = WithUpgrade::new(base, Mux("/x"));
    let listener = transport.listen(addr(3)).ok().unwrap();
    let raw = ListenerEvent::Incoming { local_addr: addr(3), remote_addr: addr(4), upgrade: Handle };
    match listener.poll_next(listener.inner.poll_next(Poll::Ready(Some(raw)))) {
        Poll::Ready(Some(ListenerEvent::Incoming { local_addr, remote_addr, upgrade })) => {
            assert_eq!(local_addr, addr(3));
            assert_eq!(remote_addr, addr(4));
            assert_eq!(upgrade.role, Endpoint::Listener);
            assert!(matches!(upgrade.upgrade, Either::Left(Some(_))));
        }
        _ => panic!("an Incoming stays an Incoming"),
    }
    match listener.poll_next(Poll::Ready(Some(ListenerEvent::Error("e".to_string())))) {
        Poll::Ready(Some(ListenerEvent::Error(TransportUpgradeError::Transport(e)))) => assert_eq!(e, "e"),
        _ => panic!("an error of the listener is a Transport failure"),
    }
    match listener.poll_next(Poll::Ready(Some(ListenerEvent::Closed(Err("c".to_string()))))) {
        Poll::Ready(Some(ListenerEvent::Closed(Err(TransportUpgradeError::Transport(e))))) => {
            assert_eq!(e, "c")
        }
        _ => panic!("the closing error of the listener is a Transport failure"),
    }
    assert!(matches!(listener.poll_next(Poll::Pending), Poll::Pending));
    assert!(matches!(listener.poll_next(Poll::Ready(None)), Poll::Ready(None)));
}

#[derive(Debug)]
struct Plain(String);

impl std::fmt::Display for Plain {
    fn fmt(&self, f: &mut std::fmt::Formatter<'_>) -> std::fmt::Result {
        f.write_str(&self.0)
    }
}

impl std::error::Error for Plain {}

#[derive(Clone)]
struct Muxed {
    tag: u8,
}

struct MuxedHandle;

impl TryFuture for MuxedHandle {
    type Ok = (PeerId, Muxer);
    type Error = Plain;
}

struct MuxedEvents;

impl Stream for MuxedEvents {
    type Item = ListenerEvent<MuxedHandle, Plain>;
}

impl Transport for Muxed {
    type Output = (PeerId, Muxer);
    type Error = Plain;
    type Dialer = MuxedHandle;
    type ListenerUpgrade = MuxedHandle;
    type Listener = MuxedEvents;

    fn listen(&self, _addr: SocketAddr) -> Result<MuxedEvents, Plain> {
        Err(Plain(format!("no socket {}", self.tag)))
    }

    fn connect(&self, _addr: SocketAddr) -> Result<MuxedHandle, Plain> {
        Ok(MuxedHandle)
    }
}

#[test]
fn boxed_keeps_outputs_and_erases_errors() {
    let boxed = Multiplexed(Muxed { tag: 3 }).boxed();
    let mut fut = boxed.connect(addr(1)).ok().unwrap();
    assert!(matches!(fut.poll(Poll::Pending), Poll::Pending));
    let (wire, _other, _link) = wires(1, 2);
    let muxer = Muxer { wire, role: Endpoint::Dialer };
    match fut.poll(Poll::Ready(Ok((peer(2), muxer)))) {
        Poll::Ready(Ok((id, muxer))) => {
            assert_eq!(id, peer(2));
            assert_eq!(muxer.role, Endpoint::Dialer);
        }
        _ => panic!("a value passes through unchanged"),
    }
    let mut fut = boxed.connect(addr(1)).ok().unwrap();
    match fut.poll(Poll::Ready(Err(Plain("reset".to_string())))) {
        Poll::Ready(Err(e)) => {
            assert_eq!(e.kind(), std::io::ErrorKind::Other);
            assert_eq!(e.to_string(), "reset");
            assert!(e.get_ref().is_some());
        }
        _ => panic!("an error becomes an I/O error"),
    }
    match boxed.listen(addr(1)) {
        Err(e) => assert_eq!(e.to_string(), "no socket 3"),
        Ok(_) => panic!("the inner transport cannot listen"),
    }
}

#[test]
fn boxed_transports_share_one_error_type() {
    let first = Multiplexed(Muxed { tag: 1 }).boxed();
    let second = Multiplexed(Multiplexed(Muxed { tag: 2 })).boxed();
    let errors: Vec<std::io::Error> =
        vec![first.listen(addr(1)).err().unwrap(), second.listen(addr(1)).err().unwrap()];
    let texts: Vec<String> = errors.iter().map(|e| e.to_string()).collect();
    assert_eq!(texts, vec!["no socket 1".to_string(), "no socket 2".to_string()]);
}
