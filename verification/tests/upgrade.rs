use airio::either::{Either, EitherFuture};
use airio::poll::{Poll, TryFuture};
use airio::upgrade::pending::PendingFuture;
use airio::upgrade::ready::ReadyFuture;
use airio::upgrade::{PendingUpgrade, ProtocolName, ReadyUpgrade, SelectUpgrade, Upgrade, UpgradeInfo};
use std::convert::Infallible;

struct Wire(u8);

#[test]
fn ready_upgrade_offers_its_one_protocol() {
    let upgrade = ReadyUpgrade::new("/id");
    assert_eq!(upgrade.protocol_info(), vec!["/id"]);
}

#[test]
fn ready_upgrade_hands_the_stream_back() {
    let mut inbound = ReadyUpgrade::new("/id").upgrade_inbound(Wire(1), "/id");
    match inbound.poll() {
        Poll::Ready(Ok(Wire(1))) => {}
        _ => panic!("the stream comes back unchanged"),
    }
    assert!(inbound.value.is_none());
    let mut outbound = ReadyUpgrade::new("/id").upgrade_outbound(Wire(2), "/id");
    assert!(matches!(outbound.poll(), Poll::Ready(Ok(Wire(2)))));
}

#[test]
fn pending_upgrade_never_resolves() {
    let upgrade = PendingUpgrade::new("/never".to_string());
    assert_eq!(upgrade.protocol_info(), vec!["/never".to_string()]);
    let fut: PendingFuture<Infallible, Infallible> =
        PendingUpgrade::new("/never").upgrade_inbound(Wire(1), "/never");
    assert!(matches!(fut.poll(), Poll::Pending));
    assert!(matches!(fut.poll(), Poll::Pending));
    let fut: PendingFuture<Infallible, Infallible> =
        PendingUpgrade::new("/never").upgrade_outbound(Wire(1), "/never");
    assert!(matches!(fut.poll(), Poll::Pending));
}

#[test]
fn select_upgrade_offers_left_tokens_then_right_tokens() {
    let upgrade = SelectUpgrade::new(
        SelectUpgrade::new(ReadyUpgrade::new("/a"), ReadyUpgrade::new("/b")),
        ReadyUpgrade::new("/c"),
    );
    let infos = upgrade.protocol_info();
    assert_eq!(
        infos,
        vec![
            Either::Left(Either::Left("/a")),
            Either::Left(Either::Right("/b")),
            Either::Right("/c"),
        ]
    );
    let names: Vec<String> = infos.iter().map(|i| i.name()).collect();
    assert_eq!(names, vec!["/a".to_string(), "/b".to_string(), "/c".to_string()]);
}

#[test]
fn select_upgrade_runs_the_side_of_the_token() {
    let upgrade = SelectUpgrade::new(ReadyUpgrade::new("/a"), PendingUpgrade::new("/b"));
    match upgrade.upgrade_inbound(Wire(1), Either::Left("/a")) {
        EitherFuture::Left(mut fut) => assert!(matches!(fut.poll(), Poll::Ready(Ok(Wire(1))))),
        EitherFuture::Right(_) => panic!("a Left token runs the first upgrade"),
    }
    let upgrade = SelectUpgrade::new(ReadyUpgrade::new("/a"), PendingUpgrade::new("/b"));
    match upgrade.upgrade_outbound(Wire(1), Either::Right("/b")) {
        EitherFuture::Right(fut) => assert!(matches!(fut.poll(), Poll::Pending)),
        EitherFuture::Left(_) => panic!("a Right token runs the second upgrade"),
    }
}

#[test]
fn either_upgrade_offers_only_its_own_tokens() {
    let left: Either<ReadyUpgrade<&'static str>, PendingUpgrade<&'static str>> =
        Either::Left(ReadyUpgrade::new("/a"));
    assert_eq!(left.protocol_info(), vec![Either::Left("/a")]);
    let right: Either<ReadyUpgrade<&'static str>, PendingUpgrade<&'static str>> =
        Either::Right(PendingUpgrade::new("/b"));
    assert_eq!(right.protocol_info(), vec![Either::Right("/b")]);
}

#[test]
fn either_upgrade_runs_its_side() {
    let left: Either<ReadyUpgrade<&'static str>, PendingUpgrade<&'static str>> =
        Either::Left(ReadyUpgrade::new("/a"));
    match left.upgrade_outbound(Wire(4), Either::Left("/a")) {
        EitherFuture::Left(mut fut) => assert!(matches!(fut.poll(), Poll::Ready(Ok(Wire(4))))),
        EitherFuture::Right(_) => panic!("the value holds the first upgrade"),
    }
    let right: Either<ReadyUpgrade<&'static str>, PendingUpgrade<&'static str>> =
        Either::Right(PendingUpgrade::new("/b"));
    match right.upgrade_inbound(Wire(4), Either::Right("/b")) {
        EitherFuture::Right(fut) => assert!(matches!(fut.poll(), Poll::Pending)),
        EitherFuture::Left(_) => panic!("the value holds the second upgrade"),
    }
}

struct A;

impl TryFuture for A {
    type Ok = u8;
    type Error = u16;
}

struct B;

impl TryFuture for B {
    type Ok = u32;
    type Error = u64;
}

#[test]
fn either_future_tags_by_side() {
    let mut left: EitherFuture<A, B> = EitherFuture::Left(A);
    assert_eq!(left.poll(Either::Left(Poll::Pending)), Poll::Pending);
    assert_eq!(left.poll(Either::Left(Poll::Ready(Ok(1)))), Poll::Ready(Ok(Either::Left(1))));
    assert_eq!(left.poll(Either::Left(Poll::Ready(Err(2)))), Poll::Ready(Err(Either::Left(2))));
    let mut right: EitherFuture<A, B> = EitherFuture::Right(B);
    assert_eq!(right.poll(Either::Right(Poll::Pending)), Poll::Pending);
    assert_eq!(right.poll(Either::Right(Poll::Ready(Ok(3)))), Poll::Ready(Ok(Either::Right(3))));
    assert_eq!(right.poll(Either::Right(Poll::Ready(Err(4)))), Poll::Ready(Err(Either::Right(4))));
}

#[test]
fn protocol_names_are_the_strings() {
    assert_eq!("/x".name(), "/x".to_string());
    assert_eq!("/y".to_string().name(), "/y".to_string());
    let tagged: Either<&'static str, String> = Either::Right("/z".to_string());
    assert_eq!(tagged.name(), "/z".to_string());
}

#[test]
fn ready_future_is_ready_once() {
    let mut fut: ReadyFuture<u8, u8> = ReadyFuture { value: Some(Err(3)) };
    assert_eq!(fut.poll(), Poll::Ready(Err(3)));
    assert!(fut.value.is_none());
}
