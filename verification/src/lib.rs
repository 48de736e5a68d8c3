//! A composable transport stack, kept free of I/O.
//!
//! A raw address becomes an authenticated, multiplexed, peer-identified
//! connection by stacking combinators on a [`Transport`]. Every future and
//! listener that the stack hands out is a small state machine: the driver
//! polls the underlying resource and feeds the outcome to the machine, which
//! decides what the composed future or listener reports.

pub mod connection;
pub mod either;
pub mod identity;
pub mod muxing;
pub mod negotiation;
pub mod poll;
pub mod quic;
pub mod tcp;
pub mod transport;
pub mod upgrade;
pub mod ws;

pub use connection::{ConnectedPoint, Endpoint, SocketAddr};
pub use either::Either;
pub use identity::PeerId;
pub use muxing::StreamMuxer;
pub use negotiation::Negotiated;
pub use poll::{Poll, Progress, Stream, TryFuture};
pub use transport::{ListenerEvent, Transport};
pub use upgrade::{Upgrade, UpgradeInfo};
