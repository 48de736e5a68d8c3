//! The WebSocket transport: its configuration and its listener, without the
//! sockets.

use vstd::prelude::*;
use tungstenite::protocol::WebSocketConfig;
use crate::poll::Poll;
use crate::tcp;
use crate::transport::ListenerEvent;

verus! {

/// The settings of the WebSocket protocol.
#[derive(Debug, Clone, Copy, PartialEq, Eq)]
pub struct WebSocketSettings {
    /// The capacity of the buffer that messages are received in.
    pub read_buffer_size: usize,
    /// How much is buffered before it is written to the stream.
    pub write_buffer_size: usize,
    /// The most that the write buffer may hold.
    pub max_write_buffer_size: usize,
    /// The largest incoming message; `None` for no limit.
    pub max_message_size: Option<usize>,
    /// The largest incoming frame; `None` for no limit.
    pub max_frame_size: Option<usize>,
    /// Whether the server takes frames that the client did not mask.
    pub accept_unmasked_frames: bool,
}

/// The settings that the protocol starts from: buffers of 128 KiB, a write
/// buffer without limit, messages up to 64 MiB, frames up to 16 MiB, and no
/// unmasked frames.
pub open spec fn default_settings() -> WebSocketSettings {
    WebSocketSettings {
        read_buffer_size: 131072,
        write_buffer_size: 131072,
        max_write_buffer_size: usize::MAX,
        max_message_size: Some(67108864usize),
        max_frame_size: Some(16777216usize),
        accept_unmasked_frames: false,
    }
}

/// `WebSocketConfig::default()` of `tungstenite`, field by field: the values
/// that its documentation gives as the defaults.
#[verifier::external_body]
fn websocket_defaults() -> (settings: WebSocketSettings)
    ensures
        settings == default_settings(),
{
    let config = WebSocketConfig::default();
    WebSocketSettings {
        read_buffer_size: config.read_buffer_size,
        write_buffer_size: config.write_buffer_size,
        max_write_buffer_size: config.max_write_buffer_size,
        max_message_size: config.max_message_size,
        max_frame_size: config.max_frame_size,
        accept_unmasked_frames: config.accept_unmasked_frames,
    }
}

/// The configuration of the WebSocket transport.
#[derive(Debug, Clone)]
pub struct Config {
    pub websocket: WebSocketSettings,
    pub tcp: tcp::Config,
}

impl Default for Config {
    fn default() -> (config: Self)
        ensures
            config.websocket == default_settings(),
            config.tcp.ttl is None,
            config.tcp.nodelay,
            config.tcp.backlog == 1024,
    {
        Self::new()
    }
}

impl Config {
    /// The default configuration: the default settings of the protocol on
    /// the default TCP transport.
    pub fn new() -> (config: Self)
        ensures
            config.websocket == default_settings(),
            config.tcp.ttl is None,
            config.tcp.nodelay,
            config.tcp.backlog == 1024,
    {
        Self { websocket: websocket_defaults(), tcp: tcp::Config::new() }
    }

    pub fn read_buffer_size(self, read_buffer_size: usize) -> (config: Self)
        ensures
            config.websocket == (WebSocketSettings { read_buffer_size, ..self.websocket }),
            config.tcp == self.tcp,
    {
        let mut config = self;
        config.websocket.read_buffer_size = read_buffer_size;
        config
    }

    pub fn write_buffer_size(self, write_buffer_size: usize) -> (config: Self)
        ensures
            config.websocket == (WebSocketSettings { write_buffer_size, ..self.websocket }),
            config.tcp == self.tcp,
    {
        let mut config = self;
        config.websocket.write_buffer_size = write_buffer_size;
        config
    }

    pub fn max_write_buffer_size(self, max_write_buffer_size: usize) -> (config: Self)
        ensures
            config.websocket == (WebSocketSettings { max_write_buffer_size, ..self.websocket }),
            config.tcp == self.tcp,
    {
        let mut config = self;
        config.websocket.max_write_buffer_size = max_write_buffer_size;
        config
    }

    pub fn max_message_size(self, max_message_size: Option<usize>) -> (config: Self)
        ensures
            config.websocket == (WebSocketSettings { max_message_size, ..self.websocket }),
            config.tcp == self.tcp,
    {
        let mut config = self;
        config.websocket.max_message_size = max_message_size;
        config
    }

    pub fn max_frame_size(self, max_frame_size: Option<usize>) -> (config: Self)
        ensures
            config.websocket == (WebSocketSettings { max_frame_size, ..self.websocket }),
            config.tcp == self.tcp,
    {
        let mut config = self;
        config.websocket.max_frame_size = max_frame_size;
        config
    }

    pub fn accept_unmasked_frames(self, accept_unmasked_frames: bool) -> (config: Self)
        ensures
            config.websocket == (WebSocketSettings { accept_unmasked_frames, ..self.websocket }),
            config.tcp == self.tcp,
    {
        let mut config = self;
        config.websocket.accept_unmasked_frames = accept_unmasked_frames;
        config
    }
}

/// The WebSocket handshake that is still to run on the stream that `inner`
/// resolves to, with the settings `config`.
#[derive(Debug)]
pub struct Handshake<U> {
    pub inner: U,
    pub config: WebSocketSettings,
}

/// The listener of the WebSocket transport, on the listener `L` of the TCP
/// transport below.
pub struct ListenStream<L> {
    pub config: WebSocketSettings,
    pub inner: L,
}

impl<L> ListenStream<L> {
    /// Whether `out` is the event `event` of the TCP listener as this
    /// listener hands it on: the upgrade of an `Incoming` becomes the
    /// handshake on it with the settings of the listener, and everything
    /// else is unchanged.
    pub open spec fn event_spec<U, E>(
        &self,
        event: ListenerEvent<U, E>,
        out: ListenerEvent<Handshake<U>, E>,
    ) -> bool {
        match event {
            ListenerEvent::Listened(addr) => out == ListenerEvent::<Handshake<U>, E>::Listened(
                addr,
            ),
            ListenerEvent::Incoming { local_addr, remote_addr, upgrade } => out == (
            ListenerEvent::<Handshake<U>, E>::Incoming {
                local_addr,
                remote_addr,
                upgrade: Handshake { inner: upgrade, config: self.config },
            }),
            ListenerEvent::Closed(result) => out == ListenerEvent::<Handshake<U>, E>::Closed(
                result,
            ),
            ListenerEvent::Error(err) => out == ListenerEvent::<Handshake<U>, E>::Error(err),
        }
    }

    /// One poll. `polled` is what the TCP listener reported: its readiness
    /// and its end are handed on, its events as `event_spec` says.
    pub fn poll_next<U, E>(&self, polled: Poll<Option<ListenerEvent<U, E>>>) -> (out: Poll<
        Option<ListenerEvent<Handshake<U>, E>>,
    >)
        ensures
            match polled {
                Poll::Pending => out is Pending,
                Poll::Ready(None) => out matches Poll::Ready(None),
                Poll::Ready(Some(event)) => {
                    &&& out matches Poll::Ready(Some(mapped))
                    &&& self.event_spec(event, mapped)
                },
            },
    {
        let config = self.config;
        let event = match polled {
            Poll::Ready(Some(event)) => event.map_upgrade(
                move |u: U| -> (h: Handshake<U>)
                    ensures h.inner == u && h.config == config
                {
                    Handshake { inner: u, config }
                },
            ),
            Poll::Ready(None) => return Poll::Ready(None),
            Poll::Pending => return Poll::Pending,
        };
        Poll::Ready(Some(event))
    }
}

/// The listener of the WebSocket transport hands every event on in its
/// shape.
pub proof fn lemma_ws_listener_keeps_shape<L, U, E>(
    listener: ListenStream<L>,
    event: ListenerEvent<U, E>,
    out: ListenerEvent<Handshake<U>, E>,
)
    requires
        listener.event_spec(event, out),
    ensures
        out.shape() == event.shape(),
{
}

} // verus!
