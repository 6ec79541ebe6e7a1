//! What the QUIC stack reports to the bridge.
use vstd::prelude::*;
use crate::errors::CloseReason;
use crate::stream_id::QuicStreamId;

verus! {

/// The codes that ended each direction of a stream, where one did not end cleanly.
#[derive(Clone, Copy, Debug, PartialEq, Eq, Structural)]
pub struct StreamCloseCodes {
    /// The code that shut down the receiving side.
    pub receiving: Option<u64>,
    /// The code that shut down the sending side.
    pub sending: Option<u64>,
}

/// Something the QUIC stack observed on a connection.
#[derive(Debug)]
pub enum Observed {
    /// Bytes arrived on a stream, and whether they end it.
    Data(QuicStreamId, Vec<u8>, bool),
    /// The peer opened a stream.
    Opened(QuicStreamId),
    /// This endpoint opened a stream.
    LocallyOpened(QuicStreamId),
    /// A stream finished.
    Closed(QuicStreamId, StreamCloseCodes),
    /// The peer reset a stream it was sending on.
    Reset(QuicStreamId, u64),
    /// The peer asked this endpoint to stop sending on a stream.
    StopSending(QuicStreamId, u64),
    /// The peer acknowledged stream data.
    Acked(QuicStreamId, u64),
    /// The handshake completed.
    HandshakeCompleted,
    /// The peer raised how many streams this endpoint may open.
    StreamsExtended(u64),
}

/// What happened when the connection was handed a received datagram.
#[derive(Clone, Copy, Debug, PartialEq, Eq, Structural)]
pub enum ReadOutcome {
    /// The packet was processed, or discarded as uninteresting.
    Processed,
    /// A server must answer with a Retry packet.
    SendRetry,
    /// A server must drop the connection silently.
    DropSilently,
    /// The connection entered the draining period; the transport's close reason.
    Draining(CloseReason),
    /// The connection entered the closing period; the transport's close reason.
    Closing(CloseReason),
}

/// What happened when the connection's timer expired.
#[derive(Clone, Copy, Debug, PartialEq, Eq, Structural)]
pub enum ExpiryOutcome {
    /// The expiry was handled.
    Handled,
    /// The connection has been idle too long.
    IdleClose,
    /// The connection is draining or closing; the transport's close reason.
    Terminal(CloseReason),
}

/// What happened when the connection was asked for a datagram.
#[derive(Clone, Copy, Debug, PartialEq, Eq, Structural)]
pub enum WriteOutcome {
    /// A datagram of this many bytes was written.
    Datagram { len: usize },
    /// Nothing more to send at this moment.
    Idle,
    /// There is data to send but it cannot leave right now.
    Blocked,
}

/// What happened when stream data was offered to the connection.
#[derive(Clone, Copy, Debug, PartialEq, Eq, Structural)]
pub enum StreamWrite {
    /// A datagram of `len` bytes was produced, holding `accepted` bytes of the offered data.
    Datagram { len: usize, accepted: usize },
    /// The stream's flow-control window is full.
    StreamBlocked,
    /// The connection's flow-control window is full.
    ConnectionBlocked,
    /// The datagram cannot leave right now.
    Blocked,
    /// Nothing to send.
    Idle,
}

} // verus!
