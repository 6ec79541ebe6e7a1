//! What a connection or a stream reports when it fails or closes.
use vstd::prelude::*;

verus! {

/// A failure that the bridge itself reports.
#[derive(Clone, Copy, Debug, PartialEq, Eq, Structural)]
pub enum BridgeReason {
    /// The connection is closed and nothing recorded why.
    ConnectionClosed,
    /// The QUIC transport closed the connection for a reason HTTP/3 has no name for.
    TransportClosed,
    /// This endpoint closed the connection.
    ClosedLocally,
    /// Data was offered to a stream that was already finished.
    WriteAfterFinish,
}

/// The text of a bridge failure.
pub open spec fn spec_bridge_message(reason: BridgeReason) -> Seq<char> {
    match reason {
        BridgeReason::ConnectionClosed => "the QUIC connection is closed"@,
        BridgeReason::TransportClosed => "the QUIC transport closed the connection"@,
        BridgeReason::ClosedLocally => "the QUIC connection was closed locally"@,
        BridgeReason::WriteAfterFinish => "cannot write to a finished stream"@,
    }
}

impl BridgeReason {
    /// The text of this failure.
    pub fn message(&self) -> (r: &'static str)
        ensures
            r@ == spec_bridge_message(*self),
    {
        match self {
            BridgeReason::ConnectionClosed => {
                let m = "the QUIC connection is closed";
                proof {
                    reveal_strlit("the QUIC connection is closed");
                }
                m
            },
            BridgeReason::TransportClosed => {
                let m = "the QUIC transport closed the connection";
                proof {
                    reveal_strlit("the QUIC transport closed the connection");
                }
                m
            },
            BridgeReason::ClosedLocally => {
                let m = "the QUIC connection was closed locally";
                proof {
                    reveal_strlit("the QUIC connection was closed locally");
                }
                m
            },
            BridgeReason::WriteAfterFinish => {
                let m = "cannot write to a finished stream";
                proof {
                    reveal_strlit("cannot write to a finished stream");
                }
                m
            },
        }
    }
}

/// The message HTTP/3 is given when data is offered before the previous data left.
pub open spec fn spec_send_before_ready_message() -> Seq<char> {
    "send_data called before poll_ready completed"@
}

/// The message HTTP/3 is given when data is offered before the previous data left.
pub fn send_before_ready_message() -> (r: &'static str)
    ensures
        r@ == spec_send_before_ready_message(),
{
    let m = "send_data called before poll_ready completed";
    proof {
        reveal_strlit("send_data called before poll_ready completed");
    }
    m
}

/// The kind of a failure reported by the QUIC stack.
#[derive(Clone, Copy, Debug, PartialEq, Eq, Structural)]
pub enum TransportErrorKind {
    /// The peer violated the transport protocol.
    Protocol,
    /// An allocation failed.
    Exhausted,
    /// The caller passed something invalid.
    InvalidInput,
    /// The TLS handshake failed.
    Crypto,
    /// The connection is no longer usable.
    ConnectionUnusable,
    /// The connection is closing or draining.
    Closing,
    /// The peer's limits prevent this right now; it may succeed later.
    Blocked,
    /// The stream cannot carry more data.
    StreamClosed,
    /// Anything else.
    Internal,
}

/// A failure reported by the QUIC stack: its kind and its text.
#[derive(Debug)]
pub struct TransportError {
    pub kind: TransportErrorKind,
    pub description: String,
}

impl TransportError {
    /// A copy of this failure.
    pub fn duplicate(&self) -> (r: TransportError)
        ensures
            r == *self,
    {
        TransportError { kind: self.kind, description: self.description.clone() }
    }
}

/// Why a connection can no longer be used, as HTTP/3 is told.
#[derive(Debug)]
pub enum ConnError {
    /// The peer closed the connection with an application code.
    ApplicationClose { error_code: u64 },
    /// The connection timed out.
    Timeout,
    /// Data was offered to a stream before the previous data had left.
    SendBeforeReady,
    /// The QUIC stack failed.
    Transport(TransportError),
    /// The bridge reports the failure itself.
    Bridge(BridgeReason),
}

impl ConnError {
    /// A copy of this error.
    pub fn duplicate(&self) -> (r: ConnError)
        ensures
            r == *self,
    {
        match self {
            ConnError::ApplicationClose { error_code } => ConnError::ApplicationClose {
                error_code: *error_code,
            },
            ConnError::Timeout => ConnError::Timeout,
            ConnError::SendBeforeReady => ConnError::SendBeforeReady,
            ConnError::Transport(e) => ConnError::Transport(e.duplicate()),
            ConnError::Bridge(b) => ConnError::Bridge(*b),
        }
    }
}

/// Why a stream can no longer be used, as HTTP/3 is told.
#[derive(Debug)]
pub enum StreamError {
    /// The peer ended the stream with an application code.
    Terminated { error_code: u64 },
    /// The whole connection failed.
    Connection(ConnError),
    /// The QUIC stack refused an operation on the stream.
    Transport(TransportError),
    /// The bridge reports the failure itself.
    Bridge(BridgeReason),
}

/// Who ended a connection, and on what terms, as the QUIC stack reports it.
#[derive(Clone, Copy, Debug, PartialEq, Eq, Structural)]
pub enum CloseReason {
    /// A QUIC-level error code.
    Transport(u64),
    /// The protocol over QUIC closed the connection with its own code.
    Application(u64),
    /// No version in common.
    VersionNegotiation,
    /// Nothing arrived for the idle timeout.
    IdleTimeout,
    /// The connection was abandoned without a frame.
    Dropped,
    /// A Retry packet ended this connection attempt.
    Retry,
}

/// The error a connection records when the transport reports it closed:
/// a timeout when it timed out, the application code when the peer gave
/// one, and the bridge's own reason otherwise.
pub open spec fn spec_close_error(timeout: bool, reason: CloseReason) -> ConnError {
    if timeout {
        ConnError::Timeout
    } else {
        match reason {
            CloseReason::Application(code) => ConnError::ApplicationClose { error_code: code },
            CloseReason::IdleTimeout => ConnError::Timeout,
            _ => ConnError::Bridge(BridgeReason::TransportClosed),
        }
    }
}

/// The error a connection records when the transport reports it closed.
pub fn close_error(timeout: bool, reason: CloseReason) -> (r: ConnError)
    ensures
        r == spec_close_error(timeout, reason),
{
    if timeout {
        ConnError::Timeout
    } else {
        match reason {
            CloseReason::Application(code) => ConnError::ApplicationClose { error_code: code },
            CloseReason::IdleTimeout => ConnError::Timeout,
            _ => ConnError::Bridge(BridgeReason::TransportClosed),
        }
    }
}

/// Only an application close carries a code to HTTP/3: the recorded error is
/// an application close exactly when the transport did not time out and the
/// reason is an application close with that code. A close with any QUIC
/// transport error code, and every other reason except an idle timeout, is
/// the bridge's own "transport closed"; a timeout, by the flag or by the
/// reason, is a timeout.
pub proof fn lemma_close_error_kinds(timeout: bool, reason: CloseReason)
    ensures
        forall|code: u64|
            spec_close_error(timeout, reason) == (ConnError::ApplicationClose { error_code: code })
                <==> !timeout && reason == CloseReason::Application(code),
        (spec_close_error(timeout, reason) == ConnError::Timeout) <==> (timeout || reason
            == CloseReason::IdleTimeout),
        !timeout && !(reason is Application) && reason != CloseReason::IdleTimeout
            ==> spec_close_error(timeout, reason) == ConnError::Bridge(BridgeReason::TransportClosed),
{
}

} // verus!
