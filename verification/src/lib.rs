//! HTTP/3 transport bridge over QUIC connections.
//!
//! The crate holds the decision logic of an HTTP/3-over-QUIC bridge: stream
//! identifiers and their HTTP/3 counterparts, the bookkeeping of what the QUIC
//! stack reports (received data, opened, reset and stopped streams), and the
//! state machines that decide, for each poll of a connection or a stream, what
//! to do next and what to answer.
pub mod buffers;
pub mod connection;
pub mod dquic_client;
pub mod drive;
pub mod errors;
pub mod events;
pub mod hello;
pub mod recv;
pub mod send;
pub mod stream_id;
