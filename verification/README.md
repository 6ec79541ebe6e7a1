# quic_h3

HTTP/3 transport glue for QUIC stacks, with its decision logic verified in
Verus.

- `src/` is the verified library. It keeps the state an HTTP/3-over-QUIC
  bridge needs between polls (received data per stream, streams waiting to be
  accepted, streams the peer stopped, why the connection closed) and the state
  machines that decide, on each poll of a connection, a sending half or a
  receiving half, what to ask the QUIC stack next and what to answer HTTP/3.
  It also holds the dquic connector's data, the test client for dquic and the
  greeter used in end-to-end tests.
  - `stream_id.rs`: QUIC stream identifiers and their `h3` counterparts.
  - `errors.rs`, `events.rs`: what the QUIC stack reports and what HTTP/3 is told.
  - `buffers.rs`: the `bytes` and `h3` buffers the streams carry.
  - `connection.rs`: the per-connection state, how observations change it, and
    the laws that it keeps.
  - `drive.rs`: driving a connection on each poll, and flushing its datagrams.
  - `send.rs`, `recv.rs`: the two halves of a stream.
  - `dquic_client.rs`, `hello.rs`: the dquic connector and test client, the greeter.
- `tests/` runs the library on concrete values.
- `app/` performs what the state machines ask for: it implements the
  `h3::quic` traits over ngnet-quic's ngtcp2 connections, the `h3_util`
  connector and acceptor for ngtcp2 and dquic, and helpers for test endpoints.
