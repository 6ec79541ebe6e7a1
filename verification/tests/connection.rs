use quic_h3::connection::{
    decide_open, open_gate, AcceptOutcome, ConnectionState, OpenOutcome, SendGate, StreamCredit,
    TimerPlan,
};
use quic_h3::errors::{
    close_error, BridgeReason, CloseReason, ConnError, StreamError, TransportError,
    TransportErrorKind,
};
use quic_h3::events::{Observed, StreamCloseCodes};
use quic_h3::stream_id::{Directionality, Initiator, QuicStreamId};

fn id(v: i64) -> QuicStreamId {
    QuicStreamId::new(v).unwrap()
}

fn chunk_bytes(conn: &mut ConnectionState, stream: i64) -> Option<Vec<u8>> {
    conn.take_chunk(id(stream)).chunk.map(|b| b.to_vec())
}

#[test]
fn data_is_handed_out_in_arrival_order() {
    let mut conn = ConnectionState::new(Initiator::Client);
    conn.observe(Observed::Data(id(0), vec![1, 2], false));
    conn.observe(Observed::Data(id(0), vec![], false));
    conn.observe(Observed::Data(id(4), vec![9], false));
    conn.observe(Observed::Data(id(0), vec![3], true));
    assert_eq!(chunk_bytes(&mut conn, 0), Some(vec![1, 2]));
    assert_eq!(chunk_bytes(&mut conn, 0), Some(vec![3]));
    let last = conn.take_chunk(id(0));
    assert!(last.chunk.is_none());
    assert!(last.finished);
    assert_eq!(last.reset, None);
    assert_eq!(chunk_bytes(&mut conn, 4), Some(vec![9]));
}

#[test]
fn empty_data_with_fin_ends_the_stream_without_a_chunk() {
    let mut conn = ConnectionState::new(Initiator::Server);
    conn.observe(Observed::Data(id(0), vec![], true));
    let p = conn.take_chunk(id(0));
    assert!(p.chunk.is_none());
    assert!(p.finished);
}

#[test]
fn first_reset_code_is_kept() {
    let mut conn = ConnectionState::new(Initiator::Client);
    conn.observe(Observed::Reset(id(1), 7));
    conn.observe(Observed::Reset(id(1), 8));
    conn.observe(Observed::Closed(id(1), StreamCloseCodes { receiving: Some(9), sending: None }));
    let p = conn.take_chunk(id(1));
    assert_eq!(p.reset, Some(7));
    assert!(p.finished);
}

#[test]
fn closed_stream_with_receiving_code_is_reset() {
    let mut conn = ConnectionState::new(Initiator::Client);
    conn.observe(Observed::Data(id(1), vec![5], false));
    conn.observe(Observed::Closed(id(1), StreamCloseCodes { receiving: Some(42), sending: None }));
    let p = conn.take_chunk(id(1));
    assert_eq!(p.chunk.map(|b| b.to_vec()), Some(vec![5]));
    assert_eq!(p.reset, Some(42));
    assert!(p.finished);
}

#[test]
fn stop_sending_refuses_writes_with_first_code() {
    let mut conn = ConnectionState::new(Initiator::Client);
    assert!(matches!(conn.send_gate(id(0), true), SendGate::Proceed));
    assert!(matches!(conn.send_gate(id(0), false), SendGate::Blocked));
    conn.observe(Observed::StopSending(id(0), 11));
    conn.observe(Observed::Closed(id(0), StreamCloseCodes { receiving: None, sending: Some(12) }));
    match conn.send_gate(id(0), true) {
        SendGate::Refused(StreamError::Terminated { error_code }) => assert_eq!(error_code, 11),
        other => panic!("unexpected {other:?}"),
    }
    match conn.send_gate(id(0), false) {
        SendGate::Refused(StreamError::Terminated { error_code }) => assert_eq!(error_code, 11),
        other => panic!("unexpected {other:?}"),
    }
    conn.observe(Observed::Closed(id(4), StreamCloseCodes { receiving: None, sending: Some(13) }));
    match conn.send_gate(id(4), true) {
        SendGate::Refused(StreamError::Terminated { error_code }) => assert_eq!(error_code, 13),
        other => panic!("unexpected {other:?}"),
    }
}

#[test]
fn closed_connection_refuses_writes_with_its_error() {
    let mut conn = ConnectionState::new(Initiator::Client);
    assert!(conn.mark_closed(false, CloseReason::Application(0x100)));
    match conn.send_gate(id(0), true) {
        SendGate::Refused(StreamError::Connection(ConnError::ApplicationClose { error_code })) => {
            assert_eq!(error_code, 0x100)
        }
        other => panic!("unexpected {other:?}"),
    }
}

#[test]
fn accepted_streams_come_in_opening_order_per_direction() {
    let mut conn = ConnectionState::new(Initiator::Client);
    conn.observe(Observed::Opened(id(1)));
    conn.observe(Observed::Opened(id(3)));
    conn.observe(Observed::Opened(id(5)));
    conn.observe(Observed::Opened(id(7)));
    let take = |conn: &mut ConnectionState, dir| match conn.accept(dir, Ok(())) {
        AcceptOutcome::Stream(s) => Some(s.get()),
        AcceptOutcome::Pending => None,
        AcceptOutcome::Failed(e) => panic!("unexpected {e:?}"),
    };
    assert_eq!(take(&mut conn, Directionality::Bidirectional), Some(1));
    assert_eq!(take(&mut conn, Directionality::Bidirectional), Some(5));
    assert_eq!(take(&mut conn, Directionality::Bidirectional), None);
    assert_eq!(take(&mut conn, Directionality::Unidirectional), Some(3));
    assert_eq!(take(&mut conn, Directionality::Unidirectional), Some(7));
    assert_eq!(take(&mut conn, Directionality::Unidirectional), None);
}

#[test]
fn queued_stream_is_accepted_even_after_failure() {
    let mut conn = ConnectionState::new(Initiator::Server);
    conn.observe(Observed::Opened(id(0)));
    match conn.accept(Directionality::Bidirectional, Err(ConnError::Timeout)) {
        AcceptOutcome::Stream(s) => assert_eq!(s.get(), 0),
        other => panic!("unexpected {other:?}"),
    }
    match conn.accept(Directionality::Bidirectional, Err(ConnError::Timeout)) {
        AcceptOutcome::Failed(ConnError::Timeout) => {}
        other => panic!("unexpected {other:?}"),
    }
}

#[test]
fn closed_peer_streams_raise_the_limits() {
    let mut conn = ConnectionState::new(Initiator::Client);
    let none = StreamCloseCodes { receiving: None, sending: None };
    assert_eq!(conn.observe(Observed::Closed(id(1), none)), StreamCredit::Bidi);
    assert_eq!(conn.observe(Observed::Closed(id(3), none)), StreamCredit::Uni);
    assert_eq!(conn.observe(Observed::Closed(id(0), none)), StreamCredit::NoCredit);
    assert_eq!(conn.observe(Observed::Closed(id(2), none)), StreamCredit::NoCredit);
    let credits = conn.collect(vec![
        Observed::Closed(id(5), none),
        Observed::Closed(id(9), none),
        Observed::Closed(id(7), none),
        Observed::Closed(id(4), none),
        Observed::HandshakeCompleted,
        Observed::Acked(id(0), 3),
        Observed::StreamsExtended(4),
        Observed::LocallyOpened(id(8)),
    ]);
    assert_eq!(credits.bidi, 2);
    assert_eq!(credits.uni, 1);
}

#[test]
fn collect_applies_observations_in_order() {
    let mut conn = ConnectionState::new(Initiator::Client);
    let credits = conn.collect(vec![
        Observed::Data(id(1), vec![1], false),
        Observed::Data(id(1), vec![2], false),
        Observed::Opened(id(1)),
    ]);
    assert_eq!((credits.bidi, credits.uni), (0, 0));
    assert_eq!(chunk_bytes(&mut conn, 1), Some(vec![1]));
    assert_eq!(chunk_bytes(&mut conn, 1), Some(vec![2]));
    assert!(matches!(conn.accept(Directionality::Bidirectional, Ok(())), AcceptOutcome::Stream(_)));
}

#[test]
fn first_close_wins() {
    let mut conn = ConnectionState::new(Initiator::Client);
    assert!(!conn.is_closed());
    assert!(matches!(conn.connection_error(), ConnError::Bridge(BridgeReason::ConnectionClosed)));
    assert!(conn.mark_closed(true, CloseReason::Application(3)));
    assert!(!conn.mark_closed(false, CloseReason::Application(3)));
    assert!(!conn.close_locally());
    assert!(matches!(conn.connection_error(), ConnError::Timeout));
    let mut other = ConnectionState::new(Initiator::Server);
    assert!(other.close_locally());
    assert!(!other.close_locally());
    assert!(matches!(other.connection_error(), ConnError::Bridge(BridgeReason::ClosedLocally)));
}

#[test]
fn transport_error_is_recorded() {
    let mut conn = ConnectionState::new(Initiator::Client);
    conn.close_locally();
    let err = TransportError { kind: TransportErrorKind::Protocol, description: "bad".to_string() };
    match conn.mark_transport_error(err) {
        ConnError::Transport(e) => assert_eq!(e.description, "bad"),
        other => panic!("unexpected {other:?}"),
    }
    match conn.connection_error() {
        ConnError::Transport(e) => assert_eq!(e.kind, TransportErrorKind::Protocol),
        other => panic!("unexpected {other:?}"),
    }
}

#[test]
fn close_reasons_map_to_http3_errors() {
    assert!(matches!(close_error(true, CloseReason::Application(5)), ConnError::Timeout));
    assert!(matches!(
        close_error(false, CloseReason::Application(5)),
        ConnError::ApplicationClose { error_code: 5 }
    ));
    assert!(matches!(close_error(false, CloseReason::IdleTimeout), ConnError::Timeout));
    for r in [
        CloseReason::Transport(0),
        CloseReason::VersionNegotiation,
        CloseReason::Dropped,
        CloseReason::Retry,
    ] {
        assert!(matches!(close_error(false, r), ConnError::Bridge(BridgeReason::TransportClosed)));
    }
}

#[test]
fn timer_is_armed_once_per_deadline() {
    let mut conn = ConnectionState::new(Initiator::Client);
    assert_eq!(conn.plan_timer(None), TimerPlan::Disarm);
    assert_eq!(conn.plan_timer(Some(10)), TimerPlan::Arm(10));
    assert_eq!(conn.plan_timer(Some(10)), TimerPlan::Keep);
    assert_eq!(conn.plan_timer(Some(20)), TimerPlan::Arm(20));
    conn.timer_fired();
    assert_eq!(conn.plan_timer(Some(20)), TimerPlan::Arm(20));
    assert_eq!(conn.plan_timer(None), TimerPlan::Disarm);
    assert_eq!(conn.plan_timer(Some(20)), TimerPlan::Arm(20));
}

#[test]
fn opening_waits_when_blocked() {
    assert!(open_gate(Ok(())).is_ok());
    assert!(matches!(open_gate(Err(ConnError::Timeout)), Err(StreamError::Connection(ConnError::Timeout))));
    assert!(matches!(decide_open(Ok(id(4))), OpenOutcome::Opened(s) if s.get() == 4));
    let blocked = TransportError { kind: TransportErrorKind::Blocked, description: String::new() };
    assert!(matches!(decide_open(Err(blocked)), OpenOutcome::Pending));
    let closing = TransportError { kind: TransportErrorKind::Closing, description: "x".to_string() };
    assert!(matches!(
        decide_open(Err(closing)),
        OpenOutcome::Failed(StreamError::Transport(TransportError { kind: TransportErrorKind::Closing, .. }))
    ));
}

#[test]
fn bridge_messages() {
    assert_eq!(BridgeReason::ConnectionClosed.message(), "the QUIC connection is closed");
    assert_eq!(BridgeReason::TransportClosed.message(), "the QUIC transport closed the connection");
    assert_eq!(BridgeReason::ClosedLocally.message(), "the QUIC connection was closed locally");
    assert_eq!(BridgeReason::WriteAfterFinish.message(), "cannot write to a finished stream");
    assert_eq!(
        quic_h3::errors::send_before_ready_message(),
        "send_data called before poll_ready completed"
    );
}

#[test]
fn interleaved_reads_return_all_data_in_order() {
    let mut conn = ConnectionState::new(Initiator::Server);
    let mut out = Vec::new();
    conn.observe(Observed::Data(id(0), vec![1], false));
    out.extend(chunk_bytes(&mut conn, 0));
    out.extend(chunk_bytes(&mut conn, 0));
    conn.observe(Observed::Data(id(0), vec![2, 3], false));
    conn.observe(Observed::Data(id(8), vec![100], false));
    conn.observe(Observed::Data(id(0), vec![4], false));
    out.extend(chunk_bytes(&mut conn, 0));
    conn.observe(Observed::Data(id(0), vec![5], true));
    out.extend(chunk_bytes(&mut conn, 0));
    out.extend(chunk_bytes(&mut conn, 0));
    assert_eq!(out, vec![vec![1], vec![2, 3], vec![4], vec![5]]);
    assert_eq!(chunk_bytes(&mut conn, 8), Some(vec![100]));
}

#[test]
fn reading_to_the_end_hands_out_every_byte_once() {
    let mut conn = ConnectionState::new(Initiator::Client);
    conn.collect(vec![
        Observed::Data(id(0), vec![1, 2], false),
        Observed::Data(id(0), vec![], false),
        Observed::Data(id(0), vec![3], false),
    ]);
    let mut out: Vec<u8> = Vec::new();
    let mut first = conn.take_chunk(id(0));
    while let Some(b) = first.chunk {
        assert!(!b.is_empty());
        out.extend_from_slice(&b);
        first = conn.take_chunk(id(0));
    }
    assert!(!first.finished);
    conn.observe(Observed::Data(id(0), vec![4], true));
    let p = conn.take_chunk(id(0));
    out.extend_from_slice(&p.chunk.unwrap());
    let end = conn.take_chunk(id(0));
    assert!(end.chunk.is_none() && end.finished && end.reset.is_none());
    assert_eq!(out, vec![1, 2, 3, 4]);
}
