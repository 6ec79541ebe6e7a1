use bytes::Bytes;
use quic_h3::connection::ConnectionState;
use quic_h3::drive::{
    Drive, DriveAction, DriveEvent, Flush, FlushAction, FlushEvent, MAX_DATAGRAMS_PER_POLL,
};
use quic_h3::errors::{CloseReason, ConnError, StreamError, TransportError, TransportErrorKind};
use quic_h3::events::{
    ExpiryOutcome, Observed, ReadOutcome, StreamCloseCodes, StreamWrite, WriteOutcome,
};
use quic_h3::recv::{RecvAction, RecvEvent, RecvPoll, RecvStreamState};
use quic_h3::send::{SendAction, SendEvent, SendPoll, SendStreamState};
use quic_h3::stream_id::{Initiator, QuicStreamId};

fn id(v: i64) -> QuicStreamId {
    QuicStreamId::new(v).unwrap()
}

fn data(payload: Vec<u8>) -> h3::quic::WriteBuf<Bytes> {
    h3::quic::WriteBuf::from(h3::proto::frame::Frame::Data(Bytes::from(payload)))
}

fn terr(kind: TransportErrorKind) -> TransportError {
    TransportError { kind, description: "failure".to_string() }
}

#[test]
fn drive_runs_reads_expiry_and_flush_in_order() {
    let mut conn = ConnectionState::new(Initiator::Client);
    let (mut d, a) = Drive::start();
    assert!(matches!(a, DriveAction::Begin));
    let s = d.step(&mut conn, DriveEvent::Begin { now: 100 });
    assert!(matches!(s.action, DriveAction::ReadNext));
    let s = d.step(&mut conn, DriveEvent::Inbound(Some(Ok(ReadOutcome::Processed))));
    assert!(matches!(s.action, DriveAction::ReadNext));
    let s = d.step(&mut conn, DriveEvent::Inbound(Some(Ok(ReadOutcome::DropSilently))));
    assert!(matches!(s.action, DriveAction::ReadNext));
    let s = d.step(&mut conn, DriveEvent::Inbound(None));
    assert!(matches!(s.action, DriveAction::Collect));
    let none = StreamCloseCodes { receiving: None, sending: None };
    let s = d.step(
        &mut conn,
        DriveEvent::Observed(vec![Observed::Opened(id(1)), Observed::Closed(id(3), none)]),
    );
    assert!(matches!(s.action, DriveAction::QueryDeadline));
    assert_eq!((s.credits.bidi, s.credits.uni), (0, 1));
    let s = d.step(&mut conn, DriveEvent::Deadline(Some(50)));
    assert!(matches!(s.action, DriveAction::HandleExpiry { now: 100 }));
    let s = d.step(&mut conn, DriveEvent::Expired(Ok(ExpiryOutcome::Handled)));
    assert!(matches!(s.action, DriveAction::Collect));
    assert!(!s.release);
    let s = d.step(&mut conn, DriveEvent::Observed(vec![]));
    assert!(matches!(s.action, DriveAction::Flush));
    let s = d.step(&mut conn, DriveEvent::Flushed(Ok(())));
    assert!(matches!(s.action, DriveAction::Finish));
}

#[test]
fn drive_skips_expiry_before_the_deadline() {
    let mut conn = ConnectionState::new(Initiator::Client);
    let (mut d, _) = Drive::start();
    d.step(&mut conn, DriveEvent::Begin { now: 100 });
    d.step(&mut conn, DriveEvent::Inbound(None));
    d.step(&mut conn, DriveEvent::Observed(vec![]));
    let s = d.step(&mut conn, DriveEvent::Deadline(Some(101)));
    assert!(matches!(s.action, DriveAction::Flush));
    let (mut d, _) = Drive::start();
    d.step(&mut conn, DriveEvent::Begin { now: 100 });
    d.step(&mut conn, DriveEvent::Inbound(None));
    d.step(&mut conn, DriveEvent::Observed(vec![]));
    let s = d.step(&mut conn, DriveEvent::Deadline(None));
    assert!(matches!(s.action, DriveAction::Flush));
    let s = d.step(&mut conn, DriveEvent::Flushed(Err(ConnError::Timeout)));
    assert!(matches!(s.action, DriveAction::Fail(ConnError::Timeout)));
}

#[test]
fn drive_stops_reading_when_the_connection_closes() {
    let mut conn = ConnectionState::new(Initiator::Client);
    let (mut d, _) = Drive::start();
    d.step(&mut conn, DriveEvent::Begin { now: 1 });
    let s = d.step(
        &mut conn,
        DriveEvent::Inbound(Some(Ok(ReadOutcome::Closing(CloseReason::Application(9))))),
    );
    assert!(matches!(s.action, DriveAction::Collect));
    assert!(s.release);
    let s = d.step(&mut conn, DriveEvent::Observed(vec![]));
    assert!(matches!(s.action, DriveAction::Fail(ConnError::ApplicationClose { error_code: 9 })));
    let (mut d, _) = Drive::start();
    let s = d.step(&mut conn, DriveEvent::Begin { now: 2 });
    assert!(matches!(s.action, DriveAction::Fail(ConnError::ApplicationClose { error_code: 9 })));
}

#[test]
fn drive_fails_on_a_read_error() {
    let mut conn = ConnectionState::new(Initiator::Server);
    let (mut d, _) = Drive::start();
    d.step(&mut conn, DriveEvent::Begin { now: 1 });
    let s = d.step(&mut conn, DriveEvent::Inbound(Some(Err(terr(TransportErrorKind::Protocol)))));
    assert!(s.release);
    assert!(matches!(s.action, DriveAction::Fail(ConnError::Transport(_))));
    assert!(conn.is_closed());
}

#[test]
fn drive_reports_an_idle_timeout() {
    let mut conn = ConnectionState::new(Initiator::Server);
    let (mut d, _) = Drive::start();
    d.step(&mut conn, DriveEvent::Begin { now: 10 });
    d.step(&mut conn, DriveEvent::Inbound(None));
    d.step(&mut conn, DriveEvent::Observed(vec![]));
    d.step(&mut conn, DriveEvent::Deadline(Some(10)));
    let s = d.step(&mut conn, DriveEvent::Expired(Ok(ExpiryOutcome::IdleClose)));
    assert!(s.release);
    let s = d.step(&mut conn, DriveEvent::Observed(vec![]));
    assert!(matches!(s.action, DriveAction::Fail(ConnError::Timeout)));
}

#[test]
fn drive_answered_out_of_turn_asks_again() {
    let mut conn = ConnectionState::new(Initiator::Server);
    let (mut d, _) = Drive::start();
    let s = d.step(&mut conn, DriveEvent::Flushed(Ok(())));
    assert!(matches!(s.action, DriveAction::Begin));
    d.step(&mut conn, DriveEvent::Begin { now: 3 });
    let s = d.step(&mut conn, DriveEvent::Deadline(Some(0)));
    assert!(matches!(s.action, DriveAction::ReadNext));
}

#[test]
fn flush_sends_until_no_room_or_idle() {
    let mut conn = ConnectionState::new(Initiator::Client);
    let (mut f, a) = Flush::start();
    assert!(matches!(a, FlushAction::CheckRoom));
    assert!(matches!(f.step(&mut conn, FlushEvent::Room(true)), FlushAction::Write));
    assert!(matches!(
        f.step(&mut conn, FlushEvent::Written(Ok(WriteOutcome::Datagram { len: 1200 }))),
        FlushAction::Emit { len: 1200 }
    ));
    assert!(matches!(f.step(&mut conn, FlushEvent::Emitted), FlushAction::CheckRoom));
    assert!(matches!(
        f.step(&mut conn, FlushEvent::Room(false)),
        FlushAction::Done { result: Ok(()), release: false }
    ));
    let (mut f, _) = Flush::start();
    f.step(&mut conn, FlushEvent::Room(true));
    assert!(matches!(
        f.step(&mut conn, FlushEvent::Written(Ok(WriteOutcome::Blocked))),
        FlushAction::Done { result: Ok(()), release: false }
    ));
}

#[test]
fn flush_stops_after_its_budget() {
    let mut conn = ConnectionState::new(Initiator::Client);
    let (mut f, _) = Flush::start();
    let mut sent = 0;
    loop {
        match f.step(&mut conn, FlushEvent::Room(true)) {
            FlushAction::Write => {}
            FlushAction::Done { result, .. } => {
                assert!(result.is_ok());
                break;
            }
            other => panic!("unexpected {other:?}"),
        }
        f.step(&mut conn, FlushEvent::Written(Ok(WriteOutcome::Datagram { len: 10 })));
        sent += 1;
        if let FlushAction::Done { result, release } = f.step(&mut conn, FlushEvent::Emitted) {
            assert!(result.is_ok() && !release);
            break;
        }
    }
    assert_eq!(sent, MAX_DATAGRAMS_PER_POLL);
}

#[test]
fn flush_failure_closes_the_connection() {
    let mut conn = ConnectionState::new(Initiator::Client);
    let (mut f, _) = Flush::start();
    f.step(&mut conn, FlushEvent::Room(true));
    match f.step(&mut conn, FlushEvent::Written(Err(terr(TransportErrorKind::Internal)))) {
        FlushAction::Done { result: Err(ConnError::Transport(_)), release: true } => {}
        other => panic!("unexpected {other:?}"),
    }
    assert!(conn.is_closed());
}

#[test]
fn send_writes_header_then_payload_then_finishes() {
    let mut conn = ConnectionState::new(Initiator::Client);
    let mut st = SendStreamState::new(id(0));
    st.send_data(data(vec![1u8, 2, 3, 4, 5, 6, 7, 8, 9, 10])).unwrap();
    assert!(matches!(
        st.send_data(data(vec![1u8])),
        Err(StreamError::Connection(ConnError::SendBeforeReady))
    ));
    assert_eq!(st.remaining(), 12);
    let (mut p, a) = SendPoll::ready();
    assert!(matches!(a, SendAction::Drive));
    assert!(matches!(p.step(&mut st, &mut conn, SendEvent::Driven(Ok(()))), SendAction::CheckRoom));
    assert!(matches!(p.step(&mut st, &mut conn, SendEvent::Room(true)), SendAction::WriteChunk));
    assert_eq!(st.chunk(), &[0u8, 10][..]);
    let w = StreamWrite::Datagram { len: 40, accepted: 2 };
    assert!(matches!(p.step(&mut st, &mut conn, SendEvent::Written(Ok(w))), SendAction::Emit { len: 40 }));
    assert!(matches!(p.step(&mut st, &mut conn, SendEvent::Emitted), SendAction::CheckRoom));
    assert_eq!(st.chunk(), &[1u8, 2, 3, 4, 5, 6, 7, 8, 9, 10][..]);
    p.step(&mut st, &mut conn, SendEvent::Room(true));
    let w = StreamWrite::Datagram { len: 50, accepted: 4 };
    assert!(matches!(p.step(&mut st, &mut conn, SendEvent::Written(Ok(w))), SendAction::Emit { len: 50 }));
    assert!(matches!(p.step(&mut st, &mut conn, SendEvent::Emitted), SendAction::CheckRoom));
    assert_eq!(st.chunk(), &[5u8, 6, 7, 8, 9, 10][..]);
    assert_eq!(st.remaining(), 6);
    p.step(&mut st, &mut conn, SendEvent::Room(true));
    let w = StreamWrite::Datagram { len: 30, accepted: 6 };
    p.step(&mut st, &mut conn, SendEvent::Written(Ok(w)));
    assert!(matches!(p.step(&mut st, &mut conn, SendEvent::Emitted), SendAction::Ready(Ok(()))));
    assert!(!st.is_writing());

    let (mut p, a) = SendPoll::finish(&st);
    assert!(matches!(a, SendAction::Drive));
    assert!(matches!(p.step(&mut st, &mut conn, SendEvent::Driven(Ok(()))), SendAction::CheckRoom));
    assert!(matches!(p.step(&mut st, &mut conn, SendEvent::Room(true)), SendAction::WriteFin));
    let w = StreamWrite::Datagram { len: 20, accepted: 0 };
    assert!(matches!(p.step(&mut st, &mut conn, SendEvent::Written(Ok(w))), SendAction::Emit { len: 20 }));
    assert!(matches!(p.step(&mut st, &mut conn, SendEvent::Emitted), SendAction::Ready(Ok(()))));
    assert!(st.is_finished());
    assert!(matches!(
        st.send_data(data(vec![1u8])),
        Err(StreamError::Bridge(quic_h3::errors::BridgeReason::WriteAfterFinish))
    ));
    let (_, a) = SendPoll::finish(&st);
    assert!(matches!(a, SendAction::Ready(Ok(()))));
}

#[test]
fn finish_writes_pending_data_first() {
    let mut conn = ConnectionState::new(Initiator::Client);
    let mut st = SendStreamState::new(id(4));
    st.send_data(data(vec![7u8, 7])).unwrap();
    let (mut p, _) = SendPoll::finish(&st);
    p.step(&mut st, &mut conn, SendEvent::Driven(Ok(())));
    assert!(matches!(p.step(&mut st, &mut conn, SendEvent::Room(true)), SendAction::WriteChunk));
    p.step(&mut st, &mut conn, SendEvent::Written(Ok(StreamWrite::Datagram { len: 9, accepted: 2 })));
    assert!(matches!(p.step(&mut st, &mut conn, SendEvent::Emitted), SendAction::CheckRoom));
    assert!(matches!(p.step(&mut st, &mut conn, SendEvent::Room(true)), SendAction::WriteChunk));
    p.step(&mut st, &mut conn, SendEvent::Written(Ok(StreamWrite::Datagram { len: 9, accepted: 2 })));
    assert!(matches!(p.step(&mut st, &mut conn, SendEvent::Emitted), SendAction::Drive));
    assert!(matches!(p.step(&mut st, &mut conn, SendEvent::Driven(Ok(()))), SendAction::CheckRoom));
    assert!(matches!(p.step(&mut st, &mut conn, SendEvent::Room(true)), SendAction::WriteFin));
}

#[test]
fn send_reports_stops_blocks_and_failures() {
    let mut conn = ConnectionState::new(Initiator::Client);
    let mut st = SendStreamState::new(id(0));
    st.send_data(data(vec![1u8])).unwrap();
    let (mut p, _) = SendPoll::ready();
    p.step(&mut st, &mut conn, SendEvent::Driven(Ok(())));
    assert!(matches!(
        p.step(&mut st, &mut conn, SendEvent::Room(false)),
        SendAction::Pending { rearm_timer: true, wake: false }
    ));
    let (mut p, _) = SendPoll::ready();
    p.step(&mut st, &mut conn, SendEvent::Driven(Ok(())));
    p.step(&mut st, &mut conn, SendEvent::Room(true));
    assert!(matches!(
        p.step(&mut st, &mut conn, SendEvent::Written(Ok(StreamWrite::StreamBlocked))),
        SendAction::Pending { rearm_timer: true, wake: false }
    ));
    let (mut p, _) = SendPoll::ready();
    p.step(&mut st, &mut conn, SendEvent::Driven(Ok(())));
    p.step(&mut st, &mut conn, SendEvent::Room(true));
    assert!(matches!(
        p.step(&mut st, &mut conn, SendEvent::Written(Err(terr(TransportErrorKind::StreamClosed)))),
        SendAction::Ready(Err(StreamError::Transport(_)))
    ));
    conn.observe(Observed::StopSending(id(0), 5));
    let (mut p, _) = SendPoll::ready();
    p.step(&mut st, &mut conn, SendEvent::Driven(Ok(())));
    assert!(matches!(
        p.step(&mut st, &mut conn, SendEvent::Room(true)),
        SendAction::Ready(Err(StreamError::Terminated { error_code: 5 }))
    ));
    let (mut p, _) = SendPoll::ready();
    assert!(matches!(
        p.step(&mut st, &mut conn, SendEvent::Driven(Err(ConnError::Timeout))),
        SendAction::Ready(Err(StreamError::Connection(ConnError::Timeout)))
    ));
}

#[test]
fn send_poll_without_data_is_ready() {
    let mut conn = ConnectionState::new(Initiator::Client);
    let mut st = SendStreamState::new(id(0));
    let (mut p, _) = SendPoll::ready();
    assert!(matches!(p.step(&mut st, &mut conn, SendEvent::Driven(Ok(()))), SendAction::Ready(Ok(()))));
    st.send_data(data(vec![])).unwrap();
    assert_eq!(st.remaining(), 2);
    let (mut p, _) = SendPoll::ready();
    assert!(matches!(p.step(&mut st, &mut conn, SendEvent::Driven(Ok(()))), SendAction::CheckRoom));
    st.mark_finished();
    assert!(st.send_data(data(vec![1u8])).is_err());
}

#[test]
fn recv_hands_out_data_then_the_end() {
    let mut conn = ConnectionState::new(Initiator::Client);
    let mut rs = RecvStreamState::new(id(0));
    conn.observe(Observed::Data(id(0), vec![1, 2, 3], false));
    let (mut p, a) = RecvPoll::start(&rs);
    assert!(matches!(a, RecvAction::Drive));
    assert!(matches!(
        p.step(&mut rs, &mut conn, RecvEvent::Driven(Ok(()))),
        RecvAction::Extend { consumed: 3 }
    ));
    assert!(matches!(p.step(&mut rs, &mut conn, RecvEvent::Credited(Ok(()))), RecvAction::Flush));
    match p.step(&mut rs, &mut conn, RecvEvent::Flushed(Ok(()))) {
        RecvAction::Ready(Ok(Some(b))) => assert_eq!(&b[..], &[1u8, 2, 3][..]),
        other => panic!("unexpected {other:?}"),
    }
    let (mut p, _) = RecvPoll::start(&rs);
    assert!(matches!(p.step(&mut rs, &mut conn, RecvEvent::Driven(Ok(()))), RecvAction::Pending));
    conn.observe(Observed::Data(id(0), vec![], true));
    let (mut p, _) = RecvPoll::start(&rs);
    assert!(matches!(p.step(&mut rs, &mut conn, RecvEvent::Driven(Ok(()))), RecvAction::Ready(Ok(None))));
    assert!(rs.is_finished());
    let (_, a) = RecvPoll::start(&rs);
    assert!(matches!(a, RecvAction::Ready(Ok(None))));
}

#[test]
fn recv_reports_reset_and_failures() {
    let mut conn = ConnectionState::new(Initiator::Client);
    let mut rs = RecvStreamState::new(id(1));
    conn.observe(Observed::Data(id(1), vec![4], false));
    conn.observe(Observed::Reset(id(1), 77));
    let (mut p, _) = RecvPoll::start(&rs);
    match p.step(&mut rs, &mut conn, RecvEvent::Driven(Err(ConnError::Timeout))) {
        RecvAction::Ready(Ok(Some(b))) => assert_eq!(&b[..], &[4u8][..]),
        other => panic!("unexpected {other:?}"),
    }
    let (mut p, _) = RecvPoll::start(&rs);
    assert!(matches!(
        p.step(&mut rs, &mut conn, RecvEvent::Driven(Ok(()))),
        RecvAction::Ready(Err(StreamError::Terminated { error_code: 77 }))
    ));
    let (_, a) = RecvPoll::start(&rs);
    assert!(matches!(a, RecvAction::Ready(Ok(None))));

    let mut rs = RecvStreamState::new(id(5));
    let (mut p, _) = RecvPoll::start(&rs);
    assert!(matches!(
        p.step(&mut rs, &mut conn, RecvEvent::Driven(Err(ConnError::Timeout))),
        RecvAction::Ready(Err(StreamError::Connection(ConnError::Timeout)))
    ));
    conn.observe(Observed::Data(id(5), vec![1], false));
    let (mut p, _) = RecvPoll::start(&rs);
    p.step(&mut rs, &mut conn, RecvEvent::Driven(Ok(())));
    assert!(matches!(
        p.step(&mut rs, &mut conn, RecvEvent::Credited(Err(terr(TransportErrorKind::InvalidInput)))),
        RecvAction::Ready(Err(StreamError::Transport(_)))
    ));
}

#[test]
fn stream_halves_report_their_h3_ids() {
    let expected: h3::quic::StreamId = 8u64.try_into().unwrap();
    assert_eq!(SendStreamState::new(id(8)).send_id(), expected);
    assert_eq!(RecvStreamState::new(id(8)).recv_id(), expected);
}
