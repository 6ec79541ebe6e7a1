use quic_h3::stream_id::{
    h3_stream, h3_stream_wire_value, local_initiator, Directionality, Initiator, QuicStreamId, Role, StreamIdError,
    STREAM_ID_MAX,
};

#[test]
fn stream_ids_keep_their_wire_value() {
    for value in [0, 1, 2, 3, 1 << 20, (1_i64 << 62) - 1] {
        let stream = QuicStreamId::new(value).expect("valid QUIC stream ID");
        let expected: h3::quic::StreamId = (value as u64).try_into().unwrap();
        assert_eq!(h3_stream(stream), expected);
    }
}

#[test]
fn stream_id_rejects_values_outside_the_varint_range() {
    assert_eq!(QuicStreamId::new(-1), Err(StreamIdError::Negative));
    assert_eq!(QuicStreamId::new(i64::MIN), Err(StreamIdError::Negative));
    assert_eq!(QuicStreamId::new(STREAM_ID_MAX + 1), Err(StreamIdError::TooLarge));
    assert_eq!(QuicStreamId::new(i64::MAX), Err(StreamIdError::TooLarge));
    assert_eq!(QuicStreamId::new(STREAM_ID_MAX).unwrap().get(), STREAM_ID_MAX);
    assert_eq!(QuicStreamId::new(0).unwrap().get(), 0);
}

#[test]
fn stream_id_bits_give_initiator_and_directionality() {
    let cases = [
        (0, Initiator::Client, Directionality::Bidirectional),
        (1, Initiator::Server, Directionality::Bidirectional),
        (2, Initiator::Client, Directionality::Unidirectional),
        (3, Initiator::Server, Directionality::Unidirectional),
        (4, Initiator::Client, Directionality::Bidirectional),
        (7, Initiator::Server, Directionality::Unidirectional),
    ];
    for (value, initiator, dir) in cases {
        let id = QuicStreamId::new(value).unwrap();
        assert_eq!(id.initiator(), initiator);
        assert_eq!(id.directionality(), dir);
    }
}

#[test]
fn local_initiator_follows_the_role() {
    assert_eq!(local_initiator(Role::Client), Initiator::Client);
    assert_eq!(local_initiator(Role::Server), Initiator::Server);
}

#[test]
fn h3_ids_carry_the_wire_value_and_differ_per_stream() {
    let values = [0i64, 1, 2, 3, 4, 1 << 20, STREAM_ID_MAX];
    for value in values {
        let h3_id = h3_stream(QuicStreamId::new(value).unwrap());
        assert_eq!(h3_stream_wire_value(h3_id), value as u64);
        assert_eq!(h3_id.into_inner(), value as u64);
    }
    for a in values {
        for b in values {
            let same = h3_stream(QuicStreamId::new(a).unwrap()) == h3_stream(QuicStreamId::new(b).unwrap());
            assert_eq!(same, a == b);
        }
    }
}
