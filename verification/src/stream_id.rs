//! QUIC stream identifiers.
use vstd::prelude::*;

verus! {

/// The largest stream identifier QUIC permits: identifiers are 62-bit
/// variable-length integers.
pub const STREAM_ID_MAX: i64 = 4611686018427387903i64;

/// Which endpoint opened a stream.
#[derive(Clone, Copy, Debug, PartialEq, Eq, Structural)]
pub enum Initiator {
    /// The client opened it.
    Client,
    /// The server opened it.
    Server,
}

/// Whether a stream carries data in both directions.
#[derive(Clone, Copy, Debug, PartialEq, Eq, Structural)]
pub enum Directionality {
    /// Both endpoints may send.
    Bidirectional,
    /// Only the initiator may send.
    Unidirectional,
}

/// The side of a connection this endpoint plays.
#[derive(Clone, Copy, Debug, PartialEq, Eq, Structural)]
pub enum Role {
    /// This endpoint connected out.
    Client,
    /// This endpoint accepted the connection.
    Server,
}

/// The initiator whose streams this endpoint opens, given its role.
pub open spec fn spec_local_initiator(role: Role) -> Initiator {
    match role {
        Role::Client => Initiator::Client,
        Role::Server => Initiator::Server,
    }
}

/// The initiator whose streams this endpoint opens, given its role.
pub fn local_initiator(role: Role) -> (r: Initiator)
    ensures
        r == spec_local_initiator(role),
{
    match role {
        Role::Client => Initiator::Client,
        Role::Server => Initiator::Server,
    }
}

/// Why a raw value is not a stream identifier.
#[derive(Clone, Copy, Debug, PartialEq, Eq, Structural)]
pub enum StreamIdError {
    /// The value is below zero.
    Negative,
    /// The value is above [`STREAM_ID_MAX`].
    TooLarge,
}

/// A QUIC stream identifier: a value in `0 ..= STREAM_ID_MAX`.
#[derive(Clone, Copy, Debug, PartialEq, Eq, Hash, Structural)]
pub struct QuicStreamId {
    id: i64,
}

/// Whether a raw value is a stream identifier.
pub open spec fn valid_stream_id(value: int) -> bool {
    0 <= value <= STREAM_ID_MAX
}

/// The initiator encoded in the low bit of a stream identifier.
pub open spec fn spec_initiator_of(value: i64) -> Initiator {
    if value % 2 == 0 {
        Initiator::Client
    } else {
        Initiator::Server
    }
}

/// The directionality encoded in the second bit of a stream identifier.
pub open spec fn spec_directionality_of(value: i64) -> Directionality {
    if (value / 2) % 2 == 0 {
        Directionality::Bidirectional
    } else {
        Directionality::Unidirectional
    }
}

impl View for QuicStreamId {
    type V = i64;

    closed spec fn view(&self) -> i64 {
        self.id
    }
}

impl QuicStreamId {
    #[verifier::type_invariant]
    spec fn in_range(self) -> bool {
        valid_stream_id(self.id as int)
    }

    /// Wraps a raw identifier; refuses a negative value or one above
    /// [`STREAM_ID_MAX`].
    pub fn new(id: i64) -> (r: Result<QuicStreamId, StreamIdError>)
        ensures
            id < 0 <==> r == Err::<QuicStreamId, StreamIdError>(StreamIdError::Negative),
            id > STREAM_ID_MAX <==> r == Err::<QuicStreamId, StreamIdError>(StreamIdError::TooLarge),
            valid_stream_id(id as int) <==> r is Ok,
            r matches Ok(s) ==> s@ == id,
    {
        if id < 0 {
            Err(StreamIdError::Negative)
        } else if id > STREAM_ID_MAX {
            Err(StreamIdError::TooLarge)
        } else {
            Ok(QuicStreamId { id })
        }
    }

    /// The raw identifier.
    pub fn get(&self) -> (r: i64)
        ensures
            r == self@,
            valid_stream_id(r as int),
    {
        proof {
            use_type_invariant(self);
        }
        self.id
    }

    /// Which endpoint opened this stream: the low bit, clear for the client.
    pub fn initiator(&self) -> (r: Initiator)
        ensures
            r == spec_initiator_of(self@),
    {
        proof {
            use_type_invariant(self);
        }
        if self.id % 2 == 0 {
            Initiator::Client
        } else {
            Initiator::Server
        }
    }

    /// Whether this stream is bidirectional: the second bit, clear for both
    /// directions.
    pub fn directionality(&self) -> (r: Directionality)
        ensures
            r == spec_directionality_of(self@),
    {
        proof {
            use_type_invariant(self);
        }
        if (self.id / 2) % 2 == 0 {
            Directionality::Bidirectional
        } else {
            Directionality::Unidirectional
        }
    }
}

/// The largest value of a QUIC variable-length integer, `2^62 - 1`.
pub const VARINT_MAX: u64 = 4611686018427387903u64;

#[verifier::external_type_specification]
#[verifier::external_body]
pub struct ExH3StreamId(h3::quic::StreamId);

#[verifier::external_type_specification]
#[verifier::external_body]
pub struct ExH3InvalidStreamId(h3::quic::InvalidStreamId);

/// The `h3` stream identifier that `h3` builds from a value.
pub uninterp spec fn h3_stream_id_of(value: u64) -> h3::quic::StreamId;

/// The value an `h3` stream identifier carries, as its `into_inner` gives it back.
pub uninterp spec fn h3_stream_id_value(id: h3::quic::StreamId) -> u64;

/// `TryFrom<u64>` for `h3::quic::StreamId`: its source accepts exactly the
/// values up to `2^62 - 1` and wraps them unchanged, so the identifier it
/// builds carries the value it was given. The contract claims that success
/// comes exactly there, names the identifier it builds, and says that the
/// identifier carries the value.
#[verifier::external_body]
fn h3_stream_id_try_from(value: u64) -> (r: Result<h3::quic::StreamId, h3::quic::InvalidStreamId>)
    ensures
        r is Ok <==> value <= VARINT_MAX,
        r matches Ok(id) ==> id == h3_stream_id_of(value) && h3_stream_id_value(id) == value,
{
    h3::quic::StreamId::try_from(value)
}

/// `h3::quic::StreamId::into_inner`: the value the identifier carries.
#[verifier::external_body]
fn h3_stream_id_into_inner(id: h3::quic::StreamId) -> (r: u64)
    ensures
        r == h3_stream_id_value(id),
{
    id.into_inner()
}

/// The value an `h3` stream identifier carries on the wire.
pub fn h3_stream_wire_value(id: h3::quic::StreamId) -> (r: u64)
    ensures
        r == h3_stream_id_value(id),
{
    h3_stream_id_into_inner(id)
}

/// The `h3` identifier of a QUIC stream: it carries the same wire value.
pub fn h3_stream(stream: QuicStreamId) -> (r: h3::quic::StreamId)
    ensures
        0 <= stream@,
        r == h3_stream_id_of(stream@ as u64),
        h3_stream_id_value(r) == stream@ as u64,
{
    let value = stream.get();
    let wire: u64 = value as u64;
    match h3_stream_id_try_from(wire) {
        Ok(id) => id,
        Err(_) => vstd::pervasive::unreached(),
    }
}

/// Distinct QUIC streams get distinct `h3` identifiers: two identifiers
/// that `h3_stream` gave, each carrying its stream's wire value, are equal
/// only for the same stream.
pub proof fn lemma_h3_stream_one_to_one(
    a: QuicStreamId,
    b: QuicStreamId,
    ra: h3::quic::StreamId,
    rb: h3::quic::StreamId,
)
    requires
        0 <= a@,
        0 <= b@,
        h3_stream_id_value(ra) == a@ as u64,
        h3_stream_id_value(rb) == b@ as u64,
        ra == rb,
    ensures
        a@ == b@,
{
}

/// The initiator and the directionality of a stream are its two low bits:
/// bit `0x1` is clear exactly for streams the client opened, and bit `0x2`
/// is clear exactly for bidirectional streams, for every valid identifier.
pub proof fn lemma_stream_bits(v: i64)
    requires
        valid_stream_id(v as int),
    ensures
        (spec_initiator_of(v) == Initiator::Client) == (v & 1 == 0),
        (spec_directionality_of(v) == Directionality::Bidirectional) == (v & 2 == 0),
{
    assert(0 <= v ==> ((v % 2 == 0) == (v & 1 == 0))) by (bit_vector);
    assert(0 <= v ==> (((v / 2) % 2 == 0) == (v & 2 == 0))) by (bit_vector);
}

} // verus!
