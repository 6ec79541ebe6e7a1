//! The state a connection keeps between polls: the streams the peer opened and
//! nobody accepted yet, the data and terminations received on each stream, the
//! streams the peer asked to stop, and whether (and why) the connection closed.
use vstd::prelude::*;
use std::collections::HashMap;
use std::collections::VecDeque;
use crate::buffers::{bytes_contents, bytes_from_vec};
use crate::errors::{
    close_error, spec_close_error, BridgeReason, CloseReason, ConnError, StreamError,
    TransportError, TransportErrorKind,
};
use crate::events::Observed;
use crate::stream_id::{
    lemma_stream_bits, spec_directionality_of, spec_initiator_of, valid_stream_id, Directionality,
    Initiator, QuicStreamId,
};

verus! {

broadcast use vstd::std_specs::hash::group_hash_axioms;

/// What has arrived on one stream and not been handed out yet.
#[verifier::ext_equal]
pub struct ReceiveView {
    /// The chunks of data not yet read, oldest first.
    pub chunks: Seq<Seq<u8>>,
    /// Whether the stream has ended, cleanly or not.
    pub finished: bool,
    /// The code the peer reset the stream with, if it did.
    pub reset: Option<u64>,
}

/// A stream on which nothing has arrived.
pub open spec fn empty_receive() -> ReceiveView {
    ReceiveView { chunks: Seq::empty(), finished: false, reset: None }
}

/// What has arrived on one stream and not been handed out yet.
pub struct ReceiveState {
    chunks: VecDeque<bytes::Bytes>,
    finished: bool,
    reset: Option<u64>,
}

impl View for ReceiveState {
    type V = ReceiveView;

    closed spec fn view(&self) -> ReceiveView {
        ReceiveView {
            chunks: self.chunks@.map_values(|b: bytes::Bytes| bytes_contents(b)),
            finished: self.finished,
            reset: self.reset,
        }
    }
}

impl ReceiveState {
    /// A stream on which nothing has arrived.
    pub fn new() -> (r: ReceiveState)
        ensures
            r@ == empty_receive(),
    {
        let r = ReceiveState { chunks: VecDeque::new(), finished: false, reset: None };
        assert(r@.chunks =~= Seq::<Seq<u8>>::empty());
        r
    }
}

/// The state of a connection as the bridge sees it.
#[verifier::ext_equal]
pub struct ConnectionView {
    /// The initiator whose streams this endpoint opens.
    pub local: Initiator,
    /// Why the connection closed, once it has.
    pub closed: Option<ConnError>,
    /// Bidirectional streams the peer opened, not yet accepted, oldest first.
    pub incoming_bidi: Seq<QuicStreamId>,
    /// Unidirectional streams the peer opened, not yet accepted, oldest first.
    pub incoming_uni: Seq<QuicStreamId>,
    /// What has arrived on each stream, by raw identifier.
    pub receive: Map<i64, ReceiveView>,
    /// The code with which the peer asked this endpoint to stop sending, by raw identifier.
    pub stopped: Map<i64, u64>,
    /// The deadline the connection's timer is armed for.
    pub sleeping_until: Option<u64>,
}

/// What has arrived on a stream, an empty record where nothing was kept yet.
pub open spec fn receive_of(v: ConnectionView, id: i64) -> ReceiveView {
    if v.receive.contains_key(id) {
        v.receive[id]
    } else {
        empty_receive()
    }
}

/// The view with the record of one stream replaced.
pub open spec fn with_receive(v: ConnectionView, id: i64, r: ReceiveView) -> ConnectionView {
    ConnectionView { receive: v.receive.insert(id, r), ..v }
}

/// A stream's record once its oldest unread chunk was taken.
pub open spec fn after_take(rv: ReceiveView) -> ReceiveView {
    ReceiveView {
        chunks: if rv.chunks.len() > 0 {
            rv.chunks.drop_first()
        } else {
            rv.chunks
        },
        ..rv
    }
}

/// What a read of a stream does to the state of a connection.
pub open spec fn take_view(v: ConnectionView, id: i64) -> ConnectionView {
    with_receive(v, id, after_take(receive_of(v, id)))
}

/// A code that is kept once given: the old one if there is one, else the new one.
pub open spec fn keep_first(code: Option<u64>, new: u64) -> Option<u64> {
    if code is Some {
        code
    } else {
        Some(new)
    }
}

/// A request to stop sending is recorded once: the first code stays.
pub open spec fn stop_once(stopped: Map<i64, u64>, id: i64, code: u64) -> Map<i64, u64> {
    if stopped.contains_key(id) {
        stopped
    } else {
        stopped.insert(id, code)
    }
}

/// What one observation does to the state of a connection.
pub open spec fn apply_observed(v: ConnectionView, e: Observed) -> ConnectionView {
    match e {
        Observed::Data(id, bytes, fin) => {
            let r = receive_of(v, id@);
            with_receive(
                v,
                id@,
                ReceiveView {
                    chunks: if bytes@.len() > 0 {
                        r.chunks.push(bytes@)
                    } else {
                        r.chunks
                    },
                    finished: r.finished || fin,
                    reset: r.reset,
                },
            )
        },
        Observed::Opened(id) => {
            if spec_directionality_of(id@) == Directionality::Bidirectional {
                ConnectionView { incoming_bidi: v.incoming_bidi.push(id), ..v }
            } else {
                ConnectionView { incoming_uni: v.incoming_uni.push(id), ..v }
            }
        },
        Observed::Closed(id, codes) => {
            let r = receive_of(v, id@);
            let v2 = with_receive(
                v,
                id@,
                ReceiveView {
                    chunks: r.chunks,
                    finished: true,
                    reset: match codes.receiving {
                        Some(c) => keep_first(r.reset, c),
                        None => r.reset,
                    },
                },
            );
            match codes.sending {
                Some(c) => ConnectionView { stopped: stop_once(v2.stopped, id@, c), ..v2 },
                None => v2,
            }
        },
        Observed::Reset(id, code) => {
            let r = receive_of(v, id@);
            with_receive(
                v,
                id@,
                ReceiveView { chunks: r.chunks, finished: true, reset: keep_first(r.reset, code) },
            )
        },
        Observed::StopSending(id, code) => ConnectionView {
            stopped: stop_once(v.stopped, id@, code),
            ..v
        },
        _ => v,
    }
}

/// The stream limit that one observation raises by one.
#[derive(Clone, Copy, Debug, PartialEq, Eq, Structural)]
pub enum StreamCredit {
    /// No limit changes.
    NoCredit,
    /// The peer may open one more bidirectional stream.
    Bidi,
    /// The peer may open one more unidirectional stream.
    Uni,
}

/// A stream the peer opened has closed: the peer may open another of its kind.
pub open spec fn spec_credit(local: Initiator, e: Observed) -> StreamCredit {
    match e {
        Observed::Closed(id, _) => {
            if spec_initiator_of(id@) != local {
                if spec_directionality_of(id@) == Directionality::Bidirectional {
                    StreamCredit::Bidi
                } else {
                    StreamCredit::Uni
                }
            } else {
                StreamCredit::NoCredit
            }
        },
        _ => StreamCredit::NoCredit,
    }
}

/// What a sequence of observations does, applied in order.
pub open spec fn apply_all(v: ConnectionView, events: Seq<Observed>) -> ConnectionView
    decreases events.len(),
{
    if events.len() == 0 {
        v
    } else {
        apply_observed(apply_all(v, events.drop_last()), events.last())
    }
}

/// How many observations in a sequence raise a given stream limit.
pub open spec fn count_credits(local: Initiator, events: Seq<Observed>, kind: StreamCredit) -> nat
    decreases events.len(),
{
    if events.len() == 0 {
        0
    } else {
        count_credits(local, events.drop_last(), kind) + if spec_credit(local, events.last())
            == kind {
            1nat
        } else {
            0nat
        }
    }
}

/// How much each stream limit is to be raised after a batch of observations.
#[derive(Clone, Copy, Debug, PartialEq, Eq, Structural)]
pub struct StreamCredits {
    /// Extra bidirectional streams the peer may open.
    pub bidi: usize,
    /// Extra unidirectional streams the peer may open.
    pub uni: usize,
}

/// The error a closed connection reports: the recorded one, or the bridge's
/// own when nothing was recorded.
pub open spec fn spec_connection_error(v: ConnectionView) -> ConnError {
    match v.closed {
        Some(e) => e,
        None => ConnError::Bridge(BridgeReason::ConnectionClosed),
    }
}

/// What polling for an incoming stream answers.
#[derive(Debug)]
pub enum AcceptOutcome {
    /// The oldest stream the peer opened and nobody accepted yet.
    Stream(QuicStreamId),
    /// No stream is waiting and the connection failed.
    Failed(ConnError),
    /// No stream is waiting yet.
    Pending,
}

/// What was taken from a stream's record by one read.
pub struct ReceiveProgress {
    /// The oldest chunk not yet read, if there was one.
    pub chunk: Option<bytes::Bytes>,
    /// The code the peer reset the stream with, if it did.
    pub reset: Option<u64>,
    /// Whether the stream has ended.
    pub finished: bool,
}

/// Whether stream data may be offered to the connection now.
#[derive(Debug)]
pub enum SendGate {
    /// It may not: the peer stopped the stream, or the connection closed.
    Refused(StreamError),
    /// Not now: no datagram can be queued.
    Blocked,
    /// It may.
    Proceed,
}

/// What to do with the connection's timer.
#[derive(Clone, Copy, Debug, PartialEq, Eq, Structural)]
pub enum TimerPlan {
    /// No deadline: drop the timer.
    Disarm,
    /// A new deadline: arm the timer for it.
    Arm(u64),
    /// The timer is armed for this deadline already.
    Keep,
}

/// What polling to open a stream answers.
#[derive(Debug)]
pub enum OpenOutcome {
    /// The stream was opened.
    Opened(QuicStreamId),
    /// The peer's limits do not allow another stream yet.
    Pending,
    /// Opening failed.
    Failed(StreamError),
}

/// Whether a stream may be opened after driving the connection: not when the
/// drive failed, which is reported as the connection's error.
pub fn open_gate(driven: Result<(), ConnError>) -> (r: Result<(), StreamError>)
    ensures
        match driven {
            Ok(()) => r is Ok,
            Err(e) => r == Err::<(), StreamError>(StreamError::Connection(e)),
        },
{
    match driven {
        Ok(()) => Ok(()),
        Err(e) => Err(StreamError::Connection(e)),
    }
}

/// What an attempt to open a stream answers: the stream, a wait when the
/// peer's limits block it for now, and the QUIC stack's refusal otherwise.
pub fn decide_open(opened: Result<QuicStreamId, TransportError>) -> (r: OpenOutcome)
    ensures
        match opened {
            Ok(id) => r == OpenOutcome::Opened(id),
            Err(e) => if e.kind == TransportErrorKind::Blocked {
                r == OpenOutcome::Pending
            } else {
                r == OpenOutcome::Failed(StreamError::Transport(e))
            },
        },
{
    match opened {
        Ok(id) => OpenOutcome::Opened(id),
        Err(e) => {
            if e.kind == TransportErrorKind::Blocked {
                OpenOutcome::Pending
            } else {
                OpenOutcome::Failed(StreamError::Transport(e))
            }
        },
    }
}

/// The state of a connection as the bridge keeps it.
pub struct ConnectionState {
    local: Initiator,
    closed: Option<ConnError>,
    incoming_bidi: VecDeque<QuicStreamId>,
    incoming_uni: VecDeque<QuicStreamId>,
    receive: HashMap<i64, ReceiveState>,
    stopped: HashMap<i64, u64>,
    sleeping_until: Option<u64>,
}

impl View for ConnectionState {
    type V = ConnectionView;

    closed spec fn view(&self) -> ConnectionView {
        ConnectionView {
            local: self.local,
            closed: self.closed,
            incoming_bidi: self.incoming_bidi@,
            incoming_uni: self.incoming_uni@,
            receive: self.receive@.map_values(|r: ReceiveState| r@),
            stopped: self.stopped@,
            sleeping_until: self.sleeping_until,
        }
    }
}

impl ConnectionState {
    /// A fresh connection on which this endpoint opens the streams of `local`.
    pub fn new(local: Initiator) -> (r: ConnectionState)
        ensures
            r@ == (ConnectionView {
                local,
                closed: None,
                incoming_bidi: Seq::empty(),
                incoming_uni: Seq::empty(),
                receive: Map::empty(),
                stopped: Map::empty(),
                sleeping_until: None,
            }),
            chunks_nonempty(r@),
    {
        let r = ConnectionState {
            local,
            closed: None,
            incoming_bidi: VecDeque::new(),
            incoming_uni: VecDeque::new(),
            receive: HashMap::new(),
            stopped: HashMap::new(),
            sleeping_until: None,
        };
        assert(r@.receive =~= Map::empty());
        r
    }

    /// Whether the connection has closed.
    pub fn is_closed(&self) -> (r: bool)
        ensures
            r == self@.closed is Some,
    {
        self.closed.is_some()
    }

    /// The error a closed connection reports.
    pub fn connection_error(&self) -> (r: ConnError)
        ensures
            r == spec_connection_error(self@),
    {
        match &self.closed {
            Some(e) => e.duplicate(),
            None => ConnError::Bridge(BridgeReason::ConnectionClosed),
        }
    }

    /// Records a failure of the QUIC stack as the reason the connection is
    /// unusable, and hands back the error to report. The caller releases the
    /// connection.
    pub fn mark_transport_error(&mut self, error: TransportError) -> (r: ConnError)
        ensures
            r == ConnError::Transport(error),
            final(self)@ == (ConnectionView { closed: Some(ConnError::Transport(error)), ..old(self)@ }),
    {
        let r = ConnError::Transport(error.duplicate());
        self.closed = Some(ConnError::Transport(error));
        r
    }

    /// Records that the transport closed the connection, unless it was already
    /// closed: the first close is the one reported. Returns whether this call
    /// closed it, in which case the caller releases the connection.
    pub fn mark_closed(&mut self, timeout: bool, reason: CloseReason) -> (changed: bool)
        ensures
            changed == (old(self)@.closed is None),
            changed ==> final(self)@ == (ConnectionView {
                closed: Some(spec_close_error(timeout, reason)),
                ..old(self)@
            }),
            !changed ==> final(self)@ == old(self)@,
    {
        if self.closed.is_some() {
            return false;
        }
        self.closed = Some(close_error(timeout, reason));
        true
    }

    /// Records that this endpoint closed the connection, unless it was already
    /// closed. Returns whether this call closed it, in which case the caller
    /// sends the close frame and releases the connection.
    pub fn close_locally(&mut self) -> (changed: bool)
        ensures
            changed == (old(self)@.closed is None),
            changed ==> final(self)@ == (ConnectionView {
                closed: Some(ConnError::Bridge(BridgeReason::ClosedLocally)),
                ..old(self)@
            }),
            !changed ==> final(self)@ == old(self)@,
    {
        if self.closed.is_some() {
            return false;
        }
        self.closed = Some(ConnError::Bridge(BridgeReason::ClosedLocally));
        true
    }

    /// Takes the record of one stream out of the map, an empty one where there was none.
    fn take_receive(&mut self, key: i64) -> (r: ReceiveState)
        ensures
            r@ == receive_of(old(self)@, key),
            final(self)@ == (ConnectionView { receive: old(self)@.receive.remove(key), ..old(self)@ }),
    {
        let taken = self.receive.remove(&key);
        proof {
            assert(self@.receive =~= old(self)@.receive.remove(key));
        }
        match taken {
            Some(r) => r,
            None => ReceiveState::new(),
        }
    }

    /// Puts the record of one stream back into the map.
    fn put_receive(&mut self, key: i64, r: ReceiveState)
        ensures
            final(self)@ == (ConnectionView { receive: old(self)@.receive.insert(key, r@), ..old(self)@ }),
    {
        self.receive.insert(key, r);
        proof {
            assert(self@.receive =~= old(self)@.receive.insert(key, r@));
        }
    }

    /// Records that the peer asked to stop sending on a stream, unless it asked before.
    fn stop(&mut self, key: i64, code: u64)
        ensures
            final(self)@ == (ConnectionView { stopped: stop_once(old(self)@.stopped, key, code), ..old(self)@ }),
    {
        if !self.stopped.contains_key(&key) {
            self.stopped.insert(key, code);
        }
    }

    /// Takes one observation of the QUIC stack into account. Returns the
    /// stream limit the caller raises by one.
    pub fn observe(&mut self, e: Observed) -> (c: StreamCredit)
        ensures
            final(self)@ == apply_observed(old(self)@, e),
            c == spec_credit(old(self)@.local, e),
            chunks_nonempty(old(self)@) ==> chunks_nonempty(final(self)@),
    {
        proof {
            if chunks_nonempty(old(self)@) {
                lemma_observation_keeps_chunks_nonempty(old(self)@, e);
            }
        }
        let ghost e0 = e;
        match e {
            Observed::Data(id, bytes, fin) => {
                let key = id.get();
                let mut state = self.take_receive(key);
                let ghost r0 = state@;
                if bytes.len() > 0 {
                    let ghost b = bytes@;
                    state.chunks.push_back(bytes_from_vec(bytes));
                    assert(state@.chunks =~= r0.chunks.push(b));
                }
                state.finished = state.finished || fin;
                self.put_receive(key, state);
                assert(self@.receive =~= apply_observed(old(self)@, e0).receive);
                StreamCredit::NoCredit
            },
            Observed::Opened(id) => {
                if id.directionality() == Directionality::Bidirectional {
                    self.incoming_bidi.push_back(id);
                } else {
                    self.incoming_uni.push_back(id);
                }
                StreamCredit::NoCredit
            },
            Observed::Closed(id, codes) => {
                let credit = if id.initiator() != self.local {
                    if id.directionality() == Directionality::Bidirectional {
                        StreamCredit::Bidi
                    } else {
                        StreamCredit::Uni
                    }
                } else {
                    StreamCredit::NoCredit
                };
                let key = id.get();
                let mut state = self.take_receive(key);
                let ghost r0 = state@;
                state.finished = true;
                if let Some(code) = codes.receiving {
                    if state.reset.is_none() {
                        state.reset = Some(code);
                    }
                }
                assert(state@.chunks =~= r0.chunks);
                self.put_receive(key, state);
                if let Some(code) = codes.sending {
                    self.stop(key, code);
                }
                assert(self@.receive =~= apply_observed(old(self)@, e0).receive);
                credit
            },
            Observed::Reset(id, code) => {
                let key = id.get();
                let mut state = self.take_receive(key);
                let ghost r0 = state@;
                state.finished = true;
                if state.reset.is_none() {
                    state.reset = Some(code);
                }
                assert(state@.chunks =~= r0.chunks);
                self.put_receive(key, state);
                assert(self@.receive =~= apply_observed(old(self)@, e0).receive);
                StreamCredit::NoCredit
            },
            Observed::StopSending(id, code) => {
                self.stop(id.get(), code);
                StreamCredit::NoCredit
            },
            _ => StreamCredit::NoCredit,
        }
    }
    /// Takes a batch of observations into account, in order. Returns by how
    /// much the caller raises each stream limit: by one for every stream the
    /// peer opened that closed.
    pub fn collect(&mut self, events: Vec<Observed>) -> (c: StreamCredits)
        ensures
            final(self)@ == apply_all(old(self)@, events@),
            c.bidi == count_credits(old(self)@.local, events@, StreamCredit::Bidi),
            c.uni == count_credits(old(self)@.local, events@, StreamCredit::Uni),
            chunks_nonempty(old(self)@) ==> chunks_nonempty(final(self)@),
    {
        let ghost start = self@;
        let ghost all = events@;
        let n = events.len();
        let mut bidi: usize = 0;
        let mut uni: usize = 0;
        for e in it: events.into_iter()
            invariant
                it.seq() == all,
                all.len() == n,
                self@ == apply_all(start, all.take(it.index() as int)),
                self@.local == start.local,
                bidi == count_credits(start.local, all.take(it.index() as int), StreamCredit::Bidi),
                uni == count_credits(start.local, all.take(it.index() as int), StreamCredit::Uni),
                bidi <= it.index(),
                uni <= it.index(),
                chunks_nonempty(start) ==> chunks_nonempty(self@),
        {
            let ghost i = it.index() as int;
            proof {
                assert(all.take(i + 1).drop_last() =~= all.take(i));
                assert(all.take(i + 1).last() == all[i]);
            }
            let credit = self.observe(e);
            match credit {
                StreamCredit::Bidi => {
                    bidi = bidi + 1;
                },
                StreamCredit::Uni => {
                    uni = uni + 1;
                },
                StreamCredit::NoCredit => {},
            }
        }
        proof {
            assert(all.take(all.len() as int) =~= all);
        }
        StreamCredits { bidi, uni }
    }
    /// Hands out the oldest incoming stream of the given directionality. Where
    /// none waits, reports the failure of the drive that preceded this call, if
    /// it failed, and asks to wait otherwise: a stream that arrived before the
    /// connection failed is still handed out.
    pub fn accept(&mut self, dir: Directionality, driven: Result<(), ConnError>) -> (r:
        AcceptOutcome)
        ensures
            ({
                let q = if dir == Directionality::Bidirectional {
                    old(self)@.incoming_bidi
                } else {
                    old(self)@.incoming_uni
                };
                &&& q.len() > 0 ==> r == AcceptOutcome::Stream(q[0])
                &&& q.len() > 0 && dir == Directionality::Bidirectional ==> final(self)@ == (
                ConnectionView { incoming_bidi: q.drop_first(), ..old(self)@ })
                &&& q.len() > 0 && dir == Directionality::Unidirectional ==> final(self)@ == (
                ConnectionView { incoming_uni: q.drop_first(), ..old(self)@ })
                &&& q.len() == 0 ==> final(self)@ == old(self)@
                &&& q.len() == 0 ==> match driven {
                    Ok(()) => r == AcceptOutcome::Pending,
                    Err(e) => r == AcceptOutcome::Failed(e),
                }
            }),
    {
        let next = if dir == Directionality::Bidirectional {
            self.incoming_bidi.pop_front()
        } else {
            self.incoming_uni.pop_front()
        };
        match next {
            Some(id) => AcceptOutcome::Stream(id),
            None => match driven {
                Ok(()) => AcceptOutcome::Pending,
                Err(e) => AcceptOutcome::Failed(e),
            },
        }
    }

    /// Takes the oldest unread chunk of a stream, and reports whether the
    /// stream was reset or has ended.
    pub fn take_chunk(&mut self, stream: QuicStreamId) -> (r: ReceiveProgress)
        ensures
            ({
                let rv = receive_of(old(self)@, stream@);
                &&& r.chunk is Some <==> rv.chunks.len() > 0
                &&& r.chunk matches Some(b) ==> bytes_contents(b) == rv.chunks[0]
                &&& r.reset == rv.reset
                &&& r.finished == rv.finished
                &&& final(self)@ == take_view(old(self)@, stream@)
                &&& chunks_nonempty(old(self)@) ==> chunks_nonempty(final(self)@) && (r.chunk matches Some(b)
                    ==> bytes_contents(b).len() > 0)
            }),
    {
        proof {
            if chunks_nonempty(old(self)@) {
                lemma_read_keeps_chunks_nonempty(old(self)@, stream@);
            }
        }
        let key = stream.get();
        let mut state = self.take_receive(key);
        let ghost r0 = state@;
        let chunk = state.chunks.pop_front();
        let reset = state.reset;
        let finished = state.finished;
        proof {
            if r0.chunks.len() > 0 {
                assert(state@.chunks =~= r0.chunks.drop_first());
            } else {
                assert(state@.chunks =~= r0.chunks);
            }
        }
        self.put_receive(key, state);
        proof {
            assert(self@.receive =~= old(self)@.receive.insert(key, state@));
        }
        ReceiveProgress { chunk, reset, finished }
    }

    /// Whether stream data may be offered to the connection now: not on a
    /// stream the peer stopped (with the peer's code), not on a closed
    /// connection (with its error), and not while no datagram can be queued.
    pub fn send_gate(&self, stream: QuicStreamId, has_room: bool) -> (r: SendGate)
        ensures
            self@.stopped.contains_key(stream@) ==> r == SendGate::Refused(
                StreamError::Terminated { error_code: self@.stopped[stream@] },
            ),
            !self@.stopped.contains_key(stream@) && self@.closed is Some ==> r
                == SendGate::Refused(StreamError::Connection(spec_connection_error(self@))),
            !self@.stopped.contains_key(stream@) && self@.closed is None && !has_room ==> r
                == SendGate::Blocked,
            !self@.stopped.contains_key(stream@) && self@.closed is None && has_room ==> r
                == SendGate::Proceed,
    {
        let key = stream.get();
        match self.stopped.get(&key) {
            Some(code) => SendGate::Refused(StreamError::Terminated { error_code: *code }),
            None => {
                if self.closed.is_some() {
                    SendGate::Refused(StreamError::Connection(self.connection_error()))
                } else if !has_room {
                    SendGate::Blocked
                } else {
                    SendGate::Proceed
                }
            },
        }
    }

    /// Decides what to do with the connection's timer given the connection's
    /// next deadline: drop it when there is none, arm it when the deadline
    /// changed, keep it otherwise.
    pub fn plan_timer(&mut self, deadline: Option<u64>) -> (r: TimerPlan)
        ensures
            deadline is None ==> r == TimerPlan::Disarm,
            deadline matches Some(d) ==> (if old(self)@.sleeping_until == Some(d) {
                r == TimerPlan::Keep
            } else {
                r == TimerPlan::Arm(d)
            }),
            final(self)@ == (ConnectionView { sleeping_until: deadline, ..old(self)@ }),
    {
        match deadline {
            None => {
                self.sleeping_until = None;
                TimerPlan::Disarm
            },
            Some(d) => {
                let same = match self.sleeping_until {
                    Some(s) => s == d,
                    None => false,
                };
                if same {
                    TimerPlan::Keep
                } else {
                    self.sleeping_until = Some(d);
                    TimerPlan::Arm(d)
                }
            },
        }
    }

    /// Records that the timer fired: it is armed for nothing any more.
    pub fn timer_fired(&mut self)
        ensures
            final(self)@ == (ConnectionView { sleeping_until: None, ..old(self)@ }),
    {
        self.sleeping_until = None;
    }
}

/// The data a sequence of observations brings to one stream, in order: the
/// non-empty payloads of its `Data` observations.
pub open spec fn data_of(events: Seq<Observed>, id: i64) -> Seq<Seq<u8>>
    decreases events.len(),
{
    if events.len() == 0 {
        Seq::empty()
    } else {
        data_of(events.drop_last(), id) + match events.last() {
            Observed::Data(s, bytes, _) => if s@ == id && bytes@.len() > 0 {
                seq![bytes@]
            } else {
                Seq::empty()
            },
            _ => Seq::empty(),
        }
    }
}

/// The streams of one directionality that a sequence of observations
/// reports the peer opened, in order.
pub open spec fn opened_of(events: Seq<Observed>, dir: Directionality) -> Seq<QuicStreamId>
    decreases events.len(),
{
    if events.len() == 0 {
        Seq::empty()
    } else {
        opened_of(events.drop_last(), dir) + match events.last() {
            Observed::Opened(s) => if spec_directionality_of(s@) == dir {
                seq![s]
            } else {
                Seq::empty()
            },
            _ => Seq::empty(),
        }
    }
}

/// Nothing an observation does takes back what a stream received: its unread
/// chunks stay, in order, at the front; its end stays; the code of its reset
/// and the code with which the peer stopped it stay as first recorded. Nor
/// does an observation change whether or why the connection closed.
pub proof fn lemma_observation_keeps_received(v: ConnectionView, e: Observed, id: i64)
    ensures
        ({
            let w = apply_observed(v, e);
            let before = receive_of(v, id);
            let after = receive_of(w, id);
            &&& before.chunks.is_prefix_of(after.chunks)
            &&& before.finished ==> after.finished
            &&& before.reset is Some ==> after.reset == before.reset
            &&& v.stopped.contains_key(id) ==> w.stopped.contains_key(id) && w.stopped[id]
                == v.stopped[id]
            &&& w.closed == v.closed
            &&& w.local == v.local
        }),
{
}

/// Over any sequence of observations, what a stream received is kept: its
/// unread chunks stay at the front, in order, followed by the data the
/// sequence brings to it, in the order it arrived; its end and its reset
/// code stay. The connection's closing and the streams waiting to be
/// accepted are untouched except that newly opened streams join the back of
/// their queue, in the order they were opened.
pub proof fn lemma_observations_keep_order(v: ConnectionView, events: Seq<Observed>, id: i64)
    ensures
        ({
            let w = apply_all(v, events);
            let before = receive_of(v, id);
            let after = receive_of(w, id);
            &&& after.chunks == before.chunks + data_of(events, id)
            &&& before.finished ==> after.finished
            &&& before.reset is Some ==> after.reset == before.reset
            &&& v.stopped.contains_key(id) ==> w.stopped.contains_key(id) && w.stopped[id]
                == v.stopped[id]
            &&& w.closed == v.closed
            &&& w.local == v.local
            &&& w.incoming_bidi == v.incoming_bidi + opened_of(events, Directionality::Bidirectional)
            &&& w.incoming_uni == v.incoming_uni + opened_of(events, Directionality::Unidirectional)
        }),
    decreases events.len(),
{
    if events.len() > 0 {
        let prev = events.drop_last();
        lemma_observations_keep_order(v, prev, id);
        let u = apply_all(v, prev);
        let e = events.last();
        lemma_observation_keeps_received(u, e, id);
        match e {
            Observed::Data(s, bytes, fin) => {
                if s@ == id && bytes@.len() > 0 {
                    assert(receive_of(apply_observed(u, e), id).chunks =~= receive_of(u, id).chunks.push(bytes@));
                } else {
                    assert(receive_of(apply_observed(u, e), id).chunks =~= receive_of(u, id).chunks);
                }
            },
            Observed::Opened(s) => {
            },
            _ => {
            },
        }
        assert(apply_all(v, events).incoming_bidi =~= v.incoming_bidi + opened_of(events, Directionality::Bidirectional));
        assert(apply_all(v, events).incoming_uni =~= v.incoming_uni + opened_of(events, Directionality::Unidirectional));
        assert(receive_of(apply_all(v, events), id).chunks =~= receive_of(v, id).chunks + data_of(events, id));
    } else {
        assert(receive_of(v, id).chunks + data_of(events, id) =~= receive_of(v, id).chunks);
        assert(v.incoming_bidi + opened_of(events, Directionality::Bidirectional) =~= v.incoming_bidi);
        assert(v.incoming_uni + opened_of(events, Directionality::Unidirectional) =~= v.incoming_uni);
    }
}

/// On a stream with nothing unread, the next chunk a read hands out is
/// exactly the next non-empty data that arrives on it.
pub proof fn lemma_next_read_is_next_data(v: ConnectionView, e: Observed, id: i64)
    requires
        receive_of(v, id).chunks.len() == 0,
        e matches Observed::Data(s, bytes, _) && s@ == id && bytes@.len() > 0,
    ensures
        receive_of(apply_observed(v, e), id).chunks.len() == 1,
        e matches Observed::Data(_, bytes, _) && receive_of(apply_observed(v, e), id).chunks[0]
            == bytes@,
{
}

/// One thing that happens to a connection's received data: an observation
/// of the QUIC stack, or a read of one stream.
pub enum ReceiveOp {
    /// The connection takes an observation into account.
    Observe(Observed),
    /// A read takes the oldest unread chunk of a stream.
    Read(i64),
}

/// The state of a connection after a sequence of observations and reads.
pub open spec fn run_ops(v: ConnectionView, ops: Seq<ReceiveOp>) -> ConnectionView
    decreases ops.len(),
{
    if ops.len() == 0 {
        v
    } else {
        let u = run_ops(v, ops.drop_last());
        match ops.last() {
            ReceiveOp::Observe(e) => apply_observed(u, e),
            ReceiveOp::Read(id) => take_view(u, id),
        }
    }
}

/// The chunks that the reads of one stream in a sequence hand out, in order.
pub open spec fn read_out(v: ConnectionView, ops: Seq<ReceiveOp>, id: i64) -> Seq<Seq<u8>>
    decreases ops.len(),
{
    if ops.len() == 0 {
        Seq::empty()
    } else {
        let u = run_ops(v, ops.drop_last());
        read_out(v, ops.drop_last(), id) + match ops.last() {
            ReceiveOp::Read(s) => if s == id && receive_of(u, id).chunks.len() > 0 {
                seq![receive_of(u, id).chunks[0]]
            } else {
                Seq::empty()
            },
            _ => Seq::empty(),
        }
    }
}

/// The observations in a sequence of observations and reads, in order.
pub open spec fn observations_of(ops: Seq<ReceiveOp>) -> Seq<Observed>
    decreases ops.len(),
{
    if ops.len() == 0 {
        Seq::empty()
    } else {
        observations_of(ops.drop_last()) + match ops.last() {
            ReceiveOp::Observe(e) => seq![e],
            _ => Seq::empty(),
        }
    }
}

/// The data `data_of` finds in a sequence split in two is what it finds in
/// the first part followed by what it finds in the second.
proof fn lemma_data_of_append(a: Seq<Observed>, b: Seq<Observed>, id: i64)
    ensures
        data_of(a + b, id) == data_of(a, id) + data_of(b, id),
    decreases b.len(),
{
    if b.len() == 0 {
        assert(a + b =~= a);
        assert(data_of(a, id) + data_of(b, id) =~= data_of(a, id));
    } else {
        lemma_data_of_append(a, b.drop_last(), id);
        assert((a + b).drop_last() =~= a + b.drop_last());
        assert((a + b).last() == b.last());
        assert(data_of(a + b, id) =~= data_of(a, id) + data_of(b, id));
    }
}

/// No data is lost, duplicated or reordered on its way through a stream:
/// over any sequence of observations and reads, the chunks the reads of a
/// stream hand out, followed by the chunks still unread, are the chunks that
/// were unread at the start followed by the data the observations brought to
/// the stream, in the order it arrived.
pub proof fn lemma_reads_return_data_in_order(v: ConnectionView, ops: Seq<ReceiveOp>, id: i64)
    ensures
        read_out(v, ops, id) + receive_of(run_ops(v, ops), id).chunks == receive_of(v, id).chunks
            + data_of(observations_of(ops), id),
    decreases ops.len(),
{
    if ops.len() == 0 {
        assert(read_out(v, ops, id) + receive_of(v, id).chunks =~= receive_of(v, id).chunks);
        assert(receive_of(v, id).chunks + data_of(observations_of(ops), id) =~= receive_of(v, id).chunks);
    } else {
        let prev = ops.drop_last();
        lemma_reads_return_data_in_order(v, prev, id);
        let u = run_ops(v, prev);
        let before = receive_of(u, id).chunks;
        match ops.last() {
            ReceiveOp::Observe(e) => {
                lemma_observations_keep_order(u, seq![e], id);
                assert(seq![e].drop_last() =~= Seq::<Observed>::empty());
                assert(apply_all(u, seq![e]) == apply_observed(apply_all(u, Seq::<Observed>::empty()), e));
                assert(observations_of(ops) =~= observations_of(prev) + seq![e]);
                lemma_data_of_append(observations_of(prev), seq![e], id);
                assert(read_out(v, ops, id) =~= read_out(v, prev, id));
                assert(apply_all(u, Seq::<Observed>::empty()) == u);
                assert(run_ops(v, ops) == apply_observed(u, e));
                let d = data_of(seq![e], id);
                assert(receive_of(run_ops(v, ops), id).chunks == before + d);
                assert(read_out(v, prev, id) + (before + d) =~= (read_out(v, prev, id) + before) + d);
                assert(receive_of(v, id).chunks + (data_of(observations_of(prev), id) + d)
                    =~= (receive_of(v, id).chunks + data_of(observations_of(prev), id)) + d);
            },
            ReceiveOp::Read(s) => {
                assert(observations_of(ops) =~= observations_of(prev));
                if s == id && before.len() > 0 {
                    assert(receive_of(run_ops(v, ops), id).chunks =~= before.drop_first());
                    assert(seq![before[0]] + before.drop_first() =~= before);
                    assert(read_out(v, ops, id) + receive_of(run_ops(v, ops), id).chunks =~= read_out(
                        v,
                        prev,
                        id,
                    ) + before);
                } else {
                    assert(receive_of(run_ops(v, ops), id).chunks =~= before);
                    assert(read_out(v, ops, id) =~= read_out(v, prev, id));
                }
            },
        }
    }
}

/// Every unread chunk of every stream holds at least one byte.
pub open spec fn chunks_nonempty(v: ConnectionView) -> bool {
    forall|k: i64, i: int|
        v.receive.contains_key(k) && 0 <= i < v.receive[k].chunks.len() ==> #[trigger] v.receive[k].chunks[i].len() > 0
}

/// An observation keeps every unread chunk non-empty.
pub proof fn lemma_observation_keeps_chunks_nonempty(u: ConnectionView, e: Observed)
    requires
        chunks_nonempty(u),
    ensures
        chunks_nonempty(apply_observed(u, e)),
{
    let w = apply_observed(u, e);
    assert forall|k: i64, i: int|
        w.receive.contains_key(k) && 0 <= i < w.receive[k].chunks.len() implies #[trigger] w.receive[k].chunks[i].len() > 0 by {
        if !u.receive.contains_key(k) {
            assert(receive_of(u, k).chunks.len() == 0);
        }
        if u.receive.contains_key(k) && i < u.receive[k].chunks.len() {
            assert(u.receive[k].chunks[i].len() > 0);
        }
    }
}

/// A read keeps every unread chunk non-empty, and the chunk it hands out,
/// if any, holds at least one byte.
pub proof fn lemma_read_keeps_chunks_nonempty(u: ConnectionView, s: i64)
    requires
        chunks_nonempty(u),
    ensures
        chunks_nonempty(take_view(u, s)),
        receive_of(u, s).chunks.len() > 0 ==> receive_of(u, s).chunks[0].len() > 0,
{
    let w = take_view(u, s);
    assert forall|k: i64, i: int|
        w.receive.contains_key(k) && 0 <= i < w.receive[k].chunks.len() implies #[trigger] w.receive[k].chunks[i].len() > 0 by {
        if k == s {
            if u.receive.contains_key(k) {
                assert(u.receive[k].chunks[i + 1].len() > 0);
            }
        } else {
            assert(u.receive[k].chunks[i].len() > 0);
        }
    }
    if receive_of(u, s).chunks.len() > 0 {
        assert(u.receive.contains_key(s));
        assert(u.receive[s].chunks[0].len() > 0);
    }
}

/// Observations and reads keep every unread chunk non-empty, and every
/// chunk a read hands out holds at least one byte.
pub proof fn lemma_chunks_stay_nonempty(v: ConnectionView, ops: Seq<ReceiveOp>, id: i64)
    requires
        chunks_nonempty(v),
    ensures
        chunks_nonempty(run_ops(v, ops)),
        forall|i: int| 0 <= i < read_out(v, ops, id).len() ==> #[trigger] read_out(v, ops, id)[i].len() > 0,
    decreases ops.len(),
{
    if ops.len() > 0 {
        let prev = ops.drop_last();
        lemma_chunks_stay_nonempty(v, prev, id);
        let u = run_ops(v, prev);
        match ops.last() {
            ReceiveOp::Observe(e) => {
                lemma_observation_keeps_chunks_nonempty(u, e);
                assert(read_out(v, ops, id) =~= read_out(v, prev, id));
            },
            ReceiveOp::Read(s) => {
                lemma_read_keeps_chunks_nonempty(u, s);
                if s == id && receive_of(u, id).chunks.len() > 0 {
                    assert forall|i: int| 0 <= i < read_out(v, ops, id).len() implies #[trigger] read_out(
                        v,
                        ops,
                        id,
                    )[i].len() > 0 by {
                        if i < read_out(v, prev, id).len() {
                            assert(read_out(v, ops, id)[i] == read_out(v, prev, id)[i]);
                        }
                    }
                } else {
                    assert(read_out(v, ops, id) =~= read_out(v, prev, id));
                }
            },
        }
    }
}

/// Reading a stream to its end hands out all its data: when a stream with
/// nothing unread receives data through a sequence of observations and
/// reads, and no chunk is left unread at the end (the only state in which a
/// read reports the end of the stream or its reset), the reads handed out
/// exactly the data that arrived, in order, each chunk non-empty.
pub proof fn lemma_reads_until_end(v: ConnectionView, ops: Seq<ReceiveOp>, id: i64)
    requires
        chunks_nonempty(v),
        receive_of(v, id).chunks.len() == 0,
        receive_of(run_ops(v, ops), id).chunks.len() == 0,
    ensures
        read_out(v, ops, id) == data_of(observations_of(ops), id),
        forall|i: int| 0 <= i < read_out(v, ops, id).len() ==> #[trigger] read_out(v, ops, id)[i].len() > 0,
{
    lemma_reads_return_data_in_order(v, ops, id);
    lemma_chunks_stay_nonempty(v, ops, id);
    assert(read_out(v, ops, id) + receive_of(run_ops(v, ops), id).chunks =~= read_out(v, ops, id));
    assert(receive_of(v, id).chunks + data_of(observations_of(ops), id) =~= data_of(observations_of(ops), id));
}

/// A stream the peer opened earns one credit of its kind when it closes,
/// and a stream this endpoint opened earns none: for either side, a close
/// earns a credit exactly when the stream's low bit differs from the local
/// initiator's (clear for the client), a bidirectional credit when bit `0x2`
/// is clear and a unidirectional one otherwise. No other observation earns one.
pub proof fn lemma_credit_for_peer_streams(local: Initiator, e: Observed)
    requires
        e matches Observed::Closed(id, _) ==> valid_stream_id(id@ as int),
    ensures
        e matches Observed::Closed(id, _) ==> ({
            let v = id@;
            let peer = (v & 1 == 0) != (local == Initiator::Client);
            &&& (spec_credit(local, e) != StreamCredit::NoCredit) == peer
            &&& peer && v & 2 == 0 ==> spec_credit(local, e) == StreamCredit::Bidi
            &&& peer && v & 2 != 0 ==> spec_credit(local, e) == StreamCredit::Uni
        }),
        !(e is Closed) ==> spec_credit(local, e) == StreamCredit::NoCredit,
{
    if let Observed::Closed(id, _) = e {
        lemma_stream_bits(id@);
    }
}

/// Opened streams are queued by their second bit: a stream whose bit `0x2` is
/// clear joins the bidirectional queue and any other the unidirectional one,
/// and the other queue is left as it was.
pub proof fn lemma_opened_streams_queue_by_direction(v: ConnectionView, id: QuicStreamId)
    requires
        valid_stream_id(id@ as int),
    ensures
        id@ & 2 == 0 ==> apply_observed(v, Observed::Opened(id)).incoming_bidi == v.incoming_bidi.push(id)
            && apply_observed(v, Observed::Opened(id)).incoming_uni == v.incoming_uni,
        id@ & 2 != 0 ==> apply_observed(v, Observed::Opened(id)).incoming_uni == v.incoming_uni.push(id)
            && apply_observed(v, Observed::Opened(id)).incoming_bidi == v.incoming_bidi,
{
    lemma_stream_bits(id@);
}

/// A request to stop sending touches only the sending side: no stream's
/// received data, end or reset changes. A stream's reset is set only by a
/// reset from the peer or by a close with a receiving code, and then to the
/// peer's code.
pub proof fn lemma_stop_sending_leaves_receiving(v: ConnectionView, e: Observed, k: i64)
    ensures
        e is StopSending ==> receive_of(apply_observed(v, e), k) == receive_of(v, k),
        receive_of(v, k).reset is None && receive_of(apply_observed(v, e), k).reset is Some ==> match e {
            Observed::Reset(id, code) => id@ == k && receive_of(apply_observed(v, e), k).reset
                == Some(code),
            Observed::Closed(id, codes) => id@ == k && codes.receiving is Some && receive_of(
                apply_observed(v, e),
                k,
            ).reset == codes.receiving,
            _ => false,
        },
{
}

} // verus!
