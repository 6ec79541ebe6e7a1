//! The sending half of a stream: the data HTTP/3 handed over and not yet
//! accepted by the connection, whether the stream is finished, and the state
//! machine that decides, for each poll, what to offer the connection.
use vstd::prelude::*;
use crate::buffers::{write_buf_advance, write_buf_chunk, write_buf_contents, write_buf_remaining};
use crate::connection::{spec_connection_error, ConnectionState, ConnectionView, SendGate};
use crate::errors::{BridgeReason, ConnError, StreamError};
use crate::events::StreamWrite;
use crate::stream_id::{h3_stream, h3_stream_id_of, QuicStreamId};

verus! {

/// The sending half of a stream as the bridge sees it.
pub struct SendView {
    /// The stream.
    pub stream: QuicStreamId,
    /// The bytes handed over and not yet accepted by the connection, while a
    /// write is under way.
    pub pending: Option<Seq<u8>>,
    /// Whether the stream was finished or reset.
    pub finished: bool,
}

/// The sending half of a stream.
pub struct SendStreamState {
    stream: QuicStreamId,
    writing: Option<h3::quic::WriteBuf<bytes::Bytes>>,
    finished: bool,
}

impl View for SendStreamState {
    type V = SendView;

    closed spec fn view(&self) -> SendView {
        SendView {
            stream: self.stream,
            pending: match self.writing {
                Some(b) => Some(write_buf_contents(b)),
                None => None,
            },
            finished: self.finished,
        }
    }
}

impl SendStreamState {
    /// The sending half of a stream on which nothing was written.
    pub fn new(stream: QuicStreamId) -> (r: SendStreamState)
        ensures
            r@ == (SendView { stream, pending: None, finished: false }),
    {
        SendStreamState { stream, writing: None, finished: false }
    }

    /// The stream this half sends on.
    pub fn stream(&self) -> (r: QuicStreamId)
        ensures
            r == self@.stream,
    {
        self.stream
    }

    /// The `h3` identifier of the stream.
    pub fn send_id(&self) -> (r: h3::quic::StreamId)
        ensures
            r == h3_stream_id_of(self@.stream@ as u64),
    {
        h3_stream(self.stream)
    }

    /// Hands data over to be written, as HTTP/3 gives it. Refused while
    /// earlier data is still being written, and on a finished stream.
    pub fn send_data(&mut self, data: h3::quic::WriteBuf<bytes::Bytes>) -> (r: Result<(), StreamError>)
        ensures
            old(self)@.pending is Some ==> r == Err::<(), StreamError>(
                StreamError::Connection(ConnError::SendBeforeReady),
            ) && final(self)@ == old(self)@,
            old(self)@.pending is None && old(self)@.finished ==> r == Err::<(), StreamError>(
                StreamError::Bridge(BridgeReason::WriteAfterFinish),
            ) && final(self)@ == old(self)@,
            old(self)@.pending is None && !old(self)@.finished ==> r is Ok && final(self)@ == (
            SendView { pending: Some(write_buf_contents(data)), ..old(self)@ }),
    {
        if self.writing.is_some() {
            return Err(StreamError::Connection(ConnError::SendBeforeReady));
        }
        if self.finished {
            return Err(StreamError::Bridge(BridgeReason::WriteAfterFinish));
        }
        self.writing = Some(data);
        Ok(())
    }

    /// The bytes to offer the connection next: the start of what is pending,
    /// never empty while something is pending.
    pub fn chunk(&self) -> (r: &[u8])
        ensures
            self@.pending matches Some(p) ==> r@.len() <= p.len() && r@ == p.take(r@.len() as int)
                && (p.len() > 0 ==> r@.len() > 0),
            self@.pending is None ==> r@.len() == 0,
    {
        match &self.writing {
            Some(b) => write_buf_chunk(b),
            None => {
                let v: &[u8] = &[];
                proof {
                    assert(v@.len() == 0);
                }
                v
            },
        }
    }

    /// Whether a write is under way.
    pub fn is_writing(&self) -> (r: bool)
        ensures
            r == self@.pending is Some,
    {
        self.writing.is_some()
    }

    /// How many pending bytes are left.
    pub fn remaining(&self) -> (r: usize)
        ensures
            self@.pending matches Some(p) ==> r == p.len(),
            self@.pending is None ==> r == 0,
    {
        match &self.writing {
            Some(b) => write_buf_remaining(b),
            None => 0,
        }
    }

    /// Whether the stream was finished or reset.
    pub fn is_finished(&self) -> (r: bool)
        ensures
            r == self@.finished,
    {
        self.finished
    }

    /// The connection accepted `n` more bytes of the pending data.
    fn advance(&mut self, n: usize)
        requires
            old(self)@.pending is Some,
            n <= old(self)@.pending->0.len(),
        ensures
            final(self)@ == (SendView { pending: Some(old(self)@.pending->0.skip(n as int)), ..old(self)@ }),
    {
        let mut b = self.writing.take().unwrap();
        write_buf_advance(&mut b, n);
        self.writing = Some(b);
    }

    /// The write is over: nothing is pending any more.
    fn clear(&mut self)
        ensures
            final(self)@ == (SendView { pending: None, ..old(self)@ }),
    {
        self.writing = None;
    }

    /// The stream was finished by its last datagram, or reset: nothing more
    /// can be written to it.
    pub fn mark_finished(&mut self)
        ensures
            final(self)@ == (SendView { finished: true, ..old(self)@ }),
    {
        self.finished = true;
    }
}

/// Which poll of the sending half is running.
#[derive(Clone, Copy, Debug, PartialEq, Eq, Structural)]
pub enum SendMode {
    /// Polling until the pending data has been accepted.
    Ready,
    /// Polling until the stream is finished.
    Finish,
}

/// Where a poll of the sending half stands.
#[derive(Clone, Copy, Debug, PartialEq, Eq, Structural)]
pub enum SendPhase {
    /// Waiting for the connection to be driven, before writing data.
    Driving,
    /// Waiting to learn whether a datagram can be queued, before writing data.
    CheckingRoom,
    /// Waiting for the connection to take data.
    Writing,
    /// Waiting for a datagram carrying data to be queued.
    Emitting,
    /// Waiting for the connection to be driven, before finishing.
    FinDriving,
    /// Waiting to learn whether a datagram can be queued, before finishing.
    FinCheckingRoom,
    /// Waiting for the connection to take the end of the stream.
    FinWriting,
    /// Waiting for the datagram carrying the end of the stream to be queued.
    FinEmitting,
    /// Over.
    Done,
}

/// What a poll of the sending half asks for next.
#[derive(Debug)]
pub enum SendAction {
    /// Drive the connection and report the result.
    Drive,
    /// Report whether a datagram can be queued.
    CheckRoom,
    /// Offer the start of the pending bytes ([`SendStreamState::chunk`]) to
    /// the connection, not ending the stream, and report what happened.
    WriteChunk,
    /// Offer no bytes to the connection, ending the stream, and report what happened.
    WriteFin,
    /// Queue the datagram just written, cut to `len` bytes, then report it queued.
    Emit { len: usize },
    /// The poll is pending. Where `rearm_timer` holds, rearm the connection's
    /// timer; where `wake` holds, ask to be polled again at once.
    Pending { rearm_timer: bool, wake: bool },
    /// The poll is over with this result.
    Ready(Result<(), StreamError>),
}

/// What the caller answers a poll of the sending half.
#[derive(Debug)]
pub enum SendEvent {
    /// The result of driving the connection.
    Driven(Result<(), ConnError>),
    /// Whether a datagram can be queued.
    Room(bool),
    /// What the connection did with the offered bytes.
    Written(Result<StreamWrite, crate::errors::TransportError>),
    /// The datagram was queued.
    Emitted,
}

/// One poll of the sending half of a stream.
pub struct SendPoll {
    pub mode: SendMode,
    pub phase: SendPhase,
    /// How many more datagrams this poll may fill with data.
    pub budget: usize,
    /// How many bytes the connection took in the datagram last written.
    pub accepted: usize,
    /// The length of the datagram last written.
    pub len: usize,
}

/// Whether an answer is the one a poll waits for.
pub open spec fn send_answers(phase: SendPhase, e: SendEvent) -> bool {
    match e {
        SendEvent::Driven(_) => phase == SendPhase::Driving || phase == SendPhase::FinDriving,
        SendEvent::Room(_) => phase == SendPhase::CheckingRoom || phase == SendPhase::FinCheckingRoom,
        SendEvent::Written(_) => phase == SendPhase::Writing || phase == SendPhase::FinWriting,
        SendEvent::Emitted => phase == SendPhase::Emitting || phase == SendPhase::FinEmitting,
    }
}

/// Where the data part of a poll goes when it finds no more data to write:
/// a poll for readiness is over, a poll for the end goes on to finish.
pub open spec fn after_data(mode: SendMode) -> (SendPhase, SendAction) {
    match mode {
        SendMode::Ready => (SendPhase::Done, SendAction::Ready(Ok(()))),
        SendMode::Finish => (SendPhase::FinDriving, SendAction::Drive),
    }
}

/// The next round of the data part: over when nothing is pending (a write of
/// nothing left is dropped), and otherwise a check for room.
pub open spec fn next_round(mode: SendMode, st: SendView) -> (SendPhase, SendAction, SendView) {
    match st.pending {
        Some(p) => if p.len() > 0 {
            (SendPhase::CheckingRoom, SendAction::CheckRoom, st)
        } else {
            (after_data(mode).0, after_data(mode).1, SendView { pending: None, ..st })
        },
        None => (after_data(mode).0, after_data(mode).1, st),
    }
}

/// A poll that is over without changing anything.
pub open spec fn pending_with_timer() -> SendAction {
    SendAction::Pending { rearm_timer: true, wake: false }
}

impl SendPoll {
    /// A poll that has budget left while it writes data.
    pub open spec fn wf(self) -> bool {
        &&& self.budget <= 64
        &&& (self.phase == SendPhase::Driving || self.phase == SendPhase::CheckingRoom || self.phase
            == SendPhase::Writing || self.phase == SendPhase::Emitting) ==> self.budget > 0
    }

    /// What a poll asks while it waits.
    pub open spec fn pending_action(self) -> SendAction {
        match self.phase {
            SendPhase::Driving | SendPhase::FinDriving => SendAction::Drive,
            SendPhase::CheckingRoom | SendPhase::FinCheckingRoom => SendAction::CheckRoom,
            SendPhase::Writing => SendAction::WriteChunk,
            SendPhase::FinWriting => SendAction::WriteFin,
            SendPhase::Emitting | SendPhase::FinEmitting => SendAction::Emit { len: self.len },
            SendPhase::Done => SendAction::Pending { rearm_timer: false, wake: false },
        }
    }

    /// A poll for readiness: it drives the connection, then offers the pending
    /// data until the connection took all of it.
    pub fn ready() -> (r: (SendPoll, SendAction))
        ensures
            r.0.mode == SendMode::Ready,
            r.0.phase == SendPhase::Driving,
            r.0.budget == 64,
            r.0.wf(),
            r.1 == SendAction::Drive,
    {
        (SendPoll { mode: SendMode::Ready, phase: SendPhase::Driving, budget: 64, accepted: 0, len: 0 }, SendAction::Drive)
    }

    /// A poll for the end of the stream: over at once on a finished stream;
    /// otherwise it first writes what is pending, as a poll for readiness
    /// does, then drives the connection and offers the end of the stream.
    pub fn finish(st: &SendStreamState) -> (r: (SendPoll, SendAction))
        ensures
            r.0.mode == SendMode::Finish,
            r.0.budget == 64,
            r.0.wf(),
            st@.finished ==> r.0.phase == SendPhase::Done && r.1 == SendAction::Ready(Ok(())),
            !st@.finished && st@.pending is Some ==> r.0.phase == SendPhase::Driving && r.1
                == SendAction::Drive,
            !st@.finished && st@.pending is None ==> r.0.phase == SendPhase::FinDriving && r.1
                == SendAction::Drive,
    {
        if st.is_finished() {
            (SendPoll { mode: SendMode::Finish, phase: SendPhase::Done, budget: 64, accepted: 0, len: 0 }, SendAction::Ready(Ok(())))
        } else if st.is_writing() {
            (SendPoll { mode: SendMode::Finish, phase: SendPhase::Driving, budget: 64, accepted: 0, len: 0 }, SendAction::Drive)
        } else {
            (SendPoll { mode: SendMode::Finish, phase: SendPhase::FinDriving, budget: 64, accepted: 0, len: 0 }, SendAction::Drive)
        }
    }

    fn repeat(&self) -> (a: SendAction)
        ensures
            a == self.pending_action(),
    {
        match self.phase {
            SendPhase::Driving | SendPhase::FinDriving => SendAction::Drive,
            SendPhase::CheckingRoom | SendPhase::FinCheckingRoom => SendAction::CheckRoom,
            SendPhase::Writing => SendAction::WriteChunk,
            SendPhase::FinWriting => SendAction::WriteFin,
            SendPhase::Emitting | SendPhase::FinEmitting => SendAction::Emit { len: self.len },
            SendPhase::Done => SendAction::Pending { rearm_timer: false, wake: false },
        }
    }

    /// The next round of the data part.
    fn round(&mut self, st: &mut SendStreamState) -> (a: SendAction)
        requires
            old(self).phase == SendPhase::Driving || old(self).phase == SendPhase::Emitting,
            old(self).budget > 0,
        ensures
            ({
                let (p, act, v) = next_round(old(self).mode, old(st)@);
                &&& final(self).phase == p
                &&& a == act
                &&& final(st)@ == v
                &&& final(self).mode == old(self).mode
                &&& final(self).budget == old(self).budget
                &&& final(self).len == old(self).len
                &&& final(self).accepted == old(self).accepted
            }),
    {
        let remaining = st.remaining();
        if st.is_writing() && remaining > 0 {
            self.phase = SendPhase::CheckingRoom;
            return SendAction::CheckRoom;
        }
        if st.is_writing() {
            st.clear();
        }
        match self.mode {
            SendMode::Ready => {
                self.phase = SendPhase::Done;
                SendAction::Ready(Ok(()))
            },
            SendMode::Finish => {
                self.phase = SendPhase::FinDriving;
                SendAction::Drive
            },
        }
    }

    /// Takes the caller's answer and says what to do next.
    ///
    /// Writing data: a failed drive ends the poll with the connection's
    /// error; with no room the poll is pending (timer rearmed); a stream the
    /// peer stopped, or a closed connection, ends the poll with that error;
    /// otherwise the pending bytes are offered, the datagram is queued and the
    /// bytes the connection took are dropped from what is pending; a
    /// connection that takes nothing now leaves the poll pending; after the
    /// budget of datagrams the poll is pending and asks to be polled again.
    /// When nothing is pending a poll for readiness is over, and a poll for
    /// the end goes on the same way with the end of the stream, which, once
    /// its datagram is queued, finishes the stream. A refusal of the QUIC
    /// stack ends the poll with it. An answer out of turn changes nothing.
    pub fn step(&mut self, st: &mut SendStreamState, conn: &mut ConnectionState, e: SendEvent) -> (a: SendAction)
        requires
            old(self).wf(),
            old(self).phase == SendPhase::Writing ==> (e matches SendEvent::Written(
                Ok(StreamWrite::Datagram { accepted, .. }),
            ) ==> old(st)@.pending is Some && accepted <= old(st)@.pending->0.len()),
            old(self).phase == SendPhase::Emitting ==> old(st)@.pending is Some
                && old(self).accepted <= old(st)@.pending->0.len(),
        ensures
            final(self).wf(),
            final(self).phase == SendPhase::Emitting ==> final(st)@.pending is Some
                && final(self).accepted <= final(st)@.pending->0.len(),
            final(conn)@ == old(conn)@,
            final(self).mode == old(self).mode,
            final(self).budget <= old(self).budget,
            final(st)@.stream == old(st)@.stream,
            old(st)@.finished ==> final(st)@.finished,
            !send_answers(old(self).phase, e) ==> {
                &&& *final(self) == *old(self)
                &&& final(st)@ == old(st)@
                &&& a == old(self).pending_action()
            },
            send_answers(old(self).phase, e) ==> match e {
                SendEvent::Driven(Err(err)) => {
                    &&& final(st)@ == old(st)@
                    &&& final(self).phase == SendPhase::Done
                    &&& a == SendAction::Ready(Err(StreamError::Connection(err)))
                },
                SendEvent::Driven(Ok(())) => {
                    &&& old(self).phase == SendPhase::Driving ==> ({
                        let (p, act, v) = next_round(old(self).mode, old(st)@);
                        final(self).phase == p && a == act && final(st)@ == v
                    })
                    &&& old(self).phase == SendPhase::FinDriving ==> final(self).phase
                        == SendPhase::FinCheckingRoom && a == SendAction::CheckRoom && final(st)@
                        == old(st)@
                },
                SendEvent::Room(false) => {
                    &&& final(st)@ == old(st)@
                    &&& final(self).phase == SendPhase::Done
                    &&& a == pending_with_timer()
                },
                SendEvent::Room(true) => {
                    let stopped = old(conn)@.stopped.contains_key(old(st)@.stream@);
                    &&& final(st)@ == old(st)@
                    &&& stopped ==> final(self).phase == SendPhase::Done && a == SendAction::Ready(
                        Err(StreamError::Terminated {
                            error_code: old(conn)@.stopped[old(st)@.stream@],
                        }),
                    )
                    &&& !stopped && old(conn)@.closed is Some ==> final(self).phase == SendPhase::Done
                        && a == SendAction::Ready(
                        Err(StreamError::Connection(spec_connection_error(old(conn)@))),
                    )
                    &&& !stopped && old(conn)@.closed is None ==> (if old(self).phase
                        == SendPhase::CheckingRoom {
                        final(self).phase == SendPhase::Writing && a == SendAction::WriteChunk
                    } else {
                        final(self).phase == SendPhase::FinWriting && a == SendAction::WriteFin
                    })
                },
                SendEvent::Written(Err(err)) => {
                    &&& final(st)@ == old(st)@
                    &&& final(self).phase == SendPhase::Done
                    &&& a == SendAction::Ready(Err(StreamError::Transport(err)))
                },
                SendEvent::Written(Ok(StreamWrite::Datagram { len, accepted })) => {
                    &&& final(st)@ == old(st)@
                    &&& final(self).phase == (if old(self).phase == SendPhase::Writing {
                        SendPhase::Emitting
                    } else {
                        SendPhase::FinEmitting
                    })
                    &&& final(self).len == len
                    &&& final(self).accepted == accepted
                    &&& final(self).budget == old(self).budget
                    &&& a == SendAction::Emit { len }
                },
                SendEvent::Written(Ok(_)) => {
                    &&& final(st)@ == old(st)@
                    &&& final(self).phase == SendPhase::Done
                    &&& a == pending_with_timer()
                },
                SendEvent::Emitted => {
                    &&& old(self).phase == SendPhase::FinEmitting ==> final(st)@ == (SendView {
                        finished: true,
                        ..old(st)@
                    }) && final(self).phase == SendPhase::Done && a == SendAction::Ready(Ok(()))
                    &&& old(self).phase == SendPhase::Emitting ==> ({
                        let advanced = SendView {
                            pending: Some(old(st)@.pending->0.skip(old(self).accepted as int)),
                            ..old(st)@
                        };
                        &&& final(self).budget == old(self).budget - 1
                        &&& final(self).budget == 0 ==> final(st)@ == advanced && final(self).phase
                            == SendPhase::Done && a == (SendAction::Pending {
                            rearm_timer: false,
                            wake: true,
                        })
                        &&& final(self).budget > 0 ==> ({
                            let (p, act, v) = next_round(old(self).mode, advanced);
                            final(self).phase == p && a == act && final(st)@ == v
                        })
                    })
                },
            },
    {
        match e {
            SendEvent::Driven(driven) => {
                if self.phase != SendPhase::Driving && self.phase != SendPhase::FinDriving {
                    return self.repeat();
                }
                match driven {
                    Err(err) => {
                        self.phase = SendPhase::Done;
                        SendAction::Ready(Err(StreamError::Connection(err)))
                    },
                    Ok(()) => {
                        if self.phase == SendPhase::Driving {
                            self.round(st)
                        } else {
                            self.phase = SendPhase::FinCheckingRoom;
                            SendAction::CheckRoom
                        }
                    },
                }
            },
            SendEvent::Room(room) => {
                if self.phase != SendPhase::CheckingRoom && self.phase != SendPhase::FinCheckingRoom {
                    return self.repeat();
                }
                if !room {
                    self.phase = SendPhase::Done;
                    return SendAction::Pending { rearm_timer: true, wake: false };
                }
                match conn.send_gate(st.stream(), true) {
                    SendGate::Refused(err) => {
                        self.phase = SendPhase::Done;
                        SendAction::Ready(Err(err))
                    },
                    SendGate::Blocked => {
                        self.phase = SendPhase::Done;
                        SendAction::Pending { rearm_timer: true, wake: false }
                    },
                    SendGate::Proceed => {
                        if self.phase == SendPhase::CheckingRoom {
                            self.phase = SendPhase::Writing;
                            SendAction::WriteChunk
                        } else {
                            self.phase = SendPhase::FinWriting;
                            SendAction::WriteFin
                        }
                    },
                }
            },
            SendEvent::Written(outcome) => {
                if self.phase != SendPhase::Writing && self.phase != SendPhase::FinWriting {
                    return self.repeat();
                }
                match outcome {
                    Err(err) => {
                        self.phase = SendPhase::Done;
                        SendAction::Ready(Err(StreamError::Transport(err)))
                    },
                    Ok(StreamWrite::Datagram { len, accepted }) => {
                        self.phase = if self.phase == SendPhase::Writing {
                            SendPhase::Emitting
                        } else {
                            SendPhase::FinEmitting
                        };
                        self.len = len;
                        self.accepted = accepted;
                        SendAction::Emit { len }
                    },
                    Ok(_) => {
                        self.phase = SendPhase::Done;
                        SendAction::Pending { rearm_timer: true, wake: false }
                    },
                }
            },
            SendEvent::Emitted => {
                if self.phase != SendPhase::Emitting && self.phase != SendPhase::FinEmitting {
                    return self.repeat();
                }
                if self.phase == SendPhase::FinEmitting {
                    st.mark_finished();
                    self.phase = SendPhase::Done;
                    return SendAction::Ready(Ok(()));
                }
                st.advance(self.accepted);
                self.budget = self.budget - 1;
                if self.budget == 0 {
                    self.phase = SendPhase::Done;
                    SendAction::Pending { rearm_timer: false, wake: true }
                } else {
                    self.round(st)
                }
            },
        }
    }
}

/// What is left of data handed over once the connection took the given
/// numbers of bytes, in order.
pub open spec fn after_accepts(d: Seq<u8>, counts: Seq<usize>) -> Seq<u8>
    decreases counts.len(),
{
    if counts.len() == 0 {
        d
    } else {
        after_accepts(d, counts.drop_last()).skip(counts.last() as int)
    }
}

/// The bytes the connection took, in order, when it took the given numbers
/// of bytes of data handed over.
pub open spec fn accepted_bytes(d: Seq<u8>, counts: Seq<usize>) -> Seq<u8>
    decreases counts.len(),
{
    if counts.len() == 0 {
        Seq::empty()
    } else {
        accepted_bytes(d, counts.drop_last()) + after_accepts(d, counts.drop_last()).take(
            counts.last() as int,
        )
    }
}

/// Whether each number of bytes taken is no more than what was left then,
/// as [`SendPoll::step`] requires of every datagram the connection writes.
pub open spec fn accepts_fit(d: Seq<u8>, counts: Seq<usize>) -> bool
    decreases counts.len(),
{
    if counts.len() == 0 {
        true
    } else {
        accepts_fit(d, counts.drop_last()) && counts.last() <= after_accepts(
            d,
            counts.drop_last(),
        ).len()
    }
}

/// No data is lost, duplicated or reordered on its way out: whatever the
/// connection took of data handed over, the bytes it took followed by what
/// is still pending are that data. So the bytes taken are a prefix of it,
/// and all of it once nothing is pending, which is when a poll for
/// readiness is answered.
pub proof fn lemma_accepted_bytes_are_a_prefix(d: Seq<u8>, counts: Seq<usize>)
    requires
        accepts_fit(d, counts),
    ensures
        accepted_bytes(d, counts) + after_accepts(d, counts) == d,
        after_accepts(d, counts).len() == 0 ==> accepted_bytes(d, counts) == d,
    decreases counts.len(),
{
    if counts.len() > 0 {
        let prev = counts.drop_last();
        lemma_accepted_bytes_are_a_prefix(d, prev);
        let r = after_accepts(d, prev);
        let n = counts.last() as int;
        assert(r.take(n) + r.skip(n) =~= r);
        assert(accepted_bytes(d, counts) + after_accepts(d, counts) =~= accepted_bytes(d, prev)
            + (r.take(n) + r.skip(n)));
    }
    assert(accepted_bytes(d, counts) + after_accepts(d, counts) =~= d);
    if after_accepts(d, counts).len() == 0 {
        assert(accepted_bytes(d, counts) + after_accepts(d, counts) =~= accepted_bytes(d, counts));
    }
}

} // verus!
