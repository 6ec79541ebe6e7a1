//! The receiving half of a stream, and the state machine that decides, for
//! each poll, what to hand HTTP/3.
use vstd::prelude::*;
use crate::buffers::{bytes_contents, bytes_len};
use crate::connection::{after_take, chunks_nonempty, lemma_read_keeps_chunks_nonempty, receive_of, with_receive, ConnectionState};
use crate::errors::{ConnError, StreamError, TransportError};
use crate::stream_id::{h3_stream, h3_stream_id_of, QuicStreamId};

verus! {

/// The receiving half of a stream as the bridge sees it.
pub struct RecvView {
    /// The stream.
    pub stream: QuicStreamId,
    /// Whether the end of the stream, or its reset, was handed out.
    pub finished: bool,
}

/// The receiving half of a stream.
pub struct RecvStreamState {
    stream: QuicStreamId,
    finished: bool,
}

impl View for RecvStreamState {
    type V = RecvView;

    closed spec fn view(&self) -> RecvView {
        RecvView { stream: self.stream, finished: self.finished }
    }
}

impl RecvStreamState {
    /// The receiving half of a stream on which nothing was read.
    pub fn new(stream: QuicStreamId) -> (r: RecvStreamState)
        ensures
            r@ == (RecvView { stream, finished: false }),
    {
        RecvStreamState { stream, finished: false }
    }

    /// The stream this half reads from.
    pub fn stream(&self) -> (r: QuicStreamId)
        ensures
            r == self@.stream,
    {
        self.stream
    }

    /// The `h3` identifier of the stream.
    pub fn recv_id(&self) -> (r: h3::quic::StreamId)
        ensures
            r == h3_stream_id_of(self@.stream@ as u64),
    {
        h3_stream(self.stream)
    }

    /// Whether the end of the stream, or its reset, was handed out.
    pub fn is_finished(&self) -> (r: bool)
        ensures
            r == self@.finished,
    {
        self.finished
    }
}

/// Where a poll of the receiving half stands.
#[derive(Clone, Copy, Debug, PartialEq, Eq, Structural)]
pub enum RecvPhase {
    /// Waiting for the connection to be driven.
    Driving,
    /// Waiting for the flow-control windows to be widened by what was read.
    Crediting,
    /// Waiting for a flush of what the connection has to send.
    Flushing,
    /// Over.
    Done,
}

/// What a poll of the receiving half asks for next.
#[derive(Debug)]
pub enum RecvAction {
    /// Drive the connection and report the result.
    Drive,
    /// Widen the stream's and the connection's flow-control windows by this
    /// many bytes, and report whether the stream's could be widened.
    Extend { consumed: u64 },
    /// Flush what the connection has to send, and report the result.
    Flush,
    /// Nothing to hand out yet.
    Pending,
    /// The poll is over: a chunk of data, the end of the stream, or an error.
    Ready(Result<Option<bytes::Bytes>, StreamError>),
}

/// What the caller answers a poll of the receiving half.
#[derive(Debug)]
pub enum RecvEvent {
    /// The result of driving the connection.
    Driven(Result<(), ConnError>),
    /// Whether the stream's flow-control window could be widened.
    Credited(Result<(), TransportError>),
    /// The result of the flush.
    Flushed(Result<(), ConnError>),
}

/// One poll of the receiving half of a stream.
pub struct RecvPoll {
    pub phase: RecvPhase,
    /// The chunk to hand out once the windows are widened.
    pub chunk: Option<bytes::Bytes>,
}

/// Whether an answer is the one a poll waits for.
pub open spec fn recv_answers(phase: RecvPhase, e: RecvEvent) -> bool {
    match e {
        RecvEvent::Driven(_) => phase == RecvPhase::Driving,
        RecvEvent::Credited(_) => phase == RecvPhase::Crediting,
        RecvEvent::Flushed(_) => phase == RecvPhase::Flushing,
    }
}

impl RecvPoll {
    /// What a poll asks while it waits.
    pub open spec fn pending_action(self) -> RecvAction {
        match self.phase {
            RecvPhase::Driving => RecvAction::Drive,
            RecvPhase::Crediting => RecvAction::Extend {
                consumed: match self.chunk {
                    Some(b) => bytes_contents(b).len() as u64,
                    None => 0,
                },
            },
            RecvPhase::Flushing => RecvAction::Flush,
            RecvPhase::Done => RecvAction::Pending,
        }
    }

    /// A poll of the receiving half: over at once, with the end of the
    /// stream, once the end or the reset was handed out; otherwise it drives
    /// the connection first.
    pub fn start(st: &RecvStreamState) -> (r: (RecvPoll, RecvAction))
        ensures
            r.0.chunk is None,
            st@.finished ==> r.0.phase == RecvPhase::Done && r.1 == RecvAction::Ready(Ok(None)),
            !st@.finished ==> r.0.phase == RecvPhase::Driving && r.1 == RecvAction::Drive,
    {
        if st.is_finished() {
            (RecvPoll { phase: RecvPhase::Done, chunk: None }, RecvAction::Ready(Ok(None)))
        } else {
            (RecvPoll { phase: RecvPhase::Driving, chunk: None }, RecvAction::Drive)
        }
    }

    fn repeat(&self) -> (a: RecvAction)
        ensures
            a == self.pending_action(),
    {
        match self.phase {
            RecvPhase::Driving => RecvAction::Drive,
            RecvPhase::Crediting => {
                let consumed = match &self.chunk {
                    Some(b) => bytes_len(b) as u64,
                    None => 0,
                };
                RecvAction::Extend { consumed }
            },
            RecvPhase::Flushing => RecvAction::Flush,
            RecvPhase::Done => RecvAction::Pending,
        }
    }

    /// Takes the caller's answer and says what to do next.
    ///
    /// After the drive, the oldest unread chunk of the stream is taken. If
    /// there was one: when the drive succeeded the flow-control windows are
    /// widened by its length and the connection flushed before the chunk is
    /// handed out (a failure of either ends the poll with it, and the chunk is
    /// dropped); when the drive failed the chunk is handed out at once. With
    /// no chunk left, a reset is reported with the peer's code, and the end of
    /// a stream as such, both only once; otherwise a failed drive is reported,
    /// and the poll is pending. An answer out of turn changes nothing.
    pub fn step(&mut self, st: &mut RecvStreamState, conn: &mut ConnectionState, e: RecvEvent) -> (a: RecvAction)
        requires
            old(self).phase == RecvPhase::Crediting || old(self).phase == RecvPhase::Flushing
                ==> old(self).chunk is Some,
        ensures
            final(self).phase == RecvPhase::Crediting || final(self).phase == RecvPhase::Flushing
                ==> final(self).chunk is Some,
            final(st)@.stream == old(st)@.stream,
            old(st)@.finished ==> final(st)@.finished,
            chunks_nonempty(old(conn)@) ==> chunks_nonempty(final(conn)@),
            !recv_answers(old(self).phase, e) ==> {
                &&& final(self).phase == old(self).phase
                &&& final(self).chunk == old(self).chunk
                &&& final(st)@ == old(st)@
                &&& final(conn)@ == old(conn)@
                &&& a == old(self).pending_action()
            },
            recv_answers(old(self).phase, e) ==> match e {
                RecvEvent::Driven(driven) => {
                    let id = old(st)@.stream@;
                    let rv = receive_of(old(conn)@, id);
                    &&& final(conn)@ == with_receive(old(conn)@, id, after_take(rv))
                    &&& chunks_nonempty(old(conn)@) && rv.chunks.len() > 0 ==> rv.chunks[0].len() > 0
                    &&& rv.chunks.len() > 0 && driven is Ok ==> {
                        &&& final(st)@ == old(st)@
                        &&& final(self).phase == RecvPhase::Crediting
                        &&& final(self).chunk matches Some(b) && bytes_contents(b) == rv.chunks[0]
                        &&& a == (RecvAction::Extend { consumed: rv.chunks[0].len() as u64 })
                    }
                    &&& rv.chunks.len() > 0 && driven is Err ==> {
                        &&& final(st)@ == old(st)@
                        &&& final(self).phase == RecvPhase::Done
                        &&& a matches RecvAction::Ready(Ok(Some(b))) && bytes_contents(b)
                            == rv.chunks[0]
                    }
                    &&& rv.chunks.len() == 0 && rv.reset is Some ==> {
                        &&& final(st)@ == (RecvView { finished: true, ..old(st)@ })
                        &&& final(self).phase == RecvPhase::Done
                        &&& a == RecvAction::Ready(
                            Err(StreamError::Terminated { error_code: rv.reset->0 }),
                        )
                    }
                    &&& rv.chunks.len() == 0 && rv.reset is None && rv.finished ==> {
                        &&& final(st)@ == (RecvView { finished: true, ..old(st)@ })
                        &&& final(self).phase == RecvPhase::Done
                        &&& a == RecvAction::Ready(Ok(None))
                    }
                    &&& rv.chunks.len() == 0 && rv.reset is None && !rv.finished ==> {
                        &&& final(st)@ == old(st)@
                        &&& final(self).phase == RecvPhase::Done
                        &&& match driven {
                            Ok(()) => a == RecvAction::Pending,
                            Err(err) => a == RecvAction::Ready(
                                Err(StreamError::Connection(err)),
                            ),
                        }
                    }
                },
                RecvEvent::Credited(Ok(())) => {
                    &&& final(st)@ == old(st)@
                    &&& final(conn)@ == old(conn)@
                    &&& final(self).phase == RecvPhase::Flushing
                    &&& final(self).chunk == old(self).chunk
                    &&& a == RecvAction::Flush
                },
                RecvEvent::Credited(Err(err)) => {
                    &&& final(st)@ == old(st)@
                    &&& final(conn)@ == old(conn)@
                    &&& final(self).phase == RecvPhase::Done
                    &&& a == RecvAction::Ready(Err(StreamError::Transport(err)))
                },
                RecvEvent::Flushed(Ok(())) => {
                    &&& final(st)@ == old(st)@
                    &&& final(conn)@ == old(conn)@
                    &&& final(self).phase == RecvPhase::Done
                    &&& a == RecvAction::Ready(Ok(old(self).chunk))
                },
                RecvEvent::Flushed(Err(err)) => {
                    &&& final(st)@ == old(st)@
                    &&& final(conn)@ == old(conn)@
                    &&& final(self).phase == RecvPhase::Done
                    &&& a == RecvAction::Ready(Err(StreamError::Connection(err)))
                },
            },
    {
        match e {
            RecvEvent::Driven(driven) => {
                if self.phase != RecvPhase::Driving {
                    return self.repeat();
                }
                proof {
                    if chunks_nonempty(conn@) {
                        lemma_read_keeps_chunks_nonempty(conn@, st@.stream@);
                    }
                }
                let progress = conn.take_chunk(st.stream());
                match progress.chunk {
                    Some(bytes) => {
                        if driven.is_ok() {
                            let consumed = bytes_len(&bytes) as u64;
                            self.chunk = Some(bytes);
                            self.phase = RecvPhase::Crediting;
                            RecvAction::Extend { consumed }
                        } else {
                            self.phase = RecvPhase::Done;
                            RecvAction::Ready(Ok(Some(bytes)))
                        }
                    },
                    None => {
                        self.phase = RecvPhase::Done;
                        if let Some(error_code) = progress.reset {
                            st.finished = true;
                            RecvAction::Ready(Err(StreamError::Terminated { error_code }))
                        } else if progress.finished {
                            st.finished = true;
                            RecvAction::Ready(Ok(None))
                        } else {
                            match driven {
                                Ok(()) => RecvAction::Pending,
                                Err(err) => RecvAction::Ready(Err(StreamError::Connection(err))),
                            }
                        }
                    },
                }
            },
            RecvEvent::Credited(result) => {
                if self.phase != RecvPhase::Crediting {
                    return self.repeat();
                }
                match result {
                    Ok(()) => {
                        self.phase = RecvPhase::Flushing;
                        RecvAction::Flush
                    },
                    Err(err) => {
                        self.phase = RecvPhase::Done;
                        RecvAction::Ready(Err(StreamError::Transport(err)))
                    },
                }
            },
            RecvEvent::Flushed(result) => {
                if self.phase != RecvPhase::Flushing {
                    return self.repeat();
                }
                self.phase = RecvPhase::Done;
                match result {
                    Ok(()) => RecvAction::Ready(Ok(self.chunk.take())),
                    Err(err) => RecvAction::Ready(Err(StreamError::Connection(err))),
                }
            },
        }
    }
}

} // verus!
