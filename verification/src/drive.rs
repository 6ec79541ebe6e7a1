//! The work a connection does on every poll, as two state machines: one that
//! feeds received datagrams to the connection, handles its timer and flushes
//! what it has to send, and one that flushes. Each step takes what the QUIC
//! stack answered and says what to ask it next.
use vstd::prelude::*;
use crate::connection::{
    apply_all, count_credits, spec_connection_error, ConnectionState, ConnectionView,
    StreamCredit, StreamCredits,
};
use crate::errors::{spec_close_error, CloseReason, ConnError, TransportError};
use crate::events::{ExpiryOutcome, Observed, ReadOutcome, WriteOutcome};

verus! {

/// The most datagrams one poll writes before it yields.
pub const MAX_DATAGRAMS_PER_POLL: usize = 64usize;

/// The size of the buffer a datagram is written into.
pub const MAX_DATAGRAM: usize = 1500usize;

/// Where a flush stands.
#[derive(Clone, Copy, Debug, PartialEq, Eq, Structural)]
pub enum FlushPhase {
    /// Waiting to learn whether a datagram can be queued.
    CheckingRoom,
    /// Waiting for the connection to write a datagram.
    Writing,
    /// Waiting for a written datagram to be queued.
    Emitting,
    /// Over.
    Done,
}

/// What a flush asks for next.
#[derive(Debug)]
pub enum FlushAction {
    /// Report whether a datagram can be queued.
    CheckRoom,
    /// Ask the connection for a datagram.
    Write,
    /// Queue the datagram just written, cut to `len` bytes, then report it queued.
    Emit { len: usize },
    /// The flush is over with this result; where `release` holds, the
    /// connection failed and is to be released.
    Done { result: Result<(), ConnError>, release: bool },
}

/// What the caller answers a flush.
#[derive(Debug)]
pub enum FlushEvent {
    /// Whether a datagram can be queued.
    Room(bool),
    /// What the connection did when asked for a datagram.
    Written(Result<WriteOutcome, TransportError>),
    /// The datagram was queued.
    Emitted,
}

/// A flush of what a connection has to send: at most
/// [`MAX_DATAGRAMS_PER_POLL`] datagrams, stopping when none can be queued,
/// when the connection has nothing it can send, or when it fails.
pub struct Flush {
    pub phase: FlushPhase,
    /// How many more datagrams this flush may queue.
    pub budget: usize,
    /// The length of the datagram last written.
    pub len: usize,
}

/// Whether an answer is the one a flush waits for.
pub open spec fn flush_answers(phase: FlushPhase, e: FlushEvent) -> bool {
    match e {
        FlushEvent::Room(_) => phase == FlushPhase::CheckingRoom,
        FlushEvent::Written(_) => phase == FlushPhase::Writing,
        FlushEvent::Emitted => phase == FlushPhase::Emitting,
    }
}

impl Flush {
    /// A flush that has budget left unless it is over.
    pub open spec fn wf(self) -> bool {
        &&& self.budget <= MAX_DATAGRAMS_PER_POLL
        &&& self.phase != FlushPhase::Done ==> self.budget > 0
    }

    /// A flush that may queue [`MAX_DATAGRAMS_PER_POLL`] datagrams, and what it asks first.
    pub fn start() -> (r: (Flush, FlushAction))
        ensures
            r.0.phase == FlushPhase::CheckingRoom,
            r.0.budget == MAX_DATAGRAMS_PER_POLL,
            r.0.wf(),
            r.1 == FlushAction::CheckRoom,
    {
        (
            Flush { phase: FlushPhase::CheckingRoom, budget: MAX_DATAGRAMS_PER_POLL, len: 0 },
            FlushAction::CheckRoom,
        )
    }

    /// What a flush asks while it waits.
    pub open spec fn pending_action(self) -> FlushAction {
        match self.phase {
            FlushPhase::CheckingRoom => FlushAction::CheckRoom,
            FlushPhase::Writing => FlushAction::Write,
            FlushPhase::Emitting => FlushAction::Emit { len: self.len },
            FlushPhase::Done => FlushAction::Done { result: Ok(()), release: false },
        }
    }

    /// Takes the caller's answer and says what to do next. A datagram the
    /// connection writes is queued; the flush ends without error when no
    /// datagram can be queued, when the connection has nothing it can send,
    /// or once the budget is spent, and with the connection's failure (which
    /// the connection records) when writing fails.
    pub fn step(&mut self, conn: &mut ConnectionState, e: FlushEvent) -> (a: FlushAction)
        requires
            old(self).wf(),
        ensures
            final(self).wf(),
            final(self).budget <= old(self).budget,
            !flush_answers(old(self).phase, e) ==> {
                &&& *final(self) == *old(self)
                &&& final(conn)@ == old(conn)@
                &&& a == old(self).pending_action()
            },
            flush_answers(old(self).phase, e) ==> match e {
                FlushEvent::Room(room) => {
                    &&& final(conn)@ == old(conn)@
                    &&& room ==> final(self).phase == FlushPhase::Writing && a == FlushAction::Write
                        && final(self).budget == old(self).budget
                    &&& !room ==> final(self).phase == FlushPhase::Done && a == FlushAction::Done {
                        result: Ok(()),
                        release: false,
                    }
                },
                FlushEvent::Written(Ok(WriteOutcome::Datagram { len })) => {
                    &&& final(conn)@ == old(conn)@
                    &&& final(self).phase == FlushPhase::Emitting
                    &&& final(self).budget == old(self).budget
                    &&& final(self).len == len
                    &&& a == FlushAction::Emit { len }
                },
                FlushEvent::Written(Ok(_)) => {
                    &&& final(conn)@ == old(conn)@
                    &&& final(self).phase == FlushPhase::Done
                    &&& a == FlushAction::Done { result: Ok(()), release: false }
                },
                FlushEvent::Written(Err(err)) => {
                    &&& final(conn)@ == (ConnectionView {
                        closed: Some(ConnError::Transport(err)),
                        ..old(conn)@
                    })
                    &&& final(self).phase == FlushPhase::Done
                    &&& a == FlushAction::Done {
                        result: Err(ConnError::Transport(err)),
                        release: true,
                    }
                },
                FlushEvent::Emitted => {
                    &&& final(conn)@ == old(conn)@
                    &&& final(self).budget == old(self).budget - 1
                    &&& final(self).budget > 0 ==> final(self).phase == FlushPhase::CheckingRoom
                        && a == FlushAction::CheckRoom
                    &&& final(self).budget == 0 ==> final(self).phase == FlushPhase::Done && a
                        == FlushAction::Done { result: Ok(()), release: false }
                },
            },
    {
        match e {
            FlushEvent::Room(room) => {
                if self.phase != FlushPhase::CheckingRoom {
                    return self.repeat();
                }
                if room {
                    self.phase = FlushPhase::Writing;
                    FlushAction::Write
                } else {
                    self.phase = FlushPhase::Done;
                    FlushAction::Done { result: Ok(()), release: false }
                }
            },
            FlushEvent::Written(outcome) => {
                if self.phase != FlushPhase::Writing {
                    return self.repeat();
                }
                match outcome {
                    Ok(WriteOutcome::Datagram { len }) => {
                        self.phase = FlushPhase::Emitting;
                        self.len = len;
                        FlushAction::Emit { len }
                    },
                    Ok(_) => {
                        self.phase = FlushPhase::Done;
                        FlushAction::Done { result: Ok(()), release: false }
                    },
                    Err(err) => {
                        let failure = conn.mark_transport_error(err);
                        self.phase = FlushPhase::Done;
                        FlushAction::Done { result: Err(failure), release: true }
                    },
                }
            },
            FlushEvent::Emitted => {
                if self.phase != FlushPhase::Emitting {
                    return self.repeat();
                }
                self.budget = self.budget - 1;
                if self.budget > 0 {
                    self.phase = FlushPhase::CheckingRoom;
                    FlushAction::CheckRoom
                } else {
                    self.phase = FlushPhase::Done;
                    FlushAction::Done { result: Ok(()), release: false }
                }
            },
        }
    }

    /// What the flush asks again when it was answered out of turn.
    fn repeat(&self) -> (a: FlushAction)
        ensures
            a == self.pending_action(),
    {
        match self.phase {
            FlushPhase::CheckingRoom => FlushAction::CheckRoom,
            FlushPhase::Writing => FlushAction::Write,
            FlushPhase::Emitting => FlushAction::Emit { len: self.len },
            FlushPhase::Done => FlushAction::Done { result: Ok(()), release: false },
        }
    }
}

/// Where a drive of the connection stands.
#[derive(Clone, Copy, Debug, PartialEq, Eq, Structural)]
pub enum DrivePhase {
    /// Not started: waiting for the time of the poll.
    Starting,
    /// Feeding received datagrams to the connection.
    Reading,
    /// Waiting for what the connection observed while reading.
    CollectingInbound,
    /// Waiting for the connection's next deadline.
    CheckingExpiry,
    /// Waiting for the connection to handle its expired timer.
    Expiring,
    /// Waiting for what the connection observed while handling its timer.
    CollectingExpiry,
    /// Waiting for a flush of what the connection has to send.
    Flushing,
    /// Over.
    Done,
}

/// What a drive asks for next.
#[derive(Debug)]
pub enum DriveAction {
    /// Report the time of the poll.
    Begin,
    /// Feed the next received datagram to the connection, and report what
    /// happened, or that none is left.
    ReadNext,
    /// Report what the connection observed.
    Collect,
    /// Report the connection's next deadline.
    QueryDeadline,
    /// Let the connection handle its timer at this time, and report what happened.
    HandleExpiry { now: u64 },
    /// Flush what the connection has to send, and report the result.
    Flush,
    /// The drive succeeded: rearm the timer.
    Finish,
    /// The drive failed with this error.
    Fail(ConnError),
}

/// What the caller answers a drive.
#[derive(Debug)]
pub enum DriveEvent {
    /// The time of the poll.
    Begin { now: u64 },
    /// What the connection made of the next received datagram, or `None` when none is left.
    Inbound(Option<Result<ReadOutcome, TransportError>>),
    /// What the connection observed.
    Observed(Vec<Observed>),
    /// The connection's next deadline.
    Deadline(Option<u64>),
    /// What the connection did when its timer expired.
    Expired(Result<ExpiryOutcome, TransportError>),
    /// The result of the flush.
    Flushed(Result<(), ConnError>),
}

/// One step of a drive: what to do next, by how much to raise the peer's
/// stream limits, and whether the connection is to be released because it
/// closed in this step.
#[derive(Debug)]
pub struct DriveStep {
    pub action: DriveAction,
    pub credits: StreamCredits,
    pub release: bool,
}

/// The work one poll does on a connection: feed it every received datagram,
/// take what it observed into account, let it handle an expired timer, flush
/// what it has to send. The drive fails as soon as the connection is closed
/// or the QUIC stack fails.
pub struct Drive {
    pub phase: DrivePhase,
    /// The time of the poll.
    pub now: u64,
}

/// Whether an answer is the one a drive waits for.
pub open spec fn drive_answers(phase: DrivePhase, e: DriveEvent) -> bool {
    match e {
        DriveEvent::Begin { .. } => phase == DrivePhase::Starting,
        DriveEvent::Inbound(_) => phase == DrivePhase::Reading,
        DriveEvent::Observed(_) => phase == DrivePhase::CollectingInbound || phase
            == DrivePhase::CollectingExpiry,
        DriveEvent::Deadline(_) => phase == DrivePhase::CheckingExpiry,
        DriveEvent::Expired(_) => phase == DrivePhase::Expiring,
        DriveEvent::Flushed(_) => phase == DrivePhase::Flushing,
    }
}

/// No stream limit is raised.
pub open spec fn no_credits() -> StreamCredits {
    StreamCredits { bidi: 0, uni: 0 }
}

/// A drive step that raises no limit and releases nothing.
pub open spec fn plain_step(action: DriveAction) -> DriveStep {
    DriveStep { action, credits: no_credits(), release: false }
}

/// Whether a datagram read leaves the connection open to more reads.
pub open spec fn read_continues(o: ReadOutcome) -> bool {
    match o {
        ReadOutcome::Processed | ReadOutcome::SendRetry | ReadOutcome::DropSilently => true,
        _ => false,
    }
}

/// The close reason a read that ends the connection carries.
pub open spec fn read_close_reason(o: ReadOutcome) -> CloseReason {
    match o {
        ReadOutcome::Draining(r) => r,
        ReadOutcome::Closing(r) => r,
        _ => CloseReason::Dropped,
    }
}

/// What a close recorded by the drive does to the connection: nothing when
/// it was closed already.
pub open spec fn closing(v: ConnectionView, timeout: bool, reason: CloseReason) -> ConnectionView {
    if v.closed is Some {
        v
    } else {
        ConnectionView { closed: Some(spec_close_error(timeout, reason)), ..v }
    }
}

impl Drive {
    /// A drive that waits for the time of the poll.
    pub fn start() -> (r: (Drive, DriveAction))
        ensures
            r.0.phase == DrivePhase::Starting,
            r.1 == DriveAction::Begin,
    {
        (Drive { phase: DrivePhase::Starting, now: 0 }, DriveAction::Begin)
    }

    /// What a drive asks while it waits.
    pub open spec fn pending_action(self) -> DriveAction {
        match self.phase {
            DrivePhase::Starting => DriveAction::Begin,
            DrivePhase::Reading => DriveAction::ReadNext,
            DrivePhase::CollectingInbound => DriveAction::Collect,
            DrivePhase::CheckingExpiry => DriveAction::QueryDeadline,
            DrivePhase::Expiring => DriveAction::HandleExpiry { now: self.now },
            DrivePhase::CollectingExpiry => DriveAction::Collect,
            DrivePhase::Flushing => DriveAction::Flush,
            DrivePhase::Done => DriveAction::Finish,
        }
    }

    fn repeat(&self) -> (r: DriveStep)
        ensures
            r == plain_step(self.pending_action()),
    {
        let action = match self.phase {
            DrivePhase::Starting => DriveAction::Begin,
            DrivePhase::Reading => DriveAction::ReadNext,
            DrivePhase::CollectingInbound => DriveAction::Collect,
            DrivePhase::CheckingExpiry => DriveAction::QueryDeadline,
            DrivePhase::Expiring => DriveAction::HandleExpiry { now: self.now },
            DrivePhase::CollectingExpiry => DriveAction::Collect,
            DrivePhase::Flushing => DriveAction::Flush,
            DrivePhase::Done => DriveAction::Finish,
        };
        DriveStep { action, credits: StreamCredits { bidi: 0, uni: 0 }, release: false }
    }

    /// Takes what the connection observed into account, then fails if it is
    /// closed and otherwise moves on.
    fn after_collect(&mut self, conn: &mut ConnectionState, events: Vec<Observed>, next: DrivePhase) -> (r: DriveStep)
        requires
            next == DrivePhase::CheckingExpiry || next == DrivePhase::Flushing,
        ensures
            final(conn)@ == apply_all(old(conn)@, events@),
            r.credits.bidi == count_credits(old(conn)@.local, events@, StreamCredit::Bidi),
            r.credits.uni == count_credits(old(conn)@.local, events@, StreamCredit::Uni),
            !r.release,
            final(conn)@.closed is Some ==> final(self).phase == DrivePhase::Done && r.action
                == DriveAction::Fail(spec_connection_error(final(conn)@)),
            final(conn)@.closed is None ==> final(self).phase == next && r.action == (if next
                == DrivePhase::CheckingExpiry {
                DriveAction::QueryDeadline
            } else {
                DriveAction::Flush
            }),
            final(self).now == old(self).now,
    {
        let credits = conn.collect(events);
        if conn.is_closed() {
            self.phase = DrivePhase::Done;
            DriveStep { action: DriveAction::Fail(conn.connection_error()), credits, release: false }
        } else {
            self.phase = next;
            let action = if next == DrivePhase::CheckingExpiry {
                DriveAction::QueryDeadline
            } else {
                DriveAction::Flush
            };
            DriveStep { action, credits, release: false }
        }
    }

    /// Takes the caller's answer and says what to do next.
    ///
    /// A drive of a closed connection fails at once with the connection's
    /// error. Otherwise it feeds every received datagram to the connection,
    /// stopping early when one closes it; takes what the connection observed
    /// into account; lets the connection handle its timer when the deadline
    /// has passed and takes what it then observed into account; and flushes.
    /// It fails with the connection's error whenever the connection is closed
    /// after a collection, and with the QUIC stack's failure (recorded by the
    /// connection) when a read or the timer fails. An answer out of turn
    /// changes nothing and the same thing is asked again.
    pub fn step(&mut self, conn: &mut ConnectionState, e: DriveEvent) -> (r: DriveStep)
        ensures
            !drive_answers(old(self).phase, e) ==> {
                &&& *final(self) == *old(self)
                &&& final(conn)@ == old(conn)@
                &&& r == plain_step(old(self).pending_action())
            },
            drive_answers(old(self).phase, e) ==> match e {
                DriveEvent::Begin { now } => {
                    &&& final(conn)@ == old(conn)@
                    &&& final(self).now == now
                    &&& old(conn)@.closed is Some ==> final(self).phase == DrivePhase::Done && r
                        == plain_step(DriveAction::Fail(spec_connection_error(old(conn)@)))
                    &&& old(conn)@.closed is None ==> final(self).phase == DrivePhase::Reading && r
                        == plain_step(DriveAction::ReadNext)
                },
                DriveEvent::Inbound(None) => {
                    &&& final(conn)@ == old(conn)@
                    &&& *final(self) == Drive { phase: DrivePhase::CollectingInbound, ..*old(self) }
                    &&& r == plain_step(DriveAction::Collect)
                },
                DriveEvent::Inbound(Some(Ok(o))) => {
                    &&& final(self).now == old(self).now
                    &&& read_continues(o) ==> final(conn)@ == old(conn)@ && final(self).phase
                        == DrivePhase::Reading && r == plain_step(DriveAction::ReadNext)
                    &&& !read_continues(o) ==> final(conn)@ == closing(
                        old(conn)@,
                        false,
                        read_close_reason(o),
                    ) && final(self).phase == DrivePhase::CollectingInbound && r == DriveStep {
                        action: DriveAction::Collect,
                        credits: no_credits(),
                        release: old(conn)@.closed is None,
                    }
                },
                DriveEvent::Inbound(Some(Err(err))) => {
                    &&& final(conn)@ == (ConnectionView {
                        closed: Some(ConnError::Transport(err)),
                        ..old(conn)@
                    })
                    &&& final(self).phase == DrivePhase::Done
                    &&& r == DriveStep {
                        action: DriveAction::Fail(ConnError::Transport(err)),
                        credits: no_credits(),
                        release: true,
                    }
                },
                DriveEvent::Observed(events) => {
                    let next = if old(self).phase == DrivePhase::CollectingInbound {
                        DrivePhase::CheckingExpiry
                    } else {
                        DrivePhase::Flushing
                    };
                    &&& final(conn)@ == apply_all(old(conn)@, events@)
                    &&& final(self).now == old(self).now
                    &&& r.credits.bidi == count_credits(old(conn)@.local, events@, StreamCredit::Bidi)
                    &&& r.credits.uni == count_credits(old(conn)@.local, events@, StreamCredit::Uni)
                    &&& !r.release
                    &&& final(conn)@.closed is Some ==> final(self).phase == DrivePhase::Done
                        && r.action == DriveAction::Fail(spec_connection_error(final(conn)@))
                    &&& final(conn)@.closed is None ==> final(self).phase == next && r.action == (
                    if next == DrivePhase::CheckingExpiry {
                        DriveAction::QueryDeadline
                    } else {
                        DriveAction::Flush
                    })
                },
                DriveEvent::Deadline(deadline) => {
                    let due = match deadline {
                        Some(d) => d <= old(self).now,
                        None => false,
                    };
                    &&& final(conn)@ == old(conn)@
                    &&& final(self).now == old(self).now
                    &&& due ==> final(self).phase == DrivePhase::Expiring && r == plain_step(
                        DriveAction::HandleExpiry { now: old(self).now },
                    )
                    &&& !due ==> final(self).phase == DrivePhase::Flushing && r == plain_step(
                        DriveAction::Flush,
                    )
                },
                DriveEvent::Expired(Ok(o)) => {
                    &&& final(self).now == old(self).now
                    &&& final(self).phase == DrivePhase::CollectingExpiry
                    &&& r.action == DriveAction::Collect
                    &&& r.credits == no_credits()
                    &&& match o {
                        ExpiryOutcome::Handled => final(conn)@ == old(conn)@ && !r.release,
                        ExpiryOutcome::IdleClose => final(conn)@ == closing(
                            old(conn)@,
                            true,
                            CloseReason::IdleTimeout,
                        ) && r.release == (old(conn)@.closed is None),
                        ExpiryOutcome::Terminal(reason) => final(conn)@ == closing(
                            old(conn)@,
                            false,
                            reason,
                        ) && r.release == (old(conn)@.closed is None),
                    }
                },
                DriveEvent::Expired(Err(err)) => {
                    &&& final(conn)@ == (ConnectionView {
                        closed: Some(ConnError::Transport(err)),
                        ..old(conn)@
                    })
                    &&& final(self).phase == DrivePhase::Done
                    &&& r == DriveStep {
                        action: DriveAction::Fail(ConnError::Transport(err)),
                        credits: no_credits(),
                        release: true,
                    }
                },
                DriveEvent::Flushed(result) => {
                    &&& final(conn)@ == old(conn)@
                    &&& final(self).phase == DrivePhase::Done
                    &&& match result {
                        Ok(()) => r == plain_step(DriveAction::Finish),
                        Err(err) => r == plain_step(DriveAction::Fail(err)),
                    }
                },
            },
    {
        let none = StreamCredits { bidi: 0, uni: 0 };
        if !self.answered_by(&e) {
            return self.repeat();
        }
        match e {
            DriveEvent::Begin { now } => {
                self.now = now;
                if conn.is_closed() {
                    self.phase = DrivePhase::Done;
                    DriveStep { action: DriveAction::Fail(conn.connection_error()), credits: none, release: false }
                } else {
                    self.phase = DrivePhase::Reading;
                    DriveStep { action: DriveAction::ReadNext, credits: none, release: false }
                }
            },
            DriveEvent::Inbound(None) => {
                self.phase = DrivePhase::CollectingInbound;
                DriveStep { action: DriveAction::Collect, credits: none, release: false }
            },
            DriveEvent::Inbound(Some(Ok(o))) => match o {
                ReadOutcome::Draining(reason) | ReadOutcome::Closing(reason) => {
                    let release = conn.mark_closed(false, reason);
                    self.phase = DrivePhase::CollectingInbound;
                    DriveStep { action: DriveAction::Collect, credits: none, release }
                },
                _ => DriveStep { action: DriveAction::ReadNext, credits: none, release: false },
            },
            DriveEvent::Inbound(Some(Err(err))) => {
                let failure = conn.mark_transport_error(err);
                self.phase = DrivePhase::Done;
                DriveStep { action: DriveAction::Fail(failure), credits: none, release: true }
            },
            DriveEvent::Observed(events) => {
                let next = if self.phase == DrivePhase::CollectingInbound {
                    DrivePhase::CheckingExpiry
                } else {
                    DrivePhase::Flushing
                };
                self.after_collect(conn, events, next)
            },
            DriveEvent::Deadline(deadline) => {
                let due = match deadline {
                    Some(d) => d <= self.now,
                    None => false,
                };
                if due {
                    self.phase = DrivePhase::Expiring;
                    DriveStep { action: DriveAction::HandleExpiry { now: self.now }, credits: none, release: false }
                } else {
                    self.phase = DrivePhase::Flushing;
                    DriveStep { action: DriveAction::Flush, credits: none, release: false }
                }
            },
            DriveEvent::Expired(Ok(o)) => {
                let release = match o {
                    ExpiryOutcome::Handled => false,
                    ExpiryOutcome::IdleClose => conn.mark_closed(true, CloseReason::IdleTimeout),
                    ExpiryOutcome::Terminal(reason) => conn.mark_closed(false, reason),
                };
                self.phase = DrivePhase::CollectingExpiry;
                DriveStep { action: DriveAction::Collect, credits: none, release }
            },
            DriveEvent::Expired(Err(err)) => {
                let failure = conn.mark_transport_error(err);
                self.phase = DrivePhase::Done;
                DriveStep { action: DriveAction::Fail(failure), credits: none, release: true }
            },
            DriveEvent::Flushed(result) => {
                self.phase = DrivePhase::Done;
                match result {
                    Ok(()) => DriveStep { action: DriveAction::Finish, credits: none, release: false },
                    Err(err) => DriveStep { action: DriveAction::Fail(err), credits: none, release: false },
                }
            },
        }
    }

    /// Whether an answer is the one this drive waits for.
    fn answered_by(&self, e: &DriveEvent) -> (r: bool)
        ensures
            r == drive_answers(self.phase, *e),
    {
        match e {
            DriveEvent::Begin { .. } => self.phase == DrivePhase::Starting,
            DriveEvent::Inbound(_) => self.phase == DrivePhase::Reading,
            DriveEvent::Observed(_) => self.phase == DrivePhase::CollectingInbound || self.phase
                == DrivePhase::CollectingExpiry,
            DriveEvent::Deadline(_) => self.phase == DrivePhase::CheckingExpiry,
            DriveEvent::Expired(_) => self.phase == DrivePhase::Expiring,
            DriveEvent::Flushed(_) => self.phase == DrivePhase::Flushing,
        }
    }
}

/// A read that ends the connection records the transport's own reason,
/// whether the connection is draining or closing; so a peer's application
/// close reaches HTTP/3 with the peer's code.
pub proof fn lemma_read_close_keeps_reason(v: ConnectionView, r: CloseReason, code: u64)
    ensures
        !read_continues(ReadOutcome::Draining(r)),
        !read_continues(ReadOutcome::Closing(r)),
        read_close_reason(ReadOutcome::Draining(r)) == r,
        read_close_reason(ReadOutcome::Closing(r)) == r,
        v.closed is None ==> closing(v, false, read_close_reason(ReadOutcome::Draining(CloseReason::Application(code)))).closed
            == Some(ConnError::ApplicationClose { error_code: code }),
        v.closed is None ==> closing(v, false, read_close_reason(ReadOutcome::Closing(CloseReason::Application(code)))).closed
            == Some(ConnError::ApplicationClose { error_code: code }),
{
}

} // verus!
