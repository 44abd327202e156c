//! Values that flow into the sender and the notices it hands to reporters.
use crate::channel::Sender;
use vstd::prelude::*;

verus! {

/// Identifier of one logical stream multiplexed over the connection.
pub type Stream = i16;

/// One write unit: the bytes are written to the socket as they are.
pub type Payload = Vec<u8>;

/// What producers enqueue into the sender.
#[derive(Debug)]
pub enum Event {
    Payload { stream: Stream, payload: Payload, reporter_id: u8 },
}

/// Outcome of one payload write, correlated by its stream: `Written` when all
/// of its bytes reached the socket, `Failed` when the write returned an error.
#[derive(PartialEq, Eq, Structural, Clone, Copy, Debug)]
pub enum StreamStatus {
    Written(Stream),
    Failed(Stream),
}

/// A notification that the sender owes to one reporter.
#[derive(PartialEq, Eq, Structural, Clone, Copy, Debug)]
pub enum Notice {
    /// The outcome of a payload that the reporter owns.
    Status { reporter_id: u8, status: StreamStatus },
    /// A replacement sender now serves the session (sent with its transmit handle).
    New { reporter_id: u8, session_id: usize },
    /// The session's connection is closed: no more status from this sender.
    CheckPoint { reporter_id: u8, session_id: usize },
}

impl Event {
    /// Builds a payload event.
    pub fn payload(stream: Stream, payload: Payload, reporter_id: u8) -> (r: Event)
        ensures
            r == (Event::Payload { stream, payload, reporter_id }),
    {
        Event::Payload { stream, payload, reporter_id }
    }
}

/// The status notice for a finished write of a payload of `stream`.
pub open spec fn status_notice(reporter_id: u8, stream: Stream, ok: bool) -> Notice {
    Notice::Status {
        reporter_id,
        status: if ok { StreamStatus::Written(stream) } else { StreamStatus::Failed(stream) },
    }
}

/// The checkpoint notices of a session, one per reporter, in registry order.
pub open spec fn checkpoints(reporters: Seq<u8>, session_id: usize) -> Seq<Notice> {
    reporters.map_values(|r: u8| Notice::CheckPoint { reporter_id: r, session_id })
}

/// The announcements of a replacement sender, one per reporter, in registry order.
pub open spec fn announcements_of(reporters: Seq<u8>, session_id: usize) -> Seq<Notice> {
    reporters.map_values(|r: u8| Notice::New { reporter_id: r, session_id })
}

} // verus!

verus! {

/// The session lifecycle as reporters see it.
pub enum Session {
    /// A (replacement) sender serves the session; payloads go to this handle.
    New(usize, Sender),
    /// The session's connection is closed.
    CheckPoint(usize),
}

/// What a reporter receives from the sender.
pub enum ReporterEvent {
    StreamStatus(StreamStatus),
    Session(Session),
}

} // verus!

verus! {

/// The reporter that a notice is for.
pub open spec fn recipient(n: Notice) -> u8 {
    match n {
        Notice::Status { reporter_id, .. } => reporter_id,
        Notice::New { reporter_id, .. } => reporter_id,
        Notice::CheckPoint { reporter_id, .. } => reporter_id,
    }
}

impl Notice {
    /// The reporter that this notice is for.
    pub fn reporter_id(&self) -> (r: u8)
        ensures
            r == recipient(*self),
    {
        match self {
            Notice::Status { reporter_id, .. } => *reporter_id,
            Notice::New { reporter_id, .. } => *reporter_id,
            Notice::CheckPoint { reporter_id, .. } => *reporter_id,
        }
    }
}

/// The message that delivers notice `n` to its reporter. An announcement
/// hands out a further handle to the queue of `tx`, so it has none without
/// one; every other notice needs no handle.
pub fn reporter_event(n: Notice, tx: Option<&Sender>) -> (r: Option<ReporterEvent>)
    ensures
        match n {
            Notice::Status { status, .. } => r == Some(ReporterEvent::StreamStatus(status)),
            Notice::New { session_id, .. } => {
                &&& r is Some <==> tx is Some
                &&& r is Some ==> {
                    &&& r->0 is Session
                    &&& r->0->Session_0 is New
                    &&& r->0->Session_0->New_0 == session_id
                }
            },
            Notice::CheckPoint { session_id, .. } => r == Some(
                ReporterEvent::Session(Session::CheckPoint(session_id)),
            ),
        },
{
    match n {
        Notice::Status { status, .. } => Some(ReporterEvent::StreamStatus(status)),
        Notice::New { session_id, .. } => match tx {
            Some(tx) => Some(ReporterEvent::Session(Session::New(session_id, tx.clone()))),
            None => None,
        },
        Notice::CheckPoint { session_id, .. } => Some(
            ReporterEvent::Session(Session::CheckPoint(session_id)),
        ),
    }
}

} // verus!
