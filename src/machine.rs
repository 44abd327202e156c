//! The decisions of the sender's run loop, as a state machine. The caller
//! performs each action (await the next event, write bytes, shut the socket
//! down) and feeds its outcome back as the next input.
use crate::event::{
    announcements_of, checkpoints, status_notice, Event, Notice, Payload, Stream, StreamStatus,
};
use vstd::prelude::*;

verus! {

/// Where the run loop stands.
#[derive(PartialEq, Eq, Structural, Clone, Copy, Debug)]
pub enum Phase {
    /// Awaiting the next event from the queue.
    Receiving,
    /// Awaiting the outcome of the write of a payload of `stream`.
    Writing { stream: Stream, reporter_id: u8 },
    /// The queue is exhausted; awaiting the socket shutdown.
    ShuttingDown,
    /// Checkpoints are out; the loop has returned.
    Terminated,
}

/// What the run loop learns from the outside.
pub enum Input {
    /// The queue yielded an event.
    Received(Event),
    /// The queue yields no more events.
    QueueEnded,
    /// The pending write finished: `true` on success.
    Written(bool),
    /// The socket has been shut down.
    ShutDown,
}

/// What the run loop asks of the outside next.
pub enum Action {
    /// Await the next event and feed it back (or the end of the queue).
    Receive,
    /// Write these bytes to the socket in full and feed back the outcome.
    Write(Payload),
    /// Shut the socket down and feed back its completion.
    Shutdown,
    /// Nothing more: the run loop is over.
    Finish,
}

/// The result of one step: notices to deliver, whether to close the queue to
/// producers, and the next action.
pub struct Output {
    pub notices: Vec<Notice>,
    pub close_queue: bool,
    pub action: Action,
}

/// The abstract state of the run loop, with the history of what it did.
pub struct LoopModel {
    pub session_id: usize,
    pub reporters: Seq<u8>,
    pub phase: Phase,
    /// A write has failed: later events are discarded.
    pub failed: bool,
    /// The bytes handed out for writing, in order.
    pub written: Seq<Seq<u8>>,
    /// The stream and reporter of each payload handed out for writing, in order.
    pub handled: Seq<(Stream, u8)>,
    /// Every notice emitted, in order.
    pub sent: Seq<Notice>,
}

/// The state of a fresh run loop.
pub open spec fn initial(session_id: usize, reporters: Seq<u8>) -> LoopModel {
    LoopModel {
        session_id,
        reporters,
        phase: Phase::Receiving,
        failed: false,
        written: Seq::empty(),
        handled: Seq::empty(),
        sent: Seq::empty(),
    }
}

/// Whether the run loop, in state `s`, awaits input `i`.
pub open spec fn accepts(s: LoopModel, i: Input) -> bool {
    match i {
        Input::Received(_) => s.phase is Receiving,
        Input::QueueEnded => s.phase is Receiving,
        Input::Written(_) => s.phase is Writing,
        Input::ShutDown => s.phase is ShuttingDown,
    }
}

/// The notices that input `i` makes the run loop emit in state `s`.
pub open spec fn notices_of(s: LoopModel, i: Input) -> Seq<Notice> {
    match i {
        Input::Written(ok) => match s.phase {
            Phase::Writing { stream, reporter_id } => seq![status_notice(reporter_id, stream, ok)],
            _ => Seq::empty(),
        },
        Input::ShutDown => checkpoints(s.reporters, s.session_id),
        _ => Seq::empty(),
    }
}

/// The state after input `i` in state `s`.
pub open spec fn next(s: LoopModel, i: Input) -> LoopModel {
    match i {
        Input::Received(Event::Payload { stream, payload, reporter_id }) => {
            if s.failed {
                s
            } else {
                LoopModel {
                    phase: Phase::Writing { stream, reporter_id },
                    written: s.written.push(payload@),
                    handled: s.handled.push((stream, reporter_id)),
                    ..s
                }
            }
        },
        Input::QueueEnded => LoopModel { phase: Phase::ShuttingDown, ..s },
        Input::Written(ok) => LoopModel {
            phase: Phase::Receiving,
            failed: s.failed || !ok,
            sent: s.sent + notices_of(s, i),
            ..s
        },
        Input::ShutDown => LoopModel {
            phase: Phase::Terminated,
            sent: s.sent + notices_of(s, i),
            ..s
        },
    }
}

/// Whether `a` is the action that follows input `i` in state `s`.
pub open spec fn action_of(s: LoopModel, i: Input, a: Action) -> bool {
    match i {
        Input::Received(Event::Payload { payload, .. }) => {
            if s.failed {
                a is Receive
            } else {
                a is Write && a->Write_0@ == payload@
            }
        },
        Input::QueueEnded => a is Shutdown,
        Input::Written(_) => a is Receive,
        Input::ShutDown => a is Finish,
    }
}

/// The run loop of one sender instance.
pub struct SenderLoop {
    session_id: usize,
    reporters: Vec<u8>,
    phase: Phase,
    failed: bool,
    written: Ghost<Seq<Seq<u8>>>,
    handled: Ghost<Seq<(Stream, u8)>>,
    sent: Ghost<Seq<Notice>>,
}

impl View for SenderLoop {
    type V = LoopModel;

    closed spec fn view(&self) -> LoopModel {
        LoopModel {
            session_id: self.session_id,
            reporters: self.reporters@,
            phase: self.phase,
            failed: self.failed,
            written: self.written@,
            handled: self.handled@,
            sent: self.sent@,
        }
    }
}

impl SenderLoop {
    /// A run loop for `session_id` that checkpoints the reporters `reporters`.
    pub fn new(session_id: usize, reporters: Vec<u8>) -> (r: SenderLoop)
        ensures
            r@ == initial(session_id, reporters@),
    {
        SenderLoop {
            session_id,
            reporters,
            phase: Phase::Receiving,
            failed: false,
            written: Ghost(Seq::empty()),
            handled: Ghost(Seq::empty()),
            sent: Ghost(Seq::empty()),
        }
    }

    pub fn phase(&self) -> (r: Phase)
        ensures
            r == self@.phase,
    {
        self.phase
    }

    pub fn session_id(&self) -> (r: usize)
        ensures
            r == self@.session_id,
    {
        self.session_id
    }

    /// Whether the loop awaits `input` now.
    pub fn accepts(&self, input: &Input) -> (r: bool)
        ensures
            r == accepts(self@, *input),
    {
        match input {
            Input::Received(_) => self.phase == Phase::Receiving,
            Input::QueueEnded => self.phase == Phase::Receiving,
            Input::Written(_) => match self.phase {
                Phase::Writing { .. } => true,
                _ => false,
            },
            Input::ShutDown => self.phase == Phase::ShuttingDown,
        }
    }

    /// The checkpoint of this session for each reporter, in registry order.
    fn checkpoint_notices(&self) -> (r: Vec<Notice>)
        ensures
            r@ == checkpoints(self.reporters@, self.session_id),
    {
        let mut out: Vec<Notice> = Vec::new();
        let mut k: usize = 0;
        while k < self.reporters.len()
            invariant
                k <= self.reporters@.len(),
                out@ == checkpoints(self.reporters@.take(k as int), self.session_id),
            decreases self.reporters@.len() - k,
        {
            out.push(Notice::CheckPoint { reporter_id: self.reporters[k], session_id: self.session_id });
            proof {
                assert(self.reporters@.take(k as int + 1) == self.reporters@.take(k as int).push(
                    self.reporters@[k as int],
                ));
            }
            k = k + 1;
        }
        proof {
            assert(self.reporters@.take(k as int) == self.reporters@);
        }
        out
    }

    /// Takes one input that the loop awaits and decides what follows.
    pub fn step(&mut self, input: Input) -> (out: Output)
        requires
            accepts(old(self)@, input),
        ensures
            final(self)@ == next(old(self)@, input),
            out.notices@ == notices_of(old(self)@, input),
            out.close_queue == (input == Input::Written(false)),
            action_of(old(self)@, input, out.action),
    {
        match input {
            Input::Received(Event::Payload { stream, payload, reporter_id }) => {
                if self.failed {
                    // after a failed write, events are drained and discarded
                    assert(self@ == old(self)@);
                    Output { notices: Vec::new(), close_queue: false, action: Action::Receive }
                } else {
                    self.phase = Phase::Writing { stream, reporter_id };
                    self.written = Ghost(self.written@.push(payload@));
                    self.handled = Ghost(self.handled@.push((stream, reporter_id)));
                    assert(self@ == next(old(self)@, Input::Received(Event::Payload { stream, payload, reporter_id })));
                    Output { notices: Vec::new(), close_queue: false, action: Action::Write(payload) }
                }
            },
            Input::QueueEnded => {
                self.phase = Phase::ShuttingDown;
                Output { notices: Vec::new(), close_queue: false, action: Action::Shutdown }
            },
            Input::Written(ok) => {
                let (stream, reporter_id) = match self.phase {
                    Phase::Writing { stream, reporter_id } => (stream, reporter_id),
                    _ => { proof { assert(false); } (0, 0) },
                };
                let status = if ok { StreamStatus::Written(stream) } else { StreamStatus::Failed(stream) };
                let notice = Notice::Status { reporter_id, status };
                let mut notices: Vec<Notice> = Vec::new();
                notices.push(notice);
                self.phase = Phase::Receiving;
                self.failed = self.failed || !ok;
                self.sent = Ghost(self.sent@.push(notice));
                Output { notices, close_queue: !ok, action: Action::Receive }
            },
            Input::ShutDown => {
                let notices = self.checkpoint_notices();
                self.phase = Phase::Terminated;
                self.sent = Ghost(self.sent@ + notices@);
                Output { notices, close_queue: false, action: Action::Finish }
            },
        }
    }
}

} // verus!
