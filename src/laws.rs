//! What holds of every run of the sender's loop: a run is the sequence of
//! inputs that the loop accepted, one after the other, from its initial state.
use crate::event::{checkpoints, Notice, Stream, StreamStatus};
use crate::machine::{accepts, initial, next, Input, LoopModel, Phase};
use vstd::prelude::*;

verus! {

/// The state after the inputs `ins`, taken in order from state `s`.
pub open spec fn run(s: LoopModel, ins: Seq<Input>) -> LoopModel
    decreases ins.len(),
{
    if ins.len() == 0 {
        s
    } else {
        next(run(s, ins.drop_last()), ins.last())
    }
}

/// Whether the loop, from state `s`, awaits each of the inputs `ins` in turn.
pub open spec fn valid_run(s: LoopModel, ins: Seq<Input>) -> bool
    decreases ins.len(),
{
    if ins.len() == 0 {
        true
    } else {
        valid_run(s, ins.drop_last()) && accepts(run(s, ins.drop_last()), ins.last())
    }
}

/// The payload bytes of the events among `ins`, in order.
pub open spec fn payloads_of(ins: Seq<Input>) -> Seq<Seq<u8>>
    decreases ins.len(),
{
    if ins.len() == 0 {
        Seq::empty()
    } else {
        let rest = payloads_of(ins.drop_last());
        match ins.last() {
            Input::Received(ev) => rest.push(ev->payload@),
            _ => rest,
        }
    }
}

/// The stream that a status speaks of.
pub open spec fn stream_of(st: StreamStatus) -> Stream {
    match st {
        StreamStatus::Written(s) => s,
        StreamStatus::Failed(s) => s,
    }
}

/// Whether `n` reports to `reporter_id` the outcome of a payload of `stream`.
pub open spec fn reports(n: Notice, stream: Stream, reporter_id: u8) -> bool {
    match n {
        Notice::Status { reporter_id: r, status } => r == reporter_id && stream_of(status) == stream,
        _ => false,
    }
}

/// How many of the payloads handed out for writing have a known outcome.
pub open spec fn finished_writes(s: LoopModel) -> int {
    if s.phase is Writing {
        s.handled.len() - 1
    } else {
        s.handled.len() as int
    }
}

/// What every state reached by a run from `initial(session_id, reporters)` satisfies.
pub open spec fn reachable_inv(s: LoopModel, session_id: usize, reporters: Seq<u8>) -> bool {
    &&& s.session_id == session_id
    &&& s.reporters == reporters
    &&& s.written.len() == s.handled.len()
    &&& (s.phase is Writing ==> {
        &&& !s.failed
        &&& s.handled.len() >= 1
        &&& s.handled.last() == (s.phase->stream, s.phase->reporter_id)
    })
    &&& 0 <= finished_writes(s)
    &&& (forall|k: int|
        0 <= k < finished_writes(s) ==> reports(#[trigger] s.sent[k], s.handled[k].0, s.handled[k].1))
    &&& if s.phase is Terminated {
        &&& s.sent.len() == finished_writes(s) + reporters.len()
        &&& s.sent.subrange(finished_writes(s), s.sent.len() as int) == checkpoints(
            reporters,
            session_id,
        )
    } else {
        s.sent.len() == finished_writes(s)
    }
}

proof fn lemma_reachable(session_id: usize, reporters: Seq<u8>, ins: Seq<Input>)
    requires
        valid_run(initial(session_id, reporters), ins),
    ensures
        reachable_inv(run(initial(session_id, reporters), ins), session_id, reporters),
    decreases ins.len(),
{
    let s0 = initial(session_id, reporters);
    if ins.len() == 0 {
        assert(run(s0, ins) == s0);
    } else {
        let pre = ins.drop_last();
        lemma_reachable(session_id, reporters, pre);
        let s = run(s0, pre);
        let i = ins.last();
        let t = next(s, i);
        assert(run(s0, ins) == t);
        match i {
            Input::Written(ok) => {
                let n = finished_writes(s);
                assert(finished_writes(t) == n + 1);
                assert forall|k: int| 0 <= k < finished_writes(t) implies reports(
                    #[trigger] t.sent[k],
                    t.handled[k].0,
                    t.handled[k].1,
                ) by {
                    if k < n {
                        assert(t.sent[k] == s.sent[k]);
                    }
                }
            },
            Input::ShutDown => {
                let n = finished_writes(s);
                assert(t.sent.subrange(n, t.sent.len() as int) =~= checkpoints(reporters, session_id));
                assert forall|k: int| 0 <= k < finished_writes(t) implies reports(
                    #[trigger] t.sent[k],
                    t.handled[k].0,
                    t.handled[k].1,
                ) by {
                    assert(t.sent[k] == s.sent[k]);
                }
            },
            _ => {},
        }
    }
}

/// Payloads are handed to the socket in the order in which they were
/// received: where no write fails, the bytes written are the payloads of the
/// received events, in order.
pub proof fn lemma_fifo(session_id: usize, reporters: Seq<u8>, ins: Seq<Input>)
    requires
        valid_run(initial(session_id, reporters), ins),
        forall|k: int| 0 <= k < ins.len() ==> ins[k] != Input::Written(false),
    ensures
        run(initial(session_id, reporters), ins).written == payloads_of(ins),
        !run(initial(session_id, reporters), ins).failed,
    decreases ins.len(),
{
    let s0 = initial(session_id, reporters);
    if ins.len() > 0 {
        let pre = ins.drop_last();
        assert forall|k: int| 0 <= k < pre.len() implies pre[k] != Input::Written(false) by {
            assert(pre[k] == ins[k]);
        }
        lemma_fifo(session_id, reporters, pre);
        assert(ins.last() == ins[ins.len() - 1]);
    }
}

proof fn lemma_failed_stays(s: LoopModel, ins: Seq<Input>)
    requires
        s.failed,
    ensures
        run(s, ins).failed,
        run(s, ins).written == s.written,
        run(s, ins).handled == s.handled,
    decreases ins.len(),
{
    if ins.len() > 0 {
        lemma_failed_stays(s, ins.drop_last());
    }
}

proof fn lemma_run_append(s: LoopModel, a: Seq<Input>, b: Seq<Input>)
    ensures
        run(s, a + b) == run(run(s, a), b),
        valid_run(s, a + b) == (valid_run(s, a) && valid_run(run(s, a), b)),
    decreases b.len(),
{
    if b.len() == 0 {
        assert(a + b =~= a);
    } else {
        assert((a + b).drop_last() =~= a + b.drop_last());
        assert((a + b).last() == b.last());
        lemma_run_append(s, a, b.drop_last());
    }
}

/// Once a write fails, nothing more is written: whatever the loop takes after
/// the failed write, the bytes handed out for writing stay those handed out
/// up to that write.
pub proof fn lemma_no_write_after_failure(
    session_id: usize,
    reporters: Seq<u8>,
    before: Seq<Input>,
    after: Seq<Input>,
)
    requires
        valid_run(initial(session_id, reporters), before.push(Input::Written(false)) + after),
    ensures
        run(initial(session_id, reporters), before.push(Input::Written(false)) + after).written
            == run(initial(session_id, reporters), before).written,
        run(initial(session_id, reporters), before.push(Input::Written(false)) + after).handled
            == run(initial(session_id, reporters), before).handled,
{
    let s0 = initial(session_id, reporters);
    let a = before.push(Input::Written(false));
    lemma_run_append(s0, a, after);
    assert(a.drop_last() =~= before);
    lemma_failed_stays(run(s0, a), after);
}

/// Each payload whose write has finished gets exactly one status, to the
/// reporter that the payload names and for the stream that it carries: the
/// notices of a run begin with one status per finished write, in the order
/// of the writes, and every notice after them is a checkpoint.
pub proof fn lemma_status_correlation(session_id: usize, reporters: Seq<u8>, ins: Seq<Input>)
    requires
        valid_run(initial(session_id, reporters), ins),
    ensures
        ({
            let s = run(initial(session_id, reporters), ins);
            &&& 0 <= finished_writes(s) <= s.handled.len()
            &&& s.handled.len() - finished_writes(s) <= (if s.phase is Writing { 1int } else { 0 })
            &&& forall|k: int|
                0 <= k < finished_writes(s) ==> reports(
                    #[trigger] s.sent[k],
                    s.handled[k].0,
                    s.handled[k].1,
                )
            &&& forall|k: int| finished_writes(s) <= k < s.sent.len() ==> #[trigger] s.sent[k] is CheckPoint
        }),
{
    lemma_reachable(session_id, reporters, ins);
    let s = run(initial(session_id, reporters), ins);
    let n = finished_writes(s);
    assert forall|k: int| n <= k < s.sent.len() implies #[trigger] s.sent[k] is CheckPoint by {
        assert(s.sent[k] == s.sent.subrange(n, s.sent.len() as int)[k - n]);
    }
}

/// Checkpoints come last: in every run, no status follows a checkpoint.
pub proof fn lemma_checkpoint_after_status(session_id: usize, reporters: Seq<u8>, ins: Seq<Input>)
    requires
        valid_run(initial(session_id, reporters), ins),
    ensures
        ({
            let sent = run(initial(session_id, reporters), ins).sent;
            forall|i: int, j: int|
                0 <= i < j < sent.len() && #[trigger] sent[i] is CheckPoint ==> !(
                #[trigger] sent[j] is Status)
        }),
{
    lemma_status_correlation(session_id, reporters, ins);
    let s = run(initial(session_id, reporters), ins);
    let n = finished_writes(s);
    assert forall|i: int, j: int|
        0 <= i < j < s.sent.len() && #[trigger] s.sent[i] is CheckPoint implies !(
        #[trigger] s.sent[j] is Status) by {
        if i < n {
            assert(reports(s.sent[i], s.handled[i].0, s.handled[i].1));
        }
    }
}

/// Each reporter of the registry gets exactly one checkpoint of the session
/// once the loop has terminated, and none before.
pub proof fn lemma_one_checkpoint_each(session_id: usize, reporters: Seq<u8>, ins: Seq<Input>)
    requires
        reporters.no_duplicates(),
        valid_run(initial(session_id, reporters), ins),
    ensures
        ({
            let s = run(initial(session_id, reporters), ins);
            &&& !(s.phase is Terminated) ==> forall|k: int|
                0 <= k < s.sent.len() ==> !(#[trigger] s.sent[k] is CheckPoint)
            &&& s.phase is Terminated ==> forall|r: u8|
                #[trigger] reporters.contains(r) ==> {
                    &&& exists|k: int|
                        0 <= k < s.sent.len() && #[trigger] s.sent[k] == (Notice::CheckPoint {
                            reporter_id: r,
                            session_id,
                        })
                    &&& forall|k1: int, k2: int|
                        0 <= k1 < s.sent.len() && 0 <= k2 < s.sent.len() && #[trigger] s.sent[k1]
                            == (Notice::CheckPoint { reporter_id: r, session_id })
                            && #[trigger] s.sent[k2] == (Notice::CheckPoint {
                            reporter_id: r,
                            session_id,
                        }) ==> k1 == k2
                }
        }),
{
    lemma_reachable(session_id, reporters, ins);
    let s = run(initial(session_id, reporters), ins);
    let n = finished_writes(s);
    if !(s.phase is Terminated) {
        assert forall|k: int| 0 <= k < s.sent.len() implies !(#[trigger] s.sent[k] is CheckPoint) by {
            assert(reports(s.sent[k], s.handled[k].0, s.handled[k].1));
        }
    } else {
        let cps = checkpoints(reporters, session_id);
        assert forall|r: u8| #[trigger] reporters.contains(r) implies {
            &&& exists|k: int|
                0 <= k < s.sent.len() && #[trigger] s.sent[k] == (Notice::CheckPoint {
                    reporter_id: r,
                    session_id,
                })
            &&& forall|k1: int, k2: int|
                0 <= k1 < s.sent.len() && 0 <= k2 < s.sent.len() && #[trigger] s.sent[k1]
                    == (Notice::CheckPoint { reporter_id: r, session_id })
                    && #[trigger] s.sent[k2] == (Notice::CheckPoint { reporter_id: r, session_id })
                    ==> k1 == k2
        } by {
            let j = reporters.index_of(r);
            assert(s.sent[n + j] == s.sent.subrange(n, s.sent.len() as int)[j]);
            assert forall|k1: int, k2: int|
                0 <= k1 < s.sent.len() && 0 <= k2 < s.sent.len() && #[trigger] s.sent[k1]
                    == (Notice::CheckPoint { reporter_id: r, session_id })
                    && #[trigger] s.sent[k2] == (Notice::CheckPoint { reporter_id: r, session_id })
                    implies k1 == k2 by {
                if k1 < n {
                    assert(reports(s.sent[k1], s.handled[k1].0, s.handled[k1].1));
                }
                if k2 < n {
                    assert(reports(s.sent[k2], s.handled[k2].0, s.handled[k2].1));
                }
                assert(s.sent[k1] == s.sent.subrange(n, s.sent.len() as int)[k1 - n]);
                assert(s.sent[k2] == s.sent.subrange(n, s.sent.len() as int)[k2 - n]);
                assert(cps[k1 - n] == cps[k2 - n]);
                assert(reporters[k1 - n] == reporters[k2 - n]);
            }
        }
    }
}

/// A loop whose queue ends before any payload arrives shuts the socket down
/// and sends each reporter its checkpoint, and nothing else.
pub proof fn lemma_shutdown_without_payloads(session_id: usize, reporters: Seq<u8>)
    ensures
        ({
            let ins = seq![Input::QueueEnded, Input::ShutDown];
            let s = run(initial(session_id, reporters), ins);
            &&& valid_run(initial(session_id, reporters), ins)
            &&& s.phase == Phase::Terminated
            &&& s.written.len() == 0
            &&& s.sent == checkpoints(reporters, session_id)
        }),
{
    let ins = seq![Input::QueueEnded, Input::ShutDown];
    let s0 = initial(session_id, reporters);
    let one = seq![Input::QueueEnded];
    assert(ins.drop_last() =~= one);
    assert(one.drop_last() =~= Seq::<Input>::empty());
    assert(run(s0, Seq::<Input>::empty()) == s0);
    let s1 = next(s0, Input::QueueEnded);
    assert(run(s0, one) == s1);
    assert(one.last() == Input::QueueEnded);
    assert(ins.last() == Input::ShutDown);
    assert(valid_run(s0, Seq::<Input>::empty()));
    assert(valid_run(s0, one));
    assert(run(s0, ins) == next(s1, Input::ShutDown));
    assert(run(s0, ins).sent =~= checkpoints(reporters, session_id));
}

} // verus!
