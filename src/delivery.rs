use vstd::prelude::*;

use crate::dispatch::{accepts, advance, phase_at, step_at, Phase, WorkerEvent, WorkerState, WorkerStep};
use crate::payload::payload_of;

verus! {

/// The worker fed the events `es` one after the other from state `s`: the
/// state it ends in and every step it asked for, in order.
pub open spec fn run(s: WorkerState, es: Seq<WorkerEvent>) -> (WorkerState, Seq<WorkerStep>)
    decreases es.len(),
{
    if es.len() == 0 {
        (s, Seq::empty())
    } else {
        let (mid, steps) = run(s, es.drop_last());
        let (t, step) = advance(mid, es.last());
        (t, steps.push(step))
    }
}

/// Whether every event of `es` is one that the worker expects when it comes.
pub open spec fn run_accepted(s: WorkerState, es: Seq<WorkerEvent>) -> bool
    decreases es.len(),
{
    if es.len() == 0 {
        true
    } else {
        run_accepted(s, es.drop_last()) && accepts(run(s, es.drop_last()).0, es.last())
    }
}

/// The payloads handed to the broker by a sequence of steps, in order.
pub open spec fn published(steps: Seq<WorkerStep>) -> Seq<Seq<char>>
    decreases steps.len(),
{
    if steps.len() == 0 {
        Seq::empty()
    } else {
        let p = published(steps.drop_last());
        match steps.last() {
            WorkerStep::Publish(x) => p.push(x),
            _ => p,
        }
    }
}

/// The payloads of the messages of a batch, in order.
pub open spec fn payloads(b: Seq<Seq<char>>) -> Seq<Seq<char>> {
    b.map_values(|t: Seq<char>| payload_of(t))
}

/// A batch coming out of the queue, then the outcomes of its publishes.
pub open spec fn batch_events(b: Seq<Seq<char>>, outcomes: Seq<bool>) -> Seq<WorkerEvent> {
    seq![WorkerEvent::Dequeued(b)] + outcomes.map_values(|ok: bool| WorkerEvent::PublishDone(ok))
}

/// The indices of the failed outcomes, in order.
pub open spec fn failures(outcomes: Seq<bool>) -> Seq<nat>
    decreases outcomes.len(),
{
    if outcomes.len() == 0 {
        Seq::empty()
    } else {
        let f = failures(outcomes.drop_last());
        if outcomes.last() {
            f
        } else {
            f.push((outcomes.len() - 1) as nat)
        }
    }
}

/// The steps of a batch up to the one that follows `j` outcomes.
pub open spec fn batch_steps(b: Seq<Seq<char>>, j: nat) -> Seq<WorkerStep> {
    Seq::new(j + 1, |i: int| step_at(b, i as nat))
}

proof fn lemma_batch_prefix(s: WorkerState, b: Seq<Seq<char>>, outcomes: Seq<bool>, j: nat)
    requires
        s.phase == Phase::Idle,
        outcomes.len() == b.len(),
        j <= b.len(),
    ensures
        run_accepted(s, batch_events(b, outcomes.take(j as int))),
        run(s, batch_events(b, outcomes.take(j as int))).0 == (WorkerState {
            phase: phase_at(b, j),
            batch: b,
            next: j,
            failed: failures(outcomes.take(j as int)),
        }),
        run(s, batch_events(b, outcomes.take(j as int))).1 == batch_steps(b, j),
    decreases j,
{
    let es = batch_events(b, outcomes.take(j as int));
    if j == 0 {
        assert(es.drop_last() =~= Seq::<WorkerEvent>::empty());
        assert(es.last() == WorkerEvent::Dequeued(b));
        assert(run(s, Seq::<WorkerEvent>::empty()) == (s, Seq::<WorkerStep>::empty()));
        assert(run_accepted(s, Seq::<WorkerEvent>::empty()));
        assert(outcomes.take(0) =~= Seq::<bool>::empty());
        assert(failures(Seq::<bool>::empty()) == Seq::<nat>::empty());
        assert(Seq::<WorkerStep>::empty().push(step_at(b, 0)) =~= batch_steps(b, 0));
    } else {
        lemma_batch_prefix(s, b, outcomes, (j - 1) as nat);
        assert(es.drop_last() =~= batch_events(b, outcomes.take(j - 1)));
        assert(es.last() == WorkerEvent::PublishDone(outcomes[j - 1]));
        assert(outcomes.take(j as int).drop_last() =~= outcomes.take(j - 1));
        assert(batch_steps(b, (j - 1) as nat).push(step_at(b, j)) =~= batch_steps(b, j));
    }
}

proof fn lemma_published_steps(b: Seq<Seq<char>>, j: nat)
    requires
        j <= b.len(),
    ensures
        published(batch_steps(b, j)) == payloads(b).take(if j < b.len() { j + 1 } else { j } as int),
    decreases j,
{
    if j == 0 {
        assert(batch_steps(b, 0).drop_last() =~= Seq::<WorkerStep>::empty());
        assert(published(Seq::<WorkerStep>::empty()) == Seq::<Seq<char>>::empty());
        assert(payloads(b).take(if 0 < b.len() { 1int } else { 0int }) =~= published(batch_steps(b, 0)));
    } else {
        lemma_published_steps(b, (j - 1) as nat);
        assert(batch_steps(b, j).drop_last() =~= batch_steps(b, (j - 1) as nat));
        assert(payloads(b).take(if j < b.len() { j + 1 } else { j } as int) =~= published(batch_steps(b, j)));
    }
}

proof fn lemma_failures(outcomes: Seq<bool>)
    ensures
        forall|i: int| 0 <= i < outcomes.len() ==> (failures(outcomes).contains(i as nat) <==> !outcomes[i]),
        forall|k: nat| failures(outcomes).contains(k) ==> k < outcomes.len(),
    decreases outcomes.len(),
{
    if outcomes.len() > 0 {
        let rest = outcomes.drop_last();
        lemma_failures(rest);
        let f = failures(rest);
        if !outcomes.last() {
            let g = f.push((outcomes.len() - 1) as nat);
            assert forall|k: nat| g.contains(k) implies k == outcomes.len() - 1 || f.contains(k) by {
                let n = choose|n: int| 0 <= n < g.len() && #[trigger] g[n] == k;
                if n < f.len() {
                    assert(f[n] == k);
                }
            }
            assert forall|k: nat| f.contains(k) implies g.contains(k) by {
                let n = choose|n: int| 0 <= n < f.len() && #[trigger] f[n] == k;
                assert(g[n] == k);
            }
            assert(g[f.len() as int] == (outcomes.len() - 1) as nat);
        }
        assert forall|i: int| 0 <= i < outcomes.len() - 1 implies outcomes[i] == rest[i] by {}
    }
}

/// A batch of k messages taken by an idle worker, whatever the k outcomes of
/// its publishes: every event is expected when it comes, exactly k payloads
/// are published, those of the batch's messages in the batch's order, the
/// worker waits for the next batch afterwards, and it has recorded exactly the
/// failed publishes.
pub proof fn law_batch_published_in_order(s: WorkerState, b: Seq<Seq<char>>, outcomes: Seq<bool>)
    requires
        s.phase == Phase::Idle,
        outcomes.len() == b.len(),
    ensures
        run_accepted(s, batch_events(b, outcomes)),
        published(run(s, batch_events(b, outcomes)).1) == payloads(b),
        run(s, batch_events(b, outcomes)).1.last() == WorkerStep::AwaitBatch,
        run(s, batch_events(b, outcomes)).0.phase == Phase::Idle,
        run(s, batch_events(b, outcomes)).0.failed == failures(outcomes),
{
    assert(outcomes.take(b.len() as int) =~= outcomes);
    lemma_batch_prefix(s, b, outcomes, b.len());
    lemma_published_steps(b, b.len());
    assert(payloads(b).take(b.len() as int) =~= payloads(b));
}

/// A failed publish of the message at index `i` of a batch stops nothing: the
/// worker still publishes every later message of the batch, and records the
/// failure.
pub proof fn law_failure_does_not_stop_batch(
    s: WorkerState,
    b: Seq<Seq<char>>,
    outcomes: Seq<bool>,
    i: int,
)
    requires
        s.phase == Phase::Idle,
        outcomes.len() == b.len(),
        0 <= i < b.len(),
        !outcomes[i],
    ensures
        forall|j: int|
            i < j < b.len() ==> run(s, batch_events(b, outcomes)).1[j] == WorkerStep::Publish(
                payload_of(b[j]),
            ),
        run(s, batch_events(b, outcomes)).0.failed.contains(i as nat),
{
    assert(outcomes.take(b.len() as int) =~= outcomes);
    lemma_batch_prefix(s, b, outcomes, b.len());
    lemma_failures(outcomes);
}

proof fn lemma_run_concat(s: WorkerState, e1: Seq<WorkerEvent>, e2: Seq<WorkerEvent>)
    ensures
        run(s, e1 + e2).0 == run(run(s, e1).0, e2).0,
        run(s, e1 + e2).1 == run(s, e1).1 + run(run(s, e1).0, e2).1,
        run_accepted(s, e1 + e2) == (run_accepted(s, e1) && run_accepted(run(s, e1).0, e2)),
    decreases e2.len(),
{
    let mid = run(s, e1).0;
    if e2.len() == 0 {
        assert(e1 + e2 =~= e1);
        assert(run(mid, e2) == (mid, Seq::<WorkerStep>::empty()));
        assert(run(s, e1).1 + Seq::<WorkerStep>::empty() =~= run(s, e1).1);
    } else {
        lemma_run_concat(s, e1, e2.drop_last());
        assert((e1 + e2).drop_last() =~= e1 + e2.drop_last());
        assert((e1 + e2).last() == e2.last());
        let (m2, st2) = run(mid, e2.drop_last());
        assert((run(s, e1).1 + st2).push(advance(m2, e2.last()).1) =~= run(s, e1).1 + st2.push(
            advance(m2, e2.last()).1,
        ));
    }
}

proof fn lemma_published_concat(x: Seq<WorkerStep>, y: Seq<WorkerStep>)
    ensures
        published(x + y) == published(x) + published(y),
    decreases y.len(),
{
    if y.len() == 0 {
        assert(x + y =~= x);
        assert(published(y) == Seq::<Seq<char>>::empty());
        assert(published(x) + Seq::<Seq<char>>::empty() =~= published(x));
    } else {
        lemma_published_concat(x, y.drop_last());
        assert((x + y).drop_last() =~= x + y.drop_last());
        assert((x + y).last() == y.last());
        if let WorkerStep::Publish(p) = y.last() {
            assert((published(x) + published(y.drop_last())).push(p) =~= published(x) + published(
                y.drop_last(),
            ).push(p));
        }
    }
}

/// Two batches taken one after the other by an idle worker, whatever the
/// outcomes of their publishes, are published as two intact units: all of the
/// first batch's payloads in its order, then all of the second's, with nothing
/// of one spliced into the other.
pub proof fn law_batches_not_interleaved(
    s: WorkerState,
    a: Seq<Seq<char>>,
    outcomes_a: Seq<bool>,
    b: Seq<Seq<char>>,
    outcomes_b: Seq<bool>,
)
    requires
        s.phase == Phase::Idle,
        outcomes_a.len() == a.len(),
        outcomes_b.len() == b.len(),
    ensures
        run_accepted(s, batch_events(a, outcomes_a) + batch_events(b, outcomes_b)),
        published(run(s, batch_events(a, outcomes_a) + batch_events(b, outcomes_b)).1) == payloads(a)
            + payloads(b),
        run(s, batch_events(a, outcomes_a) + batch_events(b, outcomes_b)).0.phase == Phase::Idle,
{
    let ea = batch_events(a, outcomes_a);
    let eb = batch_events(b, outcomes_b);
    law_batch_published_in_order(s, a, outcomes_a);
    let mid = run(s, ea).0;
    law_batch_published_in_order(mid, b, outcomes_b);
    lemma_run_concat(s, ea, eb);
    lemma_published_concat(run(s, ea).1, run(mid, eb).1);
}

} // verus!
