//! What holds of the pipeline however its two drivers interleave.

use crate::model::Acquire;
use crate::model::PipelineView;
use crate::model::Round;
use crate::model::Step;
use crate::presentation::Stage;
use vstd::prelude::*;

verus! {

/// A fresh pipeline is well formed.
pub proof fn lemma_initial_wf<T>(pool: Seq<T>)
    ensures
        PipelineView::initial(pool).wf(),
{
    reveal(PipelineView::slots_distinct);
    reveal(PipelineView::queues_sorted);
    reveal(PipelineView::recorders_balanced);
}

/// Acquiring a recorder to fill keeps the pipeline well formed.
pub proof fn lemma_acquire_for_fill_wf<T>(v: PipelineView<T>)
    requires
        v.wf(),
    ensures
        v.acquire_for_fill().wf(),
{
    reveal(PipelineView::slots_distinct);
    reveal(PipelineView::queues_sorted);
    reveal(PipelineView::recorders_balanced);
}

/// Filling keeps the pipeline well formed.
pub proof fn lemma_fill_wf<T>(v: PipelineView<T>, draws: nat, painted: T)
    requires
        v.wf(),
    ensures
        v.fill(draws, painted).wf(),
{
    reveal(PipelineView::slots_distinct);
    reveal(PipelineView::queues_sorted);
    reveal(PipelineView::recorders_balanced);
}

/// Sending a filled recorder on keeps the pipeline well formed.
pub proof fn lemma_submit_for_present_wf<T>(v: PipelineView<T>)
    requires
        v.wf(),
    ensures
        v.submit_for_present().wf(),
{
    reveal(PipelineView::slots_distinct);
    reveal(PipelineView::queues_sorted);
    reveal(PipelineView::recorders_balanced);
}

/// The shell's answer keeps the pipeline well formed.
pub proof fn lemma_proceed_wf<T>(v: PipelineView<T>, go_on: bool)
    requires
        v.wf(),
    ensures
        v.proceed(go_on).wf(),
{
    reveal(PipelineView::slots_distinct);
    reveal(PipelineView::queues_sorted);
    reveal(PipelineView::recorders_balanced);
}

/// The end of the presentation loop keeps the pipeline well formed.
pub proof fn lemma_close_wf<T>(v: PipelineView<T>)
    requires
        v.wf(),
    ensures
        v.close().wf(),
{
    reveal(PipelineView::slots_distinct);
    reveal(PipelineView::queues_sorted);
    reveal(PipelineView::recorders_balanced);
}

/// Acquiring a recorder to submit keeps the pipeline well formed.
pub proof fn lemma_acquire_for_submit_wf<T>(v: PipelineView<T>)
    requires
        v.wf(),
    ensures
        v.acquire_for_submit().wf(),
{
    reveal(PipelineView::slots_distinct);
    reveal(PipelineView::queues_sorted);
    reveal(PipelineView::recorders_balanced);
    if v.stage == Stage::Waiting && v.submit.len() == 0 && !v.simulating {
        lemma_close_wf(v);
    }
}

/// Submitting to the device keeps the pipeline well formed.
pub proof fn lemma_flush_wf<T>(v: PipelineView<T>, emptied: T)
    requires
        v.wf(),
    ensures
        v.flush(emptied).wf(),
{
    reveal(PipelineView::slots_distinct);
    reveal(PipelineView::queues_sorted);
    reveal(PipelineView::recorders_balanced);
}

/// Handing a recorder back keeps the pipeline well formed.
pub proof fn lemma_return_to_pool_wf<T>(v: PipelineView<T>)
    requires
        v.wf(),
    ensures
        v.return_to_pool().wf(),
{
    reveal(PipelineView::slots_distinct);
    reveal(PipelineView::queues_sorted);
    reveal(PipelineView::recorders_balanced);
    if v.can_return() {
        if v.simulating {
            let returned = PipelineView {
                recycle: v.recycle.push(v.presenting->0),
                presenting: None,
                stage: Stage::Waiting,
                ..v
            };
            lemma_close_wf(returned);
        } else {
            lemma_close_wf(v);
        }
    }
}

/// A stop signal keeps the pipeline well formed.
pub proof fn lemma_request_stop_wf<T>(v: PipelineView<T>)
    requires
        v.wf(),
    ensures
        v.request_stop().wf(),
{
    reveal(PipelineView::slots_distinct);
    reveal(PipelineView::queues_sorted);
    reveal(PipelineView::recorders_balanced);
}

/// Every step keeps the pipeline well formed.
pub proof fn lemma_step_wf<T>(v: PipelineView<T>, step: Step<T>)
    requires
        v.wf(),
    ensures
        v.apply(step).wf(),
{
    match step {
        Step::AcquireForFill => lemma_acquire_for_fill_wf(v),
        Step::Fill { draws, painted } => lemma_fill_wf(v, draws, painted),
        Step::SubmitForPresent => lemma_submit_for_present_wf(v),
        Step::Proceed { go_on } => lemma_proceed_wf(v, go_on),
        Step::AcquireForSubmit => lemma_acquire_for_submit_wf(v),
        Step::Flush { emptied } => lemma_flush_wf(v, emptied),
        Step::ReturnToPool => lemma_return_to_pool_wf(v),
        Step::RequestStop => lemma_request_stop_wf(v),
        Step::Close => lemma_close_wf(v),
    }
}

/// Every sequence of steps keeps the pipeline well formed.
pub proof fn lemma_run_wf<T>(v: PipelineView<T>, steps: Seq<Step<T>>)
    requires
        v.wf(),
    ensures
        v.run(steps).wf(),
    decreases steps.len(),
{
    if steps.len() > 0 {
        lemma_run_wf(v, steps.drop_last());
        lemma_step_wf(v.run(steps.drop_last()), steps.last());
    }
}

/// A sequence of steps with one more step at its end.
pub proof fn lemma_run_push<T>(v: PipelineView<T>, steps: Seq<Step<T>>, step: Step<T>)
    ensures
        v.run(steps.push(step)) == v.run(steps).apply(step),
{
    assert(steps.push(step).drop_last() =~= steps);
}

/// The moves that take more than one step are sequences of single steps:
/// a run of the draw system, a tick that takes place, and a cycle of the
/// presentation.
pub proof fn lemma_moves_are_runs<T>(
    v: PipelineView<T>,
    draws: nat,
    painted: T,
    go_on: bool,
    emptied: T,
)
    ensures
        v.draw(draws, painted) == v.run(
            seq![Step::AcquireForFill, Step::Fill { draws, painted }, Step::SubmitForPresent],
        ),
        v.fill_outcome() != Acquire::Blocked ==> v.tick(draws, painted, go_on) == v.run(
            seq![
                Step::AcquireForFill,
                Step::Fill { draws, painted },
                Step::SubmitForPresent,
                Step::Proceed { go_on },
            ],
        ),
        v.fill_outcome() == Acquire::Blocked ==> v.tick(draws, painted, go_on) == v,
        v.swing(emptied) == v.run(
            seq![Step::AcquireForSubmit, Step::Flush { emptied }, Step::ReturnToPool],
        ),
{
    let none = Seq::<Step<T>>::empty();
    assert(v.run(none) == v);
    let a = Step::AcquireForFill;
    let f = Step::Fill { draws, painted };
    let s = Step::SubmitForPresent;
    let p = Step::Proceed { go_on };
    lemma_run_push(v, none, a);
    lemma_run_push(v, none.push(a), f);
    lemma_run_push(v, none.push(a).push(f), s);
    lemma_run_push(v, none.push(a).push(f).push(s), p);
    assert(seq![a, f, s] =~= none.push(a).push(f).push(s));
    assert(seq![a, f, s, p] =~= none.push(a).push(f).push(s).push(p));
    let b = Step::AcquireForSubmit;
    let e = Step::Flush { emptied };
    let r = Step::ReturnToPool;
    lemma_run_push(v, none, b);
    lemma_run_push(v, none.push(b), e);
    lemma_run_push(v, none.push(b).push(e), r);
    assert(seq![b, e, r] =~= none.push(b).push(e).push(r));
}

/// Nothing is ever undone: a step changes neither the size of the pool nor
/// lowers a count, a driver that has stopped stays stopped, and a stop that
/// was asked for stays asked for.
pub proof fn lemma_step_monotone<T>(v: PipelineView<T>, step: Step<T>)
    requires
        v.wf(),
    ensures
        v.apply(step).pool_size == v.pool_size,
        v.apply(step).fills >= v.fills,
        v.apply(step).flushes >= v.flushes,
        v.apply(step).dropped >= v.dropped,
        !v.simulating ==> !v.apply(step).simulating,
        v.stage == Stage::Closed ==> v.apply(step).stage == Stage::Closed,
{
}

/// What `lemma_step_monotone` says of one step holds of every sequence.
pub proof fn lemma_run_monotone<T>(v: PipelineView<T>, steps: Seq<Step<T>>)
    requires
        v.wf(),
    ensures
        v.run(steps).pool_size == v.pool_size,
        v.run(steps).fills >= v.fills,
        v.run(steps).flushes >= v.flushes,
        v.run(steps).dropped >= v.dropped,
        !v.simulating ==> !v.run(steps).simulating,
        v.stage == Stage::Closed ==> v.run(steps).stage == Stage::Closed,
    decreases steps.len(),
{
    if steps.len() > 0 {
        lemma_run_monotone(v, steps.drop_last());
        lemma_run_wf(v, steps.drop_last());
        lemma_step_monotone(v.run(steps.drop_last()), steps.last());
    }
}

/// Pool conservation. However the steps of the two drivers interleave, the
/// recorders held by the simulation, in the submit queue, held by the
/// presentation and in the recycle queue, together with those that were
/// lost to a side that had gone, are as many as the pool was made with.
/// As long as both drivers are at work none has been lost.
pub proof fn lemma_pool_conservation<T>(pool: Seq<T>, steps: Seq<Step<T>>)
    ensures
        ({
            let v = PipelineView::initial(pool).run(steps);
            &&& v.pool_size == pool.len()
            &&& v.in_flight() + v.dropped == pool.len()
            &&& v.connected() ==> v.in_flight() == pool.len()
        }),
{
    lemma_initial_wf(pool);
    lemma_run_wf(PipelineView::initial(pool), steps);
    lemma_run_monotone(PipelineView::initial(pool), steps);
}

/// Alternation. However the steps interleave, every recorder is in one
/// place only: the recorder that the painter fills is never the one that
/// the device is given, nor one that waits in a queue.
pub proof fn lemma_alternation<T>(pool: Seq<T>, steps: Seq<Step<T>>)
    ensures
        ({
            let v = PipelineView::initial(pool).run(steps);
            &&& v.slots_distinct()
            &&& v.filling is Some && v.presenting is Some ==> v.filling->0.slot
                != v.presenting->0.slot
        }),
{
    reveal(PipelineView::slots_distinct);
    lemma_initial_wf(pool);
    lemma_run_wf(PipelineView::initial(pool), steps);
}

/// Shutdown convergence. A tick in which the shell says no still runs the
/// draw system first, and leaves the simulation stopped. Whatever happens
/// after that, the next cycle of the presentation hands no recorder back
/// and ends the presentation loop.
pub proof fn lemma_shutdown_convergence<T>(
    v: PipelineView<T>,
    draws: nat,
    painted: T,
    later: Seq<Step<T>>,
    emptied: T,
)
    requires
        v.wf(),
        v.fill_outcome() != Acquire::Blocked,
    ensures
        ({
            let stopped = v.tick(draws, painted, false);
            let afterwards = stopped.run(later);
            &&& stopped == v.draw(draws, painted).proceed(false)
            &&& !stopped.simulating
            &&& !afterwards.swing_presents()
            &&& afterwards.swing(emptied).stage == Stage::Closed
        }),
{
    let stopped = v.tick(draws, painted, false);
    lemma_acquire_for_fill_wf(v);
    lemma_fill_wf(v.acquire_for_fill(), draws, painted);
    lemma_submit_for_present_wf(v.acquire_for_fill().fill(draws, painted));
    lemma_proceed_wf(v.draw(draws, painted), false);
    lemma_run_wf(stopped, later);
    lemma_run_monotone(stopped, later);
}

/// Backpressure. As long as no submission completes, the simulation can
/// complete at most as many fills as the pool has recorders that do not
/// await submission already, wherever those that do are: held by the
/// presentation or still in the queue. With a pool of two and one recorder
/// awaiting submission, that is one. Over the whole run the fills are never
/// more than the pool size ahead of the submissions.
pub proof fn lemma_backpressure<T>(before: PipelineView<T>, steps: Seq<Step<T>>)
    requires
        before.wf(),
        before.run(steps).flushes == before.flushes,
    ensures
        before.awaiting_submission() <= before.pool_size,
        before.fills <= before.run(steps).fills <= before.fills + before.pool_size
            - before.awaiting_submission(),
        before.run(steps).fills <= before.run(steps).flushes + before.pool_size,
{
    lemma_run_wf(before, steps);
    lemma_run_monotone(before, steps);
}

/// One round in lockstep, from rest: the tick finds a recorder and fills
/// it, the cycle submits it and hands it back, and the pipeline is at rest
/// again.
pub proof fn lemma_round<T>(v: PipelineView<T>, round: Round<T>)
    requires
        v.wf(),
        v.at_rest(),
    ensures
        v.fill_outcome() == Acquire::Ready,
        v.tick(round.draws, round.painted, true).swing_presents(),
        v.round(round).wf(),
        v.round(round).at_rest(),
        v.round(round).fills == v.fills + 1,
        v.round(round).flushes == v.flushes + 1,
        v.round(round).recycle.len() == v.recycle.len(),
        v.round(round).dropped == v.dropped,
{
    reveal(PipelineView::queues_sorted);
    let acquired = v.acquire_for_fill();
    let filled = acquired.fill(round.draws, round.painted);
    let sent = filled.submit_for_present();
    lemma_acquire_for_fill_wf(v);
    lemma_fill_wf(acquired, round.draws, round.painted);
    lemma_submit_for_present_wf(filled);
    assert(v.tick(round.draws, round.painted, true) == sent);
    let received = sent.acquire_for_submit();
    let flushed = received.flush(round.emptied);
    lemma_acquire_for_submit_wf(sent);
    lemma_flush_wf(received, round.emptied);
    lemma_return_to_pool_wf(flushed);
}

/// Steady state. From rest, and as long as the shell says yes, any number
/// of rounds in lockstep completes one fill and one submission each:
/// neither driver ever waits, nothing is lost, and the whole pool is at
/// hand again after every round.
pub proof fn lemma_steady_state<T>(v: PipelineView<T>, rounds: Seq<Round<T>>)
    requires
        v.wf(),
        v.at_rest(),
    ensures
        v.lockstep(rounds).wf(),
        v.lockstep(rounds).at_rest(),
        v.lockstep(rounds).fills == v.fills + rounds.len(),
        v.lockstep(rounds).flushes == v.flushes + rounds.len(),
        v.lockstep(rounds).recycle.len() == v.recycle.len(),
        v.lockstep(rounds).dropped == v.dropped,
    decreases rounds.len(),
{
    if rounds.len() > 0 {
        lemma_steady_state(v, rounds.drop_last());
        lemma_round(v.lockstep(rounds.drop_last()), rounds.last());
    }
}

/// One fill per submission. However the steps interleave, no recorder is
/// filled again before it was submitted: its fills are never more than one
/// ahead of its submissions, and they are one ahead exactly while it is
/// filled.
pub proof fn lemma_one_fill_per_submission<T>(pool: Seq<T>, steps: Seq<Step<T>>)
    ensures
        ({
            let v = PipelineView::initial(pool).run(steps);
            &&& forall|i: int|
                0 <= i < v.recycle.len() ==> (#[trigger] v.recycle[i]).fills == v.recycle[i].flushes
            &&& forall|i: int|
                0 <= i < v.submit.len() ==> (#[trigger] v.submit[i]).fills == v.submit[i].flushes
                    + 1
            &&& v.filling is Some ==> v.filling->0.balanced()
            &&& v.presenting is Some ==> v.presenting->0.balanced()
        }),
{
    reveal(PipelineView::queues_sorted);
    reveal(PipelineView::recorders_balanced);
    lemma_initial_wf(pool);
    lemma_run_wf(PipelineView::initial(pool), steps);
}

/// No deadlock. As long as both drivers are at work and the pool is not
/// empty, at least one of them finds a recorder when it tries to acquire
/// one: the two never wait for each other.
pub proof fn lemma_no_deadlock<T>(pool: Seq<T>, steps: Seq<Step<T>>)
    requires
        pool.len() > 0,
    ensures
        ({
            let v = PipelineView::initial(pool).run(steps);
            v.connected() ==> v.fill_outcome() == Acquire::Ready
                || v.submit_outcome() == Acquire::Ready
        }),
{
    lemma_initial_wf(pool);
    lemma_run_wf(PipelineView::initial(pool), steps);
    lemma_run_monotone(PipelineView::initial(pool), steps);
}

/// A recorder is filled once between two submissions: filling needs an
/// idle recorder and leaves it filled, submitting needs a filled one and
/// leaves it idle.
pub proof fn lemma_fill_then_flush<T>(v: PipelineView<T>, draws: nat, painted: T, emptied: T)
    ensures
        v.fill(draws, painted).fill(draws, painted) == v.fill(draws, painted),
        v.flush(emptied).flush(emptied) == v.flush(emptied),
        v.can_fill() ==> v.fill(draws, painted).can_submit(),
        v.can_flush() ==> v.flush(emptied).can_return(),
{
}

} // verus!
