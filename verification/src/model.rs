//! The pipeline as a state machine: where every recorder is, and what each
//! step of either driver does to that.

use crate::presentation::Stage;
use crate::recorder::idle_pool;
use crate::recorder::RecorderState;
use crate::recorder::RecorderView;
use vstd::prelude::*;

verus! {

/// What an attempt to acquire a recorder comes to.
#[derive(Clone, Copy, Debug, PartialEq, Eq, Structural)]
pub enum Acquire {
    /// The driver holds a recorder.
    Ready,
    /// Nothing has arrived yet, but the other side is still there.
    Blocked,
    /// Nothing has arrived and nothing will.
    Closed,
}

/// How many recorders a driver holds: one or none.
pub open spec fn held<T>(place: Option<RecorderView<T>>) -> nat {
    if place is Some {
        1
    } else {
        0
    }
}

/// How many filled recorders a driver holds: one or none.
pub open spec fn held_filled<T>(place: Option<RecorderView<T>>) -> nat {
    if place is Some && place->0.state == RecorderState::Filled {
        1
    } else {
        0
    }
}

/// The whole pipeline at a quiescent point.
pub struct PipelineView<T> {
    /// How many recorders the pool was made with.
    pub pool_size: nat,
    /// Idle recorders on their way back to the simulation, oldest first.
    pub recycle: Seq<RecorderView<T>>,
    /// Filled recorders on their way to presentation, oldest first.
    pub submit: Seq<RecorderView<T>>,
    /// The recorder that the simulation holds, if any.
    pub filling: Option<RecorderView<T>>,
    /// The recorder that the presentation holds, if any.
    pub presenting: Option<RecorderView<T>>,
    /// Whether the simulation driver is still running.
    pub simulating: bool,
    /// Where the presentation driver stands.
    pub stage: Stage,
    /// Whether the presentation driver was asked to stop.
    pub stopping: bool,
    /// Recorders lost because the side they were meant for had gone.
    pub dropped: nat,
    /// Fill operations completed so far.
    pub fills: nat,
    /// Submit operations completed so far.
    pub flushes: nat,
}

impl<T> PipelineView<T> {
    /// A fresh pipeline round the empty buffers `pool`: every recorder idle
    /// and queued for the simulation, in slot order; both drivers running.
    pub open spec fn initial(pool: Seq<T>) -> Self {
        PipelineView {
            pool_size: pool.len(),
            recycle: idle_pool(pool),
            submit: Seq::empty(),
            filling: None,
            presenting: None,
            simulating: true,
            stage: Stage::Waiting,
            stopping: false,
            dropped: 0,
            fills: 0,
            flushes: 0,
        }
    }

    /// The buffer of the recorder that the simulation holds.
    pub open spec fn filling_payload(self) -> T
        recommends
            self.filling is Some,
    {
        self.filling->0.payload
    }

    /// The buffer of the recorder that the presentation holds.
    pub open spec fn presenting_payload(self) -> T
        recommends
            self.presenting is Some,
    {
        self.presenting->0.payload
    }

    /// The recorders that can be observed: held by the simulation, in the
    /// submit queue, held by the presentation, in the recycle queue.
    pub open spec fn in_flight(self) -> nat {
        held(self.filling) + self.submit.len() + held(self.presenting) + self.recycle.len()
    }

    /// The observable recorders whose commands still await submission.
    pub open spec fn awaiting_submission(self) -> nat {
        held_filled(self.filling) + self.submit.len() + held_filled(self.presenting)
    }

    /// Both drivers are still at work.
    pub open spec fn connected(self) -> bool {
        self.simulating && self.stage != Stage::Closed
    }

    /// Every recorder has a slot of the pool, and no slot occurs twice.
    #[verifier::opaque]
    pub open spec fn slots_distinct(self) -> bool {
        &&& forall|i: int|
            0 <= i < self.recycle.len() ==> (#[trigger] self.recycle[i]).slot < self.pool_size
        &&& forall|i: int|
            0 <= i < self.submit.len() ==> (#[trigger] self.submit[i]).slot < self.pool_size
        &&& self.filling is Some ==> self.filling->0.slot < self.pool_size
        &&& self.presenting is Some ==> self.presenting->0.slot < self.pool_size
        &&& forall|i: int, j: int|
            0 <= i < j < self.recycle.len() ==> (#[trigger] self.recycle[i]).slot != (
            #[trigger] self.recycle[j]).slot
        &&& forall|i: int, j: int|
            0 <= i < j < self.submit.len() ==> (#[trigger] self.submit[i]).slot != (
            #[trigger] self.submit[j]).slot
        &&& forall|i: int, j: int|
            0 <= i < self.recycle.len() && 0 <= j < self.submit.len() ==> (
            #[trigger] self.recycle[i]).slot != (#[trigger] self.submit[j]).slot
        &&& self.filling is Some ==> forall|i: int|
            0 <= i < self.recycle.len() ==> (#[trigger] self.recycle[i]).slot
                != self.filling->0.slot
        &&& self.filling is Some ==> forall|i: int|
            0 <= i < self.submit.len() ==> (#[trigger] self.submit[i]).slot != self.filling->0.slot
        &&& self.presenting is Some ==> forall|i: int|
            0 <= i < self.recycle.len() ==> (#[trigger] self.recycle[i]).slot
                != self.presenting->0.slot
        &&& self.presenting is Some ==> forall|i: int|
            0 <= i < self.submit.len() ==> (#[trigger] self.submit[i]).slot
                != self.presenting->0.slot
        &&& self.filling is Some && self.presenting is Some ==> self.filling->0.slot
            != self.presenting->0.slot
    }

    /// What waits for the simulation is idle, and what waits for the
    /// presentation is filled.
    #[verifier::opaque]
    pub open spec fn queues_sorted(self) -> bool {
        &&& forall|i: int|
            0 <= i < self.recycle.len() ==> (#[trigger] self.recycle[i]).state
                == RecorderState::Idle
        &&& forall|i: int|
            0 <= i < self.submit.len() ==> (#[trigger] self.submit[i]).state
                == RecorderState::Filled
    }

    /// Of every recorder, fills and submissions have taken turns.
    #[verifier::opaque]
    pub open spec fn recorders_balanced(self) -> bool {
        &&& forall|i: int| 0 <= i < self.recycle.len() ==> (#[trigger] self.recycle[i]).balanced()
        &&& forall|i: int| 0 <= i < self.submit.len() ==> (#[trigger] self.submit[i]).balanced()
        &&& self.filling is Some ==> self.filling->0.balanced()
        &&& self.presenting is Some ==> self.presenting->0.balanced()
    }

    /// What holds of every pipeline that was made by `initial` and moved on
    /// by the steps below.
    pub open spec fn wf(self) -> bool {
        &&& self.in_flight() + self.dropped == self.pool_size
        &&& self.slots_distinct()
        &&& self.queues_sorted()
        &&& self.recorders_balanced()
        &&& !self.simulating ==> self.recycle.len() == 0 && self.filling is None
        &&& self.stage == Stage::Closed ==> self.submit.len() == 0
        &&& (self.stage == Stage::Drawn) == (self.presenting is Some)
        &&& self.dropped > 0 ==> !self.connected()
        &&& self.flushes + self.awaiting_submission() <= self.fills
        &&& self.fills <= self.flushes + self.awaiting_submission() + self.dropped
    }

    // ----- the simulation side -----
    /// What an attempt of the simulation to acquire a recorder comes to.
    pub open spec fn fill_outcome(self) -> Acquire {
        if !self.simulating {
            Acquire::Closed
        } else if self.filling is Some || self.recycle.len() > 0 {
            Acquire::Ready
        } else if self.stage != Stage::Closed {
            Acquire::Blocked
        } else {
            Acquire::Closed
        }
    }

    /// The simulation takes the oldest recorder from the recycle queue,
    /// unless it holds one already.
    pub open spec fn acquire_for_fill(self) -> Self {
        if self.simulating && self.filling is None && self.recycle.len() > 0 {
            PipelineView {
                filling: Some(self.recycle[0]),
                recycle: self.recycle.skip(1),
                ..self
            }
        } else {
            self
        }
    }

    /// Whether the simulation holds a recorder that can be filled.
    pub open spec fn can_fill(self) -> bool {
        self.filling is Some && self.filling->0.state == RecorderState::Idle
    }

    /// The painter fills the recorder that the simulation holds.
    pub open spec fn fill(self, draws: nat, painted: T) -> Self {
        if self.can_fill() {
            PipelineView {
                filling: Some(self.filling->0.filled(draws, painted)),
                fills: self.fills + 1,
                ..self
            }
        } else {
            self
        }
    }

    /// Whether the simulation holds a recorder that can be sent on.
    pub open spec fn can_submit(self) -> bool {
        self.filling is Some && self.filling->0.state == RecorderState::Filled
    }

    /// The simulation sends its filled recorder on for presentation. With
    /// the presentation gone the recorder is lost, and nobody is told.
    pub open spec fn submit_for_present(self) -> Self {
        if !self.can_submit() {
            self
        } else if self.stage != Stage::Closed {
            PipelineView { submit: self.submit.push(self.filling->0), filling: None, ..self }
        } else {
            PipelineView { filling: None, dropped: self.dropped + 1, ..self }
        }
    }

    /// The shell was asked whether to go on and said `go_on`. On a no the
    /// simulation stops and gives up its ends of both queues: what it held
    /// or was still to receive is lost.
    pub open spec fn proceed(self, go_on: bool) -> Self {
        if self.simulating && !go_on {
            PipelineView {
                simulating: false,
                recycle: Seq::empty(),
                filling: None,
                dropped: self.dropped + self.recycle.len() + held(self.filling),
                ..self
            }
        } else {
            self
        }
    }

    /// One run of the draw system: acquire, fill, send on.
    pub open spec fn draw(self, draws: nat, painted: T) -> Self {
        self.acquire_for_fill().fill(draws, painted).submit_for_present()
    }

    /// One tick of the simulation: the draw system runs, then the shell is
    /// asked. A tick that cannot get a recorder yet does not take place.
    pub open spec fn tick(self, draws: nat, painted: T, go_on: bool) -> Self {
        if self.fill_outcome() == Acquire::Blocked {
            self
        } else {
            self.draw(draws, painted).proceed(go_on)
        }
    }

    // ----- the presentation side -----
    /// The presentation gives up its ends of both queues: what it held or
    /// was still to receive is lost.
    pub open spec fn close(self) -> Self {
        PipelineView {
            stage: Stage::Closed,
            submit: Seq::empty(),
            presenting: None,
            dropped: self.dropped + self.submit.len() + held(self.presenting),
            ..self
        }
    }

    /// What an attempt of the presentation to acquire a recorder comes to.
    pub open spec fn submit_outcome(self) -> Acquire {
        if self.stage == Stage::Closed {
            Acquire::Closed
        } else if self.stage == Stage::Drawn || self.submit.len() > 0 {
            Acquire::Ready
        } else if self.simulating {
            Acquire::Blocked
        } else {
            Acquire::Closed
        }
    }

    /// The presentation takes the oldest recorder from the submit queue. If
    /// there is none and the simulation has gone, the loop ends.
    pub open spec fn acquire_for_submit(self) -> Self {
        if self.stage != Stage::Waiting {
            self
        } else if self.submit.len() > 0 {
            PipelineView {
                presenting: Some(self.submit[0]),
                submit: self.submit.skip(1),
                stage: Stage::Drawn,
                ..self
            }
        } else if self.simulating {
            self
        } else {
            self.close()
        }
    }

    /// Whether the presentation holds a recorder that can be submitted.
    pub open spec fn can_flush(self) -> bool {
        self.presenting is Some && self.presenting->0.state == RecorderState::Filled
    }

    /// The device takes the commands of the recorder that the presentation
    /// holds.
    pub open spec fn flush(self, emptied: T) -> Self {
        if self.can_flush() {
            PipelineView {
                presenting: Some(self.presenting->0.flushed(emptied)),
                flushes: self.flushes + 1,
                ..self
            }
        } else {
            self
        }
    }

    /// Whether the presentation holds a recorder that can go back.
    pub open spec fn can_return(self) -> bool {
        self.presenting is Some && self.presenting->0.state == RecorderState::Idle
    }

    /// The presentation sends its idle recorder back to the pool and ends
    /// the cycle. With the simulation gone the recorder is lost and the
    /// loop ends; the loop also ends if a stop was asked for.
    pub open spec fn return_to_pool(self) -> Self {
        if !self.can_return() {
            self
        } else if self.simulating {
            let returned = PipelineView {
                recycle: self.recycle.push(self.presenting->0),
                presenting: None,
                stage: Stage::Waiting,
                ..self
            };
            if self.stopping {
                returned.close()
            } else {
                returned
            }
        } else {
            self.close()
        }
    }

    /// A stop signal reaches the presentation.
    pub open spec fn request_stop(self) -> Self {
        if self.stage == Stage::Closed {
            self
        } else {
            PipelineView { stopping: true, ..self }
        }
    }

    /// One cycle of the presentation: acquire, submit, hand back.
    pub open spec fn swing(self, emptied: T) -> Self {
        self.acquire_for_submit().flush(emptied).return_to_pool()
    }

    /// Whether a cycle that starts here gets a recorder and can hand it
    /// back to the pool.
    pub open spec fn swing_presents(self) -> bool {
        self.acquire_for_submit().presenting is Some && self.simulating
    }
}

/// What one round in lockstep brings from outside: how many entities the
/// painter went over, and the buffers that the painter and the device left.
pub struct Round<T> {
    pub draws: nat,
    pub painted: T,
    pub emptied: T,
}

impl<T> PipelineView<T> {
    /// At rest: both drivers are at work and between two moves, no stop
    /// was asked for, and every recorder waits, idle, for the simulation.
    pub open spec fn at_rest(self) -> bool {
        &&& self.connected()
        &&& !self.stopping
        &&& self.stage == Stage::Waiting
        &&& self.filling is None
        &&& self.presenting is None
        &&& self.submit.len() == 0
        &&& self.recycle.len() > 0
    }

    /// One round in lockstep: a tick in which the shell says yes, then one
    /// cycle of the presentation.
    pub open spec fn round(self, round: Round<T>) -> Self {
        self.tick(round.draws, round.painted, true).swing(round.emptied)
    }

    /// The pipeline after `rounds` in lockstep.
    pub open spec fn lockstep(self, rounds: Seq<Round<T>>) -> Self
        decreases rounds.len(),
    {
        if rounds.len() == 0 {
            self
        } else {
            self.lockstep(rounds.drop_last()).round(rounds.last())
        }
    }
}

/// One step of either driver. A step that is not possible where it is
/// taken leaves the pipeline as it is.
pub enum Step<T> {
    /// The simulation takes a recorder from the recycle queue.
    AcquireForFill,
    /// The painter went over `draws` entities and left `painted`.
    Fill { draws: nat, painted: T },
    /// The simulation sends its recorder on for presentation.
    SubmitForPresent,
    /// The shell was asked and answered `go_on`.
    Proceed { go_on: bool },
    /// The presentation takes a recorder from the submit queue.
    AcquireForSubmit,
    /// The device took the commands and left `emptied`.
    Flush { emptied: T },
    /// The presentation sends its recorder back to the pool.
    ReturnToPool,
    /// A stop signal reaches the presentation.
    RequestStop,
    /// The presentation loop ends at once.
    Close,
}

impl<T> PipelineView<T> {
    /// The pipeline after `step`.
    pub open spec fn apply(self, step: Step<T>) -> Self {
        match step {
            Step::AcquireForFill => self.acquire_for_fill(),
            Step::Fill { draws, painted } => self.fill(draws, painted),
            Step::SubmitForPresent => self.submit_for_present(),
            Step::Proceed { go_on } => self.proceed(go_on),
            Step::AcquireForSubmit => self.acquire_for_submit(),
            Step::Flush { emptied } => self.flush(emptied),
            Step::ReturnToPool => self.return_to_pool(),
            Step::RequestStop => self.request_stop(),
            Step::Close => self.close(),
        }
    }

    /// The pipeline after `steps`, taken in order: any interleaving of the
    /// two drivers is such a sequence.
    pub open spec fn run(self, steps: Seq<Step<T>>) -> Self
        decreases steps.len(),
    {
        if steps.len() == 0 {
            self
        } else {
            self.run(steps.drop_last()).apply(steps.last())
        }
    }
}

} // verus!
