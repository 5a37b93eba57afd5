//! The pipeline itself: the pool, the two queues and the two drivers, moved
//! on one step at a time.

use crate::channel::Handoff;
use crate::channel::HandoffView;
use crate::channel::Received;
use crate::draw::fills;
use crate::draw::DrawSystem;
use crate::draw::Painter;
use crate::draw::Schedule;
use crate::laws::lemma_acquire_for_fill_wf;
use crate::laws::lemma_acquire_for_submit_wf;
use crate::laws::lemma_close_wf;
use crate::laws::lemma_fill_wf;
use crate::laws::lemma_flush_wf;
use crate::laws::lemma_initial_wf;
use crate::laws::lemma_proceed_wf;
use crate::laws::lemma_request_stop_wf;
use crate::laws::lemma_return_to_pool_wf;
use crate::laws::lemma_submit_for_present_wf;
use crate::model::held;
use crate::model::Acquire;
use crate::model::PipelineView;
use crate::presentation::Device;
use crate::presentation::polled;
use crate::presentation::EventHandler;
use crate::presentation::Presenter;
use crate::presentation::Stage;
use crate::presentation::Swing;
use crate::recorder::held_view;
use crate::recorder::recorder_views;
use crate::recorder::Recorder;
use crate::recorder::RecorderView;
use crate::simulation::elapsed_between;
use crate::simulation::App;
use crate::simulation::Init;
use vstd::prelude::*;

verus! {

/// How a tick of the simulation ended.
#[derive(Clone, Copy, Debug, PartialEq, Eq, Structural)]
pub enum Tick {
    /// The tick took place and the shell wants another.
    Continue,
    /// The simulation has stopped.
    Stopped,
    /// The draw system found no recorder yet: the tick did not take place.
    Blocked,
}

/// What a pipeline works with, besides its recorders.
pub struct Setting<S, P, D> {
    /// The device that frames are submitted to.
    pub device: D,
    /// The shell that is asked whether the simulation goes on.
    pub shell: S,
    /// The painter of the draw system.
    pub painter: P,
    /// The registration of the draw system.
    pub schedule: Schedule,
    /// The clock reading, in nanoseconds, at which the last tick began.
    pub clock: nat,
}

/// The pipeline: a pool of recorders, the queue on which filled ones go to
/// the presentation, the queue on which idle ones come back, and the state
/// of both drivers.
///
/// Each method is one step of one driver. A step that would have to wait
/// for the other side says so and changes nothing, so that a caller can
/// interleave the two sides in any order.
pub struct Pegasus<I: Init, P: Painter<D::Commands>, D: Device> {
    /// The device that frames are submitted to.
    pub device: D,
    app: App<I>,
    draw: DrawSystem<P>,
    presenter: Presenter,
    recycle: Handoff<Recorder<D::Commands>>,
    submit: Handoff<Recorder<D::Commands>>,
    filling: Option<Recorder<D::Commands>>,
    presenting: Option<Recorder<D::Commands>>,
    pool_size: usize,
    dropped: usize,
    fills: Ghost<nat>,
    flushes: Ghost<nat>,
}

impl<I: Init, P: Painter<D::Commands>, D: Device> View for Pegasus<I, P, D> {
    type V = PipelineView<D::Commands>;

    closed spec fn view(&self) -> PipelineView<D::Commands> {
        PipelineView {
            pool_size: self.pool_size as nat,
            recycle: recorder_views(self.recycle@.pending),
            submit: recorder_views(self.submit@.pending),
            filling: held_view(self.filling),
            presenting: held_view(self.presenting),
            simulating: self.app@.running,
            stage: self.presenter@.stage,
            stopping: self.presenter@.stopping,
            dropped: self.dropped as nat,
            fills: self.fills@,
            flushes: self.flushes@,
        }
    }
}

/// Whether a device that is as `before` can be as `rested` when the cycle
/// that acquired as `acquired` shows has submitted its recorder: by taking
/// the commands of a filled recorder and leaving `emptied`; a cycle without
/// a filled recorder leaves the device as it is.
pub open spec fn submitted<D: Device>(
    acquired: PipelineView<D::Commands>,
    before: D,
    emptied: D::Commands,
    rested: D,
) -> bool {
    if acquired.can_flush() {
        before.submits(acquired.presenting_payload(), rested, emptied)
    } else {
        rested == before
    }
}

proof fn lemma_views_push<T>(queue: Seq<Recorder<T>>, recorder: Recorder<T>)
    ensures
        recorder_views(queue.push(recorder)) == recorder_views(queue).push(recorder@),
{
    assert(recorder_views(queue.push(recorder)) =~= recorder_views(queue).push(recorder@));
}

proof fn lemma_views_skip<T>(queue: Seq<Recorder<T>>)
    requires
        queue.len() > 0,
    ensures
        recorder_views(queue.skip(1)) == recorder_views(queue).skip(1),
        recorder_views(queue)[0] == queue[0]@,
{
    assert(recorder_views(queue.skip(1)) =~= recorder_views(queue).skip(1));
}

proof fn lemma_views_empty<T>()
    ensures
        recorder_views(Seq::<Recorder<T>>::empty()) == Seq::<RecorderView<T>>::empty(),
{
    assert(recorder_views(Seq::<Recorder<T>>::empty()) =~= Seq::<RecorderView<T>>::empty());
}

impl<I: Init, P: Painter<D::Commands>, D: Device> Pegasus<I, P, D> {
    /// Each end of each queue is held exactly as long as its driver runs.
    pub closed spec fn consistent(&self) -> bool {
        &&& self.recycle@.sender_open == (self.presenter@.stage != Stage::Closed)
        &&& self.recycle@.receiver_open == self.app@.running
        &&& self.submit@.sender_open == self.app@.running
        &&& self.submit@.receiver_open == (self.presenter@.stage != Stage::Closed)
    }

    /// The pipeline is in a state that `new` and the steps can lead to.
    pub open spec fn wf(&self) -> bool {
        self.consistent() && self@.wf()
    }

    /// What the pipeline works with, besides its recorders.
    pub closed spec fn setting(&self) -> Setting<I::Shell, P, D> {
        Setting {
            device: self.device,
            shell: self.app@.shell,
            painter: self.draw.painter(),
            schedule: self.draw.schedule(),
            clock: self.app@.last_time,
        }
    }

    /// Sets the pipeline up: one idle recorder for each of `buffers`, all of
    /// them queued for the simulation in that order; the draw system round
    /// `painter`; the simulation as `init` starts it in `planner`, with the
    /// clock at `now`. The shell is the one that `start` gave. Dispatching
    /// the planner stays the caller's part of every tick.
    pub fn new(
        init: I,
        device: D,
        painter: P,
        buffers: Vec<D::Commands>,
        schedule: Schedule,
        planner: &mut specs::Planner<I::Context>,
        now: u64,
    ) -> (pegasus: Self)
        requires
            buffers@.len() >= 2,
        ensures
            pegasus.wf(),
            pegasus@ == PipelineView::initial(buffers@),
            pegasus.setting().device == device,
            pegasus.setting().painter == painter,
            pegasus.setting().schedule == schedule,
            pegasus.setting().clock == now,
            exists|given: &mut specs::Planner<I::Context>|
                *given == *old(planner) && *final(given) == *final(planner) && call_ensures(
                    I::start,
                    (init, given),
                    pegasus.setting().shell,
                ),
    {
        let ghost pool = buffers@;
        let pool_size = buffers.len();
        let mut recorders = Recorder::pool(buffers);
        let ghost made = recorders@;
        assert(recorder_views(made).len() == made.len());
        let mut recycle: Handoff<Recorder<D::Commands>> = Handoff::new();
        let mut queued: usize = 0;
        while queued < pool_size
            invariant
                queued <= pool_size,
                pool_size == made.len(),
                recorders@ == made.skip(queued as int),
                recycle@.sender_open,
                recycle@.receiver_open,
                recycle@.pending == made.take(queued as int),
            decreases pool_size - queued,
        {
            let recorder = recorders.remove(0);
            let sent = recycle.send(recorder);
            assert(sent is Ok);
            proof {
                assert(recorders@ =~= made.skip(queued + 1));
                assert(recycle@.pending =~= made.take(queued + 1));
            }
            queued += 1;
        }
        proof {
            assert(made.take(pool_size as int) =~= made);
        }
        let app = App::start(init, planner, now);
        let pegasus = Pegasus {
            device,
            app,
            draw: DrawSystem::new(painter, schedule),
            presenter: Presenter::new(),
            recycle,
            submit: Handoff::new(),
            filling: None,
            presenting: None,
            pool_size,
            dropped: 0,
            fills: Ghost(0),
            flushes: Ghost(0),
        };
        proof {
            lemma_views_empty::<D::Commands>();
            lemma_initial_wf(pool);
        }
        pegasus
    }

    /// The device that frames are submitted to.
    pub fn device(&self) -> (device: &D)
        ensures
            *device == self.setting().device,
    {
        &self.device
    }

    /// How many recorders the pool was made with.
    pub fn pool_size(&self) -> (n: usize)
        ensures
            n == self@.pool_size,
    {
        self.pool_size
    }

    /// How many recorders were lost to a side that had gone.
    pub fn dropped(&self) -> (n: usize)
        ensures
            n == self@.dropped,
    {
        self.dropped
    }

    /// How many recorders wait in the recycle queue.
    pub fn recycle_len(&self) -> (n: usize)
        ensures
            n == self@.recycle.len(),
    {
        self.recycle.len()
    }

    /// How many recorders wait in the submit queue.
    pub fn submit_len(&self) -> (n: usize)
        ensures
            n == self@.submit.len(),
    {
        self.submit.len()
    }

    /// The slot of the recorder that the simulation holds.
    pub fn filling_slot(&self) -> (slot: Option<usize>)
        ensures
            slot is Some == self@.filling is Some,
            slot is Some ==> slot->0 == self@.filling->0.slot,
    {
        match &self.filling {
            Some(recorder) => Some(recorder.slot()),
            None => None,
        }
    }

    /// The slot of the recorder that the presentation holds.
    pub fn presenting_slot(&self) -> (slot: Option<usize>)
        ensures
            slot is Some == self@.presenting is Some,
            slot is Some ==> slot->0 == self@.presenting->0.slot,
    {
        match &self.presenting {
            Some(recorder) => Some(recorder.slot()),
            None => None,
        }
    }

    /// How many recorders can be observed, over both queues and both
    /// drivers.
    pub fn in_flight(&self) -> (n: usize)
        requires
            self.wf(),
        ensures
            n == self@.in_flight(),
    {
        let held_filling: usize = if self.filling.is_some() {
            1
        } else {
            0
        };
        let held_presenting: usize = if self.presenting.is_some() {
            1
        } else {
            0
        };
        held_filling + self.submit.len() + held_presenting + self.recycle.len()
    }

    /// Whether the simulation driver is still running.
    pub fn is_simulating(&self) -> (simulating: bool)
        ensures
            simulating == self@.simulating,
    {
        self.app.is_running()
    }

    /// Where the presentation driver stands.
    pub fn stage(&self) -> (stage: Stage)
        ensures
            stage == self@.stage,
    {
        self.presenter.stage()
    }

    // ----- the simulation side -----
    /// The simulation tries to take a recorder from the recycle queue.
    pub fn acquire_for_fill(&mut self) -> (outcome: Acquire)
        requires
            old(self).wf(),
        ensures
            final(self).wf(),
            final(self)@ == old(self)@.acquire_for_fill(),
            outcome == old(self)@.fill_outcome(),
            final(self).setting() == old(self).setting(),
    {
        if !self.app.is_running() {
            return Acquire::Closed;
        }
        if self.filling.is_some() {
            return Acquire::Ready;
        }
        let ghost before = self.recycle@.pending;
        match self.recycle.recv() {
            Received::Item(recorder) => {
                proof {
                    lemma_views_skip(before);
                    lemma_acquire_for_fill_wf(old(self)@);
                }
                self.filling = Some(recorder);
                Acquire::Ready
            },
            Received::Empty => Acquire::Blocked,
            Received::Disconnected => Acquire::Closed,
        }
    }

    /// The painter fills the recorder that the simulation holds, if that
    /// recorder is idle: first the clear, then each of `visuals` once.
    pub fn fill(&mut self, visuals: &Vec<&P::Visual>) -> (painted: bool)
        requires
            old(self).wf(),
        ensures
            final(self).wf(),
            painted == old(self)@.can_fill(),
            final(self)@ == old(self)@.fill(visuals@.len(), final(self)@.filling_payload()),
            painted ==> fills(
                old(self).setting().painter,
                old(self)@.filling_payload(),
                visuals@,
                final(self).setting().painter,
                final(self)@.filling_payload(),
            ),
            !painted ==> final(self).setting() == old(self).setting(),
            final(self).setting() == (Setting {
                painter: final(self).setting().painter,
                ..old(self).setting()
            }),
    {
        match self.filling.take() {
            Some(mut recorder) => {
                let painted = self.draw.fill(&mut recorder, visuals);
                if painted {
                    self.fills = Ghost(self.fills@ + 1);
                }
                proof {
                    lemma_fill_wf(old(self)@, visuals@.len(), recorder@.payload);
                }
                self.filling = Some(recorder);
                painted
            },
            None => false,
        }
    }

    /// The simulation sends the filled recorder that it holds on for
    /// presentation. If the presentation has gone the recorder is lost;
    /// the caller is not told and need not care.
    pub fn submit_for_present(&mut self) -> (sent: bool)
        requires
            old(self).wf(),
        ensures
            final(self).wf(),
            sent == old(self)@.can_submit(),
            final(self)@ == old(self)@.submit_for_present(),
            final(self).setting() == old(self).setting(),
    {
        let ready = match &self.filling {
            Some(recorder) => recorder.is_filled(),
            None => false,
        };
        if !ready {
            return false;
        }
        proof {
            lemma_submit_for_present_wf(old(self)@);
        }
        let ghost before = self.submit@.pending;
        match self.filling.take() {
            Some(recorder) => {
                proof {
                    lemma_views_push(before, recorder);
                }
                match self.submit.send(recorder) {
                    Ok(_) => {},
                    Err(_) => {
                        self.dropped = self.dropped + 1;
                    },
                }
            },
            None => {},
        }
        true
    }

    /// Begins a tick at clock reading `now`: the result is the time, in
    /// nanoseconds, since the last tick began.
    pub fn advance(&mut self, now: u64) -> (elapsed: u64)
        requires
            old(self).wf(),
        ensures
            final(self).wf(),
            final(self)@ == old(self)@,
            elapsed == elapsed_between(old(self).setting().clock, now as nat),
            final(self).setting() == (Setting { clock: now as nat, ..old(self).setting() }),
    {
        self.app.advance(now)
    }

    /// The simulation gives up its ends of both queues.
    fn wind_down(&mut self)
        requires
            !old(self).app@.running,
            old(self).dropped + old(self).recycle@.pending.len() + held(
                held_view(old(self).filling),
            ) <= usize::MAX,
        ensures
            final(self).device == old(self).device,
            final(self).app == old(self).app,
            final(self).draw == old(self).draw,
            final(self).presenter == old(self).presenter,
            final(self).presenting == old(self).presenting,
            final(self).pool_size == old(self).pool_size,
            final(self).fills == old(self).fills,
            final(self).flushes == old(self).flushes,
            final(self).filling is None,
            final(self).dropped == old(self).dropped + old(self).recycle@.pending.len() + held(
                held_view(old(self).filling),
            ),
            final(self).recycle@ == (HandoffView {
                pending: Seq::empty(),
                receiver_open: false,
                ..old(self).recycle@
            }),
            final(self).submit@ == (HandoffView {
                sender_open: false,
                ..old(self).submit@
            }),
    {
        let discarded = self.recycle.close_receiver();
        self.submit.close_sender();
        let held_filling: usize = match self.filling.take() {
            Some(_) => 1,
            None => 0,
        };
        self.dropped = self.dropped + discarded + held_filling;
    }

    /// Takes the shell's answer to whether the simulation goes on. On a no
    /// the simulation stops and gives up its ends of both queues. The
    /// result says whether the simulation is still running.
    pub fn settle(&mut self, answer: bool) -> (go_on: bool)
        requires
            old(self).wf(),
        ensures
            final(self).wf(),
            final(self)@ == old(self)@.proceed(answer),
            go_on == (old(self)@.simulating && answer),
            final(self).setting() == old(self).setting(),
    {
        let was_running = self.app.is_running();
        let go_on = self.app.settle(answer);
        if was_running && !go_on {
            proof {
                lemma_proceed_wf(old(self)@, false);
                lemma_views_empty::<D::Commands>();
            }
            self.wind_down();
        }
        go_on
    }

    /// Asks the shell whether the simulation goes on, and settles on its
    /// answer, which is the result. A simulation that has stopped asks
    /// nobody.
    pub fn proceed(&mut self, world: &specs::World) -> (go_on: bool)
        requires
            old(self).wf(),
        ensures
            final(self).wf(),
            final(self)@ == old(self)@.proceed(go_on),
            go_on == final(self)@.simulating,
            final(self).setting() == (Setting {
                shell: final(self).setting().shell,
                ..old(self).setting()
            }),
            !old(self)@.simulating ==> final(self).setting() == old(self).setting(),
            old(self)@.simulating ==> exists|shell: &mut I::Shell|
                *shell == old(self).setting().shell && *final(shell) == final(self).setting().shell && call_ensures(I::proceed, (shell, world), go_on),
    {
        let answer = self.app.ask(world);
        self.settle(answer)
    }

    /// One run of the draw system: acquire a recorder, let the painter fill
    /// it, send it on. Without a recorder the run does nothing, and the
    /// painter is not called.
    pub fn draw(&mut self, visuals: &Vec<&P::Visual>) -> (outcome: Acquire)
        requires
            old(self).wf(),
        ensures
            final(self).wf(),
            outcome == old(self)@.fill_outcome(),
            exists|painted: D::Commands|
                final(self)@ == #[trigger] old(self)@.draw(visuals@.len(), painted) && (old(self)@.acquire_for_fill().can_fill() ==> fills(
                    old(self).setting().painter,
                    old(self)@.acquire_for_fill().filling_payload(),
                    visuals@,
                    final(self).setting().painter,
                    painted,
                )),
            outcome != Acquire::Ready ==> final(self)@ == old(self)@,
            !old(self)@.acquire_for_fill().can_fill() ==> final(self).setting() == old(self).setting(),
            final(self).setting() == (Setting {
                painter: final(self).setting().painter,
                ..old(self).setting()
            }),
    {
        let outcome = self.acquire_for_fill();
        match outcome {
            Acquire::Ready => {
                self.fill(visuals);
                let ghost painted = self@.filling_payload();
                self.submit_for_present();
                assert(self@ == old(self)@.draw(visuals@.len(), painted));
            },
            _ => {
                assert(self@ == old(self)@.draw(visuals@.len(), arbitrary()));
            },
        }
        outcome
    }

    /// One tick of the simulation, after the other systems ran: the draw
    /// system runs over `visuals`, then the shell is asked with `world`,
    /// and its answer decides between `Continue` and `Stopped`. If the draw
    /// system would have to wait for a recorder, the tick does not take
    /// place and nobody is asked.
    pub fn tick(&mut self, world: &specs::World, visuals: &Vec<&P::Visual>) -> (outcome: Tick)
        requires
            old(self).wf(),
        ensures
            final(self).wf(),
            outcome is Blocked == (old(self)@.fill_outcome() == Acquire::Blocked),
            outcome is Continue == (final(self)@.simulating && !(outcome is Blocked)),
            outcome is Blocked ==> final(self)@ == old(self)@ && final(self).setting()
                == old(self).setting(),
            exists|painted: D::Commands|
                final(self)@ == #[trigger] old(self)@.tick(
                    visuals@.len(),
                    painted,
                    outcome is Continue,
                ) && (old(self)@.acquire_for_fill().can_fill() ==> fills(
                    old(self).setting().painter,
                    old(self)@.acquire_for_fill().filling_payload(),
                    visuals@,
                    final(self).setting().painter,
                    painted,
                )),
            !old(self)@.acquire_for_fill().can_fill() ==> final(self).setting().painter == old(self).setting().painter,
            old(self)@.simulating && !(outcome is Blocked) ==> exists|shell: &mut I::Shell|
                *shell == old(self).setting().shell && *final(shell) == final(self).setting().shell && call_ensures(I::proceed, (shell, world), outcome is Continue),
            !old(self)@.simulating ==> final(self).setting() == old(self).setting(),
            final(self).setting() == (Setting {
                painter: final(self).setting().painter,
                shell: final(self).setting().shell,
                ..old(self).setting()
            }),
    {
        let acquired = self.draw(visuals);
        match acquired {
            Acquire::Blocked => {
                assert(self@ == old(self)@.tick(visuals@.len(), arbitrary(), false));
                Tick::Blocked
            },
            _ => {
                let ghost painted: D::Commands = choose|painted: D::Commands|
                    self@ == #[trigger] old(self)@.draw(visuals@.len(), painted) && (old(self)@.acquire_for_fill().can_fill() ==> fills(
                        old(self).setting().painter,
                        old(self)@.acquire_for_fill().filling_payload(),
                        visuals@,
                        self.setting().painter,
                        painted,
                    ));
                let go_on = self.proceed(world);
                assert(self@ == old(self)@.tick(visuals@.len(), painted, go_on));
                if go_on {
                    Tick::Continue
                } else {
                    Tick::Stopped
                }
            },
        }
    }

    // ----- the presentation side -----
    /// The presentation gives up its ends of both queues.
    fn hang_up(&mut self)
        requires
            old(self).presenter@.stage == Stage::Closed,
            old(self).presenting is None,
            old(self).dropped + old(self).submit@.pending.len() <= usize::MAX,
        ensures
            final(self).presenter == old(self).presenter,
            final(self).app == old(self).app,
            final(self).draw == old(self).draw,
            final(self).device == old(self).device,
            final(self).filling == old(self).filling,
            final(self).presenting == old(self).presenting,
            final(self).pool_size == old(self).pool_size,
            final(self).fills == old(self).fills,
            final(self).flushes == old(self).flushes,
            final(self).dropped == old(self).dropped + old(self).submit@.pending.len(),
            final(self).submit@ == (HandoffView {
                pending: Seq::empty(),
                receiver_open: false,
                ..old(self).submit@
            }),
            final(self).recycle@ == (HandoffView {
                sender_open: false,
                ..old(self).recycle@
            }),
    {
        let discarded = self.submit.close_receiver();
        self.recycle.close_sender();
        self.dropped = self.dropped + discarded;
    }

    /// The presentation tries to take a recorder from the submit queue. If
    /// there is none and the simulation has gone, the loop ends.
    pub fn acquire_for_submit(&mut self) -> (outcome: Acquire)
        requires
            old(self).wf(),
        ensures
            final(self).wf(),
            final(self)@ == old(self)@.acquire_for_submit(),
            outcome == old(self)@.submit_outcome(),
            final(self).setting() == old(self).setting(),
    {
        match self.presenter.stage() {
            Stage::Closed => {
                return Acquire::Closed;
            },
            Stage::Drawn => {
                return Acquire::Ready;
            },
            Stage::Waiting => {},
        }
        proof {
            lemma_acquire_for_submit_wf(old(self)@);
        }
        let ghost before = self.submit@.pending;
        let received = self.submit.recv();
        match self.presenter.receive(received) {
            Some(recorder) => {
                proof {
                    lemma_views_skip(before);
                }
                self.presenting = Some(recorder);
                Acquire::Ready
            },
            None => {
                if self.presenter.is_closed() {
                    proof {
                        lemma_views_empty::<D::Commands>();
                    }
                    self.hang_up();
                    Acquire::Closed
                } else {
                    Acquire::Blocked
                }
            },
        }
    }

    /// The device takes the commands of the recorder that the presentation
    /// holds, if that recorder is filled; the recorder is idle afterwards.
    pub fn flush(&mut self) -> (submitted: bool)
        requires
            old(self).wf(),
        ensures
            final(self).wf(),
            submitted == old(self)@.can_flush(),
            final(self)@ == old(self)@.flush(final(self)@.presenting_payload()),
            submitted ==> old(self).setting().device.submits(
                old(self)@.presenting_payload(),
                final(self).setting().device,
                final(self)@.presenting_payload(),
            ),
            !submitted ==> final(self).setting() == old(self).setting(),
            final(self).setting() == (Setting {
                device: final(self).setting().device,
                ..old(self).setting()
            }),
    {
        match self.presenting.take() {
            Some(mut recorder) => {
                let submitted = recorder.flush(&mut self.device);
                if submitted {
                    self.flushes = Ghost(self.flushes@ + 1);
                }
                proof {
                    lemma_flush_wf(old(self)@, recorder@.payload);
                }
                self.presenting = Some(recorder);
                submitted
            },
            None => false,
        }
    }

    /// The presentation sends the idle recorder that it holds back to the
    /// pool and ends its cycle. The result says whether the simulation was
    /// there to take it. If it was not, or a stop was asked for, the loop
    /// ends.
    pub fn return_to_pool(&mut self) -> (returned: bool)
        requires
            old(self).wf(),
        ensures
            final(self).wf(),
            returned == (old(self)@.can_return() && old(self)@.simulating),
            final(self)@ == old(self)@.return_to_pool(),
            final(self).setting() == old(self).setting(),
    {
        let ready = match &self.presenting {
            Some(recorder) => !recorder.is_filled(),
            None => false,
        };
        if !ready {
            return false;
        }
        proof {
            lemma_return_to_pool_wf(old(self)@);
            lemma_views_empty::<D::Commands>();
        }
        let ghost before = self.recycle@.pending;
        let mut returned = false;
        match self.presenting.take() {
            Some(recorder) => {
                proof {
                    lemma_views_push(before, recorder);
                }
                match self.recycle.send(recorder) {
                    Ok(_) => {
                        returned = true;
                    },
                    Err(_) => {
                        self.dropped = self.dropped + 1;
                    },
                }
            },
            None => {},
        }
        let go_on = self.presenter.finish(returned);
        if !go_on {
            self.hang_up();
        }
        returned
    }

    /// A stop signal reaches the presentation. The cycle under way, or the
    /// next one, is still brought to its end; then the loop ends.
    pub fn request_stop(&mut self)
        requires
            old(self).wf(),
        ensures
            final(self).wf(),
            final(self)@ == old(self)@.request_stop(),
            final(self).setting() == old(self).setting(),
    {
        proof {
            lemma_request_stop_wf(old(self)@);
        }
        self.presenter.request_stop();
    }

    /// Shows `handler` every one of `events`, in order. The result is true
    /// if every one of its verdicts was, and false if one was not, which
    /// counts as a stop signal.
    pub fn poll<E, H: EventHandler<E>>(&mut self, handler: &mut H, events: &Vec<E>) -> (keep_running:
        bool)
        requires
            old(self).wf(),
        ensures
            final(self).wf(),
            polled(*old(handler), events@, *final(handler), keep_running),
            keep_running ==> final(self)@ == old(self)@,
            !keep_running ==> final(self)@ == old(self)@.request_stop(),
            final(self).setting() == old(self).setting(),
    {
        proof {
            lemma_request_stop_wf(old(self)@);
        }
        self.presenter.poll(handler, events)
    }

    /// The presentation loop ends at once and gives up its ends of both
    /// queues.
    pub fn close(&mut self)
        requires
            old(self).wf(),
        ensures
            final(self).wf(),
            final(self)@ == old(self)@.close(),
            final(self).setting() == old(self).setting(),
    {
        proof {
            lemma_close_wf(old(self)@);
            lemma_views_empty::<D::Commands>();
        }
        match self.presenting.take() {
            Some(_) => {
                self.dropped = self.dropped + 1;
            },
            None => {},
        }
        self.presenter.close();
        self.hang_up();
    }

    /// One cycle of the presentation: receive a filled recorder, submit it
    /// to the device, send it back to the pool. The result is a frame only
    /// if all of that took place; the device is then on loan to the frame
    /// until it has been shown. When the recorder could not be sent back,
    /// the device cleans up here. A cycle that gets no recorder leaves the
    /// device alone.
    pub fn swing(&mut self) -> (frame: Option<Swing<'_, D>>)
        requires
            old(self).wf(),
        ensures
            final(self).wf(),
            frame is Some == old(self)@.swing_presents(),
            exists|emptied: D::Commands, rested: D| #[trigger]
                submitted(
                    old(self)@.acquire_for_submit(),
                    old(self).setting().device,
                    emptied,
                    rested,
                ) && final(self)@ == old(self)@.swing(emptied) && (frame is Some
                    ==> *frame->0.device == rested) && (frame is None && old(self)@.acquire_for_submit().presenting is Some ==> rested.cleans(
                    final(self).setting().device,
                )),
            frame is Some ==> *final(frame->0.device) == final(self).setting().device,
            old(self)@.acquire_for_submit().presenting is None ==> final(self).setting() == old(self).setting(),
            final(self).setting() == (Setting {
                device: final(self).setting().device,
                ..old(self).setting()
            }),
    {
        match self.acquire_for_submit() {
            Acquire::Ready => {},
            _ => {
                assert(self@ == old(self)@.swing(arbitrary()));
                assert(submitted(
                    old(self)@.acquire_for_submit(),
                    old(self).setting().device,
                    arbitrary(),
                    self.setting().device,
                ));
                return None;
            },
        }
        self.flush();
        let ghost emptied = self@.presenting_payload();
        let ghost rested = self.device;
        let returned = self.return_to_pool();
        assert(self@ == old(self)@.swing(emptied));
        assert(submitted(
            old(self)@.acquire_for_submit(),
            old(self).setting().device,
            emptied,
            rested,
        ));
        Swing::after(returned, &mut self.device)
    }
}

} // verus!
