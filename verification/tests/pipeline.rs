use pegasus::Acquire;
use pegasus::Device;
use pegasus::Event;
use pegasus::DefaultHandler;
use pegasus::Init;
use pegasus::Painter;
use pegasus::Pegasus;
use pegasus::Schedule;
use pegasus::Stage;
use pegasus::Tick;
use std::cell::Cell;
use std::cell::RefCell;
use std::rc::Rc;

/// A command buffer that remembers what was recorded into it.
type Log = Vec<i64>;

const CLEAR: i64 = -1;

/// What the test can still see after the painter, the shell and the device
/// have gone into the pipeline.
#[derive(Default)]
struct Probe {
    /// One entry per fill or submit, in the order in which they happened.
    trace: RefCell<Vec<&'static str>>,
    fills: Cell<usize>,
    draws: Cell<usize>,
    asked: Cell<usize>,
    fills_when_asked: RefCell<Vec<usize>>,
}

struct Brush(Rc<Probe>);

impl Painter<Log> for Brush {
    type Visual = i64;

    fn clear(&mut self, target: &mut Log) {
        self.0.fills.set(self.0.fills.get() + 1);
        self.0.trace.borrow_mut().push("fill");
        target.push(CLEAR);
    }

    fn draw(&mut self, visual: &i64, target: &mut Log) {
        self.0.draws.set(self.0.draws.get() + 1);
        target.push(*visual);
    }
}

struct Screen {
    probe: Rc<Probe>,
    frames: Vec<Log>,
    cleanups: usize,
}

impl Device for Screen {
    type Commands = Log;

    fn submit(&mut self, commands: &mut Log) {
        self.probe.trace.borrow_mut().push("submit");
        self.frames.push(commands.clone());
        commands.clear();
    }

    fn cleanup(&mut self) {
        self.cleanups += 1;
    }
}

/// A shell that says yes a given number of times, then no.
struct Countdown {
    yes: usize,
    probe: Rc<Probe>,
}

impl Init for Countdown {
    type Context = f32;
    type Shell = Countdown;

    fn start(self, _planner: &mut specs::Planner<f32>) -> Countdown {
        self
    }

    fn proceed(shell: &mut Countdown, _world: &specs::World) -> bool {
        shell.probe.asked.set(shell.probe.asked.get() + 1);
        shell.probe.fills_when_asked.borrow_mut().push(shell.probe.fills.get());
        if shell.yes > 0 {
            shell.yes -= 1;
            true
        } else {
            false
        }
    }
}

type Pipeline = Pegasus<Countdown, Brush, Screen>;

fn pipeline(pool: usize, yes: usize) -> (Pipeline, specs::Planner<f32>, Rc<Probe>) {
    let probe = Rc::new(Probe::default());
    let buffers: Vec<Log> = (0..pool).map(|_| Log::new()).collect();
    assert!(buffers.len() >= 2);
    let mut planner = pegasus::scheduler();
    let pegasus = Pegasus::new(
        Countdown { yes, probe: probe.clone() },
        Screen { probe: probe.clone(), frames: Vec::new(), cleanups: 0 },
        Brush(probe.clone()),
        buffers,
        Schedule::draw(),
        &mut planner,
        0,
    );
    (pegasus, planner, probe)
}

/// Pool conservation, as far as a test can see it.
fn conserved(p: &Pipeline) {
    assert_eq!(p.in_flight() + p.dropped(), p.pool_size());
    if p.is_simulating() && p.stage() != Stage::Closed {
        assert_eq!(p.dropped(), 0);
        assert_eq!(p.in_flight(), p.pool_size());
    }
    if let (Some(a), Some(b)) = (p.filling_slot(), p.presenting_slot()) {
        assert_ne!(a, b);
    }
}

#[test]
fn a_new_pipeline_has_its_whole_pool_queued_for_the_simulation() {
    let (p, mut planner, probe) = pipeline(2, 0);
    assert_eq!(p.pool_size(), 2);
    assert_eq!(p.recycle_len(), 2);
    assert_eq!(p.submit_len(), 0);
    assert_eq!(p.filling_slot(), None);
    assert_eq!(p.presenting_slot(), None);
    assert_eq!(p.in_flight(), 2);
    assert_eq!(p.dropped(), 0);
    assert!(p.is_simulating());
    assert_eq!(p.stage(), Stage::Waiting);
    assert_eq!(probe.fills.get(), 0);
    assert!(p.device.frames.is_empty());
    // The scheduler that came back is a working one, round an empty world.
    let world = planner.mut_world();
    let first = world.create_now().build();
    assert!(world.is_alive(first));
}

#[test]
fn a_larger_pool_is_queued_in_slot_order() {
    let (mut p, _planner, _probe) = pipeline(3, 0);
    assert_eq!(p.pool_size(), 3);
    assert_eq!(p.recycle_len(), 3);
    for slot in 0..3 {
        assert_eq!(p.acquire_for_fill(), Acquire::Ready);
        assert_eq!(p.filling_slot(), Some(slot));
        assert!(p.fill(&Vec::new()));
        assert!(p.submit_for_present());
    }
    assert_eq!(p.acquire_for_fill(), Acquire::Blocked);
    conserved(&p);
}

#[test]
fn a_recorder_goes_round_step_by_step() {
    let (mut p, _planner, probe) = pipeline(2, 0);
    let (a, b) = (11, 12);

    assert_eq!(p.acquire_for_fill(), Acquire::Ready);
    assert_eq!(p.filling_slot(), Some(0));
    assert_eq!(p.recycle_len(), 1);
    conserved(&p);
    // Acquiring again while holding changes nothing.
    assert_eq!(p.acquire_for_fill(), Acquire::Ready);
    assert_eq!(p.filling_slot(), Some(0));
    assert_eq!(p.recycle_len(), 1);

    // An idle recorder is not sent on.
    assert!(!p.submit_for_present());
    assert_eq!(p.filling_slot(), Some(0));

    assert!(p.fill(&vec![&a, &b]));
    assert!(!p.fill(&vec![&a]));
    assert_eq!(probe.fills.get(), 1);
    assert_eq!(probe.draws.get(), 2);
    conserved(&p);

    assert!(p.submit_for_present());
    assert!(!p.submit_for_present());
    assert_eq!(p.filling_slot(), None);
    assert_eq!(p.submit_len(), 1);
    conserved(&p);

    assert_eq!(p.acquire_for_submit(), Acquire::Ready);
    assert_eq!(p.presenting_slot(), Some(0));
    assert_eq!(p.submit_len(), 0);
    assert_eq!(p.stage(), Stage::Drawn);
    assert_eq!(p.acquire_for_submit(), Acquire::Ready);
    conserved(&p);

    // A filled recorder does not go back before it was submitted.
    assert!(!p.return_to_pool());
    assert_eq!(p.presenting_slot(), Some(0));

    assert!(p.flush());
    assert!(!p.flush());
    assert_eq!(p.device.frames, vec![vec![CLEAR, 11, 12]]);
    conserved(&p);

    assert!(p.return_to_pool());
    assert!(!p.return_to_pool());
    assert_eq!(p.presenting_slot(), None);
    assert_eq!(p.stage(), Stage::Waiting);
    assert_eq!(p.recycle_len(), 2);
    conserved(&p);

    // The queue is in order: slot 1 was waiting first, slot 0 came back.
    assert_eq!(p.acquire_for_fill(), Acquire::Ready);
    assert_eq!(p.filling_slot(), Some(1));
    assert!(p.fill(&Vec::new()));
    assert!(p.submit_for_present());
    assert_eq!(p.acquire_for_fill(), Acquire::Ready);
    assert_eq!(p.filling_slot(), Some(0));
}

#[test]
fn steps_without_a_recorder_do_nothing() {
    let (mut p, _planner, probe) = pipeline(2, 0);
    assert!(!p.fill(&Vec::new()));
    assert!(!p.submit_for_present());
    assert!(!p.flush());
    assert!(!p.return_to_pool());
    assert_eq!(probe.fills.get(), 0);
    assert_eq!(p.recycle_len(), 2);
    conserved(&p);
}

#[test]
fn the_device_can_be_read_through_its_accessor() {
    let (mut p, mut planner, _probe) = pipeline(2, 3);
    assert_eq!(p.device().frames.len(), 0);
    p.tick(planner.mut_world(), &Vec::new());
    p.swing().unwrap().finish();
    assert_eq!(p.device().frames.len(), 1);
    assert_eq!(p.device().cleanups, 1);
}

#[test]
fn a_cycle_without_a_recorder_leaves_the_device_alone() {
    let (mut p, mut planner, _probe) = pipeline(2, 0);
    // Nothing to present yet.
    assert!(p.swing().is_none());
    assert_eq!(p.device.cleanups, 0);
    assert!(p.device.frames.is_empty());
    // The loop has ended: the queue is empty and the simulation has gone.
    assert_eq!(p.settle(false), false);
    assert!(p.swing().is_none());
    assert_eq!(p.stage(), Stage::Closed);
    assert!(p.swing().is_none());
    assert_eq!(p.device.cleanups, 0);
    assert!(p.device.frames.is_empty());
    let _ = planner.mut_world();
}

#[test]
fn the_presentation_waits_while_nothing_was_filled() {
    let (mut p, _planner, _probe) = pipeline(2, 0);
    assert_eq!(p.acquire_for_submit(), Acquire::Blocked);
    assert_eq!(p.stage(), Stage::Waiting);
    assert!(p.swing().is_none());
    assert_eq!(p.stage(), Stage::Waiting);
    assert_eq!(p.device.cleanups, 0);
    conserved(&p);
}

#[test]
fn the_simulation_waits_when_the_pool_is_used_up() {
    let (mut p, mut planner, probe) = pipeline(2, 10);
    assert_eq!(p.tick(planner.mut_world(), &Vec::new()), Tick::Continue);
    assert_eq!(p.tick(planner.mut_world(), &Vec::new()), Tick::Continue);
    assert_eq!(p.submit_len(), 2);
    assert_eq!(p.recycle_len(), 0);
    // No recorder: the tick does not take place and nobody is asked.
    assert_eq!(p.tick(planner.mut_world(), &Vec::new()), Tick::Blocked);
    assert_eq!(p.draw(&Vec::new()), Acquire::Blocked);
    assert_eq!(probe.asked.get(), 2);
    assert_eq!(probe.fills.get(), 2);
    assert!(p.is_simulating());
    conserved(&p);
    // One cycle of the presentation sets it free again.
    assert!(p.swing().is_some());
    assert_eq!(p.tick(planner.mut_world(), &Vec::new()), Tick::Continue);
    assert_eq!(probe.asked.get(), 3);
}

#[test]
fn a_tick_draws_before_it_asks() {
    let (mut p, mut planner, probe) = pipeline(2, 3);
    let a = 5;
    assert_eq!(p.tick(planner.mut_world(), &vec![&a]), Tick::Continue);
    assert_eq!(*probe.fills_when_asked.borrow(), vec![1]);
    assert_eq!(p.submit_len(), 1);
    assert_eq!(p.filling_slot(), None);
}

#[test]
fn a_frame_holds_what_the_painter_recorded() {
    let (mut p, mut planner, _probe) = pipeline(2, 3);
    let (a, b) = (5, 6);
    p.tick(planner.mut_world(), &vec![&a, &b]);
    p.tick(planner.mut_world(), &vec![&b]);
    p.swing().unwrap().finish();
    p.swing().unwrap().finish();
    assert_eq!(p.device.frames, vec![vec![CLEAR, 5, 6], vec![CLEAR, 6]]);
    assert_eq!(p.device.cleanups, 2);
}

#[test]
fn a_frame_lends_the_device_until_it_is_finished() {
    let (mut p, mut planner, _probe) = pipeline(2, 3);
    p.tick(planner.mut_world(), &Vec::new());
    let frame = p.swing().unwrap();
    frame.finish();
    assert_eq!(p.device.cleanups, 1);
    assert_eq!(p.device.frames.len(), 1);
}

#[test]
fn steady_state() {
    // Two entities, a painter that records next to nothing, a hundred
    // ticks; the shell says no at the hundredth.
    let (mut p, mut planner, probe) = pipeline(2, 99);
    let (a, b) = (0, 0);
    let visuals = vec![&a, &b];
    let mut ticks = 0;
    let mut last = Tick::Continue;
    while last == Tick::Continue {
        last = p.tick(planner.mut_world(), &visuals);
        assert_ne!(last, Tick::Blocked);
        ticks += 1;
        conserved(&p);
        if last == Tick::Continue {
            p.swing().unwrap().finish();
            conserved(&p);
        }
    }
    assert_eq!(ticks, 100);
    assert_eq!(last, Tick::Stopped);
    assert_eq!(probe.fills.get(), 100);
    assert_eq!(probe.draws.get(), 200);
    assert_eq!(probe.asked.get(), 100);
    assert!(p.device.frames.len() >= 1);
    assert_eq!(p.device.frames.len(), 99);
    assert!(!p.is_simulating());

    // The presentation ends within two more cycles.
    let mut cycles = 0;
    while p.stage() != Stage::Closed {
        if let Some(frame) = p.swing() {
            frame.finish();
        }
        cycles += 1;
        assert!(cycles <= 2);
        conserved(&p);
    }
    assert_eq!(cycles, 1);
    assert_eq!(p.device.frames.len(), 100);
    assert_eq!(p.in_flight(), 0);
    assert_eq!(p.dropped(), 2);
    // Every frame was filled before it was submitted, never twice.
    let trace = probe.trace.borrow();
    assert_eq!(trace.len(), 200);
    for pair in trace.chunks(2) {
        assert_eq!(pair, ["fill", "submit"]);
    }
}

#[test]
fn steady_state_with_the_simulation_one_frame_ahead() {
    let (mut p, mut planner, probe) = pipeline(2, 99);
    let visuals = Vec::new();
    assert_eq!(p.tick(planner.mut_world(), &visuals), Tick::Continue);
    let mut ticks = 1;
    loop {
        // One recorder waits to be presented while the other is filled.
        assert_eq!(p.submit_len(), 1);
        let outcome = p.tick(planner.mut_world(), &visuals);
        ticks += 1;
        conserved(&p);
        if outcome == Tick::Stopped {
            break;
        }
        assert_eq!(outcome, Tick::Continue);
        assert_eq!(p.submit_len(), 2);
        p.swing().unwrap().finish();
        conserved(&p);
    }
    assert_eq!(ticks, 100);
    assert_eq!(probe.fills.get(), 100);
    assert_eq!(p.device.frames.len(), 98);
}

#[test]
fn immediate_stop() {
    let (mut p, mut planner, probe) = pipeline(2, 0);
    let a = 3;
    assert_eq!(p.tick(planner.mut_world(), &vec![&a]), Tick::Stopped);
    // The draw system ran once, and before the shell was asked.
    assert_eq!(probe.fills.get(), 1);
    assert_eq!(probe.asked.get(), 1);
    assert_eq!(*probe.fills_when_asked.borrow(), vec![1]);
    assert!(!p.is_simulating());
    // What the simulation had sent is still there; what it was to receive
    // is lost.
    assert_eq!(p.submit_len(), 1);
    assert_eq!(p.recycle_len(), 0);
    assert_eq!(p.dropped(), 1);
    conserved(&p);

    // The presentation gets the one recorder that was queued, cannot hand
    // it back, and ends.
    assert!(p.swing().is_none());
    assert_eq!(p.device.frames, vec![vec![CLEAR, 3]]);
    assert_eq!(p.device.cleanups, 1);
    assert_eq!(p.stage(), Stage::Closed);
    assert_eq!(p.dropped(), 2);
    assert_eq!(p.in_flight(), 0);
    conserved(&p);
    assert!(p.swing().is_none());
    assert_eq!(p.device.frames.len(), 1);
    assert_eq!(p.device.cleanups, 1);

    // A stopped simulation stays stopped.
    assert_eq!(p.tick(planner.mut_world(), &vec![&a]), Tick::Stopped);
    assert_eq!(probe.fills.get(), 1);
    assert_eq!(probe.asked.get(), 1);
}

#[test]
fn disconnected_presentation() {
    let (mut p, mut planner, probe) = pipeline(2, 9);
    p.close();
    assert_eq!(p.stage(), Stage::Closed);
    conserved(&p);
    let a = 1;
    let visuals = vec![&a];
    let mut outcomes = Vec::new();
    for _ in 0..10 {
        outcomes.push(p.tick(planner.mut_world(), &visuals));
        conserved(&p);
    }
    // Every tick took place; the last one was the shell's own no.
    assert_eq!(outcomes[..9], [Tick::Continue; 9]);
    assert_eq!(outcomes[9], Tick::Stopped);
    assert_eq!(probe.asked.get(), 10);
    // The two recorders that were still queued were filled and lost on the
    // way; after that the draw system had nothing to do.
    assert_eq!(probe.fills.get(), 2);
    assert_eq!(p.dropped(), 2);
    assert_eq!(p.in_flight(), 0);
    assert!(p.device.frames.is_empty());
    assert_eq!(p.draw(&visuals), Acquire::Closed);
}

#[test]
fn closing_loses_what_the_presentation_held_or_was_to_receive() {
    let (mut p, mut planner, _probe) = pipeline(3, 9);
    p.tick(planner.mut_world(), &Vec::new());
    p.tick(planner.mut_world(), &Vec::new());
    assert_eq!(p.acquire_for_submit(), Acquire::Ready);
    assert_eq!(p.submit_len(), 1);
    p.close();
    assert_eq!(p.stage(), Stage::Closed);
    assert_eq!(p.presenting_slot(), None);
    assert_eq!(p.submit_len(), 0);
    assert_eq!(p.recycle_len(), 1);
    assert_eq!(p.dropped(), 2);
    assert_eq!(p.acquire_for_submit(), Acquire::Closed);
    conserved(&p);
}

#[test]
fn no_recorder_is_filled_while_it_is_submitted() {
    let (mut p, _planner, probe) = pipeline(2, 0);
    assert_eq!(p.draw(&Vec::new()), Acquire::Ready);
    // The presentation is about to submit slot 0 ...
    assert_eq!(p.acquire_for_submit(), Acquire::Ready);
    assert_eq!(p.presenting_slot(), Some(0));
    // ... while the simulation fills slot 1.
    assert_eq!(p.acquire_for_fill(), Acquire::Ready);
    assert_eq!(p.filling_slot(), Some(1));
    conserved(&p);
    assert!(p.fill(&Vec::new()));
    assert!(p.flush());
    conserved(&p);
    assert!(p.submit_for_present());
    assert!(p.return_to_pool());
    conserved(&p);
    assert_eq!(*probe.trace.borrow(), vec!["fill", "fill", "submit"]);
}

#[test]
fn with_a_pool_of_two_one_fill_completes_during_a_submission() {
    let (mut p, mut planner, probe) = pipeline(2, 50);
    assert_eq!(p.tick(planner.mut_world(), &Vec::new()), Tick::Continue);
    // The first submission begins.
    assert_eq!(p.acquire_for_submit(), Acquire::Ready);
    let before = probe.fills.get();
    // The simulation runs as far as it can.
    let mut outcome = Tick::Continue;
    let mut tries = 0;
    while outcome == Tick::Continue && tries < 20 {
        outcome = p.tick(planner.mut_world(), &Vec::new());
        tries += 1;
    }
    assert_eq!(outcome, Tick::Blocked);
    assert_eq!(probe.fills.get() - before, 1);
    conserved(&p);
    // The submission completes, and the simulation can go on.
    assert!(p.flush());
    assert!(p.return_to_pool());
    assert_eq!(p.tick(planner.mut_world(), &Vec::new()), Tick::Continue);
    assert_eq!(probe.fills.get() - before, 2);
}

#[test]
fn with_a_pool_of_three_two_fills_complete_during_a_submission() {
    let (mut p, mut planner, probe) = pipeline(3, 50);
    assert_eq!(p.tick(planner.mut_world(), &Vec::new()), Tick::Continue);
    assert_eq!(p.acquire_for_submit(), Acquire::Ready);
    let before = probe.fills.get();
    assert_eq!(p.tick(planner.mut_world(), &Vec::new()), Tick::Continue);
    assert_eq!(p.tick(planner.mut_world(), &Vec::new()), Tick::Continue);
    assert_eq!(p.tick(planner.mut_world(), &Vec::new()), Tick::Blocked);
    assert_eq!(probe.fills.get() - before, 2);
}

#[test]
fn after_the_simulation_stopped_the_next_cycle_closes_the_presentation() {
    // The stop comes while the presentation is in the middle of a cycle.
    let (mut p, mut planner, _probe) = pipeline(2, 1);
    assert_eq!(p.tick(planner.mut_world(), &Vec::new()), Tick::Continue);
    assert_eq!(p.acquire_for_submit(), Acquire::Ready);
    assert!(p.flush());
    assert_eq!(p.tick(planner.mut_world(), &Vec::new()), Tick::Stopped);
    assert_eq!(p.stage(), Stage::Drawn);
    assert!(p.swing().is_none());
    assert_eq!(p.stage(), Stage::Closed);
    assert_eq!(p.in_flight(), 0);
    assert_eq!(p.dropped(), 2);
    conserved(&p);
}

#[test]
fn a_presentation_that_finds_nothing_after_the_stop_closes() {
    let (mut p, mut planner, _probe) = pipeline(2, 0);
    assert_eq!(p.tick(planner.mut_world(), &Vec::new()), Tick::Stopped);
    assert_eq!(p.acquire_for_submit(), Acquire::Ready);
    assert!(p.flush());
    assert!(!p.return_to_pool());
    assert_eq!(p.stage(), Stage::Closed);
    assert_eq!(p.acquire_for_submit(), Acquire::Closed);
    assert_eq!(p.dropped(), 2);
}

#[test]
fn an_empty_queue_after_the_stop_closes_the_presentation() {
    let (mut p, mut planner, _probe) = pipeline(2, 1);
    assert_eq!(p.tick(planner.mut_world(), &Vec::new()), Tick::Continue);
    p.swing().unwrap().finish();
    // The simulation stops without a recorder under way: it had none, so
    // its last run of the draw system sends one, which is then presented.
    assert_eq!(p.tick(planner.mut_world(), &Vec::new()), Tick::Stopped);
    assert!(p.swing().is_none());
    assert_eq!(p.stage(), Stage::Closed);
    assert_eq!(p.device.frames.len(), 2);
}

#[test]
fn a_stop_signal_lets_the_cycle_finish_first() {
    let (mut p, mut planner, _probe) = pipeline(2, 9);
    let a = 2;
    p.tick(planner.mut_world(), &vec![&a]);
    assert_eq!(p.acquire_for_submit(), Acquire::Ready);
    p.request_stop();
    assert_eq!(p.stage(), Stage::Drawn);
    // The frame is still submitted and its recorder handed back.
    let frame = p.swing();
    assert!(frame.is_some());
    frame.unwrap().finish();
    assert_eq!(p.device.frames, vec![vec![CLEAR, 2]]);
    assert_eq!(p.device.cleanups, 1);
    assert_eq!(p.stage(), Stage::Closed);
    assert_eq!(p.recycle_len(), 2);
    assert_eq!(p.dropped(), 0);
    assert!(p.swing().is_none());
    conserved(&p);
    // The simulation goes on by itself.
    assert_eq!(p.tick(planner.mut_world(), &vec![&a]), Tick::Continue);
    assert_eq!(p.dropped(), 1);
    conserved(&p);
}

#[test]
fn a_stop_signal_before_a_cycle_ends_the_loop_after_the_next() {
    let (mut p, mut planner, _probe) = pipeline(2, 9);
    p.request_stop();
    assert_eq!(p.stage(), Stage::Waiting);
    assert!(p.swing().is_none());
    assert_eq!(p.stage(), Stage::Waiting);
    p.tick(planner.mut_world(), &Vec::new());
    assert!(p.swing().is_some());
    assert_eq!(p.stage(), Stage::Closed);
}

#[test]
fn asking_the_shell_is_a_step_of_its_own() {
    let (mut p, mut planner, probe) = pipeline(2, 1);
    assert!(p.proceed(planner.mut_world()));
    assert_eq!(probe.asked.get(), 1);
    assert_eq!(probe.fills.get(), 0);
    assert!(p.is_simulating());
    assert_eq!(p.draw(&Vec::new()), Acquire::Ready);
    assert!(!p.proceed(planner.mut_world()));
    assert_eq!(probe.asked.get(), 2);
    assert!(!p.is_simulating());
    assert_eq!(p.submit_len(), 1);
    assert_eq!(p.dropped(), 1);
    // Stopped: nobody is asked any more.
    assert!(!p.proceed(planner.mut_world()));
    assert_eq!(probe.asked.get(), 2);
    conserved(&p);
}

#[test]
fn settling_on_an_answer_needs_no_shell() {
    let (mut p, _planner, probe) = pipeline(2, 9);
    assert!(p.settle(true));
    assert!(p.is_simulating());
    assert_eq!(p.recycle_len(), 2);
    assert_eq!(p.acquire_for_fill(), Acquire::Ready);
    assert!(!p.settle(false));
    assert!(!p.is_simulating());
    // What the simulation held and what it was to receive is lost.
    assert_eq!(p.filling_slot(), None);
    assert_eq!(p.recycle_len(), 0);
    assert_eq!(p.dropped(), 2);
    assert!(!p.settle(true));
    assert_eq!(p.acquire_for_fill(), Acquire::Closed);
    assert_eq!(probe.asked.get(), 0);
    conserved(&p);
}

#[test]
fn the_two_drivers_never_wait_for_each_other() {
    let (mut p, mut planner, _probe) = pipeline(2, 1000);
    // Whichever side goes first, and however often, one of them can move.
    for round in 0..50 {
        let sim_first = round % 3 != 0;
        let mut moved = false;
        for turn in 0..2 {
            if (turn == 0) == sim_first {
                moved |= p.tick(planner.mut_world(), &Vec::new()) == Tick::Continue;
                if round % 5 == 0 {
                    moved |= p.tick(planner.mut_world(), &Vec::new()) == Tick::Continue;
                }
            } else if let Some(frame) = p.swing() {
                frame.finish();
                moved = true;
            }
        }
        assert!(moved);
        conserved(&p);
    }
}

#[test]
fn polled_events_reach_the_presentation() {
    let (mut p, mut planner, _probe) = pipeline(2, 9);
    p.tick(planner.mut_world(), &Vec::new());
    assert!(p.poll(&mut DefaultHandler {}, &vec![Event::Other]));
    p.swing().unwrap().finish();
    assert_eq!(p.stage(), Stage::Waiting);
    p.tick(planner.mut_world(), &Vec::new());
    assert!(!p.poll(&mut DefaultHandler {}, &vec![Event::Other, Event::CloseRequested]));
    p.swing().unwrap().finish();
    assert_eq!(p.stage(), Stage::Closed);
}

#[test]
fn the_clock_of_the_pipeline_measures_ticks() {
    let (mut p, _planner, _probe) = pipeline(2, 9);
    assert_eq!(p.advance(16_000_000), 16_000_000);
    assert_eq!(p.advance(33_000_000), 17_000_000);
    assert_eq!(p.advance(33_000_000), 0);
    assert_eq!(p.recycle_len(), 2);
}
