//! The simulation driver: the tick loop's state and its decisions.

use vstd::prelude::*;

verus! {

/// `specs::World`, the entity and component store. Its contents are not
/// looked into here: a world is only handed on to the shell.
#[verifier::external_type_specification]
#[verifier::external_body]
#[verifier::reject_recursive_types(C)]
pub struct ExWorld<C: PartialEq + Eq + core::hash::Hash>(specs::World<C>);

/// `specs::Planner`, the scheduler that owns the world and the registered
/// systems. It is not looked into here: a planner is only handed to the code
/// that sets a simulation up, and on to the caller.
#[verifier::external_type_specification]
#[verifier::external_body]
#[verifier::reject_recursive_types(C)]
pub struct ExPlanner<C>(specs::Planner<C>);

/// The number of worker threads of the scheduler that a simulation is set
/// up with.
pub const SCHEDULER_THREADS: usize = 4;

/// `specs::World::new`: a world without entities, components or resources.
/// The world is opaque here, so nothing is claimed of it.
#[verifier::external_body]
fn empty_world() -> (world: specs::World) {
    specs::World::new()
}

/// `specs::Planner::new`: a scheduler that owns `world` and dispatches on
/// a pool of `threads` worker threads. The call panics when asked for a
/// pool without threads, which the precondition rules out. The planner is
/// opaque here, so nothing is claimed of it.
#[verifier::external_body]
fn planner_on<C: 'static>(world: specs::World, threads: usize) -> (planner: specs::Planner<C>)
    requires
        threads > 0,
{
    specs::Planner::new(world, threads)
}

/// A scheduler round an empty world, with `SCHEDULER_THREADS` worker
/// threads: what a simulation is set up in. Whoever runs the draw system
/// as a system of the scheduler registers it here first, then hands the
/// scheduler to `App::start` or `Pegasus::new`.
pub fn scheduler<C: 'static>() -> (planner: specs::Planner<C>) {
    let world = empty_world();
    planner_on(world, SCHEDULER_THREADS)
}

/// How a simulation is set up and when it ends.
pub trait Init: Sized {
    /// What the scheduler passes to every system on each dispatch.
    type Context: 'static;

    /// The state that decides whether the simulation goes on.
    type Shell;

    /// Registers the starting entities, components and systems.
    fn start(self, planner: &mut specs::Planner<Self::Context>) -> Self::Shell;

    /// Asked once per tick, after the systems ran: does the simulation go on?
    /// Unless an implementation says otherwise, it does, and the shell stays
    /// as it is.
    fn proceed(shell: &mut Self::Shell, world: &specs::World) -> (go_on: bool)
        default_ensures
            go_on,
            *final(shell) == *old(shell),
    {
        true
    }
}

/// What an `App` is, seen from outside.
pub struct AppView<S> {
    /// The state that decides whether the simulation goes on.
    pub shell: S,
    /// False once the shell has said stop; it never becomes true again.
    pub running: bool,
    /// The clock reading, in nanoseconds, at which the last tick began.
    pub last_time: nat,
}

/// The simulation driver's own state.
pub struct App<I: Init> {
    shell: I::Shell,
    running: bool,
    last_time: u64,
}

impl<I: Init> View for App<I> {
    type V = AppView<I::Shell>;

    closed spec fn view(&self) -> AppView<I::Shell> {
        AppView { shell: self.shell, running: self.running, last_time: self.last_time as nat }
    }
}

/// The time between two clock readings; nothing if the clock went back.
pub open spec fn elapsed_between(earlier: nat, later: nat) -> nat {
    if later >= earlier {
        (later - earlier) as nat
    } else {
        0
    }
}

impl<I: Init> App<I> {
    /// Lets `init` set the simulation up in `planner` and starts the clock
    /// at `now`. The shell of the driver is the one that `start` gave, and
    /// the planner is as `start` left it. Dispatching the planner is the
    /// caller's part of every tick.
    pub fn start(init: I, planner: &mut specs::Planner<I::Context>, now: u64) -> (app: Self)
        ensures
            app@.running,
            app@.last_time == now,
            exists|given: &mut specs::Planner<I::Context>|
                *given == *old(planner) && *final(given) == *final(planner) && call_ensures(
                    I::start,
                    (init, given),
                    app@.shell,
                ),
    {
        let shell = init.start(planner);
        App { shell, running: true, last_time: now }
    }

    /// A driver round a shell that is already set up.
    pub fn with_shell(shell: I::Shell, now: u64) -> (app: Self)
        ensures
            app@ == (AppView { shell, running: true, last_time: now as nat }),
    {
        App { shell, running: true, last_time: now }
    }

    /// Whether the shell has not said stop yet.
    pub fn is_running(&self) -> (running: bool)
        ensures
            running == self@.running,
    {
        self.running
    }

    /// Begins a tick at clock reading `now`: the result is the time that
    /// went by since the last tick began, or since the start for the first.
    pub fn advance(&mut self, now: u64) -> (elapsed: u64)
        ensures
            elapsed == elapsed_between(old(self)@.last_time, now as nat),
            final(self)@ == (AppView { last_time: now as nat, ..old(self)@ }),
    {
        let elapsed: u64 = if now >= self.last_time {
            now - self.last_time
        } else {
            0
        };
        self.last_time = now;
        elapsed
    }

    /// Takes the shell's answer to whether the simulation goes on. The
    /// result says whether the driver is still running: it is if it was
    /// and the answer is yes.
    pub fn settle(&mut self, answer: bool) -> (go_on: bool)
        ensures
            go_on == (old(self)@.running && answer),
            final(self)@ == (AppView { running: go_on, ..old(self)@ }),
    {
        if !answer {
            self.running = false;
        }
        self.running
    }

    /// Asks the shell whether the simulation goes on: the answer, and what
    /// becomes of the shell, are what `proceed` gives for the shell and
    /// `world`. A driver that has stopped asks nobody, and the answer is
    /// no.
    pub fn ask(&mut self, world: &specs::World) -> (answer: bool)
        ensures
            answer ==> old(self)@.running,
            final(self)@ == (AppView { shell: final(self)@.shell, ..old(self)@ }),
            !old(self)@.running ==> final(self)@ == old(self)@,
            old(self)@.running ==> exists|shell: &mut I::Shell|
                *shell == old(self)@.shell && *final(shell) == final(self)@.shell && call_ensures(
                    I::proceed,
                    (shell, world),
                    answer,
                ),
    {
        if self.running {
            I::proceed(&mut self.shell, world)
        } else {
            false
        }
    }

    /// Ends a tick, after the systems ran: asks the shell whether to go on
    /// and settles on its answer, which is the result. A driver that has
    /// stopped stays stopped and asks nobody.
    pub fn tick(&mut self, world: &specs::World) -> (go_on: bool)
        ensures
            go_on ==> old(self)@.running,
            final(self)@ == (AppView { shell: final(self)@.shell, running: go_on, ..old(self)@ }),
            !old(self)@.running ==> final(self)@ == old(self)@,
            old(self)@.running ==> exists|shell: &mut I::Shell|
                *shell == old(self)@.shell && *final(shell) == final(self)@.shell && call_ensures(
                    I::proceed,
                    (shell, world),
                    go_on,
                ),
    {
        let answer = self.ask(world);
        self.settle(answer)
    }
}

} // verus!
