//! The presentation driver: the frame loop's state and its decisions.

use crate::channel::Received;
use vstd::prelude::*;

verus! {

/// The device that executes recorded commands.
pub trait Device: Sized {
    /// The buffer in which commands are recorded for this device.
    type Commands;

    /// What `submit` does, as the device itself describes it: whether a
    /// device that is as `self`, handed `commands`, can leave the buffer as
    /// `left` and be as `after` from then on. A device that promises
    /// nothing says yes to everything.
    open spec fn submits(&self, commands: Self::Commands, after: Self, left: Self::Commands) -> bool {
        true
    }

    /// What `cleanup` does, as the device itself describes it: whether a
    /// device that is as `self` can be as `after` when it has cleaned up.
    open spec fn cleans(&self, after: Self) -> bool {
        true
    }

    /// Hands the recorded commands to the device and leaves the buffer empty.
    fn submit(&mut self, commands: &mut Self::Commands)
        ensures
            old(self).submits(*old(commands), *final(self), *final(commands)),
    ;

    /// Releases what the device kept for the frame that was just shown.
    fn cleanup(&mut self)
        ensures
            old(self).cleans(*final(self)),
    ;
}

/// What the platform reports between two frames, as far as the frame loop
/// cares.
#[derive(Clone, Copy, Debug, PartialEq, Eq, Structural)]
pub enum Event {
    /// The window was asked to close.
    CloseRequested,
    /// The Escape key was pressed.
    EscapePressed,
    /// Anything else.
    Other,
}

impl Event {
    /// The two events that end the loop unless a handler decides otherwise.
    pub open spec fn is_stop_signal(self) -> bool {
        self == Event::CloseRequested || self == Event::EscapePressed
    }
}

/// The strategy that decides, event by event, whether the frame loop keeps
/// running.
pub trait EventHandler<E>: Sized {
    /// What `handle` does, as the handler itself describes it: whether a
    /// handler that is as `self` and is shown `event` can give `verdict`
    /// and be as `after` from then on. A handler that promises nothing
    /// says yes to everything.
    open spec fn decides(&self, event: E, verdict: bool, after: Self) -> bool {
        true
    }

    /// Decides on one event: false asks the loop to stop.
    fn handle(&mut self, event: &E) -> (verdict: bool)
        ensures
            old(self).decides(*event, verdict, *final(self)),
    ;
}

/// Whether `states` and `verdicts` tell how a handler went through
/// `events`: from each state to the next by deciding on one event, which
/// gave one verdict.
pub open spec fn handled<E, H: EventHandler<E>>(
    events: Seq<E>,
    states: Seq<H>,
    verdicts: Seq<bool>,
) -> bool {
    &&& states.len() == events.len() + 1
    &&& verdicts.len() == events.len()
    &&& forall|i: int|
        0 <= i < events.len() ==> (#[trigger] states[i]).decides(
            events[i],
            verdicts[i],
            states[i + 1],
        )
}

/// Whether every one of `verdicts` is to keep running.
pub open spec fn unanimous(verdicts: Seq<bool>) -> bool {
    forall|i: int| 0 <= i < verdicts.len() ==> #[trigger] verdicts[i]
}

/// One more verdict keeps the verdicts unanimous if they were and if it
/// is to keep running.
proof fn lemma_unanimous_push(verdicts: Seq<bool>, verdict: bool)
    ensures
        unanimous(verdicts.push(verdict)) == (unanimous(verdicts) && verdict),
{
    let longer = verdicts.push(verdict);
    if unanimous(longer) {
        assert(longer[verdicts.len() as int]);
        assert forall|i: int| 0 <= i < verdicts.len() implies #[trigger] verdicts[i] by {
            assert(longer[i]);
        }
    }
}

/// Whether a handler that is as `before` and is shown `events`, one after
/// the other, can end as `after`, with `keep_running` true if every one of
/// its verdicts was and false if one was not.
pub open spec fn polled<E, H: EventHandler<E>>(
    before: H,
    events: Seq<E>,
    after: H,
    keep_running: bool,
) -> bool {
    exists|states: Seq<H>, verdicts: Seq<bool>| #[trigger]
        handled(events, states, verdicts) && states[0] == before && states.last() == after
            && keep_running == unanimous(verdicts)
}

/// The handler to use when nothing else is wanted: it stops the loop when
/// the window closes or Escape is pressed.
pub struct DefaultHandler {}

impl EventHandler<Event> for DefaultHandler {
    open spec fn decides(&self, event: Event, verdict: bool, after: Self) -> bool {
        verdict == !event.is_stop_signal()
    }

    fn handle(&mut self, event: &Event) -> (verdict: bool) {
        match event {
            Event::CloseRequested => false,
            Event::EscapePressed => false,
            Event::Other => true,
        }
    }
}

/// Where the frame loop stands.
#[derive(Clone, Copy, Debug, PartialEq, Eq, Structural)]
pub enum Stage {
    /// Between two cycles: about to receive a filled recorder.
    Waiting,
    /// In a cycle: a recorder was received and has not been handed back.
    Drawn,
    /// The loop has ended, for good.
    Closed,
}

/// What a `Presenter` is, seen from outside.
pub struct PresenterView {
    /// Where the loop stands.
    pub stage: Stage,
    /// A stop was asked for; the cycle under way is still finished.
    pub stopping: bool,
}

impl PresenterView {
    /// The state after an attempt to receive brought an item (`got`), or
    /// found the other side gone (`gone`), or neither.
    pub open spec fn received(self, got: bool, gone: bool) -> Self {
        if self.stage != Stage::Waiting {
            self
        } else if got {
            PresenterView { stage: Stage::Drawn, ..self }
        } else if gone {
            PresenterView { stage: Stage::Closed, ..self }
        } else {
            self
        }
    }

    /// The state after the recorder of the cycle under way was sent back,
    /// and `returned` says whether the other side was there to take it.
    pub open spec fn finished(self, returned: bool) -> Self {
        if self.stage != Stage::Drawn {
            self
        } else if returned && !self.stopping {
            PresenterView { stage: Stage::Waiting, ..self }
        } else {
            PresenterView { stage: Stage::Closed, ..self }
        }
    }

    /// The state after a stop was asked for.
    pub open spec fn stop_requested(self) -> Self {
        if self.stage == Stage::Closed {
            self
        } else {
            PresenterView { stopping: true, ..self }
        }
    }
}

/// The presentation driver's own state.
pub struct Presenter {
    stage: Stage,
    stopping: bool,
}

impl View for Presenter {
    type V = PresenterView;

    closed spec fn view(&self) -> PresenterView {
        PresenterView { stage: self.stage, stopping: self.stopping }
    }
}

impl Presenter {
    /// A driver that waits for its first recorder.
    pub fn new() -> (presenter: Self)
        ensures
            presenter@ == (PresenterView { stage: Stage::Waiting, stopping: false }),
    {
        Presenter { stage: Stage::Waiting, stopping: false }
    }

    /// Where the loop stands.
    pub fn stage(&self) -> (stage: Stage)
        ensures
            stage == self@.stage,
    {
        self.stage
    }

    /// Whether the loop has ended.
    pub fn is_closed(&self) -> (closed: bool)
        ensures
            closed == (self@.stage == Stage::Closed),
    {
        match self.stage {
            Stage::Closed => true,
            _ => false,
        }
    }

    /// Whether a stop was asked for.
    pub fn is_stopping(&self) -> (stopping: bool)
        ensures
            stopping == self@.stopping,
    {
        self.stopping
    }

    /// Begins a cycle with what the attempt to receive brought. An item is
    /// handed on for submission; a disconnected channel ends the loop.
    pub fn receive<T>(&mut self, received: Received<T>) -> (item: Option<T>)
        ensures
            final(self)@ == old(self)@.received(received is Item, received is Disconnected),
            match received {
                Received::Item(x) => item == Some(x),
                _ => item is None,
            },
    {
        match received {
            Received::Item(x) => {
                if self.stage == Stage::Waiting {
                    self.stage = Stage::Drawn;
                }
                Some(x)
            },
            Received::Empty => None,
            Received::Disconnected => {
                if self.stage == Stage::Waiting {
                    self.stage = Stage::Closed;
                }
                None
            },
        }
    }

    /// Notes a stop signal. It takes effect when the cycle under way ends.
    pub fn request_stop(&mut self)
        ensures
            final(self)@ == old(self)@.stop_requested(),
    {
        if self.stage != Stage::Closed {
            self.stopping = true;
        }
    }

    /// Takes a handler's verdict on one event: false counts as a stop
    /// signal. The result is the verdict.
    pub fn heed(&mut self, verdict: bool) -> (keep_running: bool)
        ensures
            keep_running == verdict,
            verdict ==> final(self)@ == old(self)@,
            !verdict ==> final(self)@ == old(self)@.stop_requested(),
    {
        if !verdict {
            self.request_stop();
        }
        verdict
    }

    /// Shows `handler` every one of `events`, in order, and heeds each
    /// verdict. The result is true if every verdict was, and false if one
    /// was not; a stop is then noted.
    pub fn poll<E, H: EventHandler<E>>(&mut self, handler: &mut H, events: &Vec<E>) -> (keep_running:
        bool)
        ensures
            polled(*old(handler), events@, *final(handler), keep_running),
            keep_running ==> final(self)@ == old(self)@,
            !keep_running ==> final(self)@ == old(self)@.stop_requested(),
    {
        let mut keep_running = true;
        let mut seen: usize = 0;
        let ghost mut states: Seq<H> = seq![*handler];
        let ghost mut verdicts: Seq<bool> = Seq::empty();
        while seen < events.len()
            invariant
                seen <= events@.len(),
                handled(events@.take(seen as int), states, verdicts),
                states[0] == *old(handler),
                states.last() == *handler,
                keep_running == unanimous(verdicts),
                keep_running ==> self@ == old(self)@,
                !keep_running ==> self@ == old(self)@.stop_requested(),
            decreases events@.len() - seen,
        {
            let verdict = handler.handle(&events[seen]);
            if !self.heed(verdict) {
                keep_running = false;
            }
            proof {
                lemma_unanimous_push(verdicts, verdict);
                states = states.push(*handler);
                verdicts = verdicts.push(verdict);
            }
            seen += 1;
        }
        proof {
            assert(events@.take(seen as int) =~= events@);
        }
        keep_running
    }

    /// Ends a cycle, after the recorder was submitted and sent back. The
    /// result says whether the loop goes on.
    pub fn finish(&mut self, returned: bool) -> (go_on: bool)
        ensures
            final(self)@ == old(self)@.finished(returned),
            go_on == (final(self)@.stage != Stage::Closed),
    {
        if self.stage == Stage::Drawn {
            if returned && !self.stopping {
                self.stage = Stage::Waiting;
            } else {
                self.stage = Stage::Closed;
            }
        }
        self.stage != Stage::Closed
    }

    /// Ends the loop at once.
    pub fn close(&mut self)
        ensures
            final(self)@ == (PresenterView { stage: Stage::Closed, ..old(self)@ }),
    {
        self.stage = Stage::Closed;
    }
}

/// What `swing` hands out for a frame that was submitted: the device, on
/// loan until the frame has been shown. Ending the loan with `finish` brings
/// the device back to rest.
pub struct Swing<'a, D: Device> {
    /// The device on loan.
    pub device: &'a mut D,
}

impl<'a, D: Device> Swing<'a, D> {
    /// A loan of `device` for one frame.
    pub fn new(device: &'a mut D) -> (frame: Self)
        ensures
            *frame.device == *old(device),
            *final(frame.device) == *final(device),
    {
        Swing { device }
    }

    /// The end of a cycle. If its recorder went back to the pool, the frame
    /// is handed out, with the device as it is. If not, there is no frame,
    /// and the device cleans up at once.
    pub fn after(returned: bool, device: &'a mut D) -> (frame: Option<Self>)
        ensures
            frame is Some == returned,
            returned ==> *frame->0.device == *old(device),
            returned ==> *final(frame->0.device) == *final(device),
            !returned ==> old(device).cleans(*final(device)),
    {
        if returned {
            Some(Swing { device })
        } else {
            device.cleanup();
            None
        }
    }

    /// Ends the frame: the device cleans up, once.
    pub fn finish(self)
        ensures
            old(self.device).cleans(*final(self.device)),
    {
        self.device.cleanup();
    }
}

} // verus!
