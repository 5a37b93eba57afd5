//! The draw system: the one system of the simulation that fills recorders.

use crate::recorder::Recorder;
use crate::recorder::RecorderState;
use vstd::prelude::*;

verus! {

/// The strategy that turns visible entities into recorded commands.
///
/// A painter is handed the command buffer only for the length of one call.
pub trait Painter<T>: Sized {
    /// What one visible entity looks like to this painter.
    type Visual;

    /// What `clear` does, as the painter itself describes it: whether a
    /// painter that is as `self`, given the buffer `before`, can leave it
    /// as `cleared` and be as `after` from then on. A painter that promises
    /// nothing says yes to everything.
    open spec fn clears(&self, before: T, after: Self, cleared: T) -> bool {
        true
    }

    /// What `draw` does, as the painter itself describes it: whether a
    /// painter that is as `self`, shown `visual` and given the buffer
    /// `before`, can leave it as `drawn` and be as `after` from then on.
    open spec fn draws(&self, visual: &Self::Visual, before: T, after: Self, drawn: T) -> bool {
        true
    }

    /// Records the clear of the targets that precedes the entities of a
    /// frame.
    fn clear(&mut self, target: &mut T)
        ensures
            old(self).clears(*old(target), *final(self), *final(target)),
    ;

    /// Records the commands that show one entity.
    fn draw(&mut self, visual: &Self::Visual, target: &mut T)
        ensures
            old(self).draws(visual, *old(target), *final(self), *final(target)),
    ;
}

/// Whether `painters` and `buffers` tell how a painter filled a buffer
/// from `visuals`: first the clear, then one draw for each visual, in
/// order, each step taking the painter and the buffer from one state to
/// the next.
pub open spec fn painted<T, P: Painter<T>>(
    visuals: Seq<&P::Visual>,
    painters: Seq<P>,
    buffers: Seq<T>,
) -> bool {
    &&& painters.len() == visuals.len() + 2
    &&& buffers.len() == visuals.len() + 2
    &&& painters[0].clears(buffers[0], painters[1], buffers[1])
    &&& forall|i: int|
        1 <= i <= visuals.len() ==> (#[trigger] painters[i]).draws(
            visuals[i - 1],
            buffers[i],
            painters[i + 1],
            buffers[i + 1],
        )
}

/// Whether a painter that is as `before` can fill the buffer `blank` from
/// `visuals`, by one clear and then one draw for each visual in order, so
/// that the buffer is `full` and the painter is as `after`.
pub open spec fn fills<T, P: Painter<T>>(
    before: P,
    blank: T,
    visuals: Seq<&P::Visual>,
    after: P,
    full: T,
) -> bool {
    exists|painters: Seq<P>, buffers: Seq<T>| #[trigger]
        painted(visuals, painters, buffers) && painters[0] == before && buffers[0] == blank
            && painters.last() == after && buffers.last() == full
}

/// The customary name of the draw system.
pub const DRAW_NAME: &'static str = "draw";

/// The customary priority of the draw system: lower than that of the
/// systems that move things, so that a tick draws what it has just moved.
pub const DRAW_PRIORITY: i32 = 10;

/// Under which name and with which priority the draw system is registered
/// with a scheduler.
pub struct Schedule {
    pub name: &'static str,
    /// Systems of higher priority are started earlier within a tick.
    pub priority: i32,
}

impl Schedule {
    /// The customary registration.
    pub fn draw() -> (schedule: Self)
        ensures
            schedule.name == DRAW_NAME,
            schedule.priority == DRAW_PRIORITY,
    {
        Schedule { name: DRAW_NAME, priority: DRAW_PRIORITY }
    }
}

/// The draw system. Once per tick it is given the recorder that came back
/// from the presentation side, lets its painter fill it, and hands it on.
pub struct DrawSystem<P> {
    painter: P,
    schedule: Schedule,
}

impl<P> DrawSystem<P> {
    /// The draw system round `painter`, to be registered as `schedule`
    /// says.
    pub fn new(painter: P, schedule: Schedule) -> (system: Self)
        ensures
            system.painter() == painter,
            system.schedule() == schedule,
    {
        DrawSystem { painter, schedule }
    }

    /// The painter, as it is now.
    pub closed spec fn painter(&self) -> P {
        self.painter
    }

    /// The registration that the system was made with.
    pub closed spec fn schedule(&self) -> Schedule {
        self.schedule
    }

    /// The registration that this system was made with.
    pub fn registration(&self) -> (schedule: &Schedule)
        ensures
            *schedule == self.schedule(),
    {
        &self.schedule
    }

    /// Fills `recorder`, if it is idle, from `visuals`: the painter records
    /// the clear, then each visual once, in order.
    pub fn fill<T>(&mut self, recorder: &mut Recorder<T>, visuals: &Vec<&P::Visual>) -> (painted:
        bool) where P: Painter<T>
        ensures
            painted == (old(recorder)@.state == RecorderState::Idle),
            painted ==> final(recorder)@ == old(recorder)@.filled(
                visuals@.len(),
                final(recorder)@.payload,
            ),
            !painted ==> final(recorder)@ == old(recorder)@,
            painted ==> fills(
                old(self).painter(),
                old(recorder)@.payload,
                visuals@,
                final(self).painter(),
                final(recorder)@.payload,
            ),
            !painted ==> final(self).painter() == old(self).painter(),
            final(self).schedule() == old(self).schedule(),
    {
        recorder.fill(&mut self.painter, visuals)
    }

    /// One run of the system, given what the attempt to acquire a recorder
    /// brought. Without a recorder the run does nothing, and the painter is
    /// not called. With one, the result is that recorder, filled by the
    /// painter, to be sent on for presentation.
    pub fn run<T>(&mut self, acquired: Option<Recorder<T>>, visuals: &Vec<&P::Visual>) -> (filled:
        Option<Recorder<T>>) where P: Painter<T>
        ensures
            acquired is None ==> filled is None,
            acquired is Some ==> filled is Some,
            acquired is Some && acquired->0@.state == RecorderState::Idle ==> filled->0@
                == acquired->0@.filled(visuals@.len(), filled->0@.payload),
            acquired is Some && acquired->0@.state == RecorderState::Filled ==> filled->0@
                == acquired->0@,
            acquired is Some && acquired->0@.state == RecorderState::Idle ==> fills(
                old(self).painter(),
                acquired->0@.payload,
                visuals@,
                final(self).painter(),
                filled->0@.payload,
            ),
            !(acquired is Some && acquired->0@.state == RecorderState::Idle)
                ==> final(self).painter() == old(self).painter(),
            final(self).schedule() == old(self).schedule(),
    {
        match acquired {
            Some(mut recorder) => {
                self.fill(&mut recorder, visuals);
                Some(recorder)
            },
            None => None,
        }
    }
}

} // verus!
