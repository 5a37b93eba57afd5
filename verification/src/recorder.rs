//! Command recorders: the units of work that travel round the pipeline.

use crate::draw::fills;
use crate::draw::Painter;
use crate::presentation::Device;
use vstd::prelude::*;

verus! {

/// The customary size of a pool: one recorder is submitted while the other
/// is filled.
pub const DEFAULT_POOL_SIZE: usize = 2;

/// Whether a recorder carries commands that still await submission.
#[derive(Clone, Copy, Debug, PartialEq, Eq, Structural)]
pub enum RecorderState {
    /// Ready to be filled.
    Idle,
    /// Ready to be submitted.
    Filled,
}

/// What a `Recorder` is, seen from outside.
pub struct RecorderView<T> {
    /// Which member of the pool this is.
    pub slot: nat,
    /// Whether commands await submission.
    pub state: RecorderState,
    /// How many entities were painted into it since it was last submitted.
    pub draws: nat,
    /// How often it has been filled so far.
    pub fills: nat,
    /// How often it has been submitted so far.
    pub flushes: nat,
    /// The command buffer itself.
    pub payload: T,
}

impl<T> RecorderView<T> {
    /// A recorder that has not been used yet.
    pub open spec fn fresh(slot: nat, payload: T) -> Self {
        RecorderView {
            slot,
            state: RecorderState::Idle,
            draws: 0,
            fills: 0,
            flushes: 0,
            payload,
        }
    }

    /// The recorder after a painter went over `draws` entities and left
    /// `painted` in the buffer.
    pub open spec fn filled(self, draws: nat, painted: T) -> Self {
        RecorderView {
            state: RecorderState::Filled,
            draws,
            fills: self.fills + 1,
            payload: painted,
            ..self
        }
    }

    /// The recorder after the device took its commands and left `emptied`.
    pub open spec fn flushed(self, emptied: T) -> Self {
        RecorderView {
            state: RecorderState::Idle,
            draws: 0,
            flushes: self.flushes + 1,
            payload: emptied,
            ..self
        }
    }

    /// Fills and submissions take turns: an idle recorder has been
    /// submitted as often as it was filled, a filled one once less.
    pub open spec fn balanced(self) -> bool {
        self.fills == self.flushes + if self.state == RecorderState::Filled {
            1nat
        } else {
            0nat
        }
    }
}

/// One reusable command recorder. It is moved, never copied: whoever holds
/// the value is the only one who can touch its commands.
pub struct Recorder<T> {
    slot: usize,
    state: RecorderState,
    draws: usize,
    fills: Ghost<nat>,
    flushes: Ghost<nat>,
    payload: T,
}

impl<T> View for Recorder<T> {
    type V = RecorderView<T>;

    closed spec fn view(&self) -> RecorderView<T> {
        RecorderView {
            slot: self.slot as nat,
            state: self.state,
            draws: self.draws as nat,
            fills: self.fills@,
            flushes: self.flushes@,
            payload: self.payload,
        }
    }
}

/// The pool that is made round the empty buffers `buffers`: one idle recorder
/// for each, numbered in that order.
pub open spec fn idle_pool<T>(buffers: Seq<T>) -> Seq<RecorderView<T>> {
    Seq::new(buffers.len(), |slot: int| RecorderView::fresh(slot as nat, buffers[slot]))
}

/// The recorders of a queue, each as it is seen from outside.
pub open spec fn recorder_views<T>(queue: Seq<Recorder<T>>) -> Seq<RecorderView<T>> {
    queue.map_values(|recorder: Recorder<T>| recorder@)
}

/// The recorder that a driver holds, if any, as it is seen from outside.
pub open spec fn held_view<T>(place: Option<Recorder<T>>) -> Option<RecorderView<T>> {
    match place {
        Some(recorder) => Some(recorder@),
        None => None,
    }
}

impl<T> Recorder<T> {
    /// An idle recorder round the empty buffer `payload`.
    pub fn new(slot: usize, payload: T) -> (recorder: Self)
        ensures
            recorder@ == RecorderView::fresh(slot as nat, payload),
    {
        Recorder {
            slot,
            state: RecorderState::Idle,
            draws: 0,
            fills: Ghost(0),
            flushes: Ghost(0),
            payload,
        }
    }

    /// A pool round `buffers`: one idle recorder for each, numbered in that
    /// order.
    pub fn pool(buffers: Vec<T>) -> (recorders: Vec<Recorder<T>>)
        ensures
            recorder_views(recorders@) == idle_pool(buffers@),
    {
        let ghost given = buffers@;
        let size = buffers.len();
        let mut buffers = buffers;
        let mut recorders: Vec<Recorder<T>> = Vec::new();
        let mut slot: usize = 0;
        while slot < size
            invariant
                slot <= size,
                size == given.len(),
                buffers@ == given.skip(slot as int),
                recorder_views(recorders@) == idle_pool(given).take(slot as int),
            decreases size - slot,
        {
            let ghost before = recorders@;
            let buffer = buffers.remove(0);
            let recorder = Recorder::new(slot, buffer);
            recorders.push(recorder);
            proof {
                assert(buffers@ =~= given.skip(slot + 1));
                assert(recorder_views(before.push(recorder)) =~= recorder_views(before).push(
                    recorder@,
                ));
                assert(recorder_views(recorders@) =~= idle_pool(given).take(slot + 1));
            }
            slot += 1;
        }
        proof {
            assert(idle_pool(given).take(size as int) =~= idle_pool(given));
        }
        recorders
    }

    /// Which member of its pool this recorder is.
    pub fn slot(&self) -> (slot: usize)
        ensures
            slot == self@.slot,
    {
        self.slot
    }

    /// Whether the recorder is idle or filled.
    pub fn state(&self) -> (state: RecorderState)
        ensures
            state == self@.state,
    {
        self.state
    }

    /// Whether the recorder carries commands that await submission.
    pub fn is_filled(&self) -> (filled: bool)
        ensures
            filled == (self@.state == RecorderState::Filled),
    {
        match self.state {
            RecorderState::Filled => true,
            RecorderState::Idle => false,
        }
    }

    /// How many entities were painted into the recorder since it was last
    /// submitted.
    pub fn draws(&self) -> (draws: usize)
        ensures
            draws == self@.draws,
    {
        self.draws
    }

    /// The command buffer, to look at.
    pub fn payload(&self) -> (payload: &T)
        ensures
            *payload == self@.payload,
    {
        &self.payload
    }

    /// Lets `painter` fill an idle recorder: first the clear, then each of
    /// `visuals` once, in order, each call on what the one before left. A
    /// recorder that is already filled is left alone, and so is the
    /// painter; the result says so.
    pub fn fill<P: Painter<T>>(&mut self, painter: &mut P, visuals: &Vec<&P::Visual>) -> (painted:
        bool)
        ensures
            painted == (old(self)@.state == RecorderState::Idle),
            painted ==> final(self)@ == old(self)@.filled(
                visuals@.len(),
                final(self)@.payload,
            ),
            painted ==> fills(
                *old(painter),
                old(self)@.payload,
                visuals@,
                *final(painter),
                final(self)@.payload,
            ),
            !painted ==> final(self)@ == old(self)@,
            !painted ==> *final(painter) == *old(painter),
    {
        if self.is_filled() {
            return false;
        }
        let ghost mut painters: Seq<P> = seq![*painter];
        let ghost mut buffers: Seq<T> = seq![self.payload];
        painter.clear(&mut self.payload);
        proof {
            painters = painters.push(*painter);
            buffers = buffers.push(self.payload);
        }
        let mut done: usize = 0;
        while done < visuals.len()
            invariant
                done <= visuals@.len(),
                self.slot == old(self).slot,
                self.fills == old(self).fills,
                self.flushes == old(self).flushes,
                crate::draw::painted(visuals@.take(done as int), painters, buffers),
                painters[0] == *old(painter),
                buffers[0] == old(self).payload,
                painters.last() == *painter,
                buffers.last() == self.payload,
            decreases visuals@.len() - done,
        {
            painter.draw(visuals[done], &mut self.payload);
            proof {
                painters = painters.push(*painter);
                buffers = buffers.push(self.payload);
            }
            done += 1;
        }
        proof {
            assert(visuals@.take(done as int) =~= visuals@);
        }
        self.state = RecorderState::Filled;
        self.draws = done;
        self.fills = Ghost(self.fills@ + 1);
        true
    }

    /// Submits a filled recorder to `device`, after which it is idle again.
    /// An idle recorder is left alone, and so is the device; the result
    /// says so.
    pub fn flush<D: Device<Commands = T>>(&mut self, device: &mut D) -> (submitted: bool)
        ensures
            submitted == (old(self)@.state == RecorderState::Filled),
            submitted ==> final(self)@ == old(self)@.flushed(final(self)@.payload),
            submitted ==> old(device).submits(
                old(self)@.payload,
                *final(device),
                final(self)@.payload,
            ),
            !submitted ==> final(self)@ == old(self)@,
            !submitted ==> *final(device) == *old(device),
    {
        if !self.is_filled() {
            return false;
        }
        device.submit(&mut self.payload);
        self.state = RecorderState::Idle;
        self.draws = 0;
        self.flushes = Ghost(self.flushes@ + 1);
        true
    }
}

} // verus!
