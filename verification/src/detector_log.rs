//! A detector together with the record of every call made on it, so that
//! contracts can say exactly what the state machine asked of the detector
//! and what it answered.
use vstd::prelude::*;

use crate::detector::TouchSample;
use crate::fsm::GestureDetector;

verus! {

/// One call on a detector, with its argument and its answer.
#[derive(Clone, Copy, Debug, PartialEq, Eq, Structural)]
pub enum DetectorCall {
    /// `on_gesture_start()`.
    GestureStart,
    /// `push_if_moved(sample)`, which answered `moved`.
    Push { sample: TouchSample, moved: bool },
    /// `step(adjust)`, which answered `ticks`.
    Step { adjust: i32, ticks: i32 },
}

/// A detector whose calls are all made through this wrapper and recorded.
pub struct LoggedDetector<D> {
    detector: D,
    calls: Ghost<Seq<DetectorCall>>,
}

impl<D: GestureDetector> LoggedDetector<D> {
    /// The calls made so far, in order.
    pub closed spec fn calls(&self) -> Seq<DetectorCall> {
        self.calls@
    }

    /// The wrapped detector.
    pub closed spec fn inner(&self) -> D {
        self.detector
    }

    /// Wrap `detector`; no call made yet.
    pub fn new(detector: D) -> (r: Self)
        ensures
            r.calls() == Seq::<DetectorCall>::empty(),
            r.inner() == detector,
    {
        LoggedDetector { detector, calls: Ghost(Seq::empty()) }
    }

    /// Read access to the wrapped detector.
    pub fn detector(&self) -> (r: &D)
        ensures
            *r == self.inner(),
    {
        &self.detector
    }

    /// Unwrap the detector.
    pub fn into_inner(self) -> (r: D)
        ensures
            r == self.inner(),
    {
        self.detector
    }

    /// Start a new gesture on the detector.
    pub fn on_gesture_start(&mut self)
        ensures
            final(self).calls() == old(self).calls().push(DetectorCall::GestureStart),
    {
        self.detector.on_gesture_start();
        self.calls = Ghost(self.calls@.push(DetectorCall::GestureStart));
    }

    /// Offer a sample to the detector.
    pub fn push_if_moved(&mut self, sample: TouchSample) -> (moved: bool)
        ensures
            final(self).calls() == old(self).calls().push(DetectorCall::Push { sample, moved }),
    {
        let moved = self.detector.push_if_moved(sample);
        self.calls = Ghost(self.calls@.push(DetectorCall::Push { sample, moved }));
        moved
    }

    /// Step the detector.
    pub fn step(&mut self, adjust: i32) -> (ticks: i32)
        ensures
            final(self).calls() == old(self).calls().push(DetectorCall::Step { adjust, ticks }),
    {
        let ticks = self.detector.step(adjust);
        self.calls = Ghost(self.calls@.push(DetectorCall::Step { adjust, ticks }));
        ticks
    }
}

} // verus!
