//! The six-state gesture machine: Idle -> Contact / Moving -> Scrolling ->
//! Debounce -> Idle. The physical pad is grabbed for good; the runtime
//! suppresses forwarding of touch motion to the virtual pad exactly while
//! the machine is Scrolling.
use vstd::prelude::*;

use crate::config::Scroll;
use crate::detector_log::{DetectorCall, LoggedDetector};
use crate::detector::{
    angle_exceeds_trigger, dead_zone_radius_sq, dist_sq, in_wedge, offset_fits,
    offset_in_range, radial_gate_ok, sweeps_past_trigger, within_horizontal_arc, TouchSample,
};

verus! {

/// Consecutive Scrolling frames with the finger inside the detector's dead
/// band after which the machine drops back to Moving (about 400 ms at 100 Hz).
pub const STATIONARY_EXIT_FRAMES: u32 = 40;

/// The machine's state.
#[derive(Clone, Copy, Debug, PartialEq, Eq, Structural)]
pub enum FsmState {
    /// No finger on the pad.
    Idle,
    /// Touched down inside the dead zone: trapped until lift.
    Contact { origin: TouchSample },
    /// Touched down on the outer ring: an engagement candidate.
    Moving { engage_start: TouchSample },
    /// Drawing circles: wheel ticks are emitted, touch forwarding suppressed.
    Scrolling,
    /// Just lifted from Scrolling; always back to Idle on the next frame.
    Debounce,
}

/// One SYN_REPORT's worth of touch state.
#[derive(Clone, Copy, Debug)]
pub struct TouchFrame {
    /// Some finger is down (BTN_TOUCH).
    pub contact: bool,
    /// Position of the lowest active slot, when known.
    pub pos: Option<TouchSample>,
}

/// Side effect the runtime performs for a frame.
#[derive(Clone, Copy, Debug, PartialEq, Eq, Structural)]
pub enum Action {
    /// Nothing to emit this frame.
    NoOp,
    EmitWheelV(i32),
    EmitWheelH(i32),
}

/// The chord-angle integrator the machine drives while scrolling: it
/// accumulates the change of chord direction between successive samples
/// and converts whole turns into wheel ticks.
pub trait GestureDetector {
    /// Start a new gesture: forget the stored sample, the chord direction
    /// and the accumulated angle.
    fn on_gesture_start(&mut self);

    /// Offer a sample; `true` when it was recorded, i.e. it moved past the
    /// dead band (or started the gesture).
    fn push_if_moved(&mut self, s: TouchSample) -> bool;

    /// Consume the pending chord delta and return the whole ticks drained
    /// from the accumulator.
    fn step(&mut self, scroll_speed_adjust: i32) -> i32;
}

/// What a frame asks of the detector.
#[derive(Clone, Copy, Debug, PartialEq, Eq, Structural)]
pub enum DetectorRequest {
    /// No detector work: the frame's action is final.
    Done(Action),
    /// Engagement: start a new gesture, feed the sample, step the detector,
    /// and emit its ticks if there are any.
    Engage(TouchSample),
    /// Scrolling: feed the sample, step the detector and hand both results
    /// to [`Fsm::after_tracking`].
    Track(TouchSample),
}

/// The abstract state of an [`Fsm`].
pub struct FsmView {
    pub state: FsmState,
    pub center_x: i32,
    pub center_y: i32,
    pub stationary_frames: u32,
}

/// The gesture state machine.
pub struct Fsm {
    state: FsmState,
    center_x: i32,
    center_y: i32,
    stationary_frames: u32,
}

impl View for Fsm {
    type V = FsmView;

    closed spec fn view(&self) -> FsmView {
        FsmView {
            state: self.state,
            center_x: self.center_x,
            center_y: self.center_y,
            stationary_frames: self.stationary_frames,
        }
    }
}

/// Every offset the frame leads the machine to compute fits, as that
/// arithmetic requires: the touch-down position from Idle, the position
/// while Moving (and the engagement origin once the position is in the
/// outer ring), and, with horizontal scrolling on, the position while
/// Scrolling (for the wedge test). Other frames compute no offset.
pub open spec fn frame_in_range(m: FsmView, frame: TouchFrame, scroll: Scroll) -> bool {
    scroll.enable && frame.contact ==> match frame.pos {
        None => true,
        Some(s) => match m.state {
            FsmState::Idle => offset_in_range(m.center_x, m.center_y, s),
            FsmState::Moving { engage_start } => {
                &&& offset_in_range(m.center_x, m.center_y, s)
                &&& in_outer_ring(m, s, scroll) ==> offset_fits(
                    m.center_x,
                    m.center_y,
                    engage_start,
                )
            },
            FsmState::Scrolling => scroll.horizontal_enable ==> offset_fits(
                m.center_x,
                m.center_y,
                s,
            ),
            _ => true,
        },
    }
}

/// The calls an engagement frame at `s` makes: start a new gesture, feed
/// `s`, step with the configured sensitivity.
pub open spec fn engage_calls(s: TouchSample, moved: bool, ticks: i32, scroll: Scroll) -> Seq<DetectorCall> {
    seq![
        DetectorCall::GestureStart,
        DetectorCall::Push { sample: s, moved },
        DetectorCall::Step { adjust: scroll.sensitivity, ticks },
    ]
}

/// The calls a Scrolling frame at `s` makes: feed `s`, step with the
/// configured sensitivity, and start a new gesture when the frame drops
/// back to Moving.
pub open spec fn track_calls(s: TouchSample, moved: bool, ticks: i32, scroll: Scroll, reset: bool) -> Seq<DetectorCall> {
    seq![
        DetectorCall::Push { sample: s, moved },
        DetectorCall::Step { adjust: scroll.sensitivity, ticks },
    ] + if reset {
        seq![DetectorCall::GestureStart]
    } else {
        Seq::empty()
    }
}

/// The same view with another state.
pub open spec fn with_state(m: FsmView, state: FsmState) -> FsmView {
    FsmView { state, ..m }
}

/// `-t`, wrapping at `i32::MIN` (the one value without a negation).
pub open spec fn negate(t: i32) -> i32 {
    if t == i32::MIN {
        t
    } else {
        (-t) as i32
    }
}

/// The wheel event for `ticks` at sample `s`: horizontal when the
/// horizontal wedge is enabled and contains `s`, vertical otherwise (vertical
/// scrolling is never angle-gated), each sign flipped by its reverse flag.
pub open spec fn emit_spec(ticks: i32, scroll: Scroll, center_x: i32, center_y: i32, s: TouchSample) -> Action {
    if scroll.horizontal_enable && in_wedge(
        s.x - center_x,
        s.y - center_y,
        scroll.horizontal_start as int,
        scroll.horizontal_end as int,
    ) {
        Action::EmitWheelH(
            if scroll.reverse_horizontal {
                negate(ticks)
            } else {
                ticks
            },
        )
    } else {
        Action::EmitWheelV(
            if scroll.reverse_vertical {
                negate(ticks)
            } else {
                ticks
            },
        )
    }
}

/// The action for a detector result: a wheel event when there are ticks.
pub open spec fn ticks_action(ticks: i32, scroll: Scroll, center_x: i32, center_y: i32, s: TouchSample) -> Action {
    if ticks != 0 {
        emit_spec(ticks, scroll, center_x, center_y, s)
    } else {
        Action::NoOp
    }
}

/// The sample lies in the outer ring for the configured detect-area width.
pub open spec fn in_outer_ring(m: FsmView, s: TouchSample, scroll: Scroll) -> bool {
    dist_sq(m.center_x, m.center_y, s) >= dead_zone_radius_sq(scroll.detect_area_width as int)
}

/// First half of a frame: the state after the frame's own decisions and
/// what is asked of the detector.
pub open spec fn begin_spec(m: FsmView, frame: TouchFrame, scroll: Scroll) -> (FsmView, DetectorRequest) {
    let done = DetectorRequest::Done(Action::NoOp);
    if !scroll.enable {
        (with_state(m, FsmState::Idle), done)
    } else {
        match m.state {
            FsmState::Idle => match frame.pos {
                Some(s) if frame.contact => {
                    if in_outer_ring(m, s, scroll) {
                        (with_state(m, FsmState::Moving { engage_start: s }), done)
                    } else {
                        (with_state(m, FsmState::Contact { origin: s }), done)
                    }
                },
                _ => (m, done),
            },
            FsmState::Contact { .. } => {
                if frame.contact {
                    (m, done)
                } else {
                    (with_state(m, FsmState::Idle), done)
                }
            },
            FsmState::Moving { engage_start } => {
                if !frame.contact {
                    (with_state(m, FsmState::Idle), done)
                } else {
                    match frame.pos {
                        None => (m, done),
                        Some(s) => {
                            if !in_outer_ring(m, s, scroll) {
                                (with_state(m, FsmState::Contact { origin: s }), done)
                            } else if angle_exceeds_trigger(
                                engage_start.x - m.center_x,
                                engage_start.y - m.center_y,
                                s.x - m.center_x,
                                s.y - m.center_y,
                            ) {
                                (
                                    FsmView {
                                        state: FsmState::Scrolling,
                                        stationary_frames: 0,
                                        ..m
                                    },
                                    DetectorRequest::Engage(s),
                                )
                            } else {
                                (m, done)
                            }
                        },
                    }
                }
            },
            FsmState::Scrolling => {
                if !frame.contact {
                    (with_state(m, FsmState::Debounce), done)
                } else {
                    match frame.pos {
                        None => (m, done),
                        Some(s) => (m, DetectorRequest::Track(s)),
                    }
                }
            },
            FsmState::Debounce => (with_state(m, FsmState::Idle), done),
        }
    }
}

/// Second half of a Scrolling frame at sample `s`, given whether the
/// detector recorded the sample and the ticks it returned: the new state,
/// the action, and whether the detector must start a new gesture.
pub open spec fn track_spec(m: FsmView, s: TouchSample, moved: bool, ticks: i32, scroll: Scroll) -> (FsmView, Action, bool) {
    let count: u32 = if moved {
        0
    } else if m.stationary_frames < u32::MAX {
        (m.stationary_frames + 1) as u32
    } else {
        u32::MAX
    };
    if ticks != 0 {
        (
            FsmView { stationary_frames: count, ..m },
            emit_spec(ticks, scroll, m.center_x, m.center_y, s),
            false,
        )
    } else if count >= STATIONARY_EXIT_FRAMES {
        (
            FsmView {
                state: FsmState::Moving { engage_start: s },
                stationary_frames: 0,
                ..m
            },
            Action::NoOp,
            true,
        )
    } else {
        (FsmView { stationary_frames: count, ..m }, Action::NoOp, false)
    }
}

impl Fsm {
    /// A machine at rest (Idle) for a pad centred at `(center_x, center_y)`.
    pub fn new(center_x: i32, center_y: i32) -> (r: Self)
        ensures
            r@ == (FsmView {
                state: FsmState::Idle,
                center_x,
                center_y,
                stationary_frames: 0,
            }),
    {
        Fsm { state: FsmState::Idle, center_x, center_y, stationary_frames: 0 }
    }

    /// The current state; the runtime keys touch forwarding off it.
    pub fn state(&self) -> (r: FsmState)
        ensures
            r == self@.state,
    {
        self.state
    }

    /// Take a frame's own decisions and say what the detector must do.
    pub fn begin(&mut self, frame: TouchFrame, scroll: &Scroll) -> (r: DetectorRequest)
        requires
            frame_in_range(old(self)@, frame, *scroll),
        ensures
            (final(self)@, r) == begin_spec(old(self)@, frame, *scroll),
    {
        let done = DetectorRequest::Done(Action::NoOp);
        // Master switch: a disabled scroller keeps consuming frames but never
        // leaves Idle and never emits.
        if !scroll.enable {
            self.state = FsmState::Idle;
            return done;
        }
        match self.state {
            FsmState::Idle => {
                if frame.contact {
                    if let Some(s) = frame.pos {
                        // Fresh touch-down: classify by the radial test.
                        if radial_gate_ok(self.center_x, self.center_y, s, scroll.detect_area_width) {
                            self.state = FsmState::Moving { engage_start: s };
                        } else {
                            self.state = FsmState::Contact { origin: s };
                        }
                    }
                }
                done
            },
            FsmState::Contact { .. } => {
                // Contact exits only on lift; reaching the outer ring while down
                // does not engage.
                if !frame.contact {
                    self.state = FsmState::Idle;
                }
                done
            },
            FsmState::Moving { engage_start } => {
                if !frame.contact {
                    self.state = FsmState::Idle;
                    done
                } else {
                    match frame.pos {
                        // Slot position momentarily missing: still down.
                        None => done,
                        Some(s) => {
                            if !radial_gate_ok(
                                self.center_x,
                                self.center_y,
                                s,
                                scroll.detect_area_width,
                            ) {
                                // Slipped back into the dead zone.
                                self.state = FsmState::Contact { origin: s };
                                done
                            } else if sweeps_past_trigger(
                                self.center_x,
                                self.center_y,
                                engage_start,
                                s,
                            ) {
                                self.stationary_frames = 0;
                                self.state = FsmState::Scrolling;
                                DetectorRequest::Engage(s)
                            } else {
                                done
                            }
                        },
                    }
                }
            },
            FsmState::Scrolling => {
                if !frame.contact {
                    self.state = FsmState::Debounce;
                    done
                } else {
                    match frame.pos {
                        None => done,
                        Some(s) => DetectorRequest::Track(s),
                    }
                }
            },
            FsmState::Debounce => {
                self.state = FsmState::Idle;
                done
            },
        }
    }

    /// Finish a Scrolling frame at sample `s` with the detector's results:
    /// `moved` (the sample passed the dead band) and `ticks`. Returns the
    /// action and whether the detector must start a new gesture (the finger
    /// rested long enough to drop back to Moving).
    pub fn after_tracking(&mut self, s: TouchSample, moved: bool, ticks: i32, scroll: &Scroll) -> (r: (
        Action,
        bool,
    ))
        requires
            ticks != 0 && scroll.horizontal_enable ==> offset_fits(
                old(self)@.center_x,
                old(self)@.center_y,
                s,
            ),
        ensures
            (final(self)@, r.0, r.1) == track_spec(old(self)@, s, moved, ticks, *scroll),
    {
        if moved {
            self.stationary_frames = 0;
        } else if self.stationary_frames < u32::MAX {
            self.stationary_frames = self.stationary_frames + 1;
        }
        if ticks != 0 {
            (emit(ticks, scroll, self.center_x, self.center_y, s), false)
        } else if self.stationary_frames >= STATIONARY_EXIT_FRAMES {
            // Resting finger: unfreeze the cursor without waiting for a
            // lift, re-arming engagement at the current position.
            self.stationary_frames = 0;
            self.state = FsmState::Moving { engage_start: s };
            (Action::NoOp, true)
        } else {
            (Action::NoOp, false)
        }
    }

    /// Advance the machine by one frame, driving `detector` as the frame
    /// requires: a frame that needs no detector work leaves it untouched;
    /// an engagement starts a new gesture, feeds the sample and steps it,
    /// emitting its ticks; a Scrolling frame feeds and steps it, finishes
    /// as [`track_spec`] says for its answers, and starts a new gesture when
    /// that asks for one.
    pub fn step<D: GestureDetector>(&mut self, frame: TouchFrame, detector: &mut LoggedDetector<D>, scroll: &Scroll) -> (r: Action)
        requires
            frame_in_range(old(self)@, frame, *scroll),
        ensures
            ({
                let (m1, req) = begin_spec(old(self)@, frame, *scroll);
                let h0 = old(detector).calls();
                let h = final(detector).calls();
                match req {
                    DetectorRequest::Done(a) => final(self)@ == m1 && r == a && *final(detector)
                        == *old(detector),
                    DetectorRequest::Engage(s) => final(self)@ == m1 && exists|moved: bool, t: i32|
                        #![trigger engage_calls(s, moved, t, *scroll)]
                        h == h0 + engage_calls(s, moved, t, *scroll) && r == ticks_action(
                            t,
                            *scroll,
                            m1.center_x,
                            m1.center_y,
                            s,
                        ),
                    DetectorRequest::Track(s) => exists|moved: bool, t: i32|
                        {
                            let out = #[trigger] track_spec(m1, s, moved, t, *scroll);
                            &&& final(self)@ == out.0
                            &&& r == out.1
                            &&& h == h0 + track_calls(s, moved, t, *scroll, out.2)
                        },
                }
            }),
    {
        let ghost h0 = detector.calls();
        let req = self.begin(frame, scroll);
        match req {
            DetectorRequest::Done(a) => a,
            DetectorRequest::Engage(s) => {
                // Engagement: the detector starts afresh; feed the engaging
                // sample so a fast gesture can tick on this very frame.
                detector.on_gesture_start();
                let moved = detector.push_if_moved(s);
                let ticks = detector.step(scroll.sensitivity);
                let a = if ticks != 0 {
                    emit(ticks, scroll, self.center_x, self.center_y, s)
                } else {
                    Action::NoOp
                };
                assert(detector.calls() =~= h0 + engage_calls(s, moved, ticks, *scroll));
                assert(a == ticks_action(ticks, *scroll, self@.center_x, self@.center_y, s));
                a
            },
            DetectorRequest::Track(s) => {
                let moved = detector.push_if_moved(s);
                let ticks = detector.step(scroll.sensitivity);
                let ghost m1 = self@;
                let (a, reset) = self.after_tracking(s, moved, ticks, scroll);
                if reset {
                    detector.on_gesture_start();
                }
                assert(detector.calls() =~= h0 + track_calls(s, moved, ticks, *scroll, reset));
                assert(self@ == track_spec(m1, s, moved, ticks, *scroll).0);
                a
            },
        }
    }

    /// Watchdog reset: back to Idle (resuming touch passthrough) and start
    /// the detector afresh, clearing its dead band, chord direction and
    /// accumulated angle.
    pub fn force_idle<D: GestureDetector>(&mut self, detector: &mut LoggedDetector<D>)
        ensures
            final(self)@ == (FsmView {
                state: FsmState::Idle,
                stationary_frames: 0,
                ..old(self)@
            }),
            final(detector).calls() == old(detector).calls().push(DetectorCall::GestureStart),
    {
        self.state = FsmState::Idle;
        self.stationary_frames = 0;
        detector.on_gesture_start();
    }
}

/// The wheel event for `ticks` at `current` (see [`emit_spec`]).
fn emit(ticks: i32, scroll: &Scroll, center_x: i32, center_y: i32, current: TouchSample) -> (r: Action)
    requires
        scroll.horizontal_enable ==> offset_fits(center_x, center_y, current),
    ensures
        r == emit_spec(ticks, *scroll, center_x, center_y, current),
{
    if scroll.horizontal_enable && within_horizontal_arc(
        center_x,
        center_y,
        current,
        scroll.horizontal_start,
        scroll.horizontal_end,
    ) {
        let signed = if scroll.reverse_horizontal {
            negate_ticks(ticks)
        } else {
            ticks
        };
        Action::EmitWheelH(signed)
    } else {
        let signed = if scroll.reverse_vertical {
            negate_ticks(ticks)
        } else {
            ticks
        };
        Action::EmitWheelV(signed)
    }
}

fn negate_ticks(t: i32) -> (r: i32)
    ensures
        r == negate(t),
{
    if t == i32::MIN {
        t
    } else {
        -t
    }
}


// ---------------------------------------------------------------------------
// Laws.
// ---------------------------------------------------------------------------

/// With scrolling disabled the machine consumes frames but holds Idle and
/// never emits.
pub proof fn lemma_disabled_scroll_holds_idle(m: FsmView, frame: TouchFrame, scroll: Scroll)
    requires
        !scroll.enable,
    ensures
        begin_spec(m, frame, scroll) == (
            with_state(m, FsmState::Idle),
            DetectorRequest::Done(Action::NoOp),
        ),
{
}

/// Debounce returns to Idle on the very next frame, whether the finger is
/// down again or not.
pub proof fn lemma_debounce_then_idle(m: FsmView, frame: TouchFrame, scroll: Scroll)
    requires
        m.state == FsmState::Debounce,
    ensures
        begin_spec(m, frame, scroll) == (
            with_state(m, FsmState::Idle),
            DetectorRequest::Done(Action::NoOp),
        ),
{
}

/// Contact is a trap: while the finger stays down the machine stays in
/// Contact, even when it slides into the outer ring; only a lift leaves it.
pub proof fn lemma_contact_exits_only_on_lift(m: FsmView, frame: TouchFrame, scroll: Scroll)
    requires
        m.state is Contact,
        scroll.enable,
    ensures
        begin_spec(m, frame, scroll) == (
            if frame.contact {
                m
            } else {
                with_state(m, FsmState::Idle)
            },
            DetectorRequest::Done(Action::NoOp),
        ),
{
}

/// A frame with the finger down but its position momentarily missing
/// changes nothing (Debounce aside, which always moves on).
pub proof fn lemma_position_gap_changes_nothing(m: FsmView, frame: TouchFrame, scroll: Scroll)
    requires
        scroll.enable,
        frame.contact,
        frame.pos is None,
        m.state != FsmState::Debounce,
    ensures
        begin_spec(m, frame, scroll) == (m, DetectorRequest::Done(Action::NoOp)),
{
}

/// Lifting the finger brings the machine back to Idle within two frames.
pub proof fn lemma_lift_returns_to_idle(m: FsmView, first: TouchFrame, second: TouchFrame, scroll: Scroll)
    requires
        !first.contact,
        !second.contact,
    ensures
        begin_spec(m, first, scroll).0.state != FsmState::Scrolling,
        begin_spec(m, first, scroll).0.state == FsmState::Debounce ==> m.state == FsmState::Scrolling,
        begin_spec(begin_spec(m, first, scroll).0, second, scroll).0.state == FsmState::Idle,
{
}

/// Wheel events are emitted only while scrolling: a frame's own decisions
/// never emit, engagement enters Scrolling, and a Scrolling frame emits
/// only when the detector returned ticks, staying in Scrolling.
pub proof fn lemma_emits_only_while_scrolling(
    m: FsmView,
    frame: TouchFrame,
    scroll: Scroll,
    s: TouchSample,
    moved: bool,
    ticks: i32,
)
    ensures
        begin_spec(m, frame, scroll).1 matches DetectorRequest::Done(a) ==> a == Action::NoOp,
        begin_spec(m, frame, scroll).1 is Engage ==> begin_spec(m, frame, scroll).0.state
            == FsmState::Scrolling,
        begin_spec(m, frame, scroll).1 is Track ==> m.state == FsmState::Scrolling,
        m.state == FsmState::Scrolling && track_spec(m, s, moved, ticks, scroll).1 != Action::NoOp
            ==> ticks != 0 && track_spec(m, s, moved, ticks, scroll).0.state
            == FsmState::Scrolling,
{
}

/// Every wheel event carries the detector's ticks, negated exactly when the
/// chosen axis is reversed (`negate` is plain negation for every value but
/// `i32::MIN`); with horizontal scrolling disabled it is always vertical,
/// and with it enabled it is horizontal exactly when the sample lies in the
/// configured wedge (the wedge [`within_horizontal_arc`] tests).
pub proof fn lemma_emit_carries_ticks(ticks: i32, scroll: Scroll, center_x: i32, center_y: i32, s: TouchSample)
    ensures
        match emit_spec(ticks, scroll, center_x, center_y, s) {
            Action::EmitWheelV(v) => v == if scroll.reverse_vertical {
                negate(ticks)
            } else {
                ticks
            },
            Action::EmitWheelH(h) => scroll.horizontal_enable && h == if scroll.reverse_horizontal {
                negate(ticks)
            } else {
                ticks
            },
            Action::NoOp => false,
        },
        !scroll.horizontal_enable ==> emit_spec(ticks, scroll, center_x, center_y, s) is EmitWheelV,
        scroll.horizontal_enable ==> (emit_spec(ticks, scroll, center_x, center_y, s) is EmitWheelH
            <==> in_wedge(
            s.x - center_x,
            s.y - center_y,
            scroll.horizontal_start as int,
            scroll.horizontal_end as int,
        )),
        ticks != i32::MIN ==> negate(ticks) == -ticks,
{
}

/// `n` Scrolling frames at sample `s` in which the detector neither
/// records the sample nor returns ticks.
pub open spec fn rest_frames(m: FsmView, s: TouchSample, n: nat, scroll: Scroll) -> FsmView
    decreases n,
{
    if n == 0 {
        m
    } else {
        track_spec(rest_frames(m, s, (n - 1) as nat, scroll), s, false, 0, scroll).0
    }
}

proof fn lemma_rest_counts(m: FsmView, s: TouchSample, n: nat, scroll: Scroll)
    requires
        m.state == FsmState::Scrolling,
        m.stationary_frames == 0,
        n < STATIONARY_EXIT_FRAMES,
    ensures
        rest_frames(m, s, n, scroll) == (FsmView { stationary_frames: n as u32, ..m }),
    decreases n,
{
    if n > 0 {
        lemma_rest_counts(m, s, (n - 1) as nat, scroll);
    }
}

/// A resting finger unfreezes the cursor: from a fresh Scrolling state,
/// 39 resting frames keep Scrolling, and the 40th drops back to Moving at
/// the resting position, asking the detector to start a new gesture.
pub proof fn lemma_resting_finger_leaves_scrolling(m: FsmView, s: TouchSample, scroll: Scroll)
    requires
        m.state == FsmState::Scrolling,
        m.stationary_frames == 0,
    ensures
        forall|k: nat|
            k < STATIONARY_EXIT_FRAMES ==> (#[trigger] rest_frames(m, s, k, scroll)).state
                == FsmState::Scrolling,
        rest_frames(m, s, STATIONARY_EXIT_FRAMES as nat, scroll).state == (FsmState::Moving {
            engage_start: s,
        }),
        track_spec(rest_frames(m, s, 39, scroll), s, false, 0, scroll).2,
{
    assert forall|k: nat| k < STATIONARY_EXIT_FRAMES implies (#[trigger] rest_frames(
        m,
        s,
        k,
        scroll,
    )).state == FsmState::Scrolling by {
        lemma_rest_counts(m, s, k, scroll);
    }
    lemma_rest_counts(m, s, 39, scroll);
}


/// A Scrolling frame whose sample passed the dead band restarts the rest
/// count: the machine stays Scrolling, asks for no detector restart, and
/// after it only 40 consecutive frames without a recorded sample (and
/// without ticks) take it back to Moving; any 39 of them leave it Scrolling.
pub proof fn lemma_movement_restarts_rest_count(
    m: FsmView,
    s: TouchSample,
    ticks: i32,
    rest_at: TouchSample,
    scroll: Scroll,
)
    requires
        m.state == FsmState::Scrolling,
    ensures
        track_spec(m, s, true, ticks, scroll).0.stationary_frames == 0,
        track_spec(m, s, true, ticks, scroll).0.state == FsmState::Scrolling,
        !track_spec(m, s, true, ticks, scroll).2,
        forall|k: nat|
            k < STATIONARY_EXIT_FRAMES ==> (#[trigger] rest_frames(
                track_spec(m, s, true, ticks, scroll).0,
                rest_at,
                k,
                scroll,
            )).state == FsmState::Scrolling,
        rest_frames(
            track_spec(m, s, true, ticks, scroll).0,
            rest_at,
            STATIONARY_EXIT_FRAMES as nat,
            scroll,
        ).state == (FsmState::Moving { engage_start: rest_at }),
{
    let m1 = track_spec(m, s, true, ticks, scroll).0;
    lemma_resting_finger_leaves_scrolling(m1, rest_at, scroll);
}

/// Frames alternating between a recorded sample and jitter, with no ticks,
/// never leave Scrolling: the rest count never passes 1.
pub open spec fn alternate_frames(m: FsmView, s: TouchSample, n: nat, scroll: Scroll) -> FsmView
    decreases n,
{
    if n == 0 {
        m
    } else {
        track_spec(alternate_frames(m, s, (n - 1) as nat, scroll), s, n % 2 == 1, 0, scroll).0
    }
}

/// A slow circle whose samples alternately pass the dead band and fall
/// inside it keeps the machine Scrolling for any number of frames.
pub proof fn lemma_alternating_motion_keeps_scrolling(m: FsmView, s: TouchSample, n: nat, scroll: Scroll)
    requires
        m.state == FsmState::Scrolling,
        m.stationary_frames == 0,
    ensures
        alternate_frames(m, s, n, scroll).state == FsmState::Scrolling,
        alternate_frames(m, s, n, scroll).stationary_frames <= 1,
    decreases n,
{
    if n > 0 {
        lemma_alternating_motion_keeps_scrolling(m, s, (n - 1) as nat, scroll);
    }
}

} // verus!
