// FSM synthetic tests.

use std::f64::consts::PI;

use std::cell::Cell;

use letsnote_wheelpad::config::Scroll;
use letsnote_wheelpad::detector::{sensitivity_weight, DeadBand, Movement, TouchSample};
use letsnote_wheelpad::detector_log::LoggedDetector;
use letsnote_wheelpad::fsm::{Action, DetectorRequest, Fsm, FsmState, GestureDetector, TouchFrame};

/// The chord-angle integrator the daemon runs (floating point, outside the
/// library): incremental accumulation of chord-direction deltas, noise gate
/// at pi/4, drained in whole +-2 pi crossings.
struct CircularDetector {
    band: DeadBand,
    last_angle: Option<f64>,
    pending_delta: Option<f64>,
    accumulator: f64,
}

impl CircularDetector {
    fn new() -> Self {
        CircularDetector {
            band: DeadBand::new(),
            last_angle: None,
            pending_delta: None,
            accumulator: 0.0,
        }
    }
}

fn wrap_angle(d: f64) -> f64 {
    if d > PI {
        d - 2.0 * PI
    } else if d < -PI {
        d + 2.0 * PI
    } else {
        d
    }
}

impl GestureDetector for CircularDetector {
    fn on_gesture_start(&mut self) {
        self.band.reset();
        self.last_angle = None;
        self.pending_delta = None;
        self.accumulator = 0.0;
    }

    fn push_if_moved(&mut self, s: TouchSample) -> bool {
        match self.band.offer(s) {
            Movement::Started => true,
            Movement::Jitter => false,
            Movement::Chord { dx, dy } => {
                let angle = (dy as f64).atan2(dx as f64);
                let delta = match self.last_angle {
                    Some(prev) => wrap_angle(angle - prev),
                    None => 0.0,
                };
                self.last_angle = Some(angle);
                self.pending_delta = Some(delta);
                true
            }
        }
    }

    fn step(&mut self, scroll_speed_adjust: i32) -> i32 {
        if let Some(d) = self.pending_delta.take() {
            if d.abs() <= PI / 4.0 {
                self.accumulator += sensitivity_weight(scroll_speed_adjust) as f64 * d;
            }
        }
        let mut ticks = 0;
        while self.accumulator > PI {
            self.accumulator -= 2.0 * PI;
            ticks -= 1;
        }
        while self.accumulator < -PI {
            self.accumulator += 2.0 * PI;
            ticks += 1;
        }
        ticks
    }
}

fn default_scroll() -> Scroll {
    Scroll::default()
}

fn lift() -> TouchFrame {
    TouchFrame {
        contact: false,
        pos: None,
    }
}

fn touch(x: i32, y: i32) -> TouchFrame {
    TouchFrame {
        contact: true,
        pos: Some(TouchSample { x, y }),
    }
}

fn drive(
    fsm: &mut Fsm,
    detector: &mut LoggedDetector<CircularDetector>,
    scroll: &Scroll,
    frames: &[TouchFrame],
) -> Vec<Action> {
    let mut acc = Vec::new();
    for f in frames {
        let action = fsm.step(*f, detector, scroll);
        if !matches!(action, Action::NoOp) {
            acc.push(action);
        }
    }
    acc
}

#[test]
fn idle_to_contact_on_touchdown_inside_dead_zone() {
    let mut fsm = Fsm::new(500, 500);
    let mut det = LoggedDetector::new(CircularDetector::new());
    let scroll = default_scroll();
    let _ = drive(&mut fsm, &mut det, &scroll, &[touch(510, 510)]);
    assert!(matches!(fsm.state(), FsmState::Contact { .. }));
}

#[test]
fn idle_to_moving_on_touchdown_outside_dead_zone() {
    let mut fsm = Fsm::new(500, 500);
    let mut det = LoggedDetector::new(CircularDetector::new());
    let scroll = default_scroll();
    let _ = drive(&mut fsm, &mut det, &scroll, &[touch(720, 500)]); // r = 220
    assert!(matches!(fsm.state(), FsmState::Moving { .. }));
}

#[test]
fn contact_to_idle_on_lift() {
    let mut fsm = Fsm::new(500, 500);
    let mut det = LoggedDetector::new(CircularDetector::new());
    let scroll = default_scroll();
    drive(&mut fsm, &mut det, &scroll, &[touch(510, 510), lift()]);
    assert!(matches!(fsm.state(), FsmState::Idle));
}

#[test]
fn contact_does_not_engage_on_cross_gate_movement_d020() {
    // Strict dead-zone semantics. Once trapped in
    // Contact, even sliding out into the outer ring does not engage Moving.
    // The user must lift and re-touch.
    let mut fsm = Fsm::new(500, 500);
    let mut det = LoggedDetector::new(CircularDetector::new());
    let scroll = default_scroll();
    // Touch inside dead zone, then slide outside.
    drive(
        &mut fsm,
        &mut det,
        &scroll,
        &[touch(510, 510), touch(550, 500), touch(720, 500)],
    );
    assert!(
        matches!(fsm.state(), FsmState::Contact { .. }),
        "expected to stay in Contact, got {:?}",
        fsm.state()
    );
}

#[test]
fn moving_to_idle_on_lift_before_engagement() {
    let mut fsm = Fsm::new(500, 500);
    let mut det = LoggedDetector::new(CircularDetector::new());
    let scroll = default_scroll();
    drive(&mut fsm, &mut det, &scroll, &[touch(720, 500), lift()]);
    assert!(matches!(fsm.state(), FsmState::Idle));
}

#[test]
fn moving_to_contact_on_slip_back_into_dead_zone() {
    let mut fsm = Fsm::new(500, 500);
    let mut det = LoggedDetector::new(CircularDetector::new());
    let scroll = default_scroll();
    // Engage outside, then slip back inside.
    drive(
        &mut fsm,
        &mut det,
        &scroll,
        &[touch(720, 500), touch(550, 500)],
    );
    assert!(matches!(fsm.state(), FsmState::Contact { .. }));
}

#[test]
fn moving_to_scrolling_on_swept_angle_past_trigger() {
    // Sweep past the trigger angle (10°) from engage_start while staying
    // inside the outer ring → Scrolling. With the passthrough
    // architecture there is no Grab action to observe; the
    // state transition is the signal the runtime keys off.
    let mut fsm = Fsm::new(500, 500);
    let mut det = LoggedDetector::new(CircularDetector::new());
    let scroll = default_scroll();

    // engage_start at angle 0, r=220
    let start = touch(720, 500);
    // sweep to angle π/8 (= 22.5°, > trigger 10°), r=220
    let theta = PI / 8.0;
    let end_x = 500 + (220.0 * theta.cos()).round() as i32;
    let end_y = 500 + (220.0 * theta.sin()).round() as i32;
    let end = touch(end_x, end_y);

    drive(&mut fsm, &mut det, &scroll, &[start, end]);
    assert!(matches!(fsm.state(), FsmState::Scrolling));
}

#[test]
fn scrolling_to_debounce_on_lift() {
    let mut fsm = Fsm::new(500, 500);
    let mut det = LoggedDetector::new(CircularDetector::new());
    let scroll = default_scroll();

    let start = touch(720, 500);
    let theta = PI / 8.0;
    let mid_x = 500 + (220.0 * theta.cos()).round() as i32;
    let mid_y = 500 + (220.0 * theta.sin()).round() as i32;
    let mid = touch(mid_x, mid_y);

    drive(&mut fsm, &mut det, &scroll, &[start, mid]);
    assert!(matches!(fsm.state(), FsmState::Scrolling));

    drive(&mut fsm, &mut det, &scroll, &[lift()]);
    assert!(matches!(fsm.state(), FsmState::Debounce));
}

#[test]
fn force_idle_resets_state() {
    // Watchdog path: after force_idle the FSM is back at Idle even if
    // it was mid-Scrolling.
    let mut fsm = Fsm::new(500, 500);
    let mut det = LoggedDetector::new(CircularDetector::new());
    let scroll = default_scroll();

    let start = touch(720, 500);
    let theta = PI / 8.0;
    let mid = touch(
        500 + (220.0 * theta.cos()).round() as i32,
        500 + (220.0 * theta.sin()).round() as i32,
    );
    drive(&mut fsm, &mut det, &scroll, &[start, mid]);
    assert!(matches!(fsm.state(), FsmState::Scrolling));

    fsm.force_idle(&mut det);
    assert!(matches!(fsm.state(), FsmState::Idle));
}

#[test]
fn debounce_to_idle_on_next_frame_no_timer() {
    // Debounce always exits to Idle on the next frame
    // regardless of whether the finger is now down or up.
    let mut fsm = Fsm::new(500, 500);
    let mut det = LoggedDetector::new(CircularDetector::new());
    let scroll = default_scroll();

    let start = touch(720, 500);
    let theta = PI / 8.0;
    let mid_x = 500 + (220.0 * theta.cos()).round() as i32;
    let mid_y = 500 + (220.0 * theta.sin()).round() as i32;
    let mid = touch(mid_x, mid_y);

    drive(&mut fsm, &mut det, &scroll, &[start, mid, lift()]);
    assert!(matches!(fsm.state(), FsmState::Debounce));

    drive(&mut fsm, &mut det, &scroll, &[lift()]);
    assert!(matches!(fsm.state(), FsmState::Idle));
}

#[test]
fn debounce_to_idle_even_if_finger_back_down() {
    // The Debounce state has no re-engagement
    // path. If a finger is down on the very next frame, we still go to
    // Idle this frame; the frame *after* that re-runs the fresh-touch
    // classifier.
    let mut fsm = Fsm::new(500, 500);
    let mut det = LoggedDetector::new(CircularDetector::new());
    let scroll = default_scroll();

    let start = touch(720, 500);
    let theta = PI / 8.0;
    let mid_x = 500 + (220.0 * theta.cos()).round() as i32;
    let mid_y = 500 + (220.0 * theta.sin()).round() as i32;
    let mid = touch(mid_x, mid_y);

    drive(&mut fsm, &mut det, &scroll, &[start, mid, lift()]);
    assert!(matches!(fsm.state(), FsmState::Debounce));

    drive(&mut fsm, &mut det, &scroll, &[touch(720, 500)]);
    assert!(matches!(fsm.state(), FsmState::Idle));
}

#[test]
fn disabled_scroll_holds_idle() {
    // When scroll.enable = false the daemon keeps reading
    // frames but the FSM never advances past Idle.
    let mut fsm = Fsm::new(500, 500);
    let mut det = LoggedDetector::new(CircularDetector::new());
    let mut scroll = default_scroll();
    scroll.enable = false;
    drive(
        &mut fsm,
        &mut det,
        &scroll,
        &[touch(720, 500), touch(700, 520), lift()],
    );
    assert!(matches!(fsm.state(), FsmState::Idle));
}

#[test]
fn scrolling_exits_to_moving_on_stationary_finger() {
    // A finger that stops moving while Scrolling must drop back to
    // Moving so the passthrough runtime resumes forwarding and the
    // cursor unfreezes — instead of waiting for a lift or the 5 s
    // watchdog.
    let mut fsm = Fsm::new(500, 500);
    let mut det = LoggedDetector::new(CircularDetector::new());
    let scroll = default_scroll();

    let start = touch(720, 500);
    let theta = PI / 8.0;
    let mid = touch(
        500 + (220.0 * theta.cos()).round() as i32,
        500 + (220.0 * theta.sin()).round() as i32,
    );
    drive(&mut fsm, &mut det, &scroll, &[start, mid]);
    assert!(matches!(fsm.state(), FsmState::Scrolling));

    // Finger rests at `mid`: after the stationary threshold it must
    // drop back to Moving.
    drive(&mut fsm, &mut det, &scroll, &vec![mid; 40]);
    assert!(
        matches!(fsm.state(), FsmState::Moving { .. }),
        "expected Moving after stationary finger, got {:?}",
        fsm.state()
    );
}

#[test]
fn stationary_exit_does_not_trip_during_continuous_circle() {
    // Guard: a continuous circle moves every frame well past the dead
    // band, so the stationary counter must never reach the exit
    // threshold and the gesture must stay Scrolling throughout.
    let mut fsm = Fsm::new(500, 500);
    let mut det = LoggedDetector::new(CircularDetector::new());
    let scroll = default_scroll();

    let start = touch(720, 500); // 0°
    let mut frames = vec![start];
    for i in 1..=72 {
        let t = i as f64 * (PI / 18.0); // 10° per step
        frames.push(touch(
            500 + (220.0 * t.cos()).round() as i32,
            500 + (220.0 * t.sin()).round() as i32,
        ));
    }
    drive(&mut fsm, &mut det, &scroll, &frames);
    assert!(
        matches!(fsm.state(), FsmState::Scrolling),
        "continuous circle must stay Scrolling, got {:?}",
        fsm.state()
    );
}

#[test]
fn scrolling_survives_position_gap() {
    // MT protocol race: a frame with contact=true but pos=None (slot
    // tracking id momentarily missing) must NOT exit Scrolling — the
    // finger is still down.
    let mut fsm = Fsm::new(500, 500);
    let mut det = LoggedDetector::new(CircularDetector::new());
    let scroll = default_scroll();

    let start = touch(720, 500);
    let theta = PI / 8.0;
    let mid = touch(
        500 + (220.0 * theta.cos()).round() as i32,
        500 + (220.0 * theta.sin()).round() as i32,
    );
    drive(&mut fsm, &mut det, &scroll, &[start, mid]);
    assert!(matches!(fsm.state(), FsmState::Scrolling));

    let gap = TouchFrame {
        contact: true,
        pos: None,
    };
    drive(&mut fsm, &mut det, &scroll, &[gap]);
    assert!(
        matches!(fsm.state(), FsmState::Scrolling),
        "contact=true with pos=None must stay Scrolling, got {:?}",
        fsm.state()
    );
}

// ---------------------------------------------------------------------------
// Further scenarios.
// ---------------------------------------------------------------------------

/// A detector that replays scripted results.
struct Scripted {
    moved: Cell<bool>,
    ticks: Cell<i32>,
    resets: Cell<u32>,
    calls: Cell<u32>,
    last_adjust: Cell<i32>,
}

impl GestureDetector for Scripted {
    fn on_gesture_start(&mut self) {
        self.calls.set(self.calls.get() + 1);
        self.resets.set(self.resets.get() + 1);
    }

    fn push_if_moved(&mut self, _s: TouchSample) -> bool {
        self.calls.set(self.calls.get() + 1);
        self.moved.get()
    }

    fn step(&mut self, scroll_speed_adjust: i32) -> i32 {
        self.calls.set(self.calls.get() + 1);
        self.last_adjust.set(scroll_speed_adjust);
        self.ticks.get()
    }
}

fn scripted(moved: bool, ticks: i32) -> LoggedDetector<Scripted> {
    LoggedDetector::new(Scripted {
        moved: Cell::new(moved),
        ticks: Cell::new(ticks),
        resets: Cell::new(0),
        calls: Cell::new(0),
        last_adjust: Cell::new(0),
    })
}

fn engaged(fsm: &mut Fsm, scroll: &Scroll, det: &mut LoggedDetector<Scripted>) {
    let mut q = scripted(true, 0);
    fsm.step(touch(720, 500), &mut q, scroll);
    fsm.step(touch(703, 584), det, scroll);
    assert!(matches!(fsm.state(), FsmState::Scrolling));
}

#[test]
fn scrolling_emits_vertical_ticks_and_reverse_flips_sign() {
    let mut fsm = Fsm::new(500, 500);
    let mut scroll = default_scroll();
    let mut det = scripted(true, 0);
    engaged(&mut fsm, &scroll, &mut det);
    assert_eq!(det.detector().resets.get(), 1);
    det.detector().ticks.set(-2);
    assert_eq!(fsm.step(touch(680, 650), &mut det, &scroll), Action::EmitWheelV(-2));
    scroll.reverse_vertical = true;
    assert_eq!(fsm.step(touch(650, 680), &mut det, &scroll), Action::EmitWheelV(2));
    // i32::MIN has no negation and is passed through unchanged.
    det.detector().ticks.set(i32::MIN);
    assert_eq!(fsm.step(touch(600, 700), &mut det, &scroll), Action::EmitWheelV(i32::MIN));
    det.detector().ticks.set(0);
    assert_eq!(fsm.step(touch(560, 710), &mut det, &scroll), Action::NoOp);
}

#[test]
fn horizontal_wedge_routes_ticks_to_horizontal_wheel() {
    let mut fsm = Fsm::new(500, 500);
    let mut scroll = default_scroll();
    scroll.horizontal_enable = true;
    let mut det = scripted(true, 0);
    engaged(&mut fsm, &scroll, &mut det);
    det.detector().ticks.set(3);
    // Bottom rim (90°) lies in the default 45°..135° wedge.
    assert_eq!(fsm.step(touch(500, 720), &mut det, &scroll), Action::EmitWheelH(3));
    scroll.reverse_horizontal = true;
    assert_eq!(fsm.step(touch(520, 718), &mut det, &scroll), Action::EmitWheelH(-3));
    // Right rim (0°) is outside it: vertical, not reversed.
    assert_eq!(fsm.step(touch(720, 500), &mut det, &scroll), Action::EmitWheelV(3));
}

#[test]
fn engagement_emits_ticks_on_the_engaging_frame() {
    let mut fsm = Fsm::new(500, 500);
    let scroll = default_scroll();
    let mut det = scripted(true, -1);
    assert_eq!(fsm.step(touch(720, 500), &mut det, &scroll), Action::NoOp);
    assert_eq!(fsm.step(touch(703, 584), &mut det, &scroll), Action::EmitWheelV(-1));
    assert!(matches!(fsm.state(), FsmState::Scrolling));
    assert_eq!(det.detector().resets.get(), 1);
}

#[test]
fn moving_below_trigger_stays_moving() {
    let mut fsm = Fsm::new(500, 500);
    let scroll = default_scroll();
    let mut det = LoggedDetector::new(CircularDetector::new());
    // 10° sweep from the engagement start, still in the outer ring.
    let t = 10.0_f64.to_radians();
    let frames = [
        touch(720, 500),
        touch(500 + (220.0 * t.cos()).round() as i32, 500 + (220.0 * t.sin()).round() as i32),
    ];
    drive(&mut fsm, &mut det, &scroll, &frames);
    assert_eq!(fsm.state(), FsmState::Moving { engage_start: TouchSample { x: 720, y: 500 } });
}

#[test]
fn resting_finger_exit_counts_exactly_forty_frames() {
    let mut fsm = Fsm::new(500, 500);
    let scroll = default_scroll();
    let mut det = scripted(true, 0);
    engaged(&mut fsm, &scroll, &mut det);
    det.detector().moved.set(false);
    for _ in 0..39 {
        assert_eq!(fsm.step(touch(703, 584), &mut det, &scroll), Action::NoOp);
        assert_eq!(fsm.state(), FsmState::Scrolling);
    }
    let resets_before = det.detector().resets.get();
    fsm.step(touch(703, 584), &mut det, &scroll);
    assert_eq!(fsm.state(), FsmState::Moving { engage_start: TouchSample { x: 703, y: 584 } });
    assert_eq!(det.detector().resets.get(), resets_before + 1);
}

#[test]
fn ticks_while_resting_postpone_the_exit() {
    let mut fsm = Fsm::new(500, 500);
    let scroll = default_scroll();
    let mut det = scripted(false, 1);
    engaged(&mut fsm, &scroll, &mut det);
    for _ in 0..60 {
        assert_eq!(fsm.step(touch(703, 584), &mut det, &scroll), Action::EmitWheelV(1));
    }
    assert_eq!(fsm.state(), FsmState::Scrolling);
    det.detector().ticks.set(0);
    fsm.step(touch(703, 584), &mut det, &scroll);
    assert!(matches!(fsm.state(), FsmState::Moving { .. }));
}

#[test]
fn lift_from_any_state_reaches_idle_within_two_frames() {
    let scroll = default_scroll();
    let setups: [&[TouchFrame]; 4] = [
        &[],
        &[touch(510, 510)],
        &[touch(720, 500)],
        &[touch(720, 500), touch(703, 584)],
    ];
    for frames in setups {
        let mut fsm = Fsm::new(500, 500);
        let mut det = LoggedDetector::new(CircularDetector::new());
        drive(&mut fsm, &mut det, &scroll, frames);
        drive(&mut fsm, &mut det, &scroll, &[lift(), lift()]);
        assert_eq!(fsm.state(), FsmState::Idle);
    }
}

#[test]
fn wide_detect_area_engages_from_the_centre() {
    let mut fsm = Fsm::new(500, 500);
    let mut scroll = default_scroll();
    scroll.detect_area_width = 10;
    let mut det = LoggedDetector::new(CircularDetector::new());
    drive(&mut fsm, &mut det, &scroll, &[touch(500, 500)]);
    assert_eq!(fsm.state(), FsmState::Moving { engage_start: TouchSample { x: 500, y: 500 } });
}

#[test]
fn begin_and_after_tracking_split_a_scrolling_frame() {
    let mut fsm = Fsm::new(500, 500);
    let scroll = default_scroll();
    assert_eq!(fsm.begin(touch(720, 500), &scroll), DetectorRequest::Done(Action::NoOp));
    assert_eq!(
        fsm.begin(touch(703, 584), &scroll),
        DetectorRequest::Engage(TouchSample { x: 703, y: 584 })
    );
    assert_eq!(
        fsm.begin(touch(680, 650), &scroll),
        DetectorRequest::Track(TouchSample { x: 680, y: 650 })
    );
    let s = TouchSample { x: 680, y: 650 };
    assert_eq!(fsm.after_tracking(s, true, 2, &scroll), (Action::EmitWheelV(2), false));
    for _ in 0..39 {
        assert_eq!(fsm.after_tracking(s, false, 0, &scroll), (Action::NoOp, false));
    }
    assert_eq!(fsm.after_tracking(s, false, 0, &scroll), (Action::NoOp, true));
    assert_eq!(fsm.state(), FsmState::Moving { engage_start: s });
}

#[test]
fn detector_is_driven_only_while_engaging_or_scrolling() {
    let mut fsm = Fsm::new(500, 500);
    let mut scroll = default_scroll();
    scroll.sensitivity = 2;
    let mut det = scripted(true, 0);
    // Touch-down and lifts need no detector work.
    fsm.step(touch(510, 510), &mut det, &scroll);
    fsm.step(lift(), &mut det, &scroll);
    fsm.step(touch(720, 500), &mut det, &scroll);
    assert_eq!(det.detector().calls.get(), 0);
    // Engagement: start, feed, step with the configured sensitivity.
    fsm.step(touch(703, 584), &mut det, &scroll);
    assert_eq!(det.detector().calls.get(), 3);
    assert_eq!(det.detector().resets.get(), 1);
    assert_eq!(det.detector().last_adjust.get(), 2);
    // Scrolling: feed and step.
    fsm.step(touch(680, 650), &mut det, &scroll);
    assert_eq!(det.detector().calls.get(), 5);
    // A position gap and the lift into Debounce leave it alone.
    fsm.step(TouchFrame { contact: true, pos: None }, &mut det, &scroll);
    fsm.step(lift(), &mut det, &scroll);
    fsm.step(lift(), &mut det, &scroll);
    assert_eq!(det.detector().calls.get(), 5);
    // The watchdog starts a new gesture.
    fsm.force_idle(&mut det);
    assert_eq!(det.detector().resets.get(), 2);
}
