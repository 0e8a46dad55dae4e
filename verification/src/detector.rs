use vstd::prelude::*;

verus! {

/// Squared dead band (20 units) a sample must move past before it counts
/// as a new chord.
pub const SAMPLE_DEADBAND_SQ: i64 = 400;

/// A touch position in raw pad coordinates.
#[derive(Clone, Copy, Debug, PartialEq, Eq, Structural)]
pub struct TouchSample {
    pub x: i32,
    pub y: i32,
}

/// `s` taken relative to the centre, computed in `i32`, does not overflow, and its squared length fits in `i64` (which fails only
/// when both offsets are `i32::MIN`).
pub open spec fn offset_in_range(center_x: i32, center_y: i32, s: TouchSample) -> bool {
    &&& i32::MIN <= s.x - center_x <= i32::MAX
    &&& i32::MIN <= s.y - center_y <= i32::MAX
    &&& !(s.x - center_x == i32::MIN && s.y - center_y == i32::MIN)
}

/// The squared length of an offset in range fits in `i64`.
pub proof fn lemma_offset_square_fits(dx: int, dy: int)
    requires
        i32::MIN <= dx <= i32::MAX,
        i32::MIN <= dy <= i32::MAX,
        !(dx == i32::MIN && dy == i32::MIN),
    ensures
        0 <= dx * dx,
        0 <= dy * dy,
        dx * dx + dy * dy <= i64::MAX,
{
    if dx == i32::MIN {
        assert(dy * dy <= 0x3fff_ffff_0000_0001) by (nonlinear_arith)
            requires
                i32::MIN < dy <= i32::MAX,
        ;
        assert(dx * dx == 0x4000_0000_0000_0000) by (nonlinear_arith)
            requires
                dx == i32::MIN,
        ;
    } else if dy == i32::MIN {
        assert(dx * dx <= 0x3fff_ffff_0000_0001) by (nonlinear_arith)
            requires
                i32::MIN < dx <= i32::MAX,
        ;
        assert(dy * dy == 0x4000_0000_0000_0000) by (nonlinear_arith)
            requires
                dy == i32::MIN,
        ;
    } else {
        assert(dx * dx <= 0x3fff_ffff_0000_0001) by (nonlinear_arith)
            requires
                i32::MIN < dx <= i32::MAX,
        ;
        assert(dy * dy <= 0x3fff_ffff_0000_0001) by (nonlinear_arith)
            requires
                i32::MIN < dy <= i32::MAX,
        ;
    }
    assert(dx * dx >= 0 && dy * dy >= 0) by (nonlinear_arith);
}

/// `v` clamped into `lo..=hi`.
pub open spec fn clamp(v: int, lo: int, hi: int) -> int {
    if v < lo {
        lo
    } else if v > hi {
        hi
    } else {
        v
    }
}

/// `v` clamped into `lo..=hi`.
pub fn clamp_i32(v: i32, lo: i32, hi: i32) -> (r: i32)
    requires
        lo <= hi,
    ensures
        r == clamp(v as int, lo as int, hi as int),
{
    if v < lo {
        lo
    } else if v > hi {
        hi
    } else {
        v
    }
}

/// Squared radius of the inner dead zone for a given detect-area width:
/// `(20 * (10 - clamp(width, 0, 10)))^2`.
pub open spec fn dead_zone_radius_sq(detect_area_width: int) -> int {
    let w = 10 - clamp(detect_area_width, 0, 10);
    (20 * w) * (20 * w)
}

/// Squared distance of `s` from the centre.
pub open spec fn dist_sq(center_x: i32, center_y: i32, s: TouchSample) -> int {
    (s.x - center_x) * (s.x - center_x) + (s.y - center_y) * (s.y - center_y)
}

/// Radial gate: is the sample in the outer ring, i.e. at least
/// `20 * (10 - width)` units from the centre?
pub fn radial_gate_ok(center_x: i32, center_y: i32, s: TouchSample, detect_area_width: i32) -> (r:
    bool)
    requires
        offset_in_range(center_x, center_y, s),
    ensures
        r == (dist_sq(center_x, center_y, s) >= dead_zone_radius_sq(detect_area_width as int)),
{
    let dx = (s.x - center_x) as i64;
    let dy = (s.y - center_y) as i64;
    proof {
        lemma_offset_square_fits(dx as int, dy as int);
    }
    let r2 = dx * dx + dy * dy;
    let w = (10 - clamp_i32(detect_area_width, 0, 10)) as i64;
    assert(0 <= w <= 10);
    assert(w * w <= 100) by (nonlinear_arith)
        requires
            0 <= w <= 10,
    ;
    let lhs = (w * w) * 400;
    assert(lhs == (20 * w) * (20 * w)) by (nonlinear_arith)
        requires
            lhs == (w * w) * 400,
    ;
    r2 >= lhs
}


// ---------------------------------------------------------------------------
// Exact angle geometry.
//
// Directions are integer vectors. The wedge boundaries sit at multiples of
// pi/8, whose directions have coordinates in Z[sqrt 2]; the engagement
// threshold pi/12 has tangent 2 - sqrt 3. Every comparison below is decided
// exactly by the sign of a number `p + q * sqrt n` with integer `p`, `q`.
// ---------------------------------------------------------------------------

/// Sign (-1, 0 or 1) of `p + q * sqrt 2`. As `sqrt 2` is irrational the value
/// is zero only when `p == q == 0`.
pub open spec fn surd2_sign(p: int, q: int) -> int {
    if p >= 0 && q >= 0 {
        if p == 0 && q == 0 {
            0
        } else {
            1
        }
    } else if p <= 0 && q <= 0 {
        -1
    } else if q < 0 {
        // p > 0 > q: compare p with |q| * sqrt 2.
        if p * p > 2 * q * q {
            1
        } else {
            -1
        }
    } else {
        // q > 0 > p: compare q * sqrt 2 with |p|.
        if 2 * q * q > p * p {
            1
        } else {
            -1
        }
    }
}

/// Is `p + q * sqrt 3` strictly positive?
pub open spec fn surd3_positive(p: int, q: int) -> bool {
    if p >= 0 && q >= 0 {
        p > 0 || q > 0
    } else if p <= 0 && q <= 0 {
        false
    } else if q < 0 {
        p * p > 3 * q * q
    } else {
        3 * q * q > p * p
    }
}

/// The direction an offset stands for: `atan2(0, 0)` is 0, so the zero
/// offset points along the positive x axis.
pub open spec fn direction(x: int, y: int) -> (int, int) {
    if x == 0 && y == 0 {
        (1, 0)
    } else {
        (x, y)
    }
}

/// The direction of `(x, y)` has its angle in `[0, pi)` (rather than in
/// `[pi, 2 pi)`); `(x, y)` is not the zero vector.
pub open spec fn upper_half(x: int, y: int) -> bool {
    y > 0 || (y == 0 && x > 0)
}

/// Sign of the cross product `r_j x (x, y)` for the unit ray `r_j` at angle
/// `j * pi / 8`, `0 <= j < 8`, up to a positive factor:
/// `r_1 ~ (1 + sqrt 2, 1)`, `r_2 ~ (1, 1)`, `r_3 ~ (1, 1 + sqrt 2)`,
/// `r_4 = (0, 1)`, `r_5 ~ (-1, 1 + sqrt 2)`, `r_6 ~ (-1, 1)`,
/// `r_7 ~ (-(1 + sqrt 2), 1)`.
pub open spec fn ray_cross_sign(j: int, x: int, y: int) -> int {
    if j == 0 {
        surd2_sign(y, 0)
    } else if j == 1 {
        surd2_sign(y - x, y)
    } else if j == 2 {
        surd2_sign(y - x, 0)
    } else if j == 3 {
        surd2_sign(y - x, -x)
    } else if j == 4 {
        surd2_sign(-x, 0)
    } else if j == 5 {
        surd2_sign(-y - x, -x)
    } else if j == 6 {
        surd2_sign(-y - x, 0)
    } else {
        surd2_sign(-y - x, -y)
    }
}

/// Sign of `theta - k * pi / 8`, where `theta` in `[0, 2 pi)` is the angle of
/// the non-zero vector `(x, y)` and `0 <= k < 16`. Within one half plane the
/// order of two angles is the sign of their cross product; across the two
/// halves it is the order of the halves.
pub open spec fn angle_order(x: int, y: int, k: int) -> int {
    if upper_half(x, y) && k >= 8 {
        -1
    } else if !upper_half(x, y) && k < 8 {
        1
    } else if k < 8 {
        ray_cross_sign(k, x, y)
    } else {
        -ray_cross_sign(k - 8, x, y)
    }
}

/// `theta >= k * pi / 8` for the angle `theta` in `[0, 2 pi)` of `(x, y)`.
pub open spec fn angle_at_least(x: int, y: int, k: int) -> bool {
    let (x, y) = direction(x, y);
    k <= 0 || (k < 16 && angle_order(x, y, k) >= 0)
}

/// `theta <= k * pi / 8` for the angle `theta` in `[0, 2 pi)` of `(x, y)`.
pub open spec fn angle_at_most(x: int, y: int, k: int) -> bool {
    let (x, y) = direction(x, y);
    k >= 16 || (k >= 0 && angle_order(x, y, k) <= 0)
}

/// The angle of the offset `(x, y)` lies in the wedge from `start * pi / 8`
/// to `end * pi / 8`, both ends included; when `start > end` the wedge
/// wraps across angle 0.
pub open spec fn in_wedge(x: int, y: int, start: int, end: int) -> bool {
    if start <= end {
        angle_at_least(x, y, start) && angle_at_most(x, y, end)
    } else {
        angle_at_least(x, y, start) || angle_at_most(x, y, end)
    }
}

/// The unsigned angle between the directions of `(ux, uy)` and `(vx, vy)`
/// exceeds pi/12. With `d` the dot and `c` the absolute cross product of the
/// directions, the angle is at least a right angle when `d <= 0`; otherwise
/// its tangent is `c / d`, and `tan(pi / 12) = 2 - sqrt 3`.
pub open spec fn angle_exceeds_trigger(ux: int, uy: int, vx: int, vy: int) -> bool {
    let (ax, ay) = direction(ux, uy);
    let (bx, by) = direction(vx, vy);
    let d = ax * bx + ay * by;
    let cr = ax * by - ay * bx;
    let c = if cr >= 0 {
        cr
    } else {
        -cr
    };
    d <= 0 || surd3_positive(c - 2 * d, d)
}

/// Both coordinates of `s` relative to the centre fit in `i32`.
pub open spec fn offset_fits(center_x: i32, center_y: i32, s: TouchSample) -> bool {
    &&& i32::MIN <= s.x - center_x <= i32::MAX
    &&& i32::MIN <= s.y - center_y <= i32::MAX
}

/// Bound on the magnitude of coordinates handed to the exact comparisons.
pub open spec fn small(v: int) -> bool {
    -0x1_0000_0000 <= v <= 0x1_0000_0000
}

fn sign_surd2(p: i64, q: i64) -> (r: i8)
    requires
        small(p as int) || (-0x2_0000_0000 <= p <= 0x2_0000_0000),
        small(q as int),
    ensures
        r as int == surd2_sign(p as int, q as int),
{
    if p >= 0 && q >= 0 {
        if p == 0 && q == 0 {
            0
        } else {
            1
        }
    } else if p <= 0 && q <= 0 {
        -1
    } else {
        let pw = p as i128;
        let qw = q as i128;
        assert(pw * pw <= 0x4_0000_0000 * 0x4_0000_0000) by (nonlinear_arith)
            requires
                -0x2_0000_0000 <= pw <= 0x2_0000_0000,
        ;
        assert(qw * qw <= 0x1_0000_0000 * 0x1_0000_0000) by (nonlinear_arith)
            requires
                -0x1_0000_0000 <= qw <= 0x1_0000_0000,
        ;
        assert(pw * pw >= 0 && qw * qw >= 0) by (nonlinear_arith);
        let pp = pw * pw;
        let qq = 2 * (qw * qw);
        assert(qq == 2 * q * q) by (nonlinear_arith)
            requires
                qq == 2 * (qw * qw),
                qw == q,
        ;
        if q < 0 {
            if pp > qq {
                1
            } else {
                -1
            }
        } else {
            if qq > pp {
                1
            } else {
                -1
            }
        }
    }
}

fn ray_cross_sign_exec(j: i32, x: i64, y: i64) -> (r: i8)
    requires
        0 <= j < 8,
        small(x as int),
        small(y as int),
    ensures
        r as int == ray_cross_sign(j as int, x as int, y as int),
{
    if j == 0 {
        sign_surd2(y, 0)
    } else if j == 1 {
        sign_surd2(y - x, y)
    } else if j == 2 {
        sign_surd2(y - x, 0)
    } else if j == 3 {
        sign_surd2(y - x, -x)
    } else if j == 4 {
        sign_surd2(-x, 0)
    } else if j == 5 {
        sign_surd2(-y - x, -x)
    } else if j == 6 {
        sign_surd2(-y - x, 0)
    } else {
        sign_surd2(-y - x, -y)
    }
}

fn angle_order_exec(x: i64, y: i64, k: i32) -> (r: i8)
    requires
        0 <= k < 16,
        small(x as int),
        small(y as int),
    ensures
        r as int == angle_order(x as int, y as int, k as int),
{
    let upper = y > 0 || (y == 0 && x > 0);
    if upper && k >= 8 {
        -1
    } else if !upper && k < 8 {
        1
    } else if k < 8 {
        ray_cross_sign_exec(k, x, y)
    } else {
        let s = ray_cross_sign_exec(k - 8, x, y);
        -s
    }
}

fn direction_exec(x: i64, y: i64) -> (r: (i64, i64))
    ensures
        r.0 as int == direction(x as int, y as int).0,
        r.1 as int == direction(x as int, y as int).1,
{
    if x == 0 && y == 0 {
        (1, 0)
    } else {
        (x, y)
    }
}

/// Horizontal-wedge test: does the angle of `s` around the centre (in
/// `[0, 2 pi)`, measured like `atan2(dy, dx)`) lie between
/// `horizontal_start * pi / 8` and `horizontal_end * pi / 8`? A wedge with
/// `start > end` wraps across angle 0.
pub fn within_horizontal_arc(
    center_x: i32,
    center_y: i32,
    s: TouchSample,
    horizontal_start: i32,
    horizontal_end: i32,
) -> (r: bool)
    requires
        offset_fits(center_x, center_y, s),
    ensures
        r == in_wedge(
            s.x - center_x,
            s.y - center_y,
            horizontal_start as int,
            horizontal_end as int,
        ),
{
    let (x, y) = direction_exec((s.x - center_x) as i64, (s.y - center_y) as i64);
    let at_least_start = if horizontal_start <= 0 {
        true
    } else if horizontal_start >= 16 {
        false
    } else {
        angle_order_exec(x, y, horizontal_start) >= 0
    };
    let at_most_end = if horizontal_end >= 16 {
        true
    } else if horizontal_end < 0 {
        false
    } else {
        angle_order_exec(x, y, horizontal_end) <= 0
    };
    if horizontal_start <= horizontal_end {
        at_least_start && at_most_end
    } else {
        at_least_start || at_most_end
    }
}


/// Engagement test (Moving -> Scrolling): has the finger swept more than
/// pi/12 around the centre since `engage_start`? The swept angle is the
/// difference of the two centre-relative directions wrapped into
/// `[-pi, pi]`, so its magnitude is the unsigned angle between them.
pub fn sweeps_past_trigger(
    center_x: i32,
    center_y: i32,
    engage_start: TouchSample,
    current: TouchSample,
) -> (r: bool)
    requires
        offset_fits(center_x, center_y, engage_start),
        offset_fits(center_x, center_y, current),
    ensures
        r == angle_exceeds_trigger(
            engage_start.x - center_x,
            engage_start.y - center_y,
            current.x - center_x,
            current.y - center_y,
        ),
{
    let (ax, ay) = direction_exec(
        (engage_start.x - center_x) as i64,
        (engage_start.y - center_y) as i64,
    );
    let (bx, by) = direction_exec((current.x - center_x) as i64, (current.y - center_y) as i64);
    let ax = ax as i128;
    let ay = ay as i128;
    let bx = bx as i128;
    let by = by as i128;
    proof {
        lemma_small_product(ax as int, bx as int);
        lemma_small_product(ay as int, by as int);
        lemma_small_product(ax as int, by as int);
        lemma_small_product(ay as int, bx as int);
    }
    let d = ax * bx + ay * by;
    let cr = ax * by - ay * bx;
    let c = if cr >= 0 {
        cr
    } else {
        -cr
    };
    if d <= 0 {
        true
    } else if c >= 2 * d {
        true
    } else {
        let du = d as u128;
        let cu = c as u128;
        proof {
            lemma_square_bound(d as int);
            lemma_square_bound(c as int);
            lemma_trigger_test(d as int, c as int);
            assert(d * c <= 0x4000_0000_0000_0000_0000_0000_0000_0000) by (nonlinear_arith)
                requires
                    0 <= d <= 0x8000_0000_0000_0000,
                    0 <= c <= 0x8000_0000_0000_0000,
            ;
        }
        let dd = du * du;
        let cc = cu * cu;
        let dc = du * cu;
        dc > (dd + cc) / 4
    }
}

proof fn lemma_small_product(a: int, b: int)
    requires
        -0x8000_0000 <= a <= 0x8000_0000,
        -0x8000_0000 <= b <= 0x8000_0000,
    ensures
        -0x4000_0000_0000_0000 <= a * b <= 0x4000_0000_0000_0000,
{
    assert(-0x4000_0000_0000_0000 <= a * b <= 0x4000_0000_0000_0000) by (nonlinear_arith)
        requires
            -0x8000_0000 <= a <= 0x8000_0000,
            -0x8000_0000 <= b <= 0x8000_0000,
    ;
}

proof fn lemma_square_bound(v: int)
    requires
        0 <= v <= 0x8000_0000_0000_0000,
    ensures
        0 <= v * v <= 0x4000_0000_0000_0000_0000_0000_0000_0000,
{
    assert(0 <= v * v <= 0x4000_0000_0000_0000_0000_0000_0000_0000) by (nonlinear_arith)
        requires
            0 <= v <= 0x8000_0000_0000_0000,
    ;
}

/// For `0 < d` and `0 <= c < 2 d`: `c - 2 d + d sqrt 3 > 0` exactly when
/// `d c > floor((d^2 + c^2) / 4)`.
proof fn lemma_trigger_test(d: int, c: int)
    requires
        0 < d,
        0 <= c < 2 * d,
    ensures
        surd3_positive(c - 2 * d, d) == (d * c > (d * d + c * c) / 4),
{
    let p = c - 2 * d;
    assert(p * p == 4 * d * d - 4 * d * c + c * c) by (nonlinear_arith)
        requires
            p == c - 2 * d,
    ;
    assert(3 * d * d > p * p <==> 4 * (d * c) > d * d + c * c) by (nonlinear_arith)
        requires
            p * p == 4 * d * d - 4 * d * c + c * c,
    ;
    let s = d * d + c * c;
    assert(s >= 0) by (nonlinear_arith)
        requires
            s == d * d + c * c,
    ;
    assert(4 * (d * c) > s <==> d * c > s / 4);
}


// ---------------------------------------------------------------------------
// Dead band in front of the chord-angle integrator.
// ---------------------------------------------------------------------------

/// What a sample offered to the dead band amounted to.
#[derive(Clone, Copy, Debug, PartialEq, Eq, Structural)]
pub enum Movement {
    /// First sample of the gesture: recorded as the chord origin, no chord yet.
    Started,
    /// Within the 20-unit dead band of the last recorded sample: ignored.
    Jitter,
    /// Moved past the dead band: recorded; the chord from the last recorded
    /// sample is `(dx, dy)`.
    Chord { dx: i64, dy: i64 },
}

/// Sub-20-unit jitter filter: remembers the last sample that passed the
/// dead band, from which each chord's direction is taken.
pub struct DeadBand {
    last_stored: Option<TouchSample>,
}

/// The chord from `p` to `s` can be computed in `i32`: both
/// coordinate differences fit in `i32` and the squared length in `i64`.
pub open spec fn chord_in_range(p: TouchSample, s: TouchSample) -> bool {
    offset_in_range(p.x, p.y, s)
}

/// The outcome of offering `s` to a dead band whose last recorded sample is
/// `last`, and the last recorded sample afterwards.
pub open spec fn offer_spec(last: Option<TouchSample>, s: TouchSample) -> (Movement, Option<
    TouchSample,
>) {
    match last {
        None => (Movement::Started, Some(s)),
        Some(p) => {
            if dist_sq(p.x, p.y, s) <= SAMPLE_DEADBAND_SQ {
                (Movement::Jitter, last)
            } else {
                (Movement::Chord { dx: (s.x - p.x) as i64, dy: (s.y - p.y) as i64 }, Some(s))
            }
        },
    }
}

impl DeadBand {
    /// The last sample that passed the dead band, if any.
    pub closed spec fn last(&self) -> Option<TouchSample> {
        self.last_stored
    }

    /// A dead band with no recorded sample.
    pub fn new() -> (r: Self)
        ensures
            r.last() is None,
    {
        DeadBand { last_stored: None }
    }

    /// Forget the recorded sample (start of a new gesture).
    pub fn reset(&mut self)
        ensures
            final(self).last() is None,
    {
        self.last_stored = None;
    }

    /// Offer a new sample. The first sample of a gesture is recorded; later
    /// ones are recorded only when they lie more than 20 units from the last
    /// recorded sample, and then yield the chord from it.
    pub fn offer(&mut self, s: TouchSample) -> (r: Movement)
        requires
            old(self).last() matches Some(p) ==> chord_in_range(p, s),
        ensures
            (r, final(self).last()) == offer_spec(old(self).last(), s),
    {
        match self.last_stored {
            None => {
                self.last_stored = Some(s);
                Movement::Started
            },
            Some(prev) => {
                let dx = (s.x - prev.x) as i64;
                let dy = (s.y - prev.y) as i64;
                proof {
                    lemma_offset_square_fits(dx as int, dy as int);
                }
                if dx * dx + dy * dy <= SAMPLE_DEADBAND_SQ {
                    Movement::Jitter
                } else {
                    self.last_stored = Some(s);
                    Movement::Chord { dx, dy }
                }
            },
        }
    }
}

/// Scroll weight per accepted radian, indexed by sensitivity step -2..=2.
pub open spec fn sensitivity_table(i: int) -> int {
    if i == 0 {
        10
    } else if i == 1 {
        14
    } else if i == 2 {
        20
    } else if i == 3 {
        28
    } else {
        40
    }
}

/// The chord-angle weight for a sensitivity setting: the setting is clamped
/// to -2..=2 and looked up in the table `[10, 14, 20, 28, 40]`.
pub fn sensitivity_weight(scroll_speed_adjust: i32) -> (r: i32)
    ensures
        r == sensitivity_table(clamp(scroll_speed_adjust as int, -2, 2) + 2),
{
    let idx = clamp_i32(scroll_speed_adjust, -2, 2) + 2;
    if idx == 0 {
        10
    } else if idx == 1 {
        14
    } else if idx == 2 {
        20
    } else if idx == 3 {
        28
    } else {
        40
    }
}


// ---------------------------------------------------------------------------
// Laws.
// ---------------------------------------------------------------------------

/// A wider detect area accepts every touch a narrower one accepts, and the
/// full width (10 or more) accepts the whole pad.
pub proof fn lemma_radial_gate_monotone(center_x: i32, center_y: i32, s: TouchSample, narrow: int, wide: int)
    requires
        narrow <= wide,
    ensures
        dist_sq(center_x, center_y, s) >= dead_zone_radius_sq(narrow) ==> dist_sq(
            center_x,
            center_y,
            s,
        ) >= dead_zone_radius_sq(wide),
        wide >= 10 ==> dist_sq(center_x, center_y, s) >= dead_zone_radius_sq(wide),
{
    let wn = 10 - clamp(narrow, 0, 10);
    let ww = 10 - clamp(wide, 0, 10);
    assert(0 <= ww <= wn);
    assert((20 * ww) * (20 * ww) <= (20 * wn) * (20 * wn)) by (nonlinear_arith)
        requires
            0 <= ww <= wn,
    ;
    let dx = s.x - center_x;
    let dy = s.y - center_y;
    assert(dx * dx + dy * dy >= 0) by (nonlinear_arith);
    assert(dist_sq(center_x, center_y, s) == dx * dx + dy * dy);
    if wide >= 10 {
        assert(ww == 0);
        assert((20 * ww) * (20 * ww) == 0) by (nonlinear_arith)
            requires
                ww == 0,
        ;
    }
}

/// The wedge from `a` to `b` and the wedge from `b` to `a` together cover
/// the whole circle (for `a != b`, one of them wraps across angle 0).
pub proof fn lemma_wedges_cover_circle(x: int, y: int, a: int, b: int)
    requires
        a != b,
    ensures
        in_wedge(x, y, a, b) || in_wedge(x, y, b, a),
{
}

/// Engagement depends only on the unsigned sweep: exchanging the start and
/// the current sample does not change it.
pub proof fn lemma_trigger_symmetric(ux: int, uy: int, vx: int, vy: int)
    ensures
        angle_exceeds_trigger(ux, uy, vx, vy) == angle_exceeds_trigger(vx, vy, ux, uy),
{
    let (ax, ay) = direction(ux, uy);
    let (bx, by) = direction(vx, vy);
    assert(ax * bx + ay * by == bx * ax + by * ay) by (nonlinear_arith);
    assert(ax * by - ay * bx == -(bx * ay - by * ax)) by (nonlinear_arith);
}

/// A finger that has not moved around the centre never engages.
pub proof fn lemma_no_sweep_without_motion(ux: int, uy: int)
    ensures
        !angle_exceeds_trigger(ux, uy, ux, uy),
{
    let (ax, ay) = direction(ux, uy);
    let d = ax * ax + ay * ay;
    assert(d > 0) by (nonlinear_arith)
        requires
            d == ax * ax + ay * ay,
            ax != 0 || ay != 0,
    ;
    assert(ax * ay - ay * ax == 0) by (nonlinear_arith);
    assert(3 * d * d < (0 - 2 * d) * (0 - 2 * d)) by (nonlinear_arith)
        requires
            d > 0,
    ;
}

/// A resting finger feeds the integrator nothing: a sample offered again
/// right after being recorded is jitter and leaves the dead band unchanged.
pub proof fn lemma_resting_sample_is_jitter(p: TouchSample)
    ensures
        offer_spec(Some(p), p) == (Movement::Jitter, Some(p)),
{
    assert(dist_sq(p.x, p.y, p) == 0) by (nonlinear_arith)
        requires
            dist_sq(p.x, p.y, p) == (p.x - p.x) * (p.x - p.x) + (p.y - p.y) * (p.y - p.y),
    ;
}


/// The angle comparisons are an order: an angle at least `(k + 1) pi / 8`
/// is at least `k pi / 8`, and one at most `k pi / 8` is at most
/// `(k + 1) pi / 8`.
pub proof fn lemma_angle_bounds_monotone(x: int, y: int, k: int)
    ensures
        angle_at_least(x, y, k + 1) ==> angle_at_least(x, y, k),
        angle_at_most(x, y, k) ==> angle_at_most(x, y, k + 1),
{
    let (vx, vy) = direction(x, y);
    if 0 <= k && k + 1 < 16 {
        if k < 8 && k + 1 < 8 {
            assert(upper_half(vx, vy) ==> (ray_cross_sign(k + 1, vx, vy) >= 0 ==> ray_cross_sign(
                k,
                vx,
                vy,
            ) >= 0));
            assert(upper_half(vx, vy) ==> (ray_cross_sign(k, vx, vy) <= 0 ==> ray_cross_sign(
                k + 1,
                vx,
                vy,
            ) <= 0));
        } else if k >= 8 {
            assert(!upper_half(vx, vy) ==> (ray_cross_sign(k + 1 - 8, vx, vy) <= 0
                ==> ray_cross_sign(k - 8, vx, vy) <= 0));
            assert(!upper_half(vx, vy) ==> (ray_cross_sign(k - 8, vx, vy) >= 0
                ==> ray_cross_sign(k + 1 - 8, vx, vy) >= 0));
        }
    }
}

/// Widening a wedge keeps every point inside it: for `a2 <= a <= b <= b2`,
/// a point in the wedge from `a` to `b` lies in the wedge from `a2` to `b2`.
pub proof fn lemma_wedge_widening(x: int, y: int, a: int, b: int, a2: int, b2: int)
    requires
        a2 <= a <= b <= b2,
    ensures
        in_wedge(x, y, a, b) ==> in_wedge(x, y, a2, b2),
    decreases (a - a2) + (b2 - b),
{
    if a2 < a {
        lemma_angle_bounds_monotone(x, y, a - 1);
        lemma_wedge_widening(x, y, a - 1, b, a2, b2);
    } else if b < b2 {
        lemma_angle_bounds_monotone(x, y, b);
        lemma_wedge_widening(x, y, a, b + 1, a2, b2);
    }
}


proof fn lemma_square_order(a: int, b: int)
    requires
        a >= 0,
        b >= 0,
    ensures
        (a * a >= b * b) == (a >= b),
{
    if a >= b {
        assert(a * a >= b * b) by (nonlinear_arith)
            requires
                a >= b >= 0,
        ;
    } else {
        assert(a * a < b * b) by (nonlinear_arith)
            requires
                0 <= a < b,
        ;
    }
}

/// A touch `r >= 0` units from the centre along the x axis passes the
/// radial gate exactly when `r >= 20 * (10 - w)` for detect-area width `w`
/// in `0..=10`: each unit of width shrinks the dead zone by exactly 20
/// units, from 200 at width 0 to nothing at width 10.
pub proof fn lemma_radial_gate_threshold(center_x: i32, center_y: i32, r: int, w: int)
    requires
        0 <= w <= 10,
        r >= 0,
        center_x + r <= i32::MAX,
    ensures
        (dist_sq(center_x, center_y, TouchSample { x: (center_x + r) as i32, y: center_y })
            >= dead_zone_radius_sq(w)) == (r >= 20 * (10 - w)),
{
    let s = TouchSample { x: (center_x + r) as i32, y: center_y };
    assert(dist_sq(center_x, center_y, s) == r * r) by (nonlinear_arith)
        requires
            s.x == center_x + r,
            s.y == center_y,
            dist_sq(center_x, center_y, s) == (s.x - center_x) * (s.x - center_x) + (s.y
                - center_y) * (s.y - center_y),
    ;
    lemma_square_order(r, 20 * (10 - w));
}

/// Widening the detect area by one unit admits exactly the touches that
/// are 20 units further in: for widths `w` in `0..10`, a touch `r` units
/// out along the x axis passes at width `w + 1` exactly when one `r + 20`
/// units out passes at width `w`.
pub proof fn lemma_radial_gate_step(center_x: i32, center_y: i32, r: int, w: int)
    requires
        0 <= w < 10,
        r >= 0,
        center_x + r + 20 <= i32::MAX,
    ensures
        (dist_sq(center_x, center_y, TouchSample { x: (center_x + r) as i32, y: center_y })
            >= dead_zone_radius_sq(w + 1)) == (dist_sq(
            center_x,
            center_y,
            TouchSample { x: (center_x + r + 20) as i32, y: center_y },
        ) >= dead_zone_radius_sq(w)),
{
    lemma_radial_gate_threshold(center_x, center_y, r, w + 1);
    lemma_radial_gate_threshold(center_x, center_y, r + 20, w);
}

/// Engagement depends only on the relative direction of the two offsets:
/// turning both non-zero offsets by the same quarter turn
/// `(x, y) -> (-y, x)` does not change it.
pub proof fn lemma_trigger_rotation_invariant(ux: int, uy: int, vx: int, vy: int)
    requires
        ux != 0 || uy != 0,
        vx != 0 || vy != 0,
    ensures
        angle_exceeds_trigger(ux, uy, vx, vy) == angle_exceeds_trigger(-uy, ux, -vy, vx),
{
    assert((-uy) * (-vy) + ux * vx == ux * vx + uy * vy) by (nonlinear_arith);
    assert((-uy) * vx - ux * (-vy) == ux * vy - uy * vx) by (nonlinear_arith);
}

/// Small sweeps never engage and large ones always do, whatever the
/// position on the rim: with `d` the dot and `c` the absolute cross product
/// of two non-zero offsets, a sweep with `4 c <= d` (under 14.1 degrees)
/// does not exceed pi/12, and one with `7 c >= 2 d` (over 15.9 degrees, or
/// any sweep of a right angle or more) does.
pub proof fn lemma_trigger_bounds(ux: int, uy: int, vx: int, vy: int)
    requires
        ux != 0 || uy != 0,
        vx != 0 || vy != 0,
    ensures
        ({
            let d = ux * vx + uy * vy;
            let cr = ux * vy - uy * vx;
            let c = if cr >= 0 {
                cr
            } else {
                -cr
            };
            &&& d > 0 && 4 * c <= d ==> !angle_exceeds_trigger(ux, uy, vx, vy)
            &&& (d <= 0 || 7 * c >= 2 * d) ==> angle_exceeds_trigger(ux, uy, vx, vy)
        }),
{
    let d = ux * vx + uy * vy;
    let cr = ux * vy - uy * vx;
    let c = if cr >= 0 {
        cr
    } else {
        -cr
    };
    if d > 0 && 4 * c <= d {
        assert(3 * d * d < (c - 2 * d) * (c - 2 * d)) by (nonlinear_arith)
            requires
                d > 0,
                0 <= c,
                4 * c <= d,
        ;
    }
    if d > 0 && 7 * c >= 2 * d && c < 2 * d {
        assert(3 * d * d > (c - 2 * d) * (c - 2 * d)) by (nonlinear_arith)
            requires
                d > 0,
                7 * c >= 2 * d,
                c < 2 * d,
        ;
    }
}

/// `sqrt 2` is irrational: `p^2 = 2 q^2` only for `p = q = 0`.
pub proof fn lemma_sqrt2_irrational(p: int, q: int)
    requires
        p * p == 2 * q * q,
    ensures
        p == 0 && q == 0,
    decreases if q >= 0 {
        q
    } else {
        -q
    },
{
    if q == 0 {
        assert(p == 0) by (nonlinear_arith)
            requires
                p * p == 0,
        ;
    } else {
        let r = p / 2;
        if p % 2 != 0 {
            assert(p == 2 * r + 1);
            assert(p * p == 4 * (r * r + r) + 1) by (nonlinear_arith)
                requires
                    p == 2 * r + 1,
            ;
            let k: int = r * r + r;
            let m: int = q * q;
            assert(2 * q * q == 2 * m) by (nonlinear_arith)
                requires
                    m == q * q,
            ;
            assert(4 * k + 1 == 2 * m);
            assert(false);
        }
        assert(p == 2 * r);
        assert(q * q == 2 * r * r) by (nonlinear_arith)
            requires
                p == 2 * r,
                p * p == 2 * q * q,
        ;
        let aq = if q >= 0 {
            q
        } else {
            -q
        };
        let ar = if r >= 0 {
            r
        } else {
            -r
        };
        assert(aq * aq == q * q && ar * ar == r * r) by (nonlinear_arith)
            requires
                aq == q || aq == -q,
                ar == r || ar == -r,
        ;
        assert(2 * r * r == 2 * (r * r)) by (nonlinear_arith);
        assert(aq * aq == 2 * (ar * ar));
        assert(aq > 0);
        assert(ar < aq) by (nonlinear_arith)
            requires
                aq * aq == 2 * (ar * ar),
                aq > 0,
                ar >= 0,
        ;
        lemma_sqrt2_irrational(q, r);
    }
}

/// The sign of `p + q sqrt 2` turns over with the number.
pub proof fn lemma_surd2_sign_negate(p: int, q: int)
    ensures
        surd2_sign(-p, -q) == -surd2_sign(p, q),
{
    if p * p == 2 * q * q {
        lemma_sqrt2_irrational(p, q);
    }
    assert((-p) * (-p) == p * p && (-q) * (-q) == q * q) by (nonlinear_arith);
    assert(2 * (-q) * (-q) == 2 * q * q) by (nonlinear_arith);
}

proof fn lemma_ray_cross_negate(j: int, x: int, y: int)
    requires
        0 <= j < 8,
    ensures
        ray_cross_sign(j, -x, -y) == -ray_cross_sign(j, x, y),
{
    if j == 0 {
        lemma_surd2_sign_negate(y, 0);
    } else if j == 1 {
        lemma_surd2_sign_negate(y - x, y);
    } else if j == 2 {
        lemma_surd2_sign_negate(y - x, 0);
    } else if j == 3 {
        lemma_surd2_sign_negate(y - x, -x);
    } else if j == 4 {
        lemma_surd2_sign_negate(-x, 0);
    } else if j == 5 {
        lemma_surd2_sign_negate(-y - x, -x);
    } else if j == 6 {
        lemma_surd2_sign_negate(-y - x, 0);
    } else {
        lemma_surd2_sign_negate(-y - x, -y);
    }
}

/// The wedge test commutes with a half turn: a non-zero offset lies in the
/// wedge from `a pi / 8` to `b pi / 8` (`0 <= a <= b <= 7`) exactly when the
/// opposite offset lies in the wedge from `(a + 8) pi / 8` to
/// `(b + 8) pi / 8`.
pub proof fn lemma_wedge_half_turn(x: int, y: int, a: int, b: int)
    requires
        x != 0 || y != 0,
        0 <= a <= b <= 7,
    ensures
        in_wedge(x, y, a, b) == in_wedge(-x, -y, a + 8, b + 8),
{
    lemma_ray_cross_negate(a, x, y);
    lemma_ray_cross_negate(b, x, y);
}

} // verus!
