//! Multi-touch event decoding: turns the raw evdev event stream of the
//! physical pad into one [`TouchFrame`] per SYN_REPORT. Opening the device
//! and reading its events is the daemon's job; this module holds what is
//! computed from them.
use vstd::prelude::*;

use crate::detector::TouchSample;
use crate::error::DeviceError;
use crate::fsm::TouchFrame;
use crate::pattern::{regex_compiles, regex_is_match, NamePattern};

verus! {

/// Number of multi-touch slots tracked (pads advertise about five).
pub const MAX_MT_SLOTS: usize = 16;

/// Linux event types and codes (input-event-codes.h) read by the decoder.
pub const EV_SYN: u16 = 0x00;
pub const EV_KEY: u16 = 0x01;
pub const EV_ABS: u16 = 0x03;
pub const SYN_REPORT: u16 = 0x00;
pub const BTN_TOUCH: u16 = 0x14a;
pub const ABS_MT_SLOT: u16 = 0x2f;
pub const ABS_MT_POSITION_X: u16 = 0x35;
pub const ABS_MT_POSITION_Y: u16 = 0x36;
pub const ABS_MT_TRACKING_ID: u16 = 0x39;

/// One input event as the decoder reads it.
#[derive(Clone, Copy, Debug, PartialEq, Eq, Structural)]
pub struct RawEvent {
    pub event_type: u16,
    pub code: u16,
    pub value: i32,
}

/// Per-slot tracking id (`-1` = inactive, the kernel convention) and the
/// last-seen position.
#[derive(Clone, Copy, Debug, PartialEq, Eq, Structural)]
pub struct SlotState {
    pub tracking_id: i32,
    pub x: i32,
    pub y: i32,
}

/// Multi-touch slot state decoded so far.
pub struct MtDecoder {
    /// Per-slot tracking ids and last-seen positions.
    slots: [SlotState; MAX_MT_SLOTS],
    /// Slot selected by the last ABS_MT_SLOT event.
    current_slot: usize,
    /// BTN_TOUCH: the kernel's any-finger-down summary.
    contact: bool,
}

/// The physical pad: an open device handle `D`, its axis ranges and centre,
/// the multi-touch decoder, and the events of `E` received since the last
/// SYN_REPORT (they open the next frame).
pub struct InputDevice<D, E> {
    pub device: D,
    pub abs_x_min: i32,
    pub abs_x_max: i32,
    pub abs_y_min: i32,
    pub abs_y_max: i32,
    pub center_x: i32,
    pub center_y: i32,
    pub decoder: MtDecoder,
    pub pending: Vec<E>,
}

/// One SYN_REPORT-bounded batch: the frame assembled from it and all of its
/// events, in order, the closing SYN_REPORT included.
pub struct PhysicalFrame<E> {
    pub frame: TouchFrame,
    pub events: Vec<E>,
}

/// The decoder's state: slots, the slot being written, and BTN_TOUCH.
pub struct TrackerView {
    pub slots: Seq<SlotState>,
    pub current_slot: int,
    pub contact: bool,
}

/// `v / 2` rounded toward zero, as Rust's integer division does.
pub open spec fn half_toward_zero(v: int) -> int {
    if v >= 0 {
        v / 2
    } else {
        -((-v) / 2)
    }
}

/// The state after one event: ABS_MT_SLOT selects a slot (values outside
/// `0..16` are ignored), ABS_MT_TRACKING_ID / POSITION_X / POSITION_Y write
/// the selected slot, BTN_TOUCH sets the contact flag; everything else
/// (single-touch ABS_X / ABS_Y included) is ignored.
pub open spec fn apply_event(t: TrackerView, ev: RawEvent) -> TrackerView {
    let cur = t.current_slot;
    let in_slot = 0 <= cur < MAX_MT_SLOTS;
    if ev.event_type == EV_ABS {
        if ev.code == ABS_MT_SLOT {
            if 0 <= ev.value < MAX_MT_SLOTS {
                TrackerView { current_slot: ev.value as int, ..t }
            } else {
                t
            }
        } else if ev.code == ABS_MT_TRACKING_ID && in_slot {
            TrackerView {
                slots: t.slots.update(cur, SlotState { tracking_id: ev.value, ..t.slots[cur] }),
                ..t
            }
        } else if ev.code == ABS_MT_POSITION_X && in_slot {
            TrackerView { slots: t.slots.update(cur, SlotState { x: ev.value, ..t.slots[cur] }), ..t }
        } else if ev.code == ABS_MT_POSITION_Y && in_slot {
            TrackerView { slots: t.slots.update(cur, SlotState { y: ev.value, ..t.slots[cur] }), ..t }
        } else {
            t
        }
    } else if ev.event_type == EV_KEY && ev.code == BTN_TOUCH {
        TrackerView { contact: ev.value != 0, ..t }
    } else {
        t
    }
}

/// `i` is the lowest-numbered active slot.
pub open spec fn is_lowest_active(slots: Seq<SlotState>, i: int) -> bool {
    &&& 0 <= i < slots.len()
    &&& slots[i].tracking_id != -1
    &&& forall|j: int| 0 <= j < i ==> slots[j].tracking_id == -1
}

/// The frame for a decoder state: the lowest-numbered active slot's
/// position while a finger is down; no position when no slot is active
/// (a protocol race) or when no finger is down.
pub open spec fn frame_of(t: TrackerView) -> TouchFrame {
    if !t.contact {
        TouchFrame { contact: false, pos: None }
    } else if exists|i: int| is_lowest_active(t.slots, i) {
        let i = choose|i: int| is_lowest_active(t.slots, i);
        TouchFrame { contact: true, pos: Some(TouchSample { x: t.slots[i].x, y: t.slots[i].y }) }
    } else {
        TouchFrame { contact: true, pos: None }
    }
}

/// The event closes a report.
pub open spec fn is_syn_report(ev: RawEvent) -> bool {
    ev.event_type == EV_SYN && ev.code == SYN_REPORT
}

/// Decoding the first `n` events of `evs` (each paired with the value to
/// forward for it) from decoder state `t` with the open batch `open`: the
/// decoder state after them, the frames closed so far (each with the
/// forwarded values of its events, the closing SYN_REPORT included), and the
/// values of the events after the last SYN_REPORT, which open the next frame.
pub open spec fn poll_fold<E>(t: TrackerView, open: Seq<E>, evs: Seq<(RawEvent, E)>, n: nat) -> (
    TrackerView,
    Seq<(TouchFrame, Seq<E>)>,
    Seq<E>,
)
    decreases n,
{
    if n == 0 {
        (t, Seq::empty(), open)
    } else {
        let (t1, frames, batch) = poll_fold(t, open, evs, (n - 1) as nat);
        let ev = evs[n - 1].0;
        let t2 = apply_event(t1, ev);
        let batch2 = batch.push(evs[n - 1].1);
        if is_syn_report(ev) {
            (t2, frames.push((frame_of(t2), batch2)), Seq::empty())
        } else {
            (t2, frames, batch2)
        }
    }
}

/// There is at most one lowest active slot.
pub proof fn lemma_lowest_active_unique(slots: Seq<SlotState>, i: int)
    requires
        is_lowest_active(slots, i),
    ensures
        forall|k: int| #[trigger] is_lowest_active(slots, k) ==> k == i,
{
    assert forall|k: int| #[trigger] is_lowest_active(slots, k) implies k == i by {
        if k < i {
            assert(slots[k].tracking_id == -1);
        } else if k > i {
            assert(slots[i].tracking_id == -1);
        }
    }
}

impl View for MtDecoder {
    type V = TrackerView;

    closed spec fn view(&self) -> TrackerView {
        TrackerView {
            slots: self.slots@,
            current_slot: self.current_slot as int,
            contact: self.contact,
        }
    }
}

impl MtDecoder {
    /// Every slot inactive, slot 0 selected, no finger down.
    pub fn new() -> (r: Self)
        ensures
            r@.slots.len() == MAX_MT_SLOTS,
            forall|i: int|
                0 <= i < MAX_MT_SLOTS ==> #[trigger] r@.slots[i] == (SlotState {
                    tracking_id: -1i32,
                    x: 0i32,
                    y: 0i32,
                }),
            r@.current_slot == 0,
            !r@.contact,
    {
        let inactive = SlotState { tracking_id: -1, x: 0, y: 0 };
        MtDecoder { slots: [inactive; MAX_MT_SLOTS], current_slot: 0, contact: false }
    }

    /// Apply one EV_ABS event (see [`apply_event`]).
    fn apply_abs(&mut self, code: u16, value: i32)
        ensures
            final(self)@ == apply_event(old(self)@, RawEvent { event_type: EV_ABS, code, value }),
    {
        let slot = self.current_slot;
        if code == ABS_MT_SLOT {
            if 0 <= value && value < 16 {
                self.current_slot = value as usize;
            }
        } else if code == ABS_MT_TRACKING_ID {
            if slot < MAX_MT_SLOTS {
                let mut st = self.slots[slot];
                st.tracking_id = value;
                self.slots[slot] = st;
            }
        } else if code == ABS_MT_POSITION_X {
            if slot < MAX_MT_SLOTS {
                let mut st = self.slots[slot];
                st.x = value;
                self.slots[slot] = st;
            }
        } else if code == ABS_MT_POSITION_Y {
            if slot < MAX_MT_SLOTS {
                let mut st = self.slots[slot];
                st.y = value;
                self.slots[slot] = st;
            }
        }
        // Single-touch ABS_X / ABS_Y are ignored: the MT axes are
        // authoritative.
    }

    /// Apply one event of any type (see [`apply_event`]).
    pub fn apply(&mut self, ev: RawEvent)
        ensures
            final(self)@ == apply_event(old(self)@, ev),
    {
        if ev.event_type == EV_ABS {
            self.apply_abs(ev.code, ev.value);
        } else if ev.event_type == EV_KEY && ev.code == BTN_TOUCH {
            self.contact = ev.value != 0;
        }
    }

    /// The frame for the current state: the lowest-numbered active slot
    /// wins.
    pub fn assemble_frame(&self) -> (r: TouchFrame)
        ensures
            r == frame_of(self@),
    {
        if !self.contact {
            return TouchFrame { contact: false, pos: None };
        }
        let mut i: usize = 0;
        while i < MAX_MT_SLOTS
            invariant
                0 <= i <= MAX_MT_SLOTS,
                self.contact,
                self@.slots.len() == MAX_MT_SLOTS,
                forall|j: int| 0 <= j < i ==> self@.slots[j].tracking_id == -1,
            decreases MAX_MT_SLOTS - i,
        {
            let st = self.slots[i];
            if st.tracking_id != -1 {
                assert(is_lowest_active(self@.slots, i as int));
                proof {
                    lemma_lowest_active_unique(self@.slots, i as int);
                    let k = choose|k: int| is_lowest_active(self@.slots, k);
                    assert(k == i);
                }
                assert(st == self@.slots[i as int]);
                return TouchFrame { contact: true, pos: Some(TouchSample { x: st.x, y: st.y }) };
            }
            i = i + 1;
        }
        assert forall|k: int| !is_lowest_active(self@.slots, k) by {
            if 0 <= k < self@.slots.len() {
                assert(self@.slots[k].tracking_id == -1);
            }
        }
        TouchFrame { contact: true, pos: None }
    }
}

impl<D, E: Copy> InputDevice<D, E> {
    /// A freshly opened pad with axis ranges `x_min..=x_max` and
    /// `y_min..=y_max`: centre halfway between the extremes (rounded toward
    /// zero), a fresh decoder and no pending events.
    pub fn new(device: D, abs_x_min: i32, abs_x_max: i32, abs_y_min: i32, abs_y_max: i32) -> (r:
        Self)
        requires
            i32::MIN <= abs_x_min + abs_x_max <= i32::MAX,
            i32::MIN <= abs_y_min + abs_y_max <= i32::MAX,
        ensures
            r.device == device,
            r.abs_x_min == abs_x_min,
            r.abs_x_max == abs_x_max,
            r.abs_y_min == abs_y_min,
            r.abs_y_max == abs_y_max,
            r.center_x == half_toward_zero(abs_x_min + abs_x_max),
            r.center_y == half_toward_zero(abs_y_min + abs_y_max),
            r.decoder@.slots.len() == MAX_MT_SLOTS,
            forall|i: int|
                0 <= i < MAX_MT_SLOTS ==> #[trigger] r.decoder@.slots[i] == (SlotState {
                    tracking_id: -1i32,
                    x: 0i32,
                    y: 0i32,
                }),
            r.decoder@.current_slot == 0,
            !r.decoder@.contact,
            r.pending@ == Seq::<E>::empty(),
    {
        let center_x = (abs_x_min + abs_x_max) / 2;
        let center_y = (abs_y_min + abs_y_max) / 2;
        InputDevice {
            device,
            abs_x_min,
            abs_x_max,
            abs_y_min,
            abs_y_max,
            center_x,
            center_y,
            decoder: MtDecoder::new(),
            pending: Vec::new(),
        }
    }

    /// Decode a batch of fetched events, each paired with the value to
    /// forward for it. Returns every complete SYN_REPORT-bounded frame, in
    /// order, with its events. Events after the last SYN_REPORT are kept
    /// in `pending` and open the next call's first frame.
    pub fn poll_frames(&mut self, events: &Vec<(RawEvent, E)>) -> (r: Vec<PhysicalFrame<E>>)
        ensures
            final(self).device == old(self).device,
            final(self).abs_x_min == old(self).abs_x_min,
            final(self).abs_x_max == old(self).abs_x_max,
            final(self).abs_y_min == old(self).abs_y_min,
            final(self).abs_y_max == old(self).abs_y_max,
            final(self).center_x == old(self).center_x,
            final(self).center_y == old(self).center_y,
            ({
                let (t, frames, open) = poll_fold(
                    old(self).decoder@,
                    old(self).pending@,
                    events@,
                    events@.len(),
                );
                &&& final(self).decoder@ == t
                &&& final(self).pending@ == open
                &&& r@.len() == frames.len()
                &&& forall|j: int|
                    0 <= j < frames.len() ==> {
                        &&& (#[trigger] r@[j]).frame == frames[j].0
                        &&& r@[j].events@ == frames[j].1
                    }
            }),
    {
        let ghost d0 = self.decoder@;
        let ghost o0 = self.pending@;
        let mut frames: Vec<PhysicalFrame<E>> = Vec::new();
        let mut i: usize = 0;
        while i < events.len()
            invariant
                0 <= i <= events@.len(),
                self.device == old(self).device,
                self.abs_x_min == old(self).abs_x_min,
                self.abs_x_max == old(self).abs_x_max,
                self.abs_y_min == old(self).abs_y_min,
                self.abs_y_max == old(self).abs_y_max,
                self.center_x == old(self).center_x,
                self.center_y == old(self).center_y,
                d0 == old(self).decoder@,
                o0 == old(self).pending@,
                ({
                    let (t, fr, open) = poll_fold(d0, o0, events@, i as nat);
                    &&& self.decoder@ == t
                    &&& self.pending@ == open
                    &&& frames@.len() == fr.len()
                    &&& forall|j: int|
                        0 <= j < fr.len() ==> {
                            &&& (#[trigger] frames@[j]).frame == fr[j].0
                            &&& frames@[j].events@ == fr[j].1
                        }
                }),
            decreases events@.len() - i,
        {
            let (ev, carry) = events[i];
            self.pending.push(carry);
            self.decoder.apply(ev);
            if ev.event_type == EV_SYN && ev.code == SYN_REPORT {
                let frame = self.decoder.assemble_frame();
                let mut closed: Vec<E> = Vec::new();
                std::mem::swap(&mut closed, &mut self.pending);
                frames.push(PhysicalFrame { frame, events: closed });
            }
            i = i + 1;
        }
        frames
    }
}

/// Check the capabilities the scroller needs, in order: ABS_MT_POSITION_X,
/// ABS_MT_POSITION_Y, BTN_TOUCH. The first one missing is reported.
pub fn check_capabilities(has_x: bool, has_y: bool, has_touch: bool) -> (r: Result<(), DeviceError>)
    ensures
        r is Ok <==> (has_x && has_y && has_touch),
        r matches Err(e) ==> e is EvdevMissingCap,
        r matches Err(DeviceError::EvdevMissingCap { capability }) ==> capability@ == (if !has_x {
            "ABS_MT_POSITION_X"@
        } else if !has_y {
            "ABS_MT_POSITION_Y"@
        } else {
            "BTN_TOUCH"@
        }),
{
    if !has_x {
        return Err(DeviceError::EvdevMissingCap { capability: "ABS_MT_POSITION_X" });
    }
    if !has_y {
        return Err(DeviceError::EvdevMissingCap { capability: "ABS_MT_POSITION_Y" });
    }
    if !has_touch {
        return Err(DeviceError::EvdevMissingCap { capability: "BTN_TOUCH" });
    }
    Ok(())
}

/// Compile the device-name pattern `regex_str`; an invalid pattern is
/// reported as `RegexInvalid`.
pub fn compile_name_pattern(regex_str: &str) -> (r: Result<NamePattern, DeviceError>)
    ensures
        r is Ok <==> regex_compiles(regex_str@),
        r matches Ok(p) ==> p@ == regex_str@,
        r matches Err(e) ==> (e matches DeviceError::RegexInvalid { pattern, .. } && pattern@
            == regex_str@),
{
    match NamePattern::compile(regex_str) {
        Ok(p) => Ok(p),
        Err(source) => Err(DeviceError::RegexInvalid { pattern: regex_str.to_owned(), source }),
    }
}

/// A device whose name is `name` matches `pattern`; nameless devices never
/// match.
pub open spec fn name_matches(pattern: Seq<char>, name: Option<String>) -> bool {
    name matches Some(n) && regex_is_match(pattern, n@)
}

/// Find the first device, in enumeration order, whose name matches the
/// regex `regex_str`; `names` holds each enumerated device's name.
pub fn find_by_name(regex_str: &str, names: &Vec<Option<String>>) -> (r: Result<usize, DeviceError>)
    ensures
        (r matches Err(DeviceError::RegexInvalid { .. })) <==> !regex_compiles(regex_str@),
        r matches Err(DeviceError::RegexInvalid { pattern, .. }) ==> pattern@ == regex_str@,
        r matches Err(e) ==> !(e is EvdevMissingCap),
        r matches Ok(i) ==> {
            &&& i < names@.len()
            &&& name_matches(regex_str@, names@[i as int])
            &&& forall|j: int| 0 <= j < i ==> !name_matches(regex_str@, #[trigger] names@[j])
        },
        r matches Err(DeviceError::DeviceNotFound { regex }) ==> {
            &&& regex@ == regex_str@
            &&& forall|j: int|
                0 <= j < names@.len() ==> !name_matches(regex_str@, #[trigger] names@[j])
        },
{
    let re = match compile_name_pattern(regex_str) {
        Ok(re) => re,
        Err(e) => {
            return Err(e);
        },
    };
    let mut i: usize = 0;
    while i < names.len()
        invariant
            0 <= i <= names@.len(),
            re@ == regex_str@,
            regex_compiles(regex_str@),
            forall|j: int| 0 <= j < i ==> !name_matches(regex_str@, #[trigger] names@[j]),
        decreases names@.len() - i,
    {
        let matched = match &names[i] {
            Some(name) => re.matches_name(Some(name.as_str())),
            None => false,
        };
        if matched {
            return Ok(i);
        }
        i = i + 1;
    }
    Err(DeviceError::DeviceNotFound { regex: regex_str.to_owned() })
}


proof fn lemma_poll_prefix_only<E>(
    t: TrackerView,
    open: Seq<E>,
    a: Seq<(RawEvent, E)>,
    b: Seq<(RawEvent, E)>,
    n: nat,
)
    requires
        n <= a.len(),
    ensures
        poll_fold(t, open, a + b, n) == poll_fold(t, open, a, n),
    decreases n,
{
    if n > 0 {
        lemma_poll_prefix_only(t, open, a, b, (n - 1) as nat);
        assert((a + b)[n - 1] == a[n - 1]);
    }
}

proof fn lemma_poll_suffix<E>(
    t: TrackerView,
    open: Seq<E>,
    a: Seq<(RawEvent, E)>,
    b: Seq<(RawEvent, E)>,
    n: nat,
)
    requires
        n <= b.len(),
    ensures
        ({
            let (ta, fa, pa) = poll_fold(t, open, a, a.len());
            let (tb, fb, pb) = poll_fold(ta, pa, b, n);
            poll_fold(t, open, a + b, a.len() + n) == (tb, fa + fb, pb)
        }),
    decreases n,
{
    let (ta, fa, pa) = poll_fold(t, open, a, a.len());
    if n == 0 {
        lemma_poll_prefix_only(t, open, a, b, a.len());
        assert(fa + Seq::<(TouchFrame, Seq<E>)>::empty() =~= fa);
    } else {
        lemma_poll_suffix(t, open, a, b, (n - 1) as nat);
        assert((a + b)[a.len() + n - 1] == b[n - 1]);
        let (tb1, fb1, pb1) = poll_fold(ta, pa, b, (n - 1) as nat);
        let ev = b[n - 1].0;
        let t2 = apply_event(tb1, ev);
        let item = (frame_of(t2), pb1.push(b[n - 1].1));
        assert(fa + fb1.push(item) =~= (fa + fb1).push(item));
    }
}

/// Decoding is incremental: a stream fetched in two batches, split
/// anywhere, yields the same decoder state, the same frames (each with the
/// same events) and the same open batch as the stream fetched at once;
/// events after the first batch's last SYN_REPORT open the second batch's
/// first frame.
pub proof fn lemma_poll_split<E>(t: TrackerView, open: Seq<E>, a: Seq<(RawEvent, E)>, b: Seq<(RawEvent, E)>)
    ensures
        ({
            let (ta, fa, pa) = poll_fold(t, open, a, a.len());
            let (tb, fb, pb) = poll_fold(ta, pa, b, b.len());
            poll_fold(t, open, a + b, (a + b).len()) == (tb, fa + fb, pb)
        }),
{
    lemma_poll_suffix(t, open, a, b, b.len());
}

/// Events after the last SYN_REPORT belong to no frame of this call; they
/// stay pending and lead the first frame of the next call.
pub proof fn lemma_trailing_events_open_next_frame<E>(
    t: TrackerView,
    open: Seq<E>,
    a: Seq<(RawEvent, E)>,
    k: nat,
)
    requires
        k <= a.len(),
        forall|i: int| k <= i < a.len() ==> !is_syn_report(#[trigger] a[i].0),
    ensures
        poll_fold(t, open, a, a.len()).1 == poll_fold(t, open, a, k).1,
        poll_fold(t, open, a, a.len()).2 == poll_fold(t, open, a, k).2 + a.subrange(
            k as int,
            a.len() as int,
        ).map_values(|p: (RawEvent, E)| p.1),
{
    lemma_trailing_from(t, open, a, k, a.len());
}

proof fn lemma_trailing_from<E>(t: TrackerView, open: Seq<E>, a: Seq<(RawEvent, E)>, k: nat, n: nat)
    requires
        k <= n <= a.len(),
        forall|i: int| k <= i < a.len() ==> !is_syn_report(#[trigger] a[i].0),
    ensures
        poll_fold(t, open, a, n).1 == poll_fold(t, open, a, k).1,
        poll_fold(t, open, a, n).2 == poll_fold(t, open, a, k).2 + a.subrange(
            k as int,
            n as int,
        ).map_values(|p: (RawEvent, E)| p.1),
    decreases n,
{
    if n == k {
        assert(poll_fold(t, open, a, k).2 + a.subrange(k as int, k as int).map_values(
            |p: (RawEvent, E)| p.1,
        ) =~= poll_fold(t, open, a, k).2);
    } else {
        lemma_trailing_from(t, open, a, k, (n - 1) as nat);
        assert(!is_syn_report(a[n - 1].0));
        assert(a.subrange(k as int, n as int).map_values(|p: (RawEvent, E)| p.1) =~= a.subrange(
            k as int,
            n - 1,
        ).map_values(|p: (RawEvent, E)| p.1).push(a[n - 1].1));
        assert(poll_fold(t, open, a, k).2 + a.subrange(k as int, n - 1).map_values(
            |p: (RawEvent, E)| p.1,
        ).push(a[n - 1].1) =~= (poll_fold(t, open, a, k).2 + a.subrange(k as int, n - 1).map_values(
            |p: (RawEvent, E)| p.1,
        )).push(a[n - 1].1));
    }
}

/// An EV_ABS event with `code` and `value`.
pub open spec fn abs_event(code: u16, value: i32) -> RawEvent {
    RawEvent { event_type: EV_ABS, code, value }
}

/// ABS_MT_SLOT selects slot `value` when it is in `0..16` and changes
/// nothing else; any other value is ignored. The selected slot stays in
/// range either way.
pub proof fn lemma_slot_selection(t: TrackerView, value: i32)
    requires
        0 <= t.current_slot < MAX_MT_SLOTS,
    ensures
        apply_event(t, abs_event(ABS_MT_SLOT, value)) == if 0 <= value < MAX_MT_SLOTS {
            TrackerView { current_slot: value as int, ..t }
        } else {
            t
        },
        0 <= apply_event(t, abs_event(ABS_MT_SLOT, value)).current_slot < MAX_MT_SLOTS,
{
}

/// Any other EV_ABS event writes at most one field of the selected slot:
/// ABS_MT_TRACKING_ID the tracking id, ABS_MT_POSITION_X / _Y the position;
/// every other code (single-touch ABS_X / ABS_Y included) changes nothing.
/// Other slots, the selection and the contact flag never change.
pub proof fn lemma_slot_write(t: TrackerView, code: u16, value: i32)
    requires
        0 <= t.current_slot < MAX_MT_SLOTS,
        t.slots.len() == MAX_MT_SLOTS,
        code != ABS_MT_SLOT,
    ensures
        ({
            let t2 = apply_event(t, abs_event(code, value));
            let cur = t.current_slot;
            &&& t2.current_slot == cur
            &&& t2.contact == t.contact
            &&& t2.slots.len() == MAX_MT_SLOTS
            &&& forall|j: int| 0 <= j < MAX_MT_SLOTS && j != cur ==> #[trigger] t2.slots[j] == t.slots[j]
            &&& code == ABS_MT_TRACKING_ID ==> t2.slots[cur] == (SlotState {
                tracking_id: value,
                ..t.slots[cur]
            })
            &&& code == ABS_MT_POSITION_X ==> t2.slots[cur] == (SlotState { x: value, ..t.slots[cur] })
            &&& code == ABS_MT_POSITION_Y ==> t2.slots[cur] == (SlotState { y: value, ..t.slots[cur] })
            &&& (code != ABS_MT_TRACKING_ID && code != ABS_MT_POSITION_X && code != ABS_MT_POSITION_Y)
                ==> t2 == t
        }),
{
}

/// Every event keeps the slot count and keeps the selected slot in range.
pub proof fn lemma_apply_keeps_slot_in_range(t: TrackerView, ev: RawEvent)
    requires
        0 <= t.current_slot < MAX_MT_SLOTS,
        t.slots.len() == MAX_MT_SLOTS,
    ensures
        0 <= apply_event(t, ev).current_slot < MAX_MT_SLOTS,
        apply_event(t, ev).slots.len() == MAX_MT_SLOTS,
{
}

/// Without a finger down a frame carries no position; with one down it
/// carries the position of the lowest-numbered active slot, if any.
pub proof fn lemma_frame_follows_lowest_slot(t: TrackerView, i: int)
    ensures
        !t.contact ==> frame_of(t).pos is None,
        t.contact && is_lowest_active(t.slots, i) ==> frame_of(t) == (TouchFrame {
            contact: true,
            pos: Some(TouchSample { x: t.slots[i].x, y: t.slots[i].y }),
        }),
{
    if t.contact && is_lowest_active(t.slots, i) {
        lemma_lowest_active_unique(t.slots, i);
    }
}


/// Only multi-touch EV_ABS events and BTN_TOUCH change the decoder: every
/// other event (other keys such as BTN_TOOL_FINGER or BTN_TOOL_DOUBLETAP,
/// SYN events, anything else) leaves it, and hence every frame's contact
/// and position, unchanged. BTN_TOUCH sets the contact flag to "value is
/// non-zero" and touches nothing else.
pub proof fn lemma_only_touch_key_and_abs_change_state(t: TrackerView, ev: RawEvent)
    ensures
        ev.event_type != EV_ABS && !(ev.event_type == EV_KEY && ev.code == BTN_TOUCH) ==> apply_event(
            t,
            ev,
        ) == t,
        ev.event_type == EV_KEY && ev.code == BTN_TOUCH ==> {
            &&& apply_event(t, ev).contact == (ev.value != 0)
            &&& apply_event(t, ev).slots == t.slots
            &&& apply_event(t, ev).current_slot == t.current_slot
        },
        ev.event_type == EV_ABS ==> apply_event(t, ev).contact == t.contact,
{
}

} // verus!
