use vstd::prelude::*;

verus! {

/// The `[scroll]` section of the configuration file.
#[derive(Clone, Copy, Debug)]
pub struct Scroll {
    /// Master switch: when off the daemon keeps running but never scrolls.
    pub enable: bool,
    /// Flip the vertical wheel direction ("natural" scrolling).
    pub reverse_vertical: bool,
    /// Enable the horizontal-scroll wedge on the pad rim.
    pub horizontal_enable: bool,
    /// Flip the horizontal wheel direction.
    pub reverse_horizontal: bool,
    /// Sensitivity step, meaningful in -2..=2 (clamped by the detector).
    pub sensitivity: i32,
    /// Width of the active ring, meaningful in 0..=10 (0 = outer rim only,
    /// 10 = the whole pad).
    pub detect_area_width: i32,
    /// Start of the horizontal wedge, in units of pi/8.
    pub horizontal_start: i32,
    /// End of the horizontal wedge, in units of pi/8.
    pub horizontal_end: i32,
}

impl Default for Scroll {
    /// The out-of-the-box settings.
    fn default() -> (s: Self)
        ensures
            s.enable,
            !s.reverse_vertical,
            !s.horizontal_enable,
            !s.reverse_horizontal,
            s.sensitivity == 0,
            s.detect_area_width == 0,
            s.horizontal_start == 2,
            s.horizontal_end == 6,
    {
        Scroll {
            enable: true,
            reverse_vertical: false,
            horizontal_enable: false,
            reverse_horizontal: false,
            sensitivity: 0,
            detect_area_width: 0,
            horizontal_start: 2,
            horizontal_end: 6,
        }
    }
}

} // verus!
