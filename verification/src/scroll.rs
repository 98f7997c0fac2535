//! The list view's scroll model: offsets in integral display units,
//! overflow detection against the viewport, and conversion of mouse-wheel
//! deltas.
use vstd::prelude::*;

verus! {

/// Font size of a rendered log line, in display units; wheel deltas given
/// in lines are scaled by it.
pub const LOG_LINE_FONT_SIZE: i64 = 8;

/// Unit of a mouse-wheel delta: whole lines or display units.
#[derive(Clone, Copy, Debug, PartialEq, Eq, Structural)]
pub enum MouseScrollUnit {
    Line,
    Pixel,
}

/// Scroll state of the list container: the scroll offsets, and whether the
/// short list is pinned to the bottom edge (`align_end`) rather than
/// free-scrolling.
#[derive(Clone, Copy, Debug, PartialEq, Eq, Structural)]
pub struct ScrollRegion {
    /// Horizontal scroll offset.
    pub offset_x: i64,
    /// Vertical scroll offset; larger values are further down the list.
    pub offset_y: i64,
    /// Whether the list is anchored to the bottom edge while it is shorter
    /// than the viewport.
    pub align_end: bool,
}

impl ScrollRegion {
    /// The scroll state the list view starts in.
    pub open spec fn spec_default() -> ScrollRegion {
        ScrollRegion { offset_x: 0, offset_y: 0, align_end: false }
    }
}

impl Default for ScrollRegion {
    fn default() -> (r: ScrollRegion)
        ensures
            r == ScrollRegion::spec_default(),
    {
        ScrollRegion { offset_x: 0, offset_y: 0, align_end: false }
    }
}

/// `v` clamped to the range of `i64`.
pub open spec fn spec_clamp_i64(v: int) -> int {
    if v > i64::MAX {
        i64::MAX as int
    } else if v < i64::MIN {
        i64::MIN as int
    } else {
        v
    }
}

/// Subtraction on offsets that clamps at the ends of the range instead of
/// wrapping.
pub fn saturating_sub_i64(a: i64, b: i64) -> (r: i64)
    ensures
        r as int == spec_clamp_i64(a - b),
{
    let wide: i128 = (a as i128) - (b as i128);
    if wide > i64::MAX as i128 {
        i64::MAX
    } else if wide < i64::MIN as i128 {
        i64::MIN
    } else {
        wide as i64
    }
}

/// A wheel delta scaled from lines to display units, clamping at the ends
/// of the range.
pub fn line_delta_to_units(delta: i64) -> (r: i64)
    ensures
        r as int == spec_clamp_i64(delta * LOG_LINE_FONT_SIZE),
{
    proof {
        assert((i64::MIN as int) * 8 <= (delta as int) * 8 <= (i64::MAX as int) * 8)
            by (nonlinear_arith)
            requires
                i64::MIN as int <= delta as int <= i64::MAX as int,
        ;
    }
    let wide: i128 = (delta as i128) * (LOG_LINE_FONT_SIZE as i128);
    if wide > i64::MAX as i128 {
        i64::MAX
    } else if wide < i64::MIN as i128 {
        i64::MIN
    } else {
        wide as i64
    }
}

/// The display-unit deltas of a mouse-wheel event: deltas in lines are
/// scaled by the line font size, deltas in display units pass through.
pub fn wheel_deltas(unit: MouseScrollUnit, x: i64, y: i64) -> (r: (i64, i64))
    ensures
        unit is Line ==> r.0 as int == spec_clamp_i64(x * LOG_LINE_FONT_SIZE) && r.1 as int
            == spec_clamp_i64(y * LOG_LINE_FONT_SIZE),
        unit is Pixel ==> r == (x, y),
{
    match unit {
        MouseScrollUnit::Line => (line_delta_to_units(x), line_delta_to_units(y)),
        MouseScrollUnit::Pixel => (x, y),
    }
}

} // verus!
