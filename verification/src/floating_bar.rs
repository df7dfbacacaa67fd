//! Decisions of the mini floating bar window.
use vstd::prelude::*;
use crate::config::FloatingBarConfig;
use crate::float_bits::F64Bits;

verus! {

/// Margin, in physical pixels, around the floating bar within which the
/// cursor still counts as over it.
pub const CURSOR_PAD: i32 = 3;

impl FloatingBarConfig {
    /// Whether the window lets clicks through: only when both click-through
    /// and the position lock are on.
    pub fn ignores_cursor_events(&self) -> (r: bool)
        ensures
            r == (self.click_through && self.lock_position),
    {
        self.click_through && self.lock_position
    }

    /// The saved logical position, when both coordinates are saved.
    pub fn saved_position(&self) -> (r: Option<(F64Bits, F64Bits)>)
        ensures
            r == (match (self.x, self.y) {
                (Some(x), Some(y)) => Some((x, y)),
                _ => None,
            }),
    {
        match (self.x, self.y) {
            (Some(x), Some(y)) => Some((x, y)),
            _ => None,
        }
    }
}

/// Whether evaluating the hit test of `cursor_inside` overflows `i32`
/// (left to right, stopping at the first comparison that fails): the
/// window's left edge `x - 3`, right edge `x + width + 3`, top edge `y - 3`
/// and bottom edge `y + height + 3`, with the size taken as `i32`.
pub open spec fn spec_hit_test_overflows(cursor: (i32, i32), position: (i32, i32), size: (u32, u32)) -> bool {
    let left = position.0 - CURSOR_PAD;
    let right_inner = position.0 + (size.0 as i32);
    let right = right_inner + CURSOR_PAD;
    let top = position.1 - CURSOR_PAD;
    let bottom_inner = position.1 + (size.1 as i32);
    let bottom = bottom_inner + CURSOR_PAD;
    ||| left < i32::MIN
    ||| cursor.0 >= left && (right_inner < i32::MIN || right_inner > i32::MAX || right > i32::MAX)
    ||| cursor.0 >= left && cursor.0 <= right && top < i32::MIN
    ||| cursor.0 >= left && cursor.0 <= right && cursor.1 >= top && (bottom_inner < i32::MIN
        || bottom_inner > i32::MAX || bottom > i32::MAX)
}

/// Whether the cursor lies over the window or within `CURSOR_PAD` of it.
pub open spec fn spec_cursor_inside(cursor: (i32, i32), position: (i32, i32), size: (u32, u32)) -> bool {
    &&& cursor.0 >= position.0 - CURSOR_PAD
    &&& cursor.0 <= position.0 + (size.0 as i32) + CURSOR_PAD
    &&& cursor.1 >= position.1 - CURSOR_PAD
    &&& cursor.1 <= position.1 + (size.1 as i32) + CURSOR_PAD
}

/// Whether the floating bar should ignore cursor events. Only a shown,
/// enabled bar with click-through and the position lock does, and then only
/// while the cursor is away from it; when the cursor, the window position
/// or its size cannot be read, it does. `visible` is `None` when there is no
/// window or its visibility cannot be read.
pub open spec fn spec_should_ignore_cursor_events(
    bar: FloatingBarConfig,
    visible: Option<bool>,
    cursor: Option<(i32, i32)>,
    position: Option<(i32, i32)>,
    size: Option<(u32, u32)>,
) -> bool {
    if !bar.enabled || !bar.click_through || !bar.lock_position {
        false
    } else if visible != Some(true) {
        false
    } else {
        match (cursor, position, size) {
            (Some(c), Some(p), Some(s)) => !spec_cursor_inside(c, p, s),
            _ => true,
        }
    }
}

/// Whether `should_ignore_cursor_events` would have to evaluate a hit test
/// that overflows (see `spec_hit_test_overflows`).
pub open spec fn spec_decision_overflows(
    bar: FloatingBarConfig,
    visible: Option<bool>,
    cursor: Option<(i32, i32)>,
    position: Option<(i32, i32)>,
    size: Option<(u32, u32)>,
) -> bool {
    &&& bar.enabled && bar.click_through && bar.lock_position
    &&& visible == Some(true)
    &&& match (cursor, position, size) {
        (Some(c), Some(p), Some(s)) => spec_hit_test_overflows(c, p, s),
        _ => false,
    }
}

/// Whether the hit test overflows `i32` (see `spec_hit_test_overflows`).
pub fn hit_test_overflows(cursor: (i32, i32), position: (i32, i32), size: (u32, u32)) -> (r: bool)
    ensures
        r == spec_hit_test_overflows(cursor, position, size),
{
    let left = position.0 as i64 - CURSOR_PAD as i64;
    let right_inner = position.0 as i64 + (size.0 as i32) as i64;
    let right = right_inner + CURSOR_PAD as i64;
    let top = position.1 as i64 - CURSOR_PAD as i64;
    let bottom_inner = position.1 as i64 + (size.1 as i32) as i64;
    let bottom = bottom_inner + CURSOR_PAD as i64;
    let min = i32::MIN as i64;
    let max = i32::MAX as i64;
    let c0 = cursor.0 as i64;
    let c1 = cursor.1 as i64;
    (left < min) || (c0 >= left && (right_inner < min || right_inner > max || right > max)) || (c0
        >= left && c0 <= right && top < min) || (c0 >= left && c0 <= right && c1 >= top && (
    bottom_inner < min || bottom_inner > max || bottom > max))
}

/// Whether a reading of the floating bar would make its decision overflow
/// (see `spec_decision_overflows`).
pub fn decision_overflows(
    bar: &FloatingBarConfig,
    visible: Option<bool>,
    cursor: Option<(i32, i32)>,
    position: Option<(i32, i32)>,
    size: Option<(u32, u32)>,
) -> (r: bool)
    ensures
        r == spec_decision_overflows(*bar, visible, cursor, position, size),
{
    if !(bar.enabled && bar.click_through && bar.lock_position) {
        return false;
    }
    match visible {
        Some(true) => {},
        _ => return false,
    }
    match (cursor, position, size) {
        (Some(c), Some(p), Some(s)) => hit_test_overflows(c, p, s),
        _ => false,
    }
}

/// Whether the floating bar should ignore cursor events (see
/// `spec_should_ignore_cursor_events`).
pub fn should_ignore_cursor_events(
    bar: &FloatingBarConfig,
    visible: Option<bool>,
    cursor: Option<(i32, i32)>,
    position: Option<(i32, i32)>,
    size: Option<(u32, u32)>,
) -> (r: bool)
    requires
        !spec_decision_overflows(*bar, visible, cursor, position, size),
    ensures
        r == spec_should_ignore_cursor_events(*bar, visible, cursor, position, size),
{
    if !bar.enabled || !bar.click_through || !bar.lock_position {
        return false;
    }
    match visible {
        Some(true) => {},
        _ => return false,
    }
    let (cursor_x, cursor_y) = match cursor {
        Some(c) => c,
        None => return true,
    };
    let position = match position {
        Some(p) => p,
        None => return true,
    };
    let size = match size {
        Some(s) => s,
        None => return true,
    };
    let pad = CURSOR_PAD;
    let inside = cursor_x >= position.0 - pad && cursor_x <= position.0 + size.0 as i32 + pad
        && cursor_y >= position.1 - pad && cursor_y <= position.1 + size.1 as i32 + pad;
    !inside
}

/// With click-through, the position lock and the bar all on and the bar
/// shown, cursor events are ignored exactly when the cursor is away from
/// the window: outside `x - 3 ..= x + width + 3` horizontally or outside
/// `y - 3 ..= y + height + 3` vertically, the width bounding only the
/// horizontal test and the height only the vertical one.
pub proof fn lemma_ignores_exactly_away_from_bar(
    bar: FloatingBarConfig,
    cursor: (i32, i32),
    position: (i32, i32),
    size: (u32, u32),
)
    requires
        bar.enabled && bar.click_through && bar.lock_position,
    ensures
        spec_should_ignore_cursor_events(bar, Some(true), Some(cursor), Some(position), Some(size))
            <==> !({
            &&& position.0 - 3 <= cursor.0
            &&& cursor.0 <= position.0 + (size.0 as i32) + 3
            &&& position.1 - 3 <= cursor.1
            &&& cursor.1 <= position.1 + (size.1 as i32) + 3
        }),
{
}

/// Whether the cursor counts as over the bar does not depend on the
/// bar's width once the cursor lies within the horizontal band of both
/// widths, nor on its height once it lies within the vertical band of both.
pub proof fn lemma_hit_test_axes_independent(
    cursor: (i32, i32),
    position: (i32, i32),
    a: (u32, u32),
    b: (u32, u32),
)
    ensures
        a.1 == b.1 && cursor.0 <= position.0 + (a.0 as i32) + 3 && cursor.0 <= position.0
            + (b.0 as i32) + 3 ==> (spec_cursor_inside(cursor, position, a) <==> spec_cursor_inside(
            cursor,
            position,
            b,
        )),
        a.0 == b.0 && cursor.1 <= position.1 + (a.1 as i32) + 3 && cursor.1 <= position.1
            + (b.1 as i32) + 3 ==> (spec_cursor_inside(cursor, position, a) <==> spec_cursor_inside(
            cursor,
            position,
            b,
        )),
{
}

/// Whether the floating bar's window was last told to ignore cursor
/// events, as the interaction watchdog remembers it. The window starts out
/// taking them.
#[derive(Debug, Clone, Copy)]
pub struct CursorEventMode {
    pub ignored: bool,
}

impl CursorEventMode {
    /// The mode of a window that takes cursor events.
    pub fn new() -> (r: Self)
        ensures
            !r.ignored,
    {
        CursorEventMode { ignored: false }
    }

    /// The mode the window has to be switched to, or `None` when it already
    /// has the `desired` one.
    pub fn change_needed(&self, desired: bool) -> (r: Option<bool>)
        ensures
            r == (if desired != self.ignored {
                Some(desired)
            } else {
                None
            }),
    {
        if desired != self.ignored {
            Some(desired)
        } else {
            None
        }
    }

    /// Keeps the outcome of asking the window for `requested`: the mode is
    /// remembered only when the window accepted it, so that a failed call
    /// is tried again on the next tick.
    pub fn record(&mut self, requested: bool, accepted: bool)
        ensures
            final(self).ignored == if accepted {
                requested
            } else {
                old(self).ignored
            },
    {
        if accepted {
            self.ignored = requested;
        }
    }
}

} // verus!
