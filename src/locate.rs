use vstd::prelude::*;

use crate::buttons::{hit_spec, ButtonLayout, BUTTON_MARGIN, FIXED_ONE};
use crate::theme::BORDER_SIZE;
use crate::Location;

verus! {

/// `x` (fixed-point) lies within the left border of the decorations.
pub open spec fn in_left_border(x: int) -> bool {
    x <= BORDER_SIZE * FIXED_ONE
}

/// `x` (fixed-point) lies within the right border of decorations that are
/// `width` logical pixels wide.
pub open spec fn in_right_border(width: int, x: int) -> bool {
    x >= (width - BORDER_SIZE) * FIXED_ONE
}

/// `y` (fixed-point) lies within the top border.
pub open spec fn in_top_border(y: int) -> bool {
    y <= BORDER_SIZE * FIXED_ONE
}

/// The refined location of a pointer at `(x, y)` (fixed-point, relative to
/// the decoration part it is over), given where it was before and the
/// decorated width.
pub open spec fn classify(buttons: ButtonLayout, old: Location, width: int, x: int, y: int) -> Location {
    match old {
        Location::Head | Location::Button(_) | Location::Top | Location::TopLeft | Location::TopRight => {
            let hit = hit_spec(buttons, x, y);
            if hit == Location::Head && in_top_border(y) {
                if in_left_border(x) {
                    Location::TopLeft
                } else if in_right_border(width, x) {
                    Location::TopRight
                } else {
                    Location::Top
                }
            } else {
                hit
            }
        },
        Location::Bottom | Location::BottomLeft | Location::BottomRight => {
            if in_left_border(x) {
                Location::BottomLeft
            } else if in_right_border(width, x) {
                Location::BottomRight
            } else {
                Location::Bottom
            }
        },
        _ => old,
    }
}

/// The title bar and top border family of locations.
pub open spec fn is_head_family(l: Location) -> bool {
    matches!(l, Location::Head | Location::Button(_) | Location::Top | Location::TopLeft | Location::TopRight)
}

/// The bottom border family of locations.
pub open spec fn is_bottom_family(l: Location) -> bool {
    matches!(l, Location::Bottom | Location::BottomLeft | Location::BottomRight)
}

/// Refines where a pointer is, from where it was before (`old`), the
/// decorated width (window width plus both borders, in logical pixels) and
/// its position `(x, y)` in fixed-point logical coordinates of the
/// decoration part it is over.
pub fn precise_location(buttons: &ButtonLayout, old: Location, width: u32, x: i32, y: i32) -> (loc: Location)
    ensures
        loc == classify(*buttons, old, width as int, x as int, y as int),
{
    let left = BORDER_SIZE as i64 * FIXED_ONE;
    let right = (width as i64 - BORDER_SIZE as i64) * FIXED_ONE;
    match old {
        Location::Head | Location::Button(_) | Location::Top | Location::TopLeft | Location::TopRight => {
            match buttons.find_button(x, y) {
                Location::Head => {
                    if y as i64 <= left {
                        if x as i64 <= left {
                            Location::TopLeft
                        } else if x as i64 >= right {
                            Location::TopRight
                        } else {
                            Location::Top
                        }
                    } else {
                        Location::Head
                    }
                },
                other => other,
            }
        },
        Location::Bottom | Location::BottomLeft | Location::BottomRight => {
            if x as i64 <= left {
                Location::BottomLeft
            } else if x as i64 >= right {
                Location::BottomRight
            } else {
                Location::Bottom
            }
        },
        other => other,
    }
}

/// No button reaches into the top border.
pub proof fn lemma_top_border_has_no_button(buttons: ButtonLayout, x: int, y: int)
    requires
        buttons.wf(),
        in_top_border(y),
    ensures
        hit_spec(buttons, x, y) == Location::Head,
{
    let s = buttons.scale as int;
    assert(y * s < (BORDER_SIZE + BUTTON_MARGIN) * s * FIXED_ONE) by (nonlinear_arith)
        requires y <= BORDER_SIZE * FIXED_ONE, 1 <= s;
}

/// Over the title bar, within the top border: the left corner, the right
/// corner or the top edge, by `x`.
pub proof fn lemma_top_border(buttons: ButtonLayout, old: Location, width: int, x: int, y: int)
    requires
        buttons.wf(),
        is_head_family(old),
        in_top_border(y),
    ensures
        in_left_border(x) ==> classify(buttons, old, width, x, y) == Location::TopLeft,
        !in_left_border(x) && in_right_border(width, x) ==> classify(buttons, old, width, x, y)
            == Location::TopRight,
        !in_left_border(x) && !in_right_border(width, x) ==> classify(buttons, old, width, x, y)
            == Location::Top,
{
    lemma_top_border_has_no_button(buttons, x, y);
}

/// Over the bottom border the corner or edge follows from `x` alone.
pub proof fn lemma_bottom_border(buttons: ButtonLayout, old: Location, width: int, x: int, y1: int, y2: int)
    requires
        is_bottom_family(old),
    ensures
        classify(buttons, old, width, x, y1) == classify(buttons, old, width, x, y2),
        in_left_border(x) ==> classify(buttons, old, width, x, y1) == Location::BottomLeft,
        !in_left_border(x) && in_right_border(width, x) ==> classify(buttons, old, width, x, y1)
            == Location::BottomRight,
        !in_left_border(x) && !in_right_border(width, x) ==> classify(buttons, old, width, x, y1)
            == Location::Bottom,
{
}

/// The side borders and the outside have no finer parts: they stay as they are.
pub proof fn lemma_sides_unchanged(buttons: ButtonLayout, width: int, x: int, y: int)
    ensures
        classify(buttons, Location::Left, width, x, y) == Location::Left,
        classify(buttons, Location::Right, width, x, y) == Location::Right,
        classify(buttons, Location::Outside, width, x, y) == Location::Outside,
{
}

/// A pointer never leaves its family of locations by moving: the title bar
/// family stays in itself, as does the bottom border family.
pub proof fn lemma_family_kept(buttons: ButtonLayout, old: Location, width: int, x: int, y: int)
    ensures
        is_head_family(old) ==> is_head_family(classify(buttons, old, width, x, y)),
        is_bottom_family(old) ==> is_bottom_family(classify(buttons, old, width, x, y)),
        !is_head_family(old) && !is_bottom_family(old) ==> classify(buttons, old, width, x, y) == old,
{
}

} // verus!
