//! Where a marker goes: the centre of the window or one of its corners.

use vstd::prelude::*;
use crate::geometry::Offset;
use crate::geometry::WindowSize;

verus! {

/// The five places of a window at which a marker can be put.
#[derive(Clone, Copy, Debug, PartialEq, Eq, Structural)]
pub enum Placement {
    Center,
    TopLeft,
    BottomLeft,
    TopRight,
    BottomRight,
}

/// Horizontal position, in half units, of a marker of side `side` put at
/// `place` in a window of width `width`.
///
/// In whole units this is `-width / 2` at the left edge and
/// `width / 2 - side` at the right edge, where the marker is moved in by its
/// own side so that it stays inside the window.
pub open spec fn x_halves(place: Placement, width: int, side: int) -> int {
    match place {
        Placement::Center => 0,
        Placement::TopLeft | Placement::BottomLeft => -width,
        Placement::TopRight | Placement::BottomRight => width - 2 * side,
    }
}

/// Vertical position, in half units, of a marker of side `side` put at
/// `place` in a window of height `height`.
///
/// In whole units this is `height / 2` at the top edge and
/// `-height / 2 + side` at the bottom edge.
pub open spec fn y_halves(place: Placement, height: int, side: int) -> int {
    match place {
        Placement::Center => 0,
        Placement::TopLeft | Placement::TopRight => height,
        Placement::BottomLeft | Placement::BottomRight => 2 * side - height,
    }
}

/// The position of a marker of side `side` put at `place` in `window`.
pub open spec fn offset_of(place: Placement, window: WindowSize, side: i32) -> Offset {
    Offset {
        x_halves: x_halves(place, window.width as int, side as int) as i64,
        y_halves: y_halves(place, window.height as int, side as int) as i64,
        depth: 0,
    }
}

/// Computes the position of a marker of side `side` put at `place` in
/// `window`. It is defined for every window size and every side.
pub fn offset(place: Placement, window: WindowSize, side: i32) -> (at: Offset)
    ensures
        at == offset_of(place, window, side),
        at.x_halves == x_halves(place, window.width as int, side as int),
        at.y_halves == y_halves(place, window.height as int, side as int),
        at.depth == 0,
{
    let width: i64 = window.width as i64;
    let height: i64 = window.height as i64;
    let inset: i64 = 2 * (side as i64);
    let (x, y): (i64, i64) = match place {
        Placement::Center => (0, 0),
        Placement::TopLeft => (-width, height),
        Placement::BottomLeft => (-width, inset - height),
        Placement::TopRight => (width - inset, height),
        Placement::BottomRight => (width - inset, inset - height),
    };
    Offset { x_halves: x, y_halves: y, depth: 0 }
}

/// The position is a function of the place, the window and the side alone:
/// two computations on the same three values give the same position.
pub proof fn lemma_offset_is_repeatable(
    place: Placement,
    window: WindowSize,
    side: i32,
    first: Offset,
    second: Offset,
)
    requires
        first == offset_of(place, window, side),
        second == offset_of(place, window, side),
    ensures
        first == second,
{
}

/// No position is cut short by the width of its fields: its coordinates are
/// the exact values of the two formulas.
pub proof fn lemma_offset_is_exact(place: Placement, window: WindowSize, side: i32)
    ensures
        offset_of(place, window, side).x_halves == x_halves(place, window.width as int, side as int),
        offset_of(place, window, side).y_halves == y_halves(place, window.height as int, side as int),
        offset_of(place, window, side).depth == 0,
{
}

/// In a window of even width and height every position falls on a whole
/// unit, and in whole units the bottom-right position is
/// `(width / 2 - side, -height / 2 + side)`, the top-left position is
/// `(-width / 2, height / 2)` and the centre is `(0, 0)`.
pub proof fn lemma_even_window_in_whole_units(window: WindowSize, side: i32)
    requires
        window.width % 2 == 0,
        window.height % 2 == 0,
    ensures
        forall|place: Placement| (#[trigger] offset_of(place, window, side)).x_halves % 2 == 0,
        forall|place: Placement| (#[trigger] offset_of(place, window, side)).y_halves % 2 == 0,
        offset_of(Placement::BottomRight, window, side).x_halves / 2 == window.width / 2 - side,
        offset_of(Placement::BottomRight, window, side).y_halves / 2 == -(window.height / 2) + side,
        offset_of(Placement::TopLeft, window, side).x_halves / 2 == -(window.width / 2),
        offset_of(Placement::TopLeft, window, side).y_halves / 2 == window.height / 2,
        offset_of(Placement::BottomLeft, window, side).x_halves / 2 == -(window.width / 2),
        offset_of(Placement::BottomLeft, window, side).y_halves / 2 == -(window.height / 2) + side,
        offset_of(Placement::TopRight, window, side).x_halves / 2 == window.width / 2 - side,
        offset_of(Placement::TopRight, window, side).y_halves / 2 == window.height / 2,
        offset_of(Placement::Center, window, side).x_halves / 2 == 0,
        offset_of(Placement::Center, window, side).y_halves / 2 == 0,
{
}

} // verus!
