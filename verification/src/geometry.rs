//! Window sizes, positions and rectangles.

use vstd::prelude::*;

verus! {

/// Width of the window that both demonstrations open with.
pub const INITIAL_WIDTH: i32 = 400;

/// Height of the window that both demonstrations open with.
pub const INITIAL_HEIGHT: i32 = 400;

/// Width and height of a window, in whole units.
///
/// Nothing is asked of the two numbers: a window of size zero or of negative
/// size is placed in like any other.
#[derive(Clone, Copy, Debug, PartialEq, Eq, Structural)]
pub struct WindowSize {
    pub width: i32,
    pub height: i32,
}

/// A position relative to the centre of the window, x growing to the right
/// and y growing upwards, with a depth.
///
/// The two coordinates are counted in half units: the point one unit right
/// of the centre has `x_halves == 2`.
#[derive(Clone, Copy, Debug, PartialEq, Eq, Structural)]
pub struct Offset {
    pub x_halves: i64,
    pub y_halves: i64,
    pub depth: i32,
}

/// An axis-parallel rectangle, its four edges counted in half units from the
/// centre of the window.
pub ghost struct Rect {
    pub left: int,
    pub right: int,
    pub bottom: int,
    pub top: int,
}

impl WindowSize {
    /// The window that both demonstrations open with.
    pub fn initial() -> (size: WindowSize)
        ensures
            size.width == INITIAL_WIDTH,
            size.height == INITIAL_HEIGHT,
    {
        WindowSize { width: INITIAL_WIDTH, height: INITIAL_HEIGHT }
    }

    /// The area of the window: the centre is the origin, so the edges lie
    /// half the width and half the height away from it.
    pub open spec fn area(self) -> Rect {
        Rect {
            left: -(self.width as int),
            right: self.width as int,
            bottom: -(self.height as int),
            top: self.height as int,
        }
    }
}

impl Rect {
    /// Every point of `self` is a point of `outer`.
    pub open spec fn within(self, outer: Rect) -> bool {
        &&& outer.left <= self.left
        &&& self.right <= outer.right
        &&& outer.bottom <= self.bottom
        &&& self.top <= outer.top
    }
}

} // verus!
