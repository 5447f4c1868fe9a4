//! Markers: coloured squares with a position, a side and an anchor.

use vstd::prelude::*;
use crate::geometry::Offset;
use crate::geometry::Rect;
use crate::geometry::WindowSize;
use crate::placement::offset_of;
use crate::placement::Placement;

verus! {

/// Side of the markers that `MarkerBundle::new` makes.
pub const MARKER_SIDE_LENGTH: i32 = 10;

/// The colours in which markers are drawn.
#[derive(Clone, Copy, Debug, PartialEq, Eq, Structural)]
pub enum Color {
    Blue,
    Green,
    Red,
    Orange,
    Purple,
    Maroon,
}

/// The point of a marker's square that lies at the marker's position.
#[derive(Clone, Copy, Debug, PartialEq, Eq, Structural)]
pub enum Anchor {
    Center,
    TopLeft,
    BottomRight,
}

/// A marker: a square of side `side`, drawn in `color`, whose `anchor` lies
/// at `position`.
#[derive(Clone, Copy, Debug, PartialEq, Eq, Structural)]
pub struct MarkerBundle {
    pub position: Offset,
    pub color: Color,
    pub side: i32,
    pub anchor: Anchor,
}

impl MarkerBundle {
    /// A marker of side `MARKER_SIDE_LENGTH` in the given colour, hung by its
    /// top-left corner at `position`.
    pub fn new(position: Offset, color: Color) -> (marker: MarkerBundle)
        ensures
            marker == (MarkerBundle {
                position,
                color,
                side: MARKER_SIDE_LENGTH,
                anchor: Anchor::TopLeft,
            }),
    {
        MarkerBundle { position, color, side: MARKER_SIDE_LENGTH, anchor: Anchor::TopLeft }
    }

    /// The square that the marker covers.
    pub open spec fn bounds(self) -> Rect {
        let x = self.position.x_halves as int;
        let y = self.position.y_halves as int;
        let side = self.side as int;
        match self.anchor {
            Anchor::Center => Rect { left: x - side, right: x + side, bottom: y - side, top: y + side },
            Anchor::TopLeft => Rect { left: x, right: x + 2 * side, bottom: y - 2 * side, top: y },
            Anchor::BottomRight => Rect {
                left: x - 2 * side,
                right: x,
                bottom: y,
                top: y + 2 * side,
            },
        }
    }

    /// The marker is hung by its top-left corner at the position that
    /// `place` has in `window` for a marker of its side.
    pub open spec fn sits_at(self, place: Placement, window: WindowSize) -> bool {
        &&& self.anchor == Anchor::TopLeft
        &&& self.position == offset_of(place, window, self.side)
    }
}

/// A marker put in a corner touches the two edges of the window that meet in
/// that corner, whatever the size of the window and of the marker.
pub proof fn lemma_corner_marker_is_flush(marker: MarkerBundle, place: Placement, window: WindowSize)
    requires
        marker.sits_at(place, window),
    ensures
        place == Placement::TopLeft || place == Placement::BottomLeft
            ==> marker.bounds().left == window.area().left,
        place == Placement::TopRight || place == Placement::BottomRight
            ==> marker.bounds().right == window.area().right,
        place == Placement::TopLeft || place == Placement::TopRight
            ==> marker.bounds().top == window.area().top,
        place == Placement::BottomLeft || place == Placement::BottomRight
            ==> marker.bounds().bottom == window.area().bottom,
{
}

/// A marker put in the centre has its top-left corner at the centre.
pub proof fn lemma_center_marker_hangs_from_origin(marker: MarkerBundle, window: WindowSize)
    requires
        marker.sits_at(Placement::Center, window),
    ensures
        marker.bounds().left == 0,
        marker.bounds().top == 0,
{
}

/// A marker put in a corner lies wholly inside the window, provided that its
/// side is not negative and the window is at least as wide and as high as
/// the marker.
pub proof fn lemma_corner_marker_is_visible(marker: MarkerBundle, place: Placement, window: WindowSize)
    requires
        marker.sits_at(place, window),
        place != Placement::Center,
        0 <= marker.side <= window.width,
        marker.side <= window.height,
    ensures
        marker.bounds().within(window.area()),
{
}

/// Which corner a marker is hung by does not matter to what is seen: a
/// marker hung by its bottom-right corner in the very corner of the window
/// covers the same square as one of the same side that hangs by its top-left
/// corner at the bottom-right position.
pub proof fn lemma_bottom_right_anchor_covers_same_square(
    hung_right: MarkerBundle,
    hung_left: MarkerBundle,
    window: WindowSize,
)
    requires
        hung_right.anchor == Anchor::BottomRight,
        hung_right.position.x_halves == window.area().right,
        hung_right.position.y_halves == window.area().bottom,
        hung_left.sits_at(Placement::BottomRight, window),
        hung_left.side == hung_right.side,
    ensures
        hung_right.bounds() == hung_left.bounds(),
{
}

} // verus!
