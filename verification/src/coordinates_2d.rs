//! The fixed layout: one marker in the centre of the window and one in each
//! of its corners.

use vstd::prelude::*;
use crate::geometry::WindowSize;
use crate::marker::Anchor;
use crate::marker::Color;
use crate::marker::MarkerBundle;
use crate::marker::MARKER_SIDE_LENGTH;
use crate::placement::offset;
use crate::placement::offset_of;
use crate::placement::Placement;

verus! {

/// Title of the window that shows the layout.
pub const TITLE: &'static str = "Coordinate Example";

/// The places that get a marker, each with the colour of its marker, in the
/// order in which the markers are made.
pub open spec fn layout() -> Seq<(Placement, Color)> {
    seq![
        (Placement::Center, Color::Blue),
        (Placement::TopLeft, Color::Green),
        (Placement::BottomLeft, Color::Red),
        (Placement::TopRight, Color::Orange),
        (Placement::BottomRight, Color::Purple),
    ]
}

/// The marker of colour `color` that belongs at `place` in `window`.
pub open spec fn marker_at(place: Placement, color: Color, window: WindowSize) -> MarkerBundle {
    MarkerBundle {
        position: offset_of(place, window, MARKER_SIDE_LENGTH),
        color,
        side: MARKER_SIDE_LENGTH,
        anchor: Anchor::TopLeft,
    }
}

/// The markers of the layout in `window`, one for each entry of `layout`.
pub open spec fn markers_of(window: WindowSize) -> Seq<MarkerBundle> {
    Seq::new(layout().len(), |i: int| marker_at(layout()[i].0, layout()[i].1, window))
}

/// Makes the five markers of the layout for `window`: blue in the centre,
/// green top left, red bottom left, orange top right, purple bottom right.
/// A marker's index in the result identifies it from then on.
pub fn setup(window: WindowSize) -> (markers: Vec<MarkerBundle>)
    ensures
        markers@ == markers_of(window),
{
    let mut markers: Vec<MarkerBundle> = Vec::new();
    markers.push(MarkerBundle::new(offset(Placement::Center, window, MARKER_SIDE_LENGTH), Color::Blue));
    markers.push(MarkerBundle::new(offset(Placement::TopLeft, window, MARKER_SIDE_LENGTH), Color::Green));
    markers.push(MarkerBundle::new(offset(Placement::BottomLeft, window, MARKER_SIDE_LENGTH), Color::Red));
    markers.push(MarkerBundle::new(offset(Placement::TopRight, window, MARKER_SIDE_LENGTH), Color::Orange));
    markers.push(MarkerBundle::new(offset(Placement::BottomRight, window, MARKER_SIDE_LENGTH), Color::Purple));
    assert(markers@ =~= markers_of(window));
    markers
}

/// Every marker of the layout sits at its own place, and the four in the
/// corners lie wholly inside a window that is at least as wide and as high
/// as a marker.
pub proof fn lemma_layout_fills_the_window(window: WindowSize, i: int)
    requires
        0 <= i < layout().len(),
    ensures
        markers_of(window)[i].sits_at(layout()[i].0, window),
        markers_of(window)[i].color == layout()[i].1,
        1 <= i && MARKER_SIDE_LENGTH <= window.width && MARKER_SIDE_LENGTH <= window.height
            ==> markers_of(window)[i].bounds().within(window.area()),
{
}

} // verus!
