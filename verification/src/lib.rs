//! Placement of square markers at the centre and corners of a window, and
//! the bookkeeping that keeps one marker in the bottom-right corner while
//! the window is resized.
//!
//! All arithmetic is exact. Window sizes and marker sides are whole numbers
//! of length units; positions are counted in half units, because the centre
//! of a window of odd width lies half a unit off the grid.

pub mod coordinates_2d;
pub mod geometry;
pub mod marker;
pub mod placement;
pub mod window_resize;
