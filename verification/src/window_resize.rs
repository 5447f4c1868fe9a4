//! Keeping one marker in the bottom-right corner of a window while the
//! window is resized.
//!
//! A `Tracker` remembers the size that the window was last reported to have
//! and the size for which the marker was last placed. While the two agree
//! the tracker is idle and an update pass writes nothing; once they differ
//! it is dirty, and the next update pass moves the marker and reports the
//! position that it wrote.

use vstd::prelude::*;
use crate::geometry::Offset;
use crate::geometry::WindowSize;
use crate::marker::Anchor;
use crate::marker::Color;
use crate::marker::MarkerBundle;
use crate::placement::offset;
use crate::placement::offset_of;
use crate::placement::Placement;

verus! {

/// Title of the window whose corner is followed.
pub const TITLE: &'static str = "Window Resize Example";

/// Side of the marker that is kept in the corner.
pub const CORNER_MARKER_SIDE: i32 = 40;

/// Notice that the window has been resized to `width` by `height`.
#[derive(Clone, Copy, Debug, PartialEq, Eq, Structural)]
pub struct WindowResized {
    pub width: i32,
    pub height: i32,
}

/// Whether the marker has to be moved.
#[derive(Clone, Copy, Debug, PartialEq, Eq, Structural)]
pub enum Phase {
    /// The marker is placed for the size that the window has now.
    Idle,
    /// The window has changed its size since the marker was placed.
    Dirty,
}

/// What a `Tracker` holds.
pub ghost struct TrackerView {
    /// The size that the window was last reported to have.
    pub window: WindowSize,
    /// The size for which the marker was last placed.
    pub placed_for: WindowSize,
    /// The marker.
    pub marker: MarkerBundle,
}

/// The size of the window once the notices in `events` have arrived in
/// order: that of the last notice, or `current` where there is none.
pub open spec fn size_after(current: WindowSize, events: Seq<WindowResized>) -> WindowSize {
    if events.len() == 0 {
        current
    } else {
        WindowSize { width: events.last().width, height: events.last().height }
    }
}

impl TrackerView {
    /// The marker is the maroon square of side `CORNER_MARKER_SIDE`, and it
    /// sits in the bottom-right corner of a window of the size for which it
    /// was last placed.
    pub open spec fn wf(self) -> bool {
        &&& self.marker.color == Color::Maroon
        &&& self.marker.side == CORNER_MARKER_SIDE
        &&& self.marker.sits_at(Placement::BottomRight, self.placed_for)
    }

    /// Dirty exactly when the window no longer has the size for which the
    /// marker was placed.
    pub open spec fn phase(self) -> Phase {
        if self.window == self.placed_for {
            Phase::Idle
        } else {
            Phase::Dirty
        }
    }

    /// The state after the notices in `events` have been taken in: the
    /// window has its new size, and the marker has not moved yet.
    pub open spec fn resized(self, events: Seq<WindowResized>) -> TrackerView {
        TrackerView { window: size_after(self.window, events), ..self }
    }

    /// The position that the next update pass writes, if it writes one.
    pub open spec fn pending_write(self) -> Option<Offset> {
        if self.phase() == Phase::Dirty {
            Some(offset_of(Placement::BottomRight, self.window, self.marker.side))
        } else {
            None
        }
    }

    /// The state after an update pass.
    pub open spec fn updated(self) -> TrackerView {
        match self.pending_write() {
            Some(position) => TrackerView {
                window: self.window,
                placed_for: self.window,
                marker: MarkerBundle { position, ..self.marker },
            },
            None => self,
        }
    }
}

/// The state in which tracking starts: the marker sits in the bottom-right
/// corner of `window`, and nothing is pending.
pub open spec fn initial_view(window: WindowSize) -> TrackerView {
    TrackerView {
        window,
        placed_for: window,
        marker: MarkerBundle {
            position: offset_of(Placement::BottomRight, window, CORNER_MARKER_SIDE),
            color: Color::Maroon,
            side: CORNER_MARKER_SIDE,
            anchor: Anchor::TopLeft,
        },
    }
}

/// The window's size, the size for which the marker was last placed, and
/// the marker itself.
#[derive(Clone, Copy, Debug)]
pub struct Tracker {
    window: WindowSize,
    placed_for: WindowSize,
    marker: MarkerBundle,
}

impl View for Tracker {
    type V = TrackerView;

    closed spec fn view(&self) -> TrackerView {
        TrackerView { window: self.window, placed_for: self.placed_for, marker: self.marker }
    }
}

/// The position at which a marker of side `side` sits in the bottom-right
/// corner of `window`.
pub fn find_bottom_right(window: &WindowSize, side: i32) -> (at: Offset)
    ensures
        at == offset_of(Placement::BottomRight, *window, side),
{
    offset(Placement::BottomRight, *window, side)
}

/// Starts tracking a window of size `window`, with the marker in its
/// bottom-right corner.
pub fn setup(window: WindowSize) -> (tracker: Tracker)
    ensures
        tracker@ == initial_view(window),
        tracker@.wf(),
        tracker@.phase() == Phase::Idle,
{
    Tracker {
        window,
        placed_for: window,
        marker: MarkerBundle {
            position: find_bottom_right(&window, CORNER_MARKER_SIDE),
            color: Color::Maroon,
            side: CORNER_MARKER_SIDE,
            anchor: Anchor::TopLeft,
        },
    }
}

impl Tracker {
    #[verifier::type_invariant]
    spec fn inv(self) -> bool {
        self@.wf()
    }

    /// The size that the window was last reported to have.
    pub fn window(&self) -> (size: WindowSize)
        ensures
            size == self@.window,
    {
        self.window
    }

    /// The marker as it was last placed.
    pub fn marker(&self) -> (marker: MarkerBundle)
        ensures
            marker == self@.marker,
            self@.wf(),
    {
        proof {
            use_type_invariant(self);
        }
        self.marker
    }

    /// Whether the next update pass has to move the marker.
    pub fn phase(&self) -> (phase: Phase)
        ensures
            phase == self@.phase(),
    {
        if self.window == self.placed_for {
            Phase::Idle
        } else {
            Phase::Dirty
        }
    }

    /// Takes in the pending notices, oldest first, and empties the queue.
    /// The window then has the size of the last notice; the marker is moved
    /// by the next update pass, not here.
    pub fn on_window_resize(&mut self, resize_events: &mut Vec<WindowResized>)
        ensures
            final(self)@ == old(self)@.resized(old(resize_events)@),
            final(resize_events)@.len() == 0,
            final(self)@.wf(),
    {
        let mut i: usize = 0;
        while i < resize_events.len()
            invariant
                i <= resize_events.len(),
                *resize_events == *old(resize_events),
                self@ == old(self)@.resized(old(resize_events)@.take(i as int)),
            decreases resize_events.len() - i,
        {
            proof {
                use_type_invariant(&*self);
            }
            let e: WindowResized = resize_events[i];
            self.window = WindowSize { width: e.width, height: e.height };
            i += 1;
            assert(old(resize_events)@.take(i as int).last() == e);
        }
        assert(old(resize_events)@.take(i as int) =~= old(resize_events)@);
        resize_events.clear();
        proof {
            use_type_invariant(&*self);
        }
    }

    /// One update pass. Where the window has changed its size since the
    /// marker was placed, the marker is moved to the bottom-right corner of
    /// the window as it is now, and the new position is returned so that it
    /// can be drawn. Otherwise nothing is written and `None` is returned.
    pub fn update_marker(&mut self) -> (written: Option<Offset>)
        ensures
            written == old(self)@.pending_write(),
            final(self)@ == old(self)@.updated(),
            final(self)@.wf(),
    {
        proof {
            use_type_invariant(&*self);
        }
        if self.window == self.placed_for {
            return None;
        }
        let position: Offset = find_bottom_right(&self.window, self.marker.side);
        *self = Tracker {
            window: self.window,
            placed_for: self.window,
            marker: MarkerBundle { position, ..self.marker },
        };
        Some(position)
    }

    /// One tick: the pending notices are taken in first, then the update
    /// pass runs, so that a resize is answered in the tick in which it is
    /// reported.
    pub fn tick(&mut self, resize_events: &mut Vec<WindowResized>) -> (written: Option<Offset>)
        ensures
            written == old(self)@.resized(old(resize_events)@).pending_write(),
            final(self)@ == old(self)@.resized(old(resize_events)@).updated(),
            final(resize_events)@.len() == 0,
            final(self)@.wf(),
    {
        self.on_window_resize(resize_events);
        self.update_marker()
    }
}

/// An update pass settles the tracker: afterwards it is idle, and a second
/// pass with no notice in between writes nothing and changes nothing.
pub proof fn lemma_update_settles(state: TrackerView)
    ensures
        state.updated().phase() == Phase::Idle,
        state.updated().pending_write() is None,
        state.updated().updated() == state.updated(),
        state.updated().window == state.window,
{
}

/// Taking in notices and running an update pass both keep the marker what
/// it is: maroon, of side `CORNER_MARKER_SIDE`, in the corner of a window of
/// the size for which it was placed.
pub proof fn lemma_steps_keep_wf(state: TrackerView, events: Seq<WindowResized>)
    requires
        state.wf(),
    ensures
        state.resized(events).wf(),
        state.updated().wf(),
{
}

/// While the tracker is idle, and so after every update pass, the marker
/// touches the right and the bottom edge of the window as it is now.
pub proof fn lemma_marker_stays_in_corner(state: TrackerView)
    requires
        state.wf(),
    ensures
        state.phase() == Phase::Idle ==> state.marker.sits_at(Placement::BottomRight, state.window),
        state.updated().marker.sits_at(Placement::BottomRight, state.window),
        state.updated().marker.bounds().right == state.window.area().right,
        state.updated().marker.bounds().bottom == state.window.area().bottom,
{
}

/// Only the last notice counts, so the notices may arrive in one batch or
/// in several.
pub proof fn lemma_resized_in_batches(
    state: TrackerView,
    earlier: Seq<WindowResized>,
    later: Seq<WindowResized>,
)
    ensures
        state.resized(earlier + later) == state.resized(earlier).resized(later),
{
    if later.len() > 0 {
        assert((earlier + later).last() == later.last());
    } else {
        assert(earlier + later =~= earlier);
    }
}

} // verus!
