//! What goes into a listener and what comes out of it.

use vstd::prelude::*;

verus! {

/// The scale factor of a pinch that has neither closed nor opened, in
/// millionths.
pub const NEUTRAL_SCALE: i64 = 1_000_000;

/// A decoded gesture event, tagged by its family and its stage.
#[derive(Clone, Copy, Debug, PartialEq, Eq, Structural)]
pub enum GestureEvent {
    /// Fingers start to move across the pad.
    SwipeBegin,
    /// One motion sample of a swipe: the displacement since the sample
    /// before, and the number of fingers on the pad.
    SwipeUpdate { dx: i64, dy: i64, finger_count: i32 },
    /// The swipe is over.
    SwipeEnd { finger_count: i32 },
    /// Fingers start to move towards or away from each other.
    PinchBegin,
    /// One sample of a pinch: the distance between the fingers relative to
    /// their distance at the start, in millionths.
    PinchUpdate { scale: i64 },
    /// The pinch is over.
    PinchEnd,
    /// Fingers rest on the pad.
    HoldBegin,
    /// The fingers have left the pad, or have started to move.
    HoldEnd,
}

impl GestureEvent {
    /// Tells whether the event closes a gesture.
    pub open spec fn is_end(self) -> bool {
        self is SwipeEnd || self is PinchEnd || self is HoldEnd
    }
}

/// What a listener asks its caller to do after an event.
#[derive(Debug, PartialEq, Eq)]
pub enum Reaction {
    /// Nothing is to be done.
    Nothing,
    /// Run the action now.
    Trigger { action: String },
    /// Run the action once, `delay_ms` milliseconds from now, unless a
    /// `Cancel` comes first.
    Schedule { delay_ms: i64, action: String },
    /// Call off the run that the listener has pending, then schedule a new
    /// one as for `Schedule`.
    Reschedule { delay_ms: i64, action: String },
    /// Call off the run that the listener has pending. Where that run has
    /// already happened, this asks for nothing.
    Cancel,
}

/// The mathematical content of a [`Reaction`].
pub enum ReactionView {
    Nothing,
    Trigger { action: Seq<char> },
    Schedule { delay_ms: int, action: Seq<char> },
    Reschedule { delay_ms: int, action: Seq<char> },
    Cancel,
}

impl View for Reaction {
    type V = ReactionView;

    open spec fn view(&self) -> ReactionView {
        match *self {
            Reaction::Nothing => ReactionView::Nothing,
            Reaction::Trigger { action } => ReactionView::Trigger { action: action@ },
            Reaction::Schedule { delay_ms, action } => ReactionView::Schedule {
                delay_ms: delay_ms as int,
                action: action@,
            },
            Reaction::Reschedule { delay_ms, action } => ReactionView::Reschedule {
                delay_ms: delay_ms as int,
                action: action@,
            },
            Reaction::Cancel => ReactionView::Cancel,
        }
    }
}

} // verus!
