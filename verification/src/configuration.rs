//! The gesture bindings that a configuration names.

use crate::gesture_listener::{
    FourFingerSwipeListener, HoldListener, Listener, PinchListener, SpreadListener,
    ThreeFingerSwipeGradualListener, ThreeFingerSwipeListener,
};
use crate::model::{GradualView, HoldView, ListenerView, ScaleView, SwipeView};
use vstd::prelude::*;

verus! {

/// One of the four cardinal directions of a swipe.
#[derive(Clone, Copy, Debug, PartialEq, Eq, Structural)]
pub enum Direction {
    Down,
    Up,
    Left,
    Right,
}

/// One binding: a kind of gesture, what the kind needs to know, and the
/// action to run when the gesture is seen.
#[derive(Debug, PartialEq, Eq)]
pub enum Gesture {
    ThreeFingerSwipeGradual { direction: Direction, action: String },
    ThreeFingerSwipe { direction: Direction, action: String },
    FourFingerSwipe { direction: Direction, action: String },
    Pinch { action: String },
    Spread { action: String },
    /// `duration` is in milliseconds.
    Hold { duration: i64, action: String },
}

/// The bindings of one configuration, in the order in which it names them.
#[derive(Debug, PartialEq, Eq)]
pub struct Config {
    pub gestures: Vec<Gesture>,
}

impl Gesture {
    /// The state of the listener that the binding asks for, before any
    /// event.
    pub open spec fn listener(self) -> ListenerView {
        match self {
            Gesture::ThreeFingerSwipeGradual { direction, action } => {
                ListenerView::ThreeFingerSwipeGradual(GradualView::fresh(direction, action@))
            },
            Gesture::ThreeFingerSwipe { direction, action } => {
                ListenerView::ThreeFingerSwipe(SwipeView::fresh(direction, action@))
            },
            Gesture::FourFingerSwipe { direction, action } => {
                ListenerView::FourFingerSwipe(SwipeView::fresh(direction, action@))
            },
            Gesture::Pinch { action } => ListenerView::Pinch(ScaleView::fresh(action@)),
            Gesture::Spread { action } => ListenerView::Spread(ScaleView::fresh(action@)),
            Gesture::Hold { duration, action } => {
                ListenerView::Hold(HoldView::fresh(action@, duration as int))
            },
        }
    }

    /// Makes the listener that the binding asks for.
    pub fn listen(self) -> (listener: Listener)
        ensures
            listener@ == self.listener(),
    {
        match self {
            Gesture::ThreeFingerSwipeGradual { direction, action } => {
                Listener::ThreeFingerSwipeGradual(
                    ThreeFingerSwipeGradualListener::new(direction, action),
                )
            },
            Gesture::ThreeFingerSwipe { direction, action } => {
                Listener::ThreeFingerSwipe(ThreeFingerSwipeListener::new(direction, action))
            },
            Gesture::FourFingerSwipe { direction, action } => {
                Listener::FourFingerSwipe(FourFingerSwipeListener::new(direction, action))
            },
            Gesture::Pinch { action } => Listener::Pinch(PinchListener::new(action)),
            Gesture::Spread { action } => Listener::Spread(SpreadListener::new(action)),
            Gesture::Hold { duration, action } => Listener::Hold(
                HoldListener::new(action, duration),
            ),
        }
    }
}

} // verus!
