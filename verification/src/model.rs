//! The listeners as mathematical state machines.
//!
//! Each kind of listener has a state here, made of unbounded integers and
//! sequences, and a transition function from a state and an event to the
//! state that follows and the reaction that the event draws. The executable
//! listeners are specified against these functions.

use crate::classifier::direction_of;
use crate::configuration::Direction;
use crate::event::{GestureEvent, ReactionView, NEUTRAL_SCALE};
use vstd::prelude::*;

verus! {

/// The number of fingers that the three-finger listeners react to.
pub const THREE_FINGERS: i32 = 3;

/// The number of fingers that the four-finger listener reacts to.
pub const FOUR_FINGERS: i32 = 4;

/// A gradual swipe listener runs its action on no other motion samples than
/// those whose number, counted from one, is a multiple of this.
pub const GRADUAL_PERIOD: u8 = 3;

/// The value that an accumulator holds for the exact sum `v`: the sum itself
/// where a 64-bit signed integer can hold it, else the nearest bound.
pub open spec fn saturate(v: int) -> int {
    if v > i64::MAX {
        i64::MAX as int
    } else if v < i64::MIN {
        i64::MIN as int
    } else {
        v
    }
}

/// The state of a swipe listener.
pub struct SwipeView {
    /// The direction that the listener is bound to.
    pub direction: Direction,
    /// The action that the listener is bound to.
    pub action: Seq<char>,
    /// The displacement summed up since the swipe began, or `None` while no
    /// swipe is under way.
    pub accumulator: Option<(int, int)>,
}

impl SwipeView {
    /// The state of a listener that has seen no event.
    pub open spec fn fresh(direction: Direction, action: Seq<char>) -> SwipeView {
        SwipeView { direction, action, accumulator: None }
    }

    /// Tells whether no swipe is under way.
    pub open spec fn is_idle(self) -> bool {
        self.accumulator is None
    }

    /// The transition of a listener that reacts to swipes of `fingers`
    /// fingers.
    ///
    /// A begin starts a new sum at zero. An update adds its displacement to
    /// the sum of the swipe under way. An end closes the swipe, and triggers
    /// the action where the finger count is `fingers` and the sum points in
    /// the bound direction. An update or an end with no swipe under way, and
    /// an event of another family, change nothing and draw no reaction.
    pub open spec fn step(self, fingers: int, event: GestureEvent) -> (SwipeView, ReactionView) {
        match event {
            GestureEvent::SwipeBegin => (
                SwipeView { accumulator: Some((0int, 0int)), ..self },
                ReactionView::Nothing,
            ),
            GestureEvent::SwipeUpdate { dx, dy, .. } => match self.accumulator {
                Some((x, y)) => (
                    SwipeView { accumulator: Some((saturate(x + dx), saturate(y + dy))), ..self },
                    ReactionView::Nothing,
                ),
                None => (self, ReactionView::Nothing),
            },
            GestureEvent::SwipeEnd { finger_count } => match self.accumulator {
                Some((x, y)) => (
                    SwipeView { accumulator: None, ..self },
                    if finger_count == fingers && direction_of(x, y) == self.direction {
                        ReactionView::Trigger { action: self.action }
                    } else {
                        ReactionView::Nothing
                    },
                ),
                None => (self, ReactionView::Nothing),
            },
            _ => (self, ReactionView::Nothing),
        }
    }

    /// The state after the events of `events`, taken in order.
    pub open spec fn run(self, fingers: int, events: Seq<GestureEvent>) -> SwipeView
        decreases events.len(),
    {
        if events.len() == 0 {
            self
        } else {
            self.run(fingers, events.drop_last()).step(fingers, events.last()).0
        }
    }
}

/// The state of a gradual swipe listener.
pub struct GradualView {
    /// The direction that the listener is bound to.
    pub direction: Direction,
    /// The action that the listener is bound to.
    pub action: Seq<char>,
    /// The number of motion samples seen since the listener was made.
    pub samples: nat,
}

impl GradualView {
    /// The state of a listener that has seen no event.
    pub open spec fn fresh(direction: Direction, action: Seq<char>) -> GradualView {
        GradualView { direction, action, samples: 0 }
    }

    /// The transition of a gradual swipe listener.
    ///
    /// Every motion sample is counted, whatever it holds and whether or not a
    /// swipe has begun. The sample triggers the action where it points by
    /// itself in the bound direction, three fingers are down, and the count,
    /// this sample included, is a multiple of three. Other events change
    /// nothing and draw no reaction.
    pub open spec fn step(self, event: GestureEvent) -> (GradualView, ReactionView) {
        match event {
            GestureEvent::SwipeUpdate { dx, dy, finger_count } => (
                GradualView { samples: self.samples + 1, ..self },
                if direction_of(dx as int, dy as int) == self.direction && finger_count
                    == THREE_FINGERS && (self.samples + 1) % (GRADUAL_PERIOD as nat) == 0 {
                    ReactionView::Trigger { action: self.action }
                } else {
                    ReactionView::Nothing
                },
            ),
            _ => (self, ReactionView::Nothing),
        }
    }

    /// The state after the events of `events`, taken in order.
    pub open spec fn run(self, events: Seq<GestureEvent>) -> GradualView
        decreases events.len(),
    {
        if events.len() == 0 {
            self
        } else {
            self.run(events.drop_last()).step(events.last()).0
        }
    }
}

/// The state of a pinch listener or of a spread listener.
pub struct ScaleView {
    /// The action that the listener is bound to.
    pub action: Seq<char>,
    /// The scale factor last seen, in millionths.
    pub scale: int,
}

impl ScaleView {
    /// The state of a listener that has seen no event.
    pub open spec fn fresh(action: Seq<char>) -> ScaleView {
        ScaleView { action, scale: NEUTRAL_SCALE as int }
    }

    /// The state after `event`: a begin puts the scale back to neutral, an
    /// update overwrites it, and every other event leaves it as it is.
    pub open spec fn track(self, event: GestureEvent) -> ScaleView {
        match event {
            GestureEvent::PinchBegin => ScaleView { scale: NEUTRAL_SCALE as int, ..self },
            GestureEvent::PinchUpdate { scale } => ScaleView { scale: scale as int, ..self },
            _ => self,
        }
    }

    /// The transition of a pinch listener: the end of a pinch triggers the
    /// action where the fingers have closed, that is where the scale is below
    /// neutral.
    pub open spec fn pinch_step(self, event: GestureEvent) -> (ScaleView, ReactionView) {
        (
            self.track(event),
            if event is PinchEnd && self.scale < NEUTRAL_SCALE {
                ReactionView::Trigger { action: self.action }
            } else {
                ReactionView::Nothing
            },
        )
    }

    /// The transition of a spread listener: the end of a pinch triggers the
    /// action where the fingers have opened, that is where the scale is above
    /// neutral.
    pub open spec fn spread_step(self, event: GestureEvent) -> (ScaleView, ReactionView) {
        (
            self.track(event),
            if event is PinchEnd && self.scale > NEUTRAL_SCALE {
                ReactionView::Trigger { action: self.action }
            } else {
                ReactionView::Nothing
            },
        )
    }
}

/// The state of a hold listener.
pub struct HoldView {
    /// The action that the listener is bound to.
    pub action: Seq<char>,
    /// The time that the fingers have to rest, in milliseconds.
    pub duration: int,
    /// Whether the listener has asked for a deferred run and has not called
    /// it off since.
    pub armed: bool,
}

impl HoldView {
    /// The state of a listener that has seen no event.
    pub open spec fn fresh(action: Seq<char>, duration: int) -> HoldView {
        HoldView { action, duration, armed: false }
    }

    /// Tells whether the listener has no deferred run to call off.
    pub open spec fn is_idle(self) -> bool {
        !self.armed
    }

    /// The transition of a hold listener.
    ///
    /// A begin arms the listener and asks for the action to run after the
    /// bound duration; where the listener is armed already, the run that it
    /// asked for before is called off first. An end disarms an armed
    /// listener and calls the run off. The run itself is no event: a
    /// listener stays armed until the end comes. An end on an idle listener,
    /// and an event of another family, change nothing and draw no reaction.
    pub open spec fn step(self, event: GestureEvent) -> (HoldView, ReactionView) {
        match event {
            GestureEvent::HoldBegin => (
                HoldView { armed: true, ..self },
                if self.armed {
                    ReactionView::Reschedule { delay_ms: self.duration, action: self.action }
                } else {
                    ReactionView::Schedule { delay_ms: self.duration, action: self.action }
                },
            ),
            GestureEvent::HoldEnd => if self.armed {
                (HoldView { armed: false, ..self }, ReactionView::Cancel)
            } else {
                (self, ReactionView::Nothing)
            },
            _ => (self, ReactionView::Nothing),
        }
    }
}

/// The state of a listener of any kind.
pub enum ListenerView {
    ThreeFingerSwipeGradual(GradualView),
    ThreeFingerSwipe(SwipeView),
    FourFingerSwipe(SwipeView),
    Pinch(ScaleView),
    Spread(ScaleView),
    Hold(HoldView),
}

impl ListenerView {
    /// The transition of the listener, by its kind.
    pub open spec fn step(self, event: GestureEvent) -> (ListenerView, ReactionView) {
        match self {
            ListenerView::ThreeFingerSwipeGradual(s) => (
                ListenerView::ThreeFingerSwipeGradual(s.step(event).0),
                s.step(event).1,
            ),
            ListenerView::ThreeFingerSwipe(s) => (
                ListenerView::ThreeFingerSwipe(s.step(THREE_FINGERS as int, event).0),
                s.step(THREE_FINGERS as int, event).1,
            ),
            ListenerView::FourFingerSwipe(s) => (
                ListenerView::FourFingerSwipe(s.step(FOUR_FINGERS as int, event).0),
                s.step(FOUR_FINGERS as int, event).1,
            ),
            ListenerView::Pinch(s) => (
                ListenerView::Pinch(s.pinch_step(event).0),
                s.pinch_step(event).1,
            ),
            ListenerView::Spread(s) => (
                ListenerView::Spread(s.spread_step(event).0),
                s.spread_step(event).1,
            ),
            ListenerView::Hold(s) => (ListenerView::Hold(s.step(event).0), s.step(event).1),
        }
    }

    /// Tells whether the listener is known to have no gesture under way: a
    /// swipe listener with no swipe begun, a hold listener that is not armed,
    /// or a gradual listener, which follows no gesture from its begin to its
    /// end. The state of a pinch or spread listener does not tell whether a
    /// pinch is under way, so such a listener is never known to be idle.
    pub open spec fn is_idle(self) -> bool {
        match self {
            ListenerView::ThreeFingerSwipeGradual(_) => true,
            ListenerView::ThreeFingerSwipe(s) => s.is_idle(),
            ListenerView::FourFingerSwipe(s) => s.is_idle(),
            ListenerView::Hold(s) => s.is_idle(),
            ListenerView::Pinch(_) | ListenerView::Spread(_) => false,
        }
    }

    /// Tells whether `event` is of a kind that the listener pays attention
    /// to: the three stages of a swipe for a swipe listener, motion samples
    /// for a gradual one, the three stages of a pinch for a pinch or a spread
    /// listener, and the two stages of a hold for a hold listener.
    pub open spec fn hears(self, event: GestureEvent) -> bool {
        match self {
            ListenerView::ThreeFingerSwipeGradual(_) => event is SwipeUpdate,
            ListenerView::ThreeFingerSwipe(_) | ListenerView::FourFingerSwipe(_) => {
                event is SwipeBegin || event is SwipeUpdate || event is SwipeEnd
            },
            ListenerView::Pinch(_) | ListenerView::Spread(_) => {
                event is PinchBegin || event is PinchUpdate || event is PinchEnd
            },
            ListenerView::Hold(_) => event is HoldBegin || event is HoldEnd,
        }
    }

    /// The direction that the listener is bound to, where it is of a kind
    /// that is bound to one.
    pub open spec fn direction(self) -> Option<Direction> {
        match self {
            ListenerView::ThreeFingerSwipeGradual(s) => Some(s.direction),
            ListenerView::ThreeFingerSwipe(s) => Some(s.direction),
            ListenerView::FourFingerSwipe(s) => Some(s.direction),
            _ => None,
        }
    }

    /// The duration that the listener is bound to, in milliseconds, where it
    /// is of the kind that is bound to one.
    pub open spec fn duration(self) -> Option<int> {
        match self {
            ListenerView::Hold(s) => Some(s.duration),
            _ => None,
        }
    }

    /// The action that the listener is bound to.
    pub open spec fn action(self) -> Seq<char> {
        match self {
            ListenerView::ThreeFingerSwipeGradual(s) => s.action,
            ListenerView::ThreeFingerSwipe(s) => s.action,
            ListenerView::FourFingerSwipe(s) => s.action,
            ListenerView::Pinch(s) => s.action,
            ListenerView::Spread(s) => s.action,
            ListenerView::Hold(s) => s.action,
        }
    }
}

} // verus!
