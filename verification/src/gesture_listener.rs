//! The gesture listeners: one state machine for each kind of binding.

use crate::classifier::classify;
use crate::configuration::Direction;
use crate::event::{GestureEvent, Reaction, ReactionView, NEUTRAL_SCALE};
use crate::model::{
    saturate, GradualView, HoldView, ListenerView, ScaleView, SwipeView, FOUR_FINGERS,
    GRADUAL_PERIOD, THREE_FINGERS,
};
use vstd::prelude::*;

verus! {

/// What every listener can do: take one event, move to its next state, and
/// say what is to be done.
pub trait GestureListener: View {
    /// The state that follows `state` on `event`, and the reaction that the
    /// event draws.
    spec fn step(state: Self::V, event: GestureEvent) -> (Self::V, ReactionView);

    /// Feeds `event` to the listener.
    fn fire(&mut self, event: &GestureEvent) -> (reaction: Reaction)
        ensures
            final(self)@ == Self::step(old(self)@, *event).0,
            reaction@ == Self::step(old(self)@, *event).1,
    ;
}

/// Adds `b` to `a`, stopping at the bounds of the type.
fn saturating_sum(a: i64, b: i64) -> (sum: i64)
    ensures
        sum == saturate(a + b),
{
    if b >= 0 {
        if a > i64::MAX - b {
            i64::MAX
        } else {
            a + b
        }
    } else {
        if a < i64::MIN - b {
            i64::MIN
        } else {
            a + b
        }
    }
}

/// The part that the swipe listeners share: the binding and the running sum.
struct SwipeTracker {
    direction: Direction,
    action: String,
    accumulator: Option<(i64, i64)>,
}

impl View for SwipeTracker {
    type V = SwipeView;

    closed spec fn view(&self) -> SwipeView {
        SwipeView {
            direction: self.direction,
            action: self.action@,
            accumulator: match self.accumulator {
                Some((x, y)) => Some((x as int, y as int)),
                None => None,
            },
        }
    }
}

impl SwipeTracker {
    fn new(direction: Direction, action: String) -> (tracker: SwipeTracker)
        ensures
            tracker@ == SwipeView::fresh(direction, action@),
    {
        SwipeTracker { direction, action, accumulator: None }
    }

    fn consume(&mut self, fingers: i32, event: &GestureEvent) -> (reaction: Reaction)
        ensures
            final(self)@ == old(self)@.step(fingers as int, *event).0,
            reaction@ == old(self)@.step(fingers as int, *event).1,
    {
        match *event {
            GestureEvent::SwipeBegin => {
                self.accumulator = Some((0, 0));
                Reaction::Nothing
            },
            GestureEvent::SwipeUpdate { dx, dy, .. } => {
                match self.accumulator {
                    Some((x, y)) => {
                        self.accumulator = Some((saturating_sum(x, dx), saturating_sum(y, dy)));
                    },
                    None => {},
                }
                Reaction::Nothing
            },
            GestureEvent::SwipeEnd { finger_count } => {
                match self.accumulator {
                    Some((x, y)) => {
                        self.accumulator = None;
                        if finger_count == fingers && classify(x, y) == self.direction {
                            Reaction::Trigger { action: self.action.clone() }
                        } else {
                            Reaction::Nothing
                        }
                    },
                    None => Reaction::Nothing,
                }
            },
            _ => Reaction::Nothing,
        }
    }
}

/// Listens for a swipe of three fingers in one direction.
pub struct ThreeFingerSwipeListener {
    tracker: SwipeTracker,
}

impl View for ThreeFingerSwipeListener {
    type V = SwipeView;

    closed spec fn view(&self) -> SwipeView {
        self.tracker@
    }
}

impl ThreeFingerSwipeListener {
    /// A listener bound to `direction` and `action`, with no swipe under way.
    pub fn new(direction: Direction, action: String) -> (listener: Self)
        ensures
            listener@ == SwipeView::fresh(direction, action@),
    {
        ThreeFingerSwipeListener { tracker: SwipeTracker::new(direction, action) }
    }
}

impl GestureListener for ThreeFingerSwipeListener {
    open spec fn step(state: SwipeView, event: GestureEvent) -> (SwipeView, ReactionView) {
        state.step(THREE_FINGERS as int, event)
    }

    fn fire(&mut self, event: &GestureEvent) -> (reaction: Reaction) {
        self.tracker.consume(THREE_FINGERS, event)
    }
}

/// Listens for a swipe of four fingers in one direction.
pub struct FourFingerSwipeListener {
    tracker: SwipeTracker,
}

impl View for FourFingerSwipeListener {
    type V = SwipeView;

    closed spec fn view(&self) -> SwipeView {
        self.tracker@
    }
}

impl FourFingerSwipeListener {
    /// A listener bound to `direction` and `action`, with no swipe under way.
    pub fn new(direction: Direction, action: String) -> (listener: Self)
        ensures
            listener@ == SwipeView::fresh(direction, action@),
    {
        FourFingerSwipeListener { tracker: SwipeTracker::new(direction, action) }
    }
}

impl GestureListener for FourFingerSwipeListener {
    open spec fn step(state: SwipeView, event: GestureEvent) -> (SwipeView, ReactionView) {
        state.step(FOUR_FINGERS as int, event)
    }

    fn fire(&mut self, event: &GestureEvent) -> (reaction: Reaction) {
        self.tracker.consume(FOUR_FINGERS, event)
    }
}

/// A count of samples without an upper bound. The count itself is ghost; at
/// run time the counter keeps its remainder by the period of the gradual
/// swipe, which is all that a listener asks of it.
struct SampleCounter {
    phase: u8,
    samples: Ghost<nat>,
}

impl SampleCounter {
    #[verifier::type_invariant]
    spec fn consistent(self) -> bool {
        self.phase as nat == self.samples@ % (GRADUAL_PERIOD as nat)
    }

    spec fn count(self) -> nat {
        self.samples@
    }

    fn new() -> (counter: SampleCounter)
        ensures
            counter.count() == 0,
    {
        SampleCounter { phase: 0, samples: Ghost(0) }
    }

    /// Counts one more sample, and tells whether the count has come to a
    /// multiple of the period.
    fn tick(&mut self) -> (due: bool)
        ensures
            final(self).count() == old(self).count() + 1,
            due == (final(self).count() % (GRADUAL_PERIOD as nat) == 0),
    {
        proof {
            use_type_invariant(&*self);
        }
        let next: u8 = if self.phase + 1 >= GRADUAL_PERIOD {
            0
        } else {
            self.phase + 1
        };
        *self = SampleCounter { phase: next, samples: Ghost(self.samples@ + 1) };
        next == 0
    }
}

/// Listens for a lasting swipe of three fingers in one direction, and
/// triggers its action again and again while the swipe goes on.
pub struct ThreeFingerSwipeGradualListener {
    direction: Direction,
    action: String,
    count: SampleCounter,
}

impl View for ThreeFingerSwipeGradualListener {
    type V = GradualView;

    closed spec fn view(&self) -> GradualView {
        GradualView {
            direction: self.direction,
            action: self.action@,
            samples: self.count.count(),
        }
    }
}

impl ThreeFingerSwipeGradualListener {
    /// A listener bound to `direction` and `action` that has counted no
    /// sample.
    pub fn new(direction: Direction, action: String) -> (listener: Self)
        ensures
            listener@ == GradualView::fresh(direction, action@),
    {
        ThreeFingerSwipeGradualListener { direction, action, count: SampleCounter::new() }
    }
}

impl GestureListener for ThreeFingerSwipeGradualListener {
    open spec fn step(state: GradualView, event: GestureEvent) -> (GradualView, ReactionView) {
        state.step(event)
    }

    fn fire(&mut self, event: &GestureEvent) -> (reaction: Reaction) {
        match *event {
            GestureEvent::SwipeUpdate { dx, dy, finger_count } => {
                let direction = classify(dx, dy);
                let due = self.count.tick();
                if self.direction == direction && finger_count == THREE_FINGERS && due {
                    Reaction::Trigger { action: self.action.clone() }
                } else {
                    Reaction::Nothing
                }
            },
            _ => Reaction::Nothing,
        }
    }
}

/// The part that the pinch and the spread listener share: the binding and
/// the scale last seen.
struct ScaleTracker {
    action: String,
    scale: i64,
}

impl View for ScaleTracker {
    type V = ScaleView;

    closed spec fn view(&self) -> ScaleView {
        ScaleView { action: self.action@, scale: self.scale as int }
    }
}

impl ScaleTracker {
    fn new(action: String) -> (tracker: ScaleTracker)
        ensures
            tracker@ == ScaleView::fresh(action@),
    {
        ScaleTracker { action, scale: NEUTRAL_SCALE }
    }

    /// Takes `event` in, and returns the scale as it was before.
    fn consume(&mut self, event: &GestureEvent) -> (before: i64)
        ensures
            final(self)@ == old(self)@.track(*event),
            before == old(self)@.scale,
    {
        let before = self.scale;
        match *event {
            GestureEvent::PinchBegin => {
                self.scale = NEUTRAL_SCALE;
            },
            GestureEvent::PinchUpdate { scale } => {
                self.scale = scale;
            },
            _ => {},
        }
        before
    }
}

/// Listens for fingers that close on each other.
pub struct PinchListener {
    tracker: ScaleTracker,
}

impl View for PinchListener {
    type V = ScaleView;

    closed spec fn view(&self) -> ScaleView {
        self.tracker@
    }
}

impl PinchListener {
    /// A listener bound to `action`, at neutral scale.
    pub fn new(action: String) -> (listener: Self)
        ensures
            listener@ == ScaleView::fresh(action@),
    {
        PinchListener { tracker: ScaleTracker::new(action) }
    }
}

impl GestureListener for PinchListener {
    open spec fn step(state: ScaleView, event: GestureEvent) -> (ScaleView, ReactionView) {
        state.pinch_step(event)
    }

    fn fire(&mut self, event: &GestureEvent) -> (reaction: Reaction) {
        let scale = self.tracker.consume(event);
        match *event {
            GestureEvent::PinchEnd => {
                if scale < NEUTRAL_SCALE {
                    Reaction::Trigger { action: self.tracker.action.clone() }
                } else {
                    Reaction::Nothing
                }
            },
            _ => Reaction::Nothing,
        }
    }
}

/// Listens for fingers that move away from each other.
pub struct SpreadListener {
    tracker: ScaleTracker,
}

impl View for SpreadListener {
    type V = ScaleView;

    closed spec fn view(&self) -> ScaleView {
        self.tracker@
    }
}

impl SpreadListener {
    /// A listener bound to `action`, at neutral scale.
    pub fn new(action: String) -> (listener: Self)
        ensures
            listener@ == ScaleView::fresh(action@),
    {
        SpreadListener { tracker: ScaleTracker::new(action) }
    }
}

impl GestureListener for SpreadListener {
    open spec fn step(state: ScaleView, event: GestureEvent) -> (ScaleView, ReactionView) {
        state.spread_step(event)
    }

    fn fire(&mut self, event: &GestureEvent) -> (reaction: Reaction) {
        let scale = self.tracker.consume(event);
        match *event {
            GestureEvent::PinchEnd => {
                if scale > NEUTRAL_SCALE {
                    Reaction::Trigger { action: self.tracker.action.clone() }
                } else {
                    Reaction::Nothing
                }
            },
            _ => Reaction::Nothing,
        }
    }
}

/// Listens for fingers that rest on the pad for a given time.
pub struct HoldListener {
    action: String,
    duration: i64,
    armed: bool,
}

impl View for HoldListener {
    type V = HoldView;

    closed spec fn view(&self) -> HoldView {
        HoldView { action: self.action@, duration: self.duration as int, armed: self.armed }
    }
}

impl HoldListener {
    /// A listener bound to `action` after `duration` milliseconds, not armed.
    pub fn new(action: String, duration: i64) -> (listener: Self)
        ensures
            listener@ == HoldView::fresh(action@, duration as int),
    {
        HoldListener { action, duration, armed: false }
    }
}

impl GestureListener for HoldListener {
    open spec fn step(state: HoldView, event: GestureEvent) -> (HoldView, ReactionView) {
        state.step(event)
    }

    fn fire(&mut self, event: &GestureEvent) -> (reaction: Reaction) {
        match *event {
            GestureEvent::HoldBegin => {
                let pending = self.armed;
                self.armed = true;
                if pending {
                    Reaction::Reschedule { delay_ms: self.duration, action: self.action.clone() }
                } else {
                    Reaction::Schedule { delay_ms: self.duration, action: self.action.clone() }
                }
            },
            GestureEvent::HoldEnd => {
                if self.armed {
                    self.armed = false;
                    Reaction::Cancel
                } else {
                    Reaction::Nothing
                }
            },
            _ => Reaction::Nothing,
        }
    }
}

/// A listener of any of the six kinds.
pub enum Listener {
    ThreeFingerSwipeGradual(ThreeFingerSwipeGradualListener),
    ThreeFingerSwipe(ThreeFingerSwipeListener),
    FourFingerSwipe(FourFingerSwipeListener),
    Pinch(PinchListener),
    Spread(SpreadListener),
    Hold(HoldListener),
}

impl View for Listener {
    type V = ListenerView;

    open spec fn view(&self) -> ListenerView {
        match *self {
            Listener::ThreeFingerSwipeGradual(l) => ListenerView::ThreeFingerSwipeGradual(l@),
            Listener::ThreeFingerSwipe(l) => ListenerView::ThreeFingerSwipe(l@),
            Listener::FourFingerSwipe(l) => ListenerView::FourFingerSwipe(l@),
            Listener::Pinch(l) => ListenerView::Pinch(l@),
            Listener::Spread(l) => ListenerView::Spread(l@),
            Listener::Hold(l) => ListenerView::Hold(l@),
        }
    }
}

impl GestureListener for Listener {
    open spec fn step(state: ListenerView, event: GestureEvent) -> (ListenerView, ReactionView) {
        state.step(event)
    }

    fn fire(&mut self, event: &GestureEvent) -> (reaction: Reaction) {
        match self {
            Listener::ThreeFingerSwipeGradual(l) => l.fire(event),
            Listener::ThreeFingerSwipe(l) => l.fire(event),
            Listener::FourFingerSwipe(l) => l.fire(event),
            Listener::Pinch(l) => l.fire(event),
            Listener::Spread(l) => l.fire(event),
            Listener::Hold(l) => l.fire(event),
        }
    }
}

} // verus!
