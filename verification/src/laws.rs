//! What holds of the listeners in every state and for every event.

use crate::classifier::direction_of;
use crate::configuration::Direction;
use crate::event::{GestureEvent, ReactionView, NEUTRAL_SCALE};
use crate::model::{GradualView, HoldView, ListenerView, ScaleView, SwipeView, THREE_FINGERS};
use vstd::prelude::*;

verus! {

/// An idle listener takes the end of a gesture as if nothing had come: it
/// stays as it is and asks for nothing. So the same end, given twice or more,
/// never triggers an action.
pub proof fn lemma_idle_listener_ignores_end(listener: ListenerView, event: GestureEvent)
    requires
        listener.is_idle(),
        event.is_end(),
    ensures
        listener.step(event) == (listener, ReactionView::Nothing),
        listener.step(event).0.step(event) == (listener, ReactionView::Nothing),
{
}

/// An event of a kind that a listener does not pay attention to leaves the
/// listener as it is and draws no reaction.
pub proof fn lemma_unheard_event_is_ignored(listener: ListenerView, event: GestureEvent)
    requires
        !listener.hears(event),
    ensures
        listener.step(event) == (listener, ReactionView::Nothing),
{
}

/// No event changes the kind of a listener or what it is bound to, and a
/// listener never asks for another action than its own, nor for another delay
/// than its duration.
pub proof fn lemma_binding_is_kept(listener: ListenerView, event: GestureEvent)
    ensures
        listener.step(event).0.action() == listener.action(),
        listener.step(event).0.direction() == listener.direction(),
        listener.step(event).0.duration() == listener.duration(),
        listener is ThreeFingerSwipeGradual <==> listener.step(event).0 is ThreeFingerSwipeGradual,
        listener is ThreeFingerSwipe <==> listener.step(event).0 is ThreeFingerSwipe,
        listener is FourFingerSwipe <==> listener.step(event).0 is FourFingerSwipe,
        listener is Pinch <==> listener.step(event).0 is Pinch,
        listener is Spread <==> listener.step(event).0 is Spread,
        listener is Hold <==> listener.step(event).0 is Hold,
        match listener.step(event).1 {
            ReactionView::Trigger { action } => action == listener.action(),
            ReactionView::Schedule { delay_ms, action } => action == listener.action()
                && listener.duration() == Some(delay_ms),
            ReactionView::Reschedule { delay_ms, action } => action == listener.action()
                && listener.duration() == Some(delay_ms),
            _ => true,
        },
{
}

/// A swipe that ends with another number of fingers than the listener is
/// made for triggers nothing, wherever the swipe went.
pub proof fn lemma_finger_count_mismatch(state: SwipeView, fingers: int, finger_count: i32)
    requires
        finger_count != fingers,
    ensures
        state.step(fingers, GestureEvent::SwipeEnd { finger_count }).1 == ReactionView::Nothing,
{
}

/// A swipe that ends with no motion sample in it is classified as a swipe
/// down: it triggers the action of a listener bound to `Down`, given the
/// right number of fingers, and of no other.
pub proof fn lemma_empty_swipe_points_down(state: SwipeView, fingers: int, finger_count: i32)
    ensures
        ({
            let begun = state.step(fingers, GestureEvent::SwipeBegin).0;
            let reaction = begun.step(fingers, GestureEvent::SwipeEnd { finger_count }).1;
            reaction is Trigger <==> finger_count == fingers && state.direction
                == Direction::Down
        }),
{
}

/// The end of a pinch never triggers both a pinch listener and a spread
/// listener that have seen the same scale, and at neutral scale it triggers
/// neither.
pub proof fn lemma_pinch_and_spread_exclude(pinch: ScaleView, spread: ScaleView)
    requires
        pinch.scale == spread.scale,
    ensures
        !(pinch.pinch_step(GestureEvent::PinchEnd).1 is Trigger && spread.spread_step(
            GestureEvent::PinchEnd,
        ).1 is Trigger),
        pinch.scale == NEUTRAL_SCALE ==> pinch.pinch_step(GestureEvent::PinchEnd).1
            == ReactionView::Nothing && spread.spread_step(GestureEvent::PinchEnd).1
            == ReactionView::Nothing,
{
}

/// A hold listener asks for one deferred run when the hold begins, and calls
/// it off when the hold ends; after that it is idle again, in the state it
/// was in before the hold.
pub proof fn lemma_hold_cycle(state: HoldView)
    requires
        state.is_idle(),
    ensures
        state.step(GestureEvent::HoldBegin).1 == (ReactionView::Schedule {
            delay_ms: state.duration,
            action: state.action,
        }),
        state.step(GestureEvent::HoldBegin).0.step(GestureEvent::HoldEnd) == (
            state,
            ReactionView::Cancel,
        ),
{
}

/// The reactions of a hold listener keep to an order that its caller can
/// rely on: it asks for a first run only while it has none pending, replaces
/// or calls off a run only while it has one pending, and never asks for a
/// run at once. Where it asks for nothing, it has not changed.
pub proof fn lemma_hold_protocol(state: HoldView, event: GestureEvent)
    ensures
        ({
            let (next, reaction) = state.step(event);
            &&& reaction is Schedule ==> !state.armed && next.armed
            &&& reaction is Reschedule ==> state.armed && next.armed
            &&& reaction is Cancel ==> state.armed && !next.armed
            &&& reaction is Nothing ==> next == state
            &&& !(reaction is Trigger)
        }),
{
}

/// Only a hold listener asks for a run to be deferred or called off: every
/// other listener triggers its action at once or asks for nothing.
pub proof fn lemma_only_hold_defers(listener: ListenerView, event: GestureEvent)
    requires
        !(listener is Hold),
    ensures
        listener.step(event).1 is Nothing || listener.step(event).1 is Trigger,
{
}

/// Tells whether `event` is a motion sample that, taken by itself, a gradual
/// listener in `state` reacts to: three fingers, moving in the bound
/// direction.
pub open spec fn qualifies(state: GradualView, event: GestureEvent) -> bool {
    event matches GestureEvent::SwipeUpdate { dx, dy, finger_count } && finger_count
        == THREE_FINGERS && direction_of(dx as int, dy as int) == state.direction
}

/// One if the reaction runs an action at once, else zero.
pub open spec fn trigger_count(reaction: ReactionView) -> int {
    if reaction is Trigger {
        1
    } else {
        0
    }
}

/// Of three qualifying motion samples in a row, a gradual listener reacts to
/// exactly one: the one that brings its count to a multiple of three.
pub proof fn lemma_gradual_one_in_three(
    state: GradualView,
    first: GestureEvent,
    second: GestureEvent,
    third: GestureEvent,
)
    requires
        qualifies(state, first),
        qualifies(state, second),
        qualifies(state, third),
    ensures
        ({
            let (s1, r1) = state.step(first);
            let (s2, r2) = s1.step(second);
            let (s3, r3) = s2.step(third);
            &&& s3.samples == state.samples + 3
            &&& trigger_count(r1) + trigger_count(r2) + trigger_count(r3) == 1
            &&& r1 is Trigger <==> (state.samples + 1) % 3 == 0
            &&& r2 is Trigger <==> (state.samples + 2) % 3 == 0
            &&& r3 is Trigger <==> (state.samples + 3) % 3 == 0
        }),
{
}

/// The number of motion samples among `events`.
pub open spec fn motion_samples(events: Seq<GestureEvent>) -> nat
    decreases events.len(),
{
    if events.len() == 0 {
        0
    } else if events.last() is SwipeUpdate {
        motion_samples(events.drop_last()) + 1
    } else {
        motion_samples(events.drop_last())
    }
}

/// A gradual listener counts every motion sample of its life, and nothing
/// else: no event sets the count back. So the sample that follows `events`
/// triggers the action exactly where it qualifies and brings the count to a
/// multiple of three: with a listener made new, where it is the third, the
/// sixth, the ninth, and so on, of all the samples.
pub proof fn lemma_gradual_counts_every_sample(
    state: GradualView,
    events: Seq<GestureEvent>,
    next: GestureEvent,
)
    ensures
        state.run(events).samples == state.samples + motion_samples(events),
        state.run(events).direction == state.direction,
        state.run(events).action == state.action,
        next is SwipeUpdate ==> (state.run(events).step(next).1 is Trigger <==> qualifies(
            state,
            next,
        ) && (state.samples + motion_samples(events) + 1) % 3 == 0),
    decreases events.len(),
{
    if events.len() > 0 {
        lemma_gradual_counts_every_sample(state, events.drop_last(), events.last());
    }
}

/// The displacement that the motion samples among `events` add up to.
pub open spec fn total_motion(events: Seq<GestureEvent>) -> (int, int)
    decreases events.len(),
{
    if events.len() == 0 {
        (0, 0)
    } else {
        let before = total_motion(events.drop_last());
        match events.last() {
            GestureEvent::SwipeUpdate { dx, dy, .. } => (before.0 + dx, before.1 + dy),
            _ => before,
        }
    }
}

/// Tells whether a 64-bit accumulator holds `v` as it is.
pub open spec fn fits(v: int) -> bool {
    i64::MIN <= v <= i64::MAX
}

/// A swipe listener sums up the motion of a swipe exactly, as long as no sum
/// on the way leaves the range of its accumulators. After a begin and the
/// motion samples `samples`, the end of the swipe triggers the action exactly
/// where the finger count is the listener's and the summed displacement
/// points in the bound direction; and the listener is idle afterwards.
pub proof fn lemma_swipe_sums_motion(
    state: SwipeView,
    fingers: int,
    samples: Seq<GestureEvent>,
    finger_count: i32,
)
    requires
        forall|i: int| 0 <= i < samples.len() ==> samples[i] is SwipeUpdate,
        forall|k: int|
            0 <= k <= samples.len() ==> fits(#[trigger] total_motion(samples.take(k)).0) && fits(
                total_motion(samples.take(k)).1,
            ),
    ensures
        ({
            let begun = state.step(fingers, GestureEvent::SwipeBegin).0;
            let summed = begun.run(fingers, samples);
            let sum = total_motion(samples);
            let end = GestureEvent::SwipeEnd { finger_count };
            &&& summed == SwipeView { accumulator: Some(sum), ..state }
            &&& summed.step(fingers, end).0 == SwipeView { accumulator: None, ..state }
            &&& summed.step(fingers, end).1 == if finger_count == fingers && direction_of(
                sum.0,
                sum.1,
            ) == state.direction {
                ReactionView::Trigger { action: state.action }
            } else {
                ReactionView::Nothing
            }
        }),
    decreases samples.len(),
{
    if samples.len() > 0 {
        let earlier = samples.drop_last();
        assert forall|k: int| 0 <= k <= earlier.len() implies fits(
            #[trigger] total_motion(earlier.take(k)).0,
        ) && fits(total_motion(earlier.take(k)).1) by {
            assert(earlier.take(k) == samples.take(k));
        }
        lemma_swipe_sums_motion(state, fingers, earlier, finger_count);
        assert(samples.take(samples.len() as int) == samples);
    }
}

} // verus!
