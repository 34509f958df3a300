//! The dispatcher: every event goes to every listener.

use crate::configuration::Gesture;
use crate::event::{GestureEvent, Reaction};
use crate::gesture_listener::{GestureListener, Listener};
use crate::model::ListenerView;
use vstd::prelude::*;

verus! {

/// The states of the listeners that `gestures` asks for, in the same order.
pub open spec fn listeners_of(gestures: Seq<Gesture>) -> Seq<ListenerView> {
    Seq::new(gestures.len(), |i: int| gestures[i].listener())
}

/// The states that follow `listeners` when each of them takes `event`.
pub open spec fn states_after(listeners: Seq<ListenerView>, event: GestureEvent) -> Seq<
    ListenerView,
> {
    Seq::new(listeners.len(), |i: int| listeners[i].step(event).0)
}

/// Holds the listeners of a configuration and feeds them events.
pub struct GestureEventHandler {
    listeners: Vec<Listener>,
}

impl View for GestureEventHandler {
    type V = Seq<ListenerView>;

    closed spec fn view(&self) -> Seq<ListenerView> {
        Seq::new(self.listeners@.len(), |i: int| self.listeners@[i]@)
    }
}

impl GestureEventHandler {
    /// Makes one listener for each binding, in the order of the bindings.
    pub fn new(gestures: Vec<Gesture>) -> (handler: Self)
        ensures
            handler@ == listeners_of(gestures@),
    {
        let ghost bindings = gestures@;
        let mut listeners: Vec<Listener> = Vec::new();
        for gesture in it: gestures
            invariant
                it.seq() == bindings,
                listeners@.len() == it.index(),
                forall|k: int|
                    0 <= k < listeners@.len() ==> (#[trigger] listeners@[k])@
                        == bindings[k].listener(),
        {
            listeners.push(gesture.listen());
        }
        let handler = GestureEventHandler { listeners };
        assert(handler@ =~= listeners_of(bindings));
        handler
    }

    /// Feeds `event` to every listener, in the order of the bindings, and
    /// returns what each of them asks for, in that order: the reaction at an
    /// index is that of the listener made for the binding at that index.
    pub fn process_event(&mut self, event: GestureEvent) -> (reactions: Vec<Reaction>)
        ensures
            final(self)@ == states_after(old(self)@, event),
            reactions@.len() == old(self)@.len(),
            forall|i: int|
                0 <= i < reactions@.len() ==> (#[trigger] reactions@[i])@ == old(self)@[i].step(
                    event,
                ).1,
    {
        let mut reactions: Vec<Reaction> = Vec::new();
        let mut i: usize = 0;
        while i < self.listeners.len()
            invariant
                i <= self.listeners@.len(),
                self.listeners@.len() == old(self).listeners@.len(),
                reactions@.len() == i,
                forall|k: int|
                    0 <= k < i ==> (#[trigger] self.listeners@[k])@ == old(self).listeners@[k]@.step(
                        event,
                    ).0,
                forall|k: int|
                    0 <= k < i ==> (#[trigger] reactions@[k])@ == old(self).listeners@[k]@.step(
                        event,
                    ).1,
                forall|k: int|
                    i <= k < self.listeners@.len() ==> self.listeners@[k] == old(
                        self,
                    ).listeners@[k],
            decreases self.listeners@.len() - i,
        {
            let reaction = self.listeners[i].fire(&event);
            reactions.push(reaction);
            i += 1;
        }
        assert(self@ =~= states_after(old(self)@, event));
        reactions
    }
}

} // verus!
