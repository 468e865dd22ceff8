use vstd::prelude::*;
use crate::events::event_listener::{called, delivered, EventListener, Notification};

verus! {

/// One discrete occurrence: a payload that never changes, and a flag that
/// says whether a listener has consumed it.
pub trait Event: Sized {
    /// The call that `dispatch` makes: the capability method that stands for
    /// this kind of event, with the payload of this event.
    spec fn notification(&self) -> Notification;

    /// Whether a listener has consumed this event.
    spec fn handled(&self) -> bool;

    /// An event that cannot be consumed never counts as handled.
    proof fn lemma_handled_is_consumable(&self)
        ensures
            self.handled() ==> self.notification().consumable(),
    ;

    fn is_handled(&self) -> (handled: bool)
        ensures
            handled == self.handled(),
    ;

    /// Says which call `dispatch` makes.
    fn call(&self) -> (call: Notification)
        ensures
            call == self.notification(),
    ;

    /// Makes the one call `self.notification()` on `listener`: the method of
    /// the listener that stands for this kind of event is called once, with
    /// the payload of this event. Where the event can be consumed, its flag
    /// becomes what the listener returned.
    ///
    /// An event that a listener has consumed must not be dispatched again.
    fn dispatch<L: EventListener>(&mut self, listener: &mut L)
        requires
            !old(self).handled(),
        ensures
            final(self).notification() == old(self).notification(),
            exists|m: &mut L|
                *m == *old(listener) && *final(m) == *final(listener) && called(
                    m,
                    old(self).notification(),
                    final(self).handled(),
                ),
            delivered(
                *old(listener),
                old(self).notification(),
                *final(listener),
                final(self).handled(),
            ),
            !old(self).notification().consumable() ==> *final(self) == *old(self),
    ;
}

} // verus!
