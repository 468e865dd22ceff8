use vstd::prelude::*;
use crate::events::event_listener::{EventListener, Notification};

verus! {

/// A pluggable unit of application behaviour: a listener that a layer stack
/// owns, tells when it joins and leaves the stack, and calls once per frame to
/// update and to render.
pub trait Layer: EventListener {
    /// Called once, when the layer has joined a stack.
    fn on_attach(&mut self)
        ensures
            old(self).reacts(Notification::Attach, final(self), false)
                || *final(self) == *old(self),
        default_ensures
            *final(self) == *old(self),
    {
    }

    /// Called once, when the layer leaves its stack or the stack goes away.
    /// It may run while the stack is being dropped, so it must not unwind.
    fn on_detach(&mut self)
        ensures
            old(self).reacts(Notification::Detach, final(self), false)
                || *final(self) == *old(self),
        default_ensures
            *final(self) == *old(self),
        opens_invariants none
        no_unwind
    {
    }
}

/// Whether the attach hook was called on the layer behind `m`. `*m` is the
/// layer as the call found it; what the call left behind is whatever
/// `on_attach` of `L` ensures.
#[verifier::inline]
pub open spec fn attach_called<L: Layer>(m: &mut L) -> bool {
    call_ensures(L::on_attach, (m,), ())
}

/// Whether the detach hook was called on the layer behind `m`.
#[verifier::inline]
pub open spec fn detach_called<L: Layer>(m: &mut L) -> bool {
    call_ensures(L::on_detach, (m,), ())
}

} // verus!
