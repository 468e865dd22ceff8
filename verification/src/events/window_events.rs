use vstd::prelude::*;
use crate::events::event::Event;
use crate::events::event_box::EventBox;
use crate::events::event_listener::{EventListener, Notification};

verus! {

// The events of the window's lifecycle reach every listener: nobody can
// consume them, so they never count as handled.

/// The user asked for the window to be closed.
#[derive(Debug)]
pub struct WindowClosedEvent;

impl WindowClosedEvent {
    pub fn new() -> (event: EventBox)
        ensures
            event is WindowClosed,
            event.notification() == Notification::WindowClosed,
            !event.handled(),
    {
        EventBox::WindowClosed(WindowClosedEvent)
    }
}

impl Event for WindowClosedEvent {
    open spec fn notification(&self) -> Notification {
        Notification::WindowClosed
    }

    open spec fn handled(&self) -> bool {
        false
    }

    proof fn lemma_handled_is_consumable(&self) {
    }

    fn is_handled(&self) -> (handled: bool) {
        false
    }

    fn call(&self) -> (call: Notification) {
        Notification::WindowClosed
    }

    fn dispatch<L: EventListener>(&mut self, listener: &mut L) {
        listener.on_window_closed();
    }
}

/// The window's client area has a new size.
#[derive(Debug)]
pub struct WindowResizedEvent {
    width: u32,
    height: u32,
}

impl WindowResizedEvent {
    pub fn new(width: u32, height: u32) -> (event: EventBox)
        ensures
            event is WindowResized,
            event.notification() == (Notification::WindowResize { width, height }),
            !event.handled(),
    {
        EventBox::WindowResized(WindowResizedEvent { width, height })
    }

    /// The call that an event of this kind makes is `on_window_resize`.
    pub proof fn lemma_call(&self)
        ensures
            self.notification() is WindowResize,
    {
    }
}

impl Event for WindowResizedEvent {
    closed spec fn notification(&self) -> Notification {
        Notification::WindowResize { width: self.width, height: self.height }
    }

    open spec fn handled(&self) -> bool {
        false
    }

    proof fn lemma_handled_is_consumable(&self) {
    }

    fn is_handled(&self) -> (handled: bool) {
        false
    }

    fn call(&self) -> (call: Notification) {
        Notification::WindowResize { width: self.width, height: self.height }
    }

    fn dispatch<L: EventListener>(&mut self, listener: &mut L) {
        listener.on_window_resize(self.width, self.height);
    }
}

} // verus!
