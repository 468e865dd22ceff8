use vstd::prelude::*;
use crate::events::application_events::{AppRenderEvent, AppUpdateEvent};
use crate::events::event::Event;
use crate::events::event_listener::{EventListener, Notification};
use crate::events::keyboard_events::{CharWrittenEvent, KeyPressedEvent, KeyReleasedEvent};
use crate::events::mouse_events::{
    MouseMovedEvent, MousePressedEvent, MouseReleasedEvent, MouseScrolledEvent,
};
use crate::events::window_events::{WindowClosedEvent, WindowResizedEvent};

verus! {

/// An event of any kind: what a queue holds and what the engine dispatches.
/// Each kind of event stands for one method of a listener, which `dispatch`
/// calls; `lemma_call_of_kind` says which.
#[derive(Debug)]
pub enum EventBox {
    AppUpdate(AppUpdateEvent),
    AppRender(AppRenderEvent),
    WindowClosed(WindowClosedEvent),
    WindowResized(WindowResizedEvent),
    KeyPressed(KeyPressedEvent),
    KeyReleased(KeyReleasedEvent),
    CharWritten(CharWrittenEvent),
    MousePressed(MousePressedEvent),
    MouseReleased(MouseReleasedEvent),
    MouseMoved(MouseMovedEvent),
    MouseScrolled(MouseScrolledEvent),
}

impl EventBox {
    /// Each kind of event makes the call of its own kind.
    pub proof fn lemma_call_of_kind(&self)
        ensures
            match self {
                EventBox::AppUpdate(_) => self.notification() is Update,
                EventBox::AppRender(_) => self.notification() is Render,
                EventBox::WindowClosed(_) => self.notification() is WindowClosed,
                EventBox::WindowResized(_) => self.notification() is WindowResize,
                EventBox::KeyPressed(_) => self.notification() is KeyPress,
                EventBox::KeyReleased(_) => self.notification() is KeyRelease,
                EventBox::CharWritten(_) => self.notification() is CharWritten,
                EventBox::MousePressed(_) => self.notification() is MousePress,
                EventBox::MouseReleased(_) => self.notification() is MouseRelease,
                EventBox::MouseMoved(_) => self.notification() is MouseMove,
                EventBox::MouseScrolled(_) => self.notification() is MouseScroll,
            },
    {
        match self {
            EventBox::AppUpdate(_) | EventBox::AppRender(_) | EventBox::WindowClosed(_) => {},
            EventBox::WindowResized(event) => event.lemma_call(),
            EventBox::KeyPressed(event) => event.lemma_call(),
            EventBox::KeyReleased(event) => event.lemma_call(),
            EventBox::CharWritten(event) => event.lemma_call(),
            EventBox::MousePressed(event) => event.lemma_call(),
            EventBox::MouseReleased(event) => event.lemma_call(),
            EventBox::MouseMoved(event) => event.lemma_call(),
            EventBox::MouseScrolled(event) => event.lemma_call(),
        }
    }
}

impl Event for EventBox {
    open spec fn notification(&self) -> Notification {
        match self {
            EventBox::AppUpdate(event) => event.notification(),
            EventBox::AppRender(event) => event.notification(),
            EventBox::WindowClosed(event) => event.notification(),
            EventBox::WindowResized(event) => event.notification(),
            EventBox::KeyPressed(event) => event.notification(),
            EventBox::KeyReleased(event) => event.notification(),
            EventBox::CharWritten(event) => event.notification(),
            EventBox::MousePressed(event) => event.notification(),
            EventBox::MouseReleased(event) => event.notification(),
            EventBox::MouseMoved(event) => event.notification(),
            EventBox::MouseScrolled(event) => event.notification(),
        }
    }

    open spec fn handled(&self) -> bool {
        match self {
            EventBox::AppUpdate(event) => event.handled(),
            EventBox::AppRender(event) => event.handled(),
            EventBox::WindowClosed(event) => event.handled(),
            EventBox::WindowResized(event) => event.handled(),
            EventBox::KeyPressed(event) => event.handled(),
            EventBox::KeyReleased(event) => event.handled(),
            EventBox::CharWritten(event) => event.handled(),
            EventBox::MousePressed(event) => event.handled(),
            EventBox::MouseReleased(event) => event.handled(),
            EventBox::MouseMoved(event) => event.handled(),
            EventBox::MouseScrolled(event) => event.handled(),
        }
    }

    proof fn lemma_handled_is_consumable(&self) {
        match self {
            EventBox::AppUpdate(event) => event.lemma_handled_is_consumable(),
            EventBox::AppRender(event) => event.lemma_handled_is_consumable(),
            EventBox::WindowClosed(event) => event.lemma_handled_is_consumable(),
            EventBox::WindowResized(event) => event.lemma_handled_is_consumable(),
            EventBox::KeyPressed(event) => event.lemma_handled_is_consumable(),
            EventBox::KeyReleased(event) => event.lemma_handled_is_consumable(),
            EventBox::CharWritten(event) => event.lemma_handled_is_consumable(),
            EventBox::MousePressed(event) => event.lemma_handled_is_consumable(),
            EventBox::MouseReleased(event) => event.lemma_handled_is_consumable(),
            EventBox::MouseMoved(event) => event.lemma_handled_is_consumable(),
            EventBox::MouseScrolled(event) => event.lemma_handled_is_consumable(),
        }
    }

    fn is_handled(&self) -> (handled: bool) {
        match self {
            EventBox::AppUpdate(event) => event.is_handled(),
            EventBox::AppRender(event) => event.is_handled(),
            EventBox::WindowClosed(event) => event.is_handled(),
            EventBox::WindowResized(event) => event.is_handled(),
            EventBox::KeyPressed(event) => event.is_handled(),
            EventBox::KeyReleased(event) => event.is_handled(),
            EventBox::CharWritten(event) => event.is_handled(),
            EventBox::MousePressed(event) => event.is_handled(),
            EventBox::MouseReleased(event) => event.is_handled(),
            EventBox::MouseMoved(event) => event.is_handled(),
            EventBox::MouseScrolled(event) => event.is_handled(),
        }
    }

    fn call(&self) -> (call: Notification) {
        match self {
            EventBox::AppUpdate(event) => event.call(),
            EventBox::AppRender(event) => event.call(),
            EventBox::WindowClosed(event) => event.call(),
            EventBox::WindowResized(event) => event.call(),
            EventBox::KeyPressed(event) => event.call(),
            EventBox::KeyReleased(event) => event.call(),
            EventBox::CharWritten(event) => event.call(),
            EventBox::MousePressed(event) => event.call(),
            EventBox::MouseReleased(event) => event.call(),
            EventBox::MouseMoved(event) => event.call(),
            EventBox::MouseScrolled(event) => event.call(),
        }
    }

    fn dispatch<L: EventListener>(&mut self, listener: &mut L) {
        match self {
            EventBox::AppUpdate(event) => event.dispatch(listener),
            EventBox::AppRender(event) => event.dispatch(listener),
            EventBox::WindowClosed(event) => event.dispatch(listener),
            EventBox::WindowResized(event) => event.dispatch(listener),
            EventBox::KeyPressed(event) => event.dispatch(listener),
            EventBox::KeyReleased(event) => event.dispatch(listener),
            EventBox::CharWritten(event) => event.dispatch(listener),
            EventBox::MousePressed(event) => event.dispatch(listener),
            EventBox::MouseReleased(event) => event.dispatch(listener),
            EventBox::MouseMoved(event) => event.dispatch(listener),
            EventBox::MouseScrolled(event) => event.dispatch(listener),
        }
    }
}

} // verus!
