use vstd::prelude::*;
use crate::events::event::Event;
use crate::events::event_box::EventBox;
use crate::events::event_listener::{EventListener, Notification};
use crate::input::button::Button;
use crate::vecs::vec2::Vec2;

verus! {

/// A mouse button went down.
#[derive(Debug)]
pub struct MousePressedEvent {
    handled: bool,
    button: Button,
}

impl MousePressedEvent {
    pub fn new(button: Button) -> (event: EventBox)
        ensures
            event is MousePressed,
            event.notification() == (Notification::MousePress { button }),
            !event.handled(),
    {
        EventBox::MousePressed(MousePressedEvent { handled: false, button })
    }

    /// The call that an event of this kind makes is `on_mouse_press`.
    pub proof fn lemma_call(&self)
        ensures
            self.notification() is MousePress,
    {
    }
}

impl Event for MousePressedEvent {
    closed spec fn notification(&self) -> Notification {
        Notification::MousePress { button: self.button }
    }

    closed spec fn handled(&self) -> bool {
        self.handled
    }

    proof fn lemma_handled_is_consumable(&self) {
    }

    fn is_handled(&self) -> (handled: bool) {
        self.handled
    }

    fn call(&self) -> (call: Notification) {
        Notification::MousePress { button: self.button }
    }

    fn dispatch<L: EventListener>(&mut self, listener: &mut L) {
        self.handled = listener.on_mouse_press(self.button);
    }
}

/// A mouse button went up.
#[derive(Debug)]
pub struct MouseReleasedEvent {
    handled: bool,
    button: Button,
}

impl MouseReleasedEvent {
    pub fn new(button: Button) -> (event: EventBox)
        ensures
            event is MouseReleased,
            event.notification() == (Notification::MouseRelease { button }),
            !event.handled(),
    {
        EventBox::MouseReleased(MouseReleasedEvent { handled: false, button })
    }

    /// The call that an event of this kind makes is `on_mouse_release`.
    pub proof fn lemma_call(&self)
        ensures
            self.notification() is MouseRelease,
    {
    }
}

impl Event for MouseReleasedEvent {
    closed spec fn notification(&self) -> Notification {
        Notification::MouseRelease { button: self.button }
    }

    closed spec fn handled(&self) -> bool {
        self.handled
    }

    proof fn lemma_handled_is_consumable(&self) {
    }

    fn is_handled(&self) -> (handled: bool) {
        self.handled
    }

    fn call(&self) -> (call: Notification) {
        Notification::MouseRelease { button: self.button }
    }

    fn dispatch<L: EventListener>(&mut self, listener: &mut L) {
        self.handled = listener.on_mouse_release(self.button);
    }
}

/// The mouse pointer moved to a new position.
#[derive(Debug)]
pub struct MouseMovedEvent {
    handled: bool,
    position: Vec2,
}

impl MouseMovedEvent {
    pub fn new(position: Vec2) -> (event: EventBox)
        ensures
            event is MouseMoved,
            event.notification() == (Notification::MouseMove { position }),
            !event.handled(),
    {
        EventBox::MouseMoved(MouseMovedEvent { handled: false, position })
    }

    /// The call that an event of this kind makes is `on_mouse_move`.
    pub proof fn lemma_call(&self)
        ensures
            self.notification() is MouseMove,
    {
    }
}

impl Event for MouseMovedEvent {
    closed spec fn notification(&self) -> Notification {
        Notification::MouseMove { position: self.position }
    }

    closed spec fn handled(&self) -> bool {
        self.handled
    }

    proof fn lemma_handled_is_consumable(&self) {
    }

    fn is_handled(&self) -> (handled: bool) {
        self.handled
    }

    fn call(&self) -> (call: Notification) {
        Notification::MouseMove { position: self.position }
    }

    fn dispatch<L: EventListener>(&mut self, listener: &mut L) {
        self.handled = listener.on_mouse_move(self.position);
    }
}

/// The mouse wheel turned.
#[derive(Debug)]
pub struct MouseScrolledEvent {
    handled: bool,
    delta: Vec2,
}

impl MouseScrolledEvent {
    pub fn new(delta: Vec2) -> (event: EventBox)
        ensures
            event is MouseScrolled,
            event.notification() == (Notification::MouseScroll { delta }),
            !event.handled(),
    {
        EventBox::MouseScrolled(MouseScrolledEvent { handled: false, delta })
    }

    /// The call that an event of this kind makes is `on_mouse_scroll`.
    pub proof fn lemma_call(&self)
        ensures
            self.notification() is MouseScroll,
    {
    }
}

impl Event for MouseScrolledEvent {
    closed spec fn notification(&self) -> Notification {
        Notification::MouseScroll { delta: self.delta }
    }

    closed spec fn handled(&self) -> bool {
        self.handled
    }

    proof fn lemma_handled_is_consumable(&self) {
    }

    fn is_handled(&self) -> (handled: bool) {
        self.handled
    }

    fn call(&self) -> (call: Notification) {
        Notification::MouseScroll { delta: self.delta }
    }

    fn dispatch<L: EventListener>(&mut self, listener: &mut L) {
        self.handled = listener.on_mouse_scroll(self.delta);
    }
}

} // verus!
