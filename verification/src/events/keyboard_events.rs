use vstd::prelude::*;
use crate::events::event::Event;
use crate::events::event_box::EventBox;
use crate::events::event_listener::{EventListener, Notification};
use crate::input::button::Button;

verus! {

/// A key went down, or is held and repeats.
#[derive(Debug)]
pub struct KeyPressedEvent {
    handled: bool,
    button: Button,
    repeat: bool,
}

impl KeyPressedEvent {
    pub fn new(button: Button, repeat: bool) -> (event: EventBox)
        ensures
            event is KeyPressed,
            event.notification() == (Notification::KeyPress { button, repeat }),
            !event.handled(),
    {
        EventBox::KeyPressed(KeyPressedEvent { handled: false, button, repeat })
    }

    /// The call that an event of this kind makes is `on_key_press`.
    pub proof fn lemma_call(&self)
        ensures
            self.notification() is KeyPress,
    {
    }
}

impl Event for KeyPressedEvent {
    closed spec fn notification(&self) -> Notification {
        Notification::KeyPress { button: self.button, repeat: self.repeat }
    }

    closed spec fn handled(&self) -> bool {
        self.handled
    }

    proof fn lemma_handled_is_consumable(&self) {
    }

    fn is_handled(&self) -> (handled: bool) {
        self.handled
    }

    fn call(&self) -> (call: Notification) {
        Notification::KeyPress { button: self.button, repeat: self.repeat }
    }

    fn dispatch<L: EventListener>(&mut self, listener: &mut L) {
        self.handled = listener.on_key_press(self.button, self.repeat);
    }
}

/// A key went up.
#[derive(Debug)]
pub struct KeyReleasedEvent {
    handled: bool,
    button: Button,
}

impl KeyReleasedEvent {
    pub fn new(button: Button) -> (event: EventBox)
        ensures
            event is KeyReleased,
            event.notification() == (Notification::KeyRelease { button }),
            !event.handled(),
    {
        EventBox::KeyReleased(KeyReleasedEvent { handled: false, button })
    }

    /// The call that an event of this kind makes is `on_key_release`.
    pub proof fn lemma_call(&self)
        ensures
            self.notification() is KeyRelease,
    {
    }
}

impl Event for KeyReleasedEvent {
    closed spec fn notification(&self) -> Notification {
        Notification::KeyRelease { button: self.button }
    }

    closed spec fn handled(&self) -> bool {
        self.handled
    }

    proof fn lemma_handled_is_consumable(&self) {
    }

    fn is_handled(&self) -> (handled: bool) {
        self.handled
    }

    fn call(&self) -> (call: Notification) {
        Notification::KeyRelease { button: self.button }
    }

    fn dispatch<L: EventListener>(&mut self, listener: &mut L) {
        self.handled = listener.on_key_release(self.button);
    }
}

/// The keyboard produced a character of text.
#[derive(Debug)]
pub struct CharWrittenEvent {
    handled: bool,
    which: char,
}

impl CharWrittenEvent {
    pub fn new(which: char) -> (event: EventBox)
        ensures
            event is CharWritten,
            event.notification() == (Notification::CharWritten { which }),
            !event.handled(),
    {
        EventBox::CharWritten(CharWrittenEvent { handled: false, which })
    }

    /// The call that an event of this kind makes is `on_char_written`.
    pub proof fn lemma_call(&self)
        ensures
            self.notification() is CharWritten,
    {
    }
}

impl Event for CharWrittenEvent {
    closed spec fn notification(&self) -> Notification {
        Notification::CharWritten { which: self.which }
    }

    closed spec fn handled(&self) -> bool {
        self.handled
    }

    proof fn lemma_handled_is_consumable(&self) {
    }

    fn is_handled(&self) -> (handled: bool) {
        self.handled
    }

    fn call(&self) -> (call: Notification) {
        Notification::CharWritten { which: self.which }
    }

    fn dispatch<L: EventListener>(&mut self, listener: &mut L) {
        self.handled = listener.on_char_written(self.which);
    }
}

} // verus!
