use vstd::prelude::*;
use vstd::std_specs::convert::FromSpecImpl;
use vstd::std_specs::ops::ShlSpecImpl;
use crate::events::event_listener::Notification;
use crate::input::button::Button;
use crate::vecs::vec2::Vec2;

verus! {

/// What happened: an input or a change of the window, with its payload.
#[derive(Clone, Copy, Debug, PartialEq, Eq, Structural)]
pub enum EventType {
    WindowClosed,
    WindowResized(u32, u32),
    KeyPressed(Button, bool),
    KeyReleased(Button),
    CharWritten(char),
    MousePressed(Button),
    MouseReleased(Button),
    MouseMoved(Vec2),
    MouseScrolled(Vec2),
}

impl EventType {
    /// The call on a listener that stands for this occurrence.
    pub open spec fn notification(self) -> Notification {
        match self {
            EventType::WindowClosed => Notification::WindowClosed,
            EventType::WindowResized(width, height) => Notification::WindowResize {
                width,
                height,
            },
            EventType::KeyPressed(button, repeat) => Notification::KeyPress { button, repeat },
            EventType::KeyReleased(button) => Notification::KeyRelease { button },
            EventType::CharWritten(which) => Notification::CharWritten { which },
            EventType::MousePressed(button) => Notification::MousePress { button },
            EventType::MouseReleased(button) => Notification::MouseRelease { button },
            EventType::MouseMoved(position) => Notification::MouseMove { position },
            EventType::MouseScrolled(delta) => Notification::MouseScroll { delta },
        }
    }

    /// Computes `notification`.
    pub fn to_notification(self) -> (call: Notification)
        ensures
            call == self.notification(),
    {
        match self {
            EventType::WindowClosed => Notification::WindowClosed,
            EventType::WindowResized(width, height) => Notification::WindowResize {
                width,
                height,
            },
            EventType::KeyPressed(button, repeat) => Notification::KeyPress { button, repeat },
            EventType::KeyReleased(button) => Notification::KeyRelease { button },
            EventType::CharWritten(which) => Notification::CharWritten { which },
            EventType::MousePressed(button) => Notification::MousePress { button },
            EventType::MouseReleased(button) => Notification::MouseRelease { button },
            EventType::MouseMoved(position) => Notification::MouseMove { position },
            EventType::MouseScrolled(delta) => Notification::MouseScroll { delta },
        }
    }
}

/// An occurrence together with the flag that says whether a listener has
/// consumed it. The flag starts out `false`.
#[derive(Clone, Copy, Debug)]
pub struct Event {
    handled: bool,
    e_type: EventType,
}

impl Event {
    /// Whether a listener has consumed the event.
    pub closed spec fn handled(&self) -> bool {
        self.handled
    }

    /// What happened.
    pub closed spec fn kind(&self) -> EventType {
        self.e_type
    }

    /// The event that says that `e_type` happened and that nobody has
    /// consumed yet.
    pub closed spec fn fresh(e_type: EventType) -> Event {
        Event { handled: false, e_type }
    }

    /// A fresh event is unhandled and says what it was made of; an event is
    /// known by these two.
    pub proof fn lemma_fresh(e_type: EventType, other: Event)
        ensures
            !Event::fresh(e_type).handled(),
            Event::fresh(e_type).kind() == e_type,
            other.kind() == e_type && !other.handled() ==> other == Event::fresh(e_type),
    {
    }

    pub fn new(e_type: EventType) -> (event: Event)
        ensures
            event == Event::fresh(e_type),
    {
        Event { handled: false, e_type }
    }

    pub fn is_handled(&self) -> (handled: bool)
        ensures
            handled == self.handled(),
    {
        self.handled
    }

    /// What happened.
    pub fn event_type(&self) -> (e_type: EventType)
        ensures
            e_type == self.kind(),
    {
        self.e_type
    }
}

impl From<EventType> for Event {
    fn from(e_type: EventType) -> (event: Event) {
        Event::new(e_type)
    }
}

impl FromSpecImpl<EventType> for Event {
    open spec fn obeys_from_spec() -> bool {
        true
    }

    open spec fn from_spec(e_type: EventType) -> Event {
        Event::fresh(e_type)
    }
}

/// `&event << x` asks whether `event` says that `x` happened: whether the
/// event that `x` converts to tells of the same occurrence, with the same
/// payload. The flags play no part.
impl<T> std::ops::Shl<T> for &Event where Event: From<T> {
    type Output = bool;

    fn shl(self, rhs: T) -> (same: bool) {
        let other = Event::from(rhs);
        self.e_type == other.e_type
    }
}

impl<T> ShlSpecImpl<T> for &Event where Event: From<T> {
    open spec fn obeys_shl_spec() -> bool {
        <Event as vstd::std_specs::convert::FromSpec<T>>::obeys_from_spec()
    }

    open spec fn shl_req(self, rhs: T) -> bool {
        true
    }

    open spec fn shl_spec(self, rhs: T) -> bool {
        self.kind() == <Event as vstd::std_specs::convert::FromSpec<T>>::from_spec(rhs).kind()
    }
}

} // verus!
