use vstd::prelude::*;
use crate::input::button::Button;
use crate::vecs::vec2::Vec2;

verus! {

/// One call of a capability method, with the values it is called with.
///
/// Contracts speak of the calls that a listener received in these terms:
/// `Notification::KeyPress { button, repeat }` stands for one call of
/// `on_key_press(button, repeat)`, and so on for the others.
#[derive(Clone, Copy, Debug, PartialEq, Eq, Structural)]
pub enum Notification {
    /// `on_update()`
    Update,
    /// `on_render()`
    Render,
    /// `on_window_closed()`
    WindowClosed,
    /// `on_window_resize(width, height)`
    WindowResize { width: u32, height: u32 },
    /// `on_key_press(button, repeat)`
    KeyPress { button: Button, repeat: bool },
    /// `on_key_release(button)`
    KeyRelease { button: Button },
    /// `on_char_written(which)`
    CharWritten { which: char },
    /// `on_mouse_press(button)`
    MousePress { button: Button },
    /// `on_mouse_release(button)`
    MouseRelease { button: Button },
    /// `on_mouse_move(position)`
    MouseMove { position: Vec2 },
    /// `on_mouse_scroll(delta)`
    MouseScroll { delta: Vec2 },
    /// `on_attach()` of a layer
    Attach,
    /// `on_detach()` of a layer
    Detach,
}

impl Notification {
    /// Whether a listener can consume this call, that is, whether its method
    /// returns a `bool`. The frame calls, the window's lifecycle and the two
    /// hooks of a layer cannot be consumed: they reach every listener.
    pub open spec fn consumable(self) -> bool {
        match self {
            Notification::Update
            | Notification::Render
            | Notification::WindowClosed
            | Notification::WindowResize { .. }
            | Notification::Attach
            | Notification::Detach => false,
            _ => true,
        }
    }

    /// Computes `consumable`.
    pub fn is_consumable(&self) -> (consumable: bool)
        ensures
            consumable == self.consumable(),
    {
        match self {
            Notification::Update
            | Notification::Render
            | Notification::WindowClosed
            | Notification::WindowResize { .. }
            | Notification::Attach
            | Notification::Detach => false,
            _ => true,
        }
    }
}

/// Something that reacts to events.
///
/// There is one method for each kind of event. Each has a default that does
/// nothing, so an implementation overrides only what it cares about. A method
/// that returns `bool` says whether the listener consumed the event; the
/// others speak of events that nobody can consume.
///
/// What an implementation does when it is called is its own affair. It tells
/// verified callers by the contracts of the methods it overrides and, over
/// all of them, by overriding `reacts`. Every method promises that the
/// listener either reacted as `reacts` allows or ignored the call. A method
/// that is not overridden promises more: it returns `false` and leaves the
/// listener as it was.
pub trait EventListener: Sized {
    /// Whether the listener, being in the state `self`, may answer `call` by
    /// moving to the state `after` and returning `handled` (`false` where the
    /// method returns nothing). Ignoring a call is always allowed and need not
    /// be listed. The default allows every answer.
    open spec fn reacts(&self, call: Notification, after: &Self, handled: bool) -> bool {
        true
    }

    fn on_update(&mut self)
        ensures
            old(self).reacts(Notification::Update, final(self), false)
                || *final(self) == *old(self),
        default_ensures
            *final(self) == *old(self),
    {
    }

    fn on_render(&mut self)
        ensures
            old(self).reacts(Notification::Render, final(self), false)
                || *final(self) == *old(self),
        default_ensures
            *final(self) == *old(self),
    {
    }

    fn on_window_closed(&mut self)
        ensures
            old(self).reacts(Notification::WindowClosed, final(self), false)
                || *final(self) == *old(self),
        default_ensures
            *final(self) == *old(self),
    {
    }

    fn on_window_resize(&mut self, width: u32, height: u32)
        ensures
            old(self).reacts(Notification::WindowResize { width, height }, final(self), false)
                || *final(self) == *old(self),
        default_ensures
            *final(self) == *old(self),
    {
    }

    fn on_key_press(&mut self, button: Button, repeat: bool) -> (handled: bool)
        ensures
            old(self).reacts(Notification::KeyPress { button, repeat }, final(self), handled)
                || (*final(self) == *old(self) && !handled),
        default_ensures
            !handled,
            *final(self) == *old(self),
    {
        false
    }

    fn on_key_release(&mut self, button: Button) -> (handled: bool)
        ensures
            old(self).reacts(Notification::KeyRelease { button }, final(self), handled)
                || (*final(self) == *old(self) && !handled),
        default_ensures
            !handled,
            *final(self) == *old(self),
    {
        false
    }

    fn on_char_written(&mut self, which: char) -> (handled: bool)
        ensures
            old(self).reacts(Notification::CharWritten { which }, final(self), handled)
                || (*final(self) == *old(self) && !handled),
        default_ensures
            !handled,
            *final(self) == *old(self),
    {
        false
    }

    fn on_mouse_press(&mut self, button: Button) -> (handled: bool)
        ensures
            old(self).reacts(Notification::MousePress { button }, final(self), handled)
                || (*final(self) == *old(self) && !handled),
        default_ensures
            !handled,
            *final(self) == *old(self),
    {
        false
    }

    fn on_mouse_release(&mut self, button: Button) -> (handled: bool)
        ensures
            old(self).reacts(Notification::MouseRelease { button }, final(self), handled)
                || (*final(self) == *old(self) && !handled),
        default_ensures
            !handled,
            *final(self) == *old(self),
    {
        false
    }

    fn on_mouse_move(&mut self, position: Vec2) -> (handled: bool)
        ensures
            old(self).reacts(Notification::MouseMove { position }, final(self), handled)
                || (*final(self) == *old(self) && !handled),
        default_ensures
            !handled,
            *final(self) == *old(self),
    {
        false
    }

    fn on_mouse_scroll(&mut self, delta: Vec2) -> (handled: bool)
        ensures
            old(self).reacts(Notification::MouseScroll { delta }, final(self), handled)
                || (*final(self) == *old(self) && !handled),
        default_ensures
            !handled,
            *final(self) == *old(self),
    {
        false
    }
}

/// Whether `call` was made on the listener behind `m` and answered with
/// `handled`: the method that `call` stands for was called on it with the
/// values that `call` holds, and returned `handled` (`false` where the method
/// returns nothing). The two hooks of a layer are no methods of a listener,
/// so they are never made here.
///
/// `*m` is the listener as the call found it. What the call left behind is
/// whatever that method of `L` ensures.
#[verifier::inline]
pub open spec fn called<L: EventListener>(m: &mut L, call: Notification, handled: bool) -> bool {
    match call {
        Notification::Update => !handled && call_ensures(L::on_update, (m,), ()),
        Notification::Render => !handled && call_ensures(L::on_render, (m,), ()),
        Notification::WindowClosed => !handled && call_ensures(L::on_window_closed, (m,), ()),
        Notification::WindowResize { width, height } => !handled && call_ensures(
            L::on_window_resize,
            (m, width, height),
            (),
        ),
        Notification::KeyPress { button, repeat } => call_ensures(
            L::on_key_press,
            (m, button, repeat),
            handled,
        ),
        Notification::KeyRelease { button } => call_ensures(
            L::on_key_release,
            (m, button),
            handled,
        ),
        Notification::CharWritten { which } => call_ensures(
            L::on_char_written,
            (m, which),
            handled,
        ),
        Notification::MousePress { button } => call_ensures(
            L::on_mouse_press,
            (m, button),
            handled,
        ),
        Notification::MouseRelease { button } => call_ensures(
            L::on_mouse_release,
            (m, button),
            handled,
        ),
        Notification::MouseMove { position } => call_ensures(
            L::on_mouse_move,
            (m, position),
            handled,
        ),
        Notification::MouseScroll { delta } => call_ensures(L::on_mouse_scroll, (m, delta), handled),
        Notification::Attach | Notification::Detach => false,
    }
}

/// What one call may do to a listener: it is found in the state `before`,
/// left in the state `after`, and answers `handled`. The listener either
/// reacted as its `reacts` allows, or is as it was and consumed nothing.
///
/// This holds of every call, and it also holds of a listener that nobody
/// called: it says what may have changed, not that the call was made. That
/// is what `called` says.
pub open spec fn delivered<L: EventListener>(
    before: L,
    call: Notification,
    after: L,
    handled: bool,
) -> bool {
    before.reacts(call, &after, handled) || (after == before && !handled)
}

} // verus!
