use vstd::prelude::*;
use crate::events::event_listener::{called, delivered, EventListener, Notification};
use crate::input::button::Button;
use crate::layers::layer::Layer;
use crate::vecs::vec2::Vec2;

verus! {

/// One of two kinds of layer. A stack holds layers of one type; with this
/// type, nested as often as needed, it holds layers of several kinds.
///
/// Every call goes to the layer inside: each method makes the same call, with
/// the same values, on that layer, and returns what it returned. So an
/// `Either` reacts as the layer inside does.
pub enum Either<A: Layer, B: Layer> {
    Left(A),
    Right(B),
}

impl<A: Layer, B: Layer> EventListener for Either<A, B> {
    open spec fn reacts(&self, call: Notification, after: &Self, handled: bool) -> bool {
        match (*self, *after) {
            (Either::Left(before), Either::Left(after)) => delivered(
                before,
                call,
                after,
                handled,
            ),
            (Either::Right(before), Either::Right(after)) => delivered(
                before,
                call,
                after,
                handled,
            ),
            _ => false,
        }
    }

    fn on_update(&mut self)
        ensures
            match *old(self) {
                Either::Left(before) => *final(self) matches Either::Left(after)
                    && exists|m: &mut A|
                    *m == before && *final(m) == after && called(
                        m,
                        Notification::Update,
                        false,
                    ),
                Either::Right(before) => *final(self) matches Either::Right(after)
                    && exists|m: &mut B|
                    *m == before && *final(m) == after && called(
                        m,
                        Notification::Update,
                        false,
                    ),
            },
    {
        match self {
            Either::Left(layer) => layer.on_update(),
            Either::Right(layer) => layer.on_update(),
        }
    }

    fn on_render(&mut self)
        ensures
            match *old(self) {
                Either::Left(before) => *final(self) matches Either::Left(after)
                    && exists|m: &mut A|
                    *m == before && *final(m) == after && called(
                        m,
                        Notification::Render,
                        false,
                    ),
                Either::Right(before) => *final(self) matches Either::Right(after)
                    && exists|m: &mut B|
                    *m == before && *final(m) == after && called(
                        m,
                        Notification::Render,
                        false,
                    ),
            },
    {
        match self {
            Either::Left(layer) => layer.on_render(),
            Either::Right(layer) => layer.on_render(),
        }
    }

    fn on_window_closed(&mut self)
        ensures
            match *old(self) {
                Either::Left(before) => *final(self) matches Either::Left(after)
                    && exists|m: &mut A|
                    *m == before && *final(m) == after && called(
                        m,
                        Notification::WindowClosed,
                        false,
                    ),
                Either::Right(before) => *final(self) matches Either::Right(after)
                    && exists|m: &mut B|
                    *m == before && *final(m) == after && called(
                        m,
                        Notification::WindowClosed,
                        false,
                    ),
            },
    {
        match self {
            Either::Left(layer) => layer.on_window_closed(),
            Either::Right(layer) => layer.on_window_closed(),
        }
    }

    fn on_window_resize(&mut self, width: u32, height: u32)
        ensures
            match *old(self) {
                Either::Left(before) => *final(self) matches Either::Left(after)
                    && exists|m: &mut A|
                    *m == before && *final(m) == after && called(
                        m,
                        Notification::WindowResize { width, height },
                        false,
                    ),
                Either::Right(before) => *final(self) matches Either::Right(after)
                    && exists|m: &mut B|
                    *m == before && *final(m) == after && called(
                        m,
                        Notification::WindowResize { width, height },
                        false,
                    ),
            },
    {
        match self {
            Either::Left(layer) => layer.on_window_resize(width, height),
            Either::Right(layer) => layer.on_window_resize(width, height),
        }
    }

    fn on_key_press(&mut self, button: Button, repeat: bool) -> (handled: bool)
        ensures
            match *old(self) {
                Either::Left(before) => *final(self) matches Either::Left(after)
                    && exists|m: &mut A|
                    *m == before && *final(m) == after && called(
                        m,
                        Notification::KeyPress { button, repeat },
                        handled,
                    ),
                Either::Right(before) => *final(self) matches Either::Right(after)
                    && exists|m: &mut B|
                    *m == before && *final(m) == after && called(
                        m,
                        Notification::KeyPress { button, repeat },
                        handled,
                    ),
            },
    {
        match self {
            Either::Left(layer) => layer.on_key_press(button, repeat),
            Either::Right(layer) => layer.on_key_press(button, repeat),
        }
    }

    fn on_key_release(&mut self, button: Button) -> (handled: bool)
        ensures
            match *old(self) {
                Either::Left(before) => *final(self) matches Either::Left(after)
                    && exists|m: &mut A|
                    *m == before && *final(m) == after && called(
                        m,
                        Notification::KeyRelease { button },
                        handled,
                    ),
                Either::Right(before) => *final(self) matches Either::Right(after)
                    && exists|m: &mut B|
                    *m == before && *final(m) == after && called(
                        m,
                        Notification::KeyRelease { button },
                        handled,
                    ),
            },
    {
        match self {
            Either::Left(layer) => layer.on_key_release(button),
            Either::Right(layer) => layer.on_key_release(button),
        }
    }

    fn on_char_written(&mut self, which: char) -> (handled: bool)
        ensures
            match *old(self) {
                Either::Left(before) => *final(self) matches Either::Left(after)
                    && exists|m: &mut A|
                    *m == before && *final(m) == after && called(
                        m,
                        Notification::CharWritten { which },
                        handled,
                    ),
                Either::Right(before) => *final(self) matches Either::Right(after)
                    && exists|m: &mut B|
                    *m == before && *final(m) == after && called(
                        m,
                        Notification::CharWritten { which },
                        handled,
                    ),
            },
    {
        match self {
            Either::Left(layer) => layer.on_char_written(which),
            Either::Right(layer) => layer.on_char_written(which),
        }
    }

    fn on_mouse_press(&mut self, button: Button) -> (handled: bool)
        ensures
            match *old(self) {
                Either::Left(before) => *final(self) matches Either::Left(after)
                    && exists|m: &mut A|
                    *m == before && *final(m) == after && called(
                        m,
                        Notification::MousePress { button },
                        handled,
                    ),
                Either::Right(before) => *final(self) matches Either::Right(after)
                    && exists|m: &mut B|
                    *m == before && *final(m) == after && called(
                        m,
                        Notification::MousePress { button },
                        handled,
                    ),
            },
    {
        match self {
            Either::Left(layer) => layer.on_mouse_press(button),
            Either::Right(layer) => layer.on_mouse_press(button),
        }
    }

    fn on_mouse_release(&mut self, button: Button) -> (handled: bool)
        ensures
            match *old(self) {
                Either::Left(before) => *final(self) matches Either::Left(after)
                    && exists|m: &mut A|
                    *m == before && *final(m) == after && called(
                        m,
                        Notification::MouseRelease { button },
                        handled,
                    ),
                Either::Right(before) => *final(self) matches Either::Right(after)
                    && exists|m: &mut B|
                    *m == before && *final(m) == after && called(
                        m,
                        Notification::MouseRelease { button },
                        handled,
                    ),
            },
    {
        match self {
            Either::Left(layer) => layer.on_mouse_release(button),
            Either::Right(layer) => layer.on_mouse_release(button),
        }
    }

    fn on_mouse_move(&mut self, position: Vec2) -> (handled: bool)
        ensures
            match *old(self) {
                Either::Left(before) => *final(self) matches Either::Left(after)
                    && exists|m: &mut A|
                    *m == before && *final(m) == after && called(
                        m,
                        Notification::MouseMove { position },
                        handled,
                    ),
                Either::Right(before) => *final(self) matches Either::Right(after)
                    && exists|m: &mut B|
                    *m == before && *final(m) == after && called(
                        m,
                        Notification::MouseMove { position },
                        handled,
                    ),
            },
    {
        match self {
            Either::Left(layer) => layer.on_mouse_move(position),
            Either::Right(layer) => layer.on_mouse_move(position),
        }
    }

    fn on_mouse_scroll(&mut self, delta: Vec2) -> (handled: bool)
        ensures
            match *old(self) {
                Either::Left(before) => *final(self) matches Either::Left(after)
                    && exists|m: &mut A|
                    *m == before && *final(m) == after && called(
                        m,
                        Notification::MouseScroll { delta },
                        handled,
                    ),
                Either::Right(before) => *final(self) matches Either::Right(after)
                    && exists|m: &mut B|
                    *m == before && *final(m) == after && called(
                        m,
                        Notification::MouseScroll { delta },
                        handled,
                    ),
            },
    {
        match self {
            Either::Left(layer) => layer.on_mouse_scroll(delta),
            Either::Right(layer) => layer.on_mouse_scroll(delta),
        }
    }
}

impl<A: Layer, B: Layer> Layer for Either<A, B> {
    fn on_attach(&mut self)
        ensures
            match *old(self) {
                Either::Left(before) => *final(self) matches Either::Left(after)
                    && exists|m: &mut A|
                    *m == before && *final(m) == after && call_ensures(A::on_attach, (m,), ()),
                Either::Right(before) => *final(self) matches Either::Right(after)
                    && exists|m: &mut B|
                    *m == before && *final(m) == after && call_ensures(B::on_attach, (m,), ()),
            },
    {
        match self {
            Either::Left(layer) => layer.on_attach(),
            Either::Right(layer) => layer.on_attach(),
        }
    }

    fn on_detach(&mut self)
        ensures
            match *old(self) {
                Either::Left(before) => *final(self) matches Either::Left(after)
                    && exists|m: &mut A|
                    *m == before && *final(m) == after && call_ensures(A::on_detach, (m,), ()),
                Either::Right(before) => *final(self) matches Either::Right(after)
                    && exists|m: &mut B|
                    *m == before && *final(m) == after && call_ensures(B::on_detach, (m,), ()),
            },
    {
        match self {
            Either::Left(layer) => layer.on_detach(),
            Either::Right(layer) => layer.on_detach(),
        }
    }
}

} // verus!
