use vstd::prelude::*;
use crate::error::Error;
use crate::events::event::Event;
use crate::events::event_box::EventBox;
use crate::events::event_listener::Notification;
use crate::events::event_queue::EventQueue;
use crate::events::keyboard_events::{CharWrittenEvent, KeyPressedEvent, KeyReleasedEvent};
use crate::events::mouse_events::{
    MouseMovedEvent, MousePressedEvent, MouseReleasedEvent, MouseScrolledEvent,
};
use crate::events::window_events::{WindowClosedEvent, WindowResizedEvent};
use crate::input::keys::{
    button_of_key, button_of_pointer, convert_key, convert_pointer_button, PointerButton,
    VirtualKey,
};
use crate::vecs::vec2::Vec2;

verus! {

/// Whether a key or a mouse button went down or up.
#[derive(Clone, Copy, Debug, PartialEq, Eq, Structural)]
pub enum ElementState {
    Pressed,
    Released,
}

/// One notification of the windowing backend, as plain values.
///
/// The backend hands these over in the order in which it received them, one
/// for each press, release and move: nothing is merged.
#[derive(Clone, Copy, Debug, PartialEq, Eq, Structural)]
pub enum RawEvent {
    /// The user asked for the window to be closed.
    CloseRequested,
    /// The client area has a new size, in logical pixels.
    Resized { width: u32, height: u32 },
    /// A key went down or up. `key` is `None` where the backend has no name
    /// for the key.
    KeyboardInput { state: ElementState, key: Option<VirtualKey> },
    /// The keyboard produced a character of text.
    ReceivedCharacter(char),
    /// A mouse button went down or up.
    MouseInput { state: ElementState, button: PointerButton },
    /// The mouse wheel turned.
    MouseWheel { delta: Vec2 },
    /// The mouse pointer is at a new position.
    CursorMoved { position: Vec2 },
    /// Anything else. It becomes no event.
    Other,
}

/// The call that the canonical event for `raw` makes, if `raw` becomes an
/// event. Key repetition is not detected: every key press counts as a first
/// press.
pub open spec fn canonical(raw: RawEvent) -> Option<Notification> {
    match raw {
        RawEvent::CloseRequested => Some(Notification::WindowClosed),
        RawEvent::Resized { width, height } => Some(Notification::WindowResize { width, height }),
        RawEvent::KeyboardInput { state: ElementState::Pressed, key } => Some(
            Notification::KeyPress { button: button_of_key(key), repeat: false },
        ),
        RawEvent::KeyboardInput { state: ElementState::Released, key } => Some(
            Notification::KeyRelease { button: button_of_key(key) },
        ),
        RawEvent::ReceivedCharacter(which) => Some(Notification::CharWritten { which }),
        RawEvent::MouseInput { state: ElementState::Pressed, button } => Some(
            Notification::MousePress { button: button_of_pointer(button) },
        ),
        RawEvent::MouseInput { state: ElementState::Released, button } => Some(
            Notification::MouseRelease { button: button_of_pointer(button) },
        ),
        RawEvent::MouseWheel { delta } => Some(Notification::MouseScroll { delta }),
        RawEvent::CursorMoved { position } => Some(Notification::MouseMove { position }),
        RawEvent::Other => None,
    }
}

/// The calls of the canonical events for `raw`, in the order of `raw`.
pub open spec fn canonical_all(raw: Seq<RawEvent>) -> Seq<Notification>
    decreases raw.len(),
{
    if raw.len() == 0 {
        Seq::empty()
    } else {
        match canonical(raw.last()) {
            Some(call) => canonical_all(raw.drop_last()).push(call),
            None => canonical_all(raw.drop_last()),
        }
    }
}

/// The size of the client area after the notifications in `raw`, where it was
/// `size` before them: the size that the last `Resized` among them reports.
pub open spec fn size_after(size: (u32, u32), raw: Seq<RawEvent>) -> (u32, u32)
    decreases raw.len(),
{
    if raw.len() == 0 {
        size
    } else {
        match raw.last() {
            RawEvent::Resized { width, height } => (width, height),
            _ => size_after(size, raw.drop_last()),
        }
    }
}

/// Normalises one notification of the backend into a canonical event that
/// nobody has handled yet. What is no input and no change of the window
/// becomes no event.
pub fn translate(raw: RawEvent) -> (event: Option<EventBox>)
    ensures
        match event {
            Some(event) => canonical(raw) == Some(event.notification()) && !event.handled(),
            None => canonical(raw) is None,
        },
{
    match raw {
        RawEvent::CloseRequested => Some(WindowClosedEvent::new()),
        RawEvent::Resized { width, height } => Some(WindowResizedEvent::new(width, height)),
        RawEvent::KeyboardInput { state, key } => Some(
            match state {
                ElementState::Pressed => KeyPressedEvent::new(convert_key(key), false),
                ElementState::Released => KeyReleasedEvent::new(convert_key(key)),
            },
        ),
        RawEvent::ReceivedCharacter(which) => Some(CharWrittenEvent::new(which)),
        RawEvent::MouseInput { state, button } => Some(
            match state {
                ElementState::Pressed => MousePressedEvent::new(convert_pointer_button(button)),
                ElementState::Released => MouseReleasedEvent::new(
                    convert_pointer_button(button),
                ),
            },
        ),
        RawEvent::MouseWheel { delta } => Some(MouseScrolledEvent::new(delta)),
        RawEvent::CursorMoved { position } => Some(MouseMovedEvent::new(position)),
        RawEvent::Other => None,
    }
}

/// What a window is made with: its caption, the size of its client area in
/// logical pixels, and whether presenting a frame waits for the display's
/// refresh.
#[derive(Debug)]
pub struct WindowOptions {
    pub title: String,
    pub width: u32,
    pub height: u32,
    pub vsync: bool,
}

/// The state of the application's window that does not live in the backend:
/// what the window was made with, its current size, and the events that wait
/// to be dispatched.
pub struct Window {
    title: String,
    width: u32,
    height: u32,
    vsync: bool,
    event_queue: EventQueue,
}

impl Window {
    /// The invariant of the window: none of the events that wait has been
    /// handled.
    pub closed spec fn well_formed(&self) -> bool {
        forall|i: int|
            0 <= i < self.event_queue@.len() ==> !(#[trigger] self.event_queue@[i]).handled()
    }

    /// The caption of the window.
    pub closed spec fn title(&self) -> Seq<char> {
        self.title@
    }

    /// The width and the height of the client area, in logical pixels.
    pub closed spec fn size(&self) -> (u32, u32) {
        (self.width, self.height)
    }

    /// Whether presenting a frame waits for the display's refresh.
    pub closed spec fn vsync(&self) -> bool {
        self.vsync
    }

    /// The calls of the events that wait, oldest first.
    pub closed spec fn pending(&self) -> Seq<Notification> {
        Seq::new(self.event_queue@.len(), |i: int| self.event_queue@[i].notification())
    }

    /// The record of a window with the caption `title` and a client area of
    /// `width` by `height` logical pixels, with no events waiting. A window
    /// has a positive width and height: anything else is refused.
    pub fn new(
        title: &str,
        width: u32,
        height: u32,
        vsync: bool,
    ) -> (window: Result<Window, Error>)
        ensures
            match window {
                Ok(w) => {
                    &&& width > 0 && height > 0
                    &&& w.well_formed()
                    &&& w.title() == title@
                    &&& w.size() == (width, height)
                    &&& w.vsync() == vsync
                    &&& w.pending() == Seq::<Notification>::empty()
                },
                Err(error) => {
                    &&& width == 0 || height == 0
                    &&& error == Error::Construction
                },
            },
    {
        if width == 0 || height == 0 {
            return Err(Error::Construction);
        }
        let window = Window {
            title: title.to_owned(),
            width,
            height,
            vsync,
            event_queue: EventQueue::new(),
        };
        assert(window.pending() =~= Seq::<Notification>::empty());
        Ok(window)
    }

    /// The record of a window made with `options`; see `new`.
    pub fn with_options(options: WindowOptions) -> (window: Result<Window, Error>)
        ensures
            match window {
                Ok(w) => {
                    &&& options.width > 0 && options.height > 0
                    &&& w.well_formed()
                    &&& w.title() == options.title@
                    &&& w.size() == (options.width, options.height)
                    &&& w.vsync() == options.vsync
                    &&& w.pending() == Seq::<Notification>::empty()
                },
                Err(error) => {
                    &&& options.width == 0 || options.height == 0
                    &&& error == Error::Construction
                },
            },
    {
        if options.width == 0 || options.height == 0 {
            return Err(Error::Construction);
        }
        let window = Window {
            title: options.title,
            width: options.width,
            height: options.height,
            vsync: options.vsync,
            event_queue: EventQueue::new(),
        };
        assert(window.pending() =~= Seq::<Notification>::empty());
        Ok(window)
    }

    pub fn get_title(&self) -> (title: &str)
        ensures
            title@ == self.title(),
    {
        self.title.as_str()
    }

    pub fn get_width(&self) -> (width: u32)
        ensures
            width == self.size().0,
    {
        self.width
    }

    pub fn get_height(&self) -> (height: u32)
        ensures
            height == self.size().1,
    {
        self.height
    }

    pub fn get_vsync(&self) -> (vsync: bool)
        ensures
            vsync == self.vsync(),
    {
        self.vsync
    }

    /// Takes the oldest waiting event out, if there is one.
    pub fn pop_event(&mut self) -> (event: Option<EventBox>)
        requires
            old(self).well_formed(),
        ensures
            final(self).well_formed(),
            final(self).title() == old(self).title(),
            final(self).size() == old(self).size(),
            final(self).vsync() == old(self).vsync(),
            match event {
                Some(first) => {
                    &&& old(self).pending().len() > 0
                    &&& first.notification() == old(self).pending()[0]
                    &&& !first.handled()
                    &&& final(self).pending() == old(self).pending().subrange(
                        1,
                        old(self).pending().len() as int,
                    )
                },
                None => {
                    &&& old(self).pending().len() == 0
                    &&& final(self).pending() == old(self).pending()
                },
            },
    {
        let event = self.event_queue.next();
        proof {
            if old(self).pending().len() > 0 {
                assert(event->0 == old(self).event_queue@[0]);
                assert(self.pending() =~= old(self).pending().subrange(
                    1,
                    old(self).pending().len() as int,
                ));
            }
        }
        event
    }

    /// Takes in what the backend reported since the last call: normalises
    /// each notification, puts the events behind those that wait already, in
    /// the order of `raw`, and follows the size of the client area.
    pub fn on_update(&mut self, raw: Vec<RawEvent>)
        requires
            old(self).well_formed(),
        ensures
            final(self).well_formed(),
            final(self).title() == old(self).title(),
            final(self).vsync() == old(self).vsync(),
            final(self).pending() == old(self).pending() + canonical_all(raw@),
            final(self).size() == size_after(old(self).size(), raw@),
    {
        let mut new_size: Option<(u32, u32)> = None;
        let mut i: usize = 0;
        assert(raw@.take(0) =~= Seq::<RawEvent>::empty());
        assert(self.pending() =~= old(self).pending() + canonical_all(raw@.take(0)));
        while i < raw.len()
            invariant
                i <= raw@.len(),
                self.well_formed(),
                self.title == old(self).title,
                self.vsync == old(self).vsync,
                self.width == old(self).width,
                self.height == old(self).height,
                self.pending() == old(self).pending() + canonical_all(raw@.take(i as int)),
                size_after(old(self).size(), raw@.take(i as int)) == match new_size {
                    Some(size) => size,
                    None => old(self).size(),
                },
            decreases raw@.len() - i,
        {
            let notification = raw[i];
            let ghost before = self.pending();
            proof {
                assert(raw@.take(i + 1).drop_last() =~= raw@.take(i as int));
                assert(raw@.take(i + 1).last() == notification);
            }
            match notification {
                RawEvent::Resized { width, height } => {
                    new_size = Some((width, height));
                },
                _ => {},
            }
            match translate(notification) {
                Some(event) => {
                    self.event_queue.push(event);
                    assert(self.pending() =~= before.push(event.notification()));
                },
                None => {},
            }
            i = i + 1;
        }
        assert(raw@.take(raw@.len() as int) =~= raw@);
        match new_size {
            Some(size) => {
                self.width = size.0;
                self.height = size.1;
            },
            None => {},
        }
        assert(self.pending() =~= old(self).pending() + canonical_all(raw@));
    }
}

} // verus!
