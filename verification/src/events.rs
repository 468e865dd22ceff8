//! The canonical events, the listeners that react to them, and the queue in
//! which events wait.

pub mod application_events;
pub mod event;
pub mod event_box;
pub mod event_listener;
pub mod event_queue;
pub mod keyboard_events;
pub mod mouse_events;
pub mod window_events;

pub use self::application_events::{AppRenderEvent, AppUpdateEvent};
pub use self::event::Event;
pub use self::event_box::EventBox;
pub use self::event_listener::{called, delivered, EventListener, Notification};
pub use self::event_queue::EventQueue;
pub use self::keyboard_events::{CharWrittenEvent, KeyPressedEvent, KeyReleasedEvent};
pub use self::mouse_events::{
    MouseMovedEvent, MousePressedEvent, MouseReleasedEvent, MouseScrolledEvent,
};
pub use self::window_events::{WindowClosedEvent, WindowResizedEvent};
