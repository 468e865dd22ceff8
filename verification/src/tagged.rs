//! Events as plain values: what happened, as one tagged value that can be
//! copied and compared, kept apart from the flag that says whether a listener
//! has consumed it.

pub mod event;
pub mod event_queue;

pub use self::event::{Event, EventType};
pub use self::event_queue::EventQueue;
