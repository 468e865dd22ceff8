//! Buttons, the keys of a backend that stand for them, and the snapshot of
//! what is held down.

pub mod button;
pub mod keys;
pub mod snapshot;

pub use self::button::{Button, BUTTON_COUNT};
pub use self::keys::{convert_key, convert_pointer_button, PointerButton, VirtualKey};
pub use self::snapshot::InputSnapshot;
