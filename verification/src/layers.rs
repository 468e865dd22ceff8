//! Layers and the stack that owns them.

pub mod either;
pub mod layer;
pub mod layer_stack;

pub use self::either::Either;
pub use self::layer::{attach_called, detach_called, Layer};
pub use self::layer_stack::{
    answer, asked, broadcast_to, place, propagated, LayerStack, Push,
};
