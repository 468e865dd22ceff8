//! Event dispatch and layer composition for an interactive application.
//!
//! Raw notifications of a windowing backend are normalised into canonical
//! events (`window`, `events`). Each event is shown to the engine and then
//! offered to an ordered stack of layers until one of them consumes it
//! (`layers`), and every frame ends with an update and a render pass over the
//! whole stack (`engine`). `input` keeps the state of the keys and the
//! mouse, and `tagged` holds events as plain values that can be copied and
//! compared.
//!
//! The crate performs no input or output of its own. A backend hands it plain
//! values (`window::RawEvent`) and carries out the requests that
//! `engine::Engine::advance` returns.
//!
//! Contracts speak of a listener in two ways. `events::called` says that a
//! method of the listener was called, with which values, and what it
//! returned; what the call did is then whatever that method ensures.
//! `events::delivered` is weaker: it relates the states of the listener
//! before and after through `events::EventListener::reacts`, the relation by
//! which a listener says what its methods may do, and it also holds of a
//! listener that is as it was and consumed nothing, whether it was called or
//! not.

pub mod application;
pub mod engine;
pub mod error;
pub mod events;
pub mod input;
pub mod layers;
pub mod tagged;
pub mod vecs;
pub mod window;
