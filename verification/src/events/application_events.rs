use vstd::prelude::*;
use crate::events::event::Event;
use crate::events::event_box::EventBox;
use crate::events::event_listener::{EventListener, Notification};

verus! {

/// The pseudo-event of the update pass that every frame makes.
#[derive(Debug)]
pub struct AppUpdateEvent;

impl AppUpdateEvent {
    pub fn new() -> (event: EventBox)
        ensures
            event is AppUpdate,
            event.notification() == Notification::Update,
            !event.handled(),
    {
        EventBox::AppUpdate(AppUpdateEvent)
    }
}

impl Event for AppUpdateEvent {
    open spec fn notification(&self) -> Notification {
        Notification::Update
    }

    open spec fn handled(&self) -> bool {
        false
    }

    proof fn lemma_handled_is_consumable(&self) {
    }

    fn is_handled(&self) -> (handled: bool) {
        false
    }

    fn call(&self) -> (call: Notification) {
        Notification::Update
    }

    fn dispatch<L: EventListener>(&mut self, listener: &mut L) {
        listener.on_update();
    }
}

/// The pseudo-event of the render pass that every frame makes.
#[derive(Debug)]
pub struct AppRenderEvent;

impl AppRenderEvent {
    pub fn new() -> (event: EventBox)
        ensures
            event is AppRender,
            event.notification() == Notification::Render,
            !event.handled(),
    {
        EventBox::AppRender(AppRenderEvent)
    }
}

impl Event for AppRenderEvent {
    open spec fn notification(&self) -> Notification {
        Notification::Render
    }

    open spec fn handled(&self) -> bool {
        false
    }

    proof fn lemma_handled_is_consumable(&self) {
    }

    fn is_handled(&self) -> (handled: bool) {
        false
    }

    fn call(&self) -> (call: Notification) {
        Notification::Render
    }

    fn dispatch<L: EventListener>(&mut self, listener: &mut L) {
        listener.on_render();
    }
}

} // verus!
