use vstd::prelude::*;
use crate::application::Application;
use crate::error::Error;
use crate::events::application_events::{AppRenderEvent, AppUpdateEvent};
use crate::events::event::Event;
use crate::events::event_box::EventBox;
use crate::events::event_listener::{called, delivered, EventListener, Notification};
use crate::input::button::Button;
use crate::input::snapshot::InputSnapshot;
use crate::layers::layer::{attach_called, detach_called, Layer};
use crate::layers::layer_stack::{
    answer, asked, broadcast_to, place, propagated, LayerStack,
};
use crate::vecs::vec2::Vec2;

verus! {

/// What the engine asks its backend to do next.
#[derive(Clone, Copy, Debug, PartialEq, Eq, Structural)]
pub enum Request {
    /// Poll the window and hand over the events that came in since the last
    /// frame, in the order in which they came.
    Poll,
    /// Clear the whole frame buffer.
    Clear,
    /// Present the frame buffer.
    Present,
    /// Nothing more: the loop has ended.
    Exit,
}

/// What the backend did about a request.
pub enum Reply {
    /// The answer to `Request::Poll`.
    Polled(Vec<EventBox>),
    /// The answer to `Request::Clear`.
    Cleared,
    /// The answer to `Request::Present`, where presenting worked.
    Presented,
    /// The answer to `Request::Present`, where presenting failed.
    PresentFailed,
}

/// The four kinds of reply.
#[derive(Clone, Copy, Debug, PartialEq, Eq, Structural)]
pub enum ReplyKind {
    Polled,
    Cleared,
    Presented,
    PresentFailed,
}

impl Reply {
    /// The kind of this reply.
    pub open spec fn kind(&self) -> ReplyKind {
        match self {
            Reply::Polled(_) => ReplyKind::Polled,
            Reply::Cleared => ReplyKind::Cleared,
            Reply::Presented => ReplyKind::Presented,
            Reply::PresentFailed => ReplyKind::PresentFailed,
        }
    }

    /// The calls that the events of this reply stand for, in their order.
    /// Only a `Polled` reply has any.
    pub open spec fn calls(&self) -> Seq<Notification> {
        match self {
            Reply::Polled(events) => calls_of(events@),
            _ => Seq::empty(),
        }
    }

    /// Whether none of the events of this reply has been handled yet.
    pub open spec fn fresh(&self) -> bool {
        match self {
            Reply::Polled(events) => forall|i: int|
                0 <= i < events@.len() ==> !(#[trigger] events@[i]).handled(),
            _ => true,
        }
    }
}

/// The calls that `events` stand for, in their order.
pub open spec fn calls_of(events: Seq<EventBox>) -> Seq<Notification> {
    Seq::new(events.len(), |i: int| events[i].notification())
}

/// Whether the user asked for the window to be closed: whether one of
/// `calls` is `WindowClosed`.
pub open spec fn close_requested(calls: Seq<Notification>) -> bool {
    exists|i: int| 0 <= i < calls.len() && #[trigger] calls[i] == Notification::WindowClosed
}

/// The buttons that are held after `call`, where `held` were held before it.
/// Presses and releases of keys and of mouse buttons count, and nothing else;
/// `Button::Unknown` is never held.
pub open spec fn held_after(held: Set<Button>, call: Notification) -> Set<Button> {
    match call {
        Notification::KeyPress { button, .. } | Notification::MousePress { button } => {
            if button == Button::Unknown {
                held
            } else {
                held.insert(button)
            }
        },
        Notification::KeyRelease { button } | Notification::MouseRelease { button } => {
            held.remove(button)
        },
        _ => held,
    }
}

/// Where the mouse pointer is after `call`, where it was at `pointer` before.
pub open spec fn pointer_after(pointer: Vec2, call: Notification) -> Vec2 {
    match call {
        Notification::MouseMove { position } => position,
        _ => pointer,
    }
}

/// The buttons that are held after all of `calls`, in their order.
pub open spec fn held_after_all(held: Set<Button>, calls: Seq<Notification>) -> Set<Button>
    decreases calls.len(),
{
    if calls.len() == 0 {
        held
    } else {
        held_after(held_after_all(held, calls.drop_last()), calls.last())
    }
}

/// Where the mouse pointer is after all of `calls`, in their order.
pub open spec fn pointer_after_all(pointer: Vec2, calls: Seq<Notification>) -> Vec2
    decreases calls.len(),
{
    if calls.len() == 0 {
        pointer
    } else {
        pointer_after(pointer_after_all(pointer, calls.drop_last()), calls.last())
    }
}

/// What offering `calls` to a stack, one after the other, does to its layers:
/// each call is propagated through the stack as the one before it left it.
pub open spec fn routed<L: Layer>(before: Seq<L>, calls: Seq<Notification>, after: Seq<L>) -> bool
    decreases calls.len(),
{
    if calls.len() == 0 {
        after == before
    } else {
        exists|mid: Seq<L>, consumer: Option<usize>|
            routed(before, calls.drop_last(), mid) && #[trigger] propagated(
                mid,
                calls.last(),
                after,
                consumer,
            )
    }
}

/// Offering one more call to a stack that `calls` have gone through is
/// offering `calls` with that call at their end.
pub proof fn lemma_routed_push<L: Layer>(
    before: Seq<L>,
    calls: Seq<Notification>,
    mid: Seq<L>,
    call: Notification,
    after: Seq<L>,
    consumer: Option<usize>,
)
    requires
        routed(before, calls, mid),
        propagated(mid, call, after, consumer),
    ensures
        routed(before, calls.push(call), after),
{
    let longer = calls.push(call);
    assert(longer.drop_last() =~= calls);
    assert(longer.last() == call);
    assert(routed(before, longer.drop_last(), mid) && propagated(
        mid,
        longer.last(),
        after,
        consumer,
    ));
}

/// Whether `states` and `consumers` record how `calls` went through a stack
/// that was `before`: `states[j]` is the stack as the call `j` found it,
/// `states[j + 1]` the stack as that call left it, and `consumers[j]` the
/// place of the layer that consumed it, if one did.
pub open spec fn stepped<L: Layer>(
    before: Seq<L>,
    calls: Seq<Notification>,
    states: Seq<Seq<L>>,
    consumers: Seq<Option<usize>>,
) -> bool {
    &&& states.len() == calls.len() + 1
    &&& consumers.len() == calls.len()
    &&& states[0] == before
    &&& forall|j: int|
        #![trigger consumers[j]]
        0 <= j < calls.len() ==> propagated(states[j], calls[j], states[j + 1], consumers[j])
}

/// Whether the layer at the place `i` was asked when the call `j` of a run
/// went through the stack: the consumer of that call, and the layers behind
/// it.
pub open spec fn asked_at<L: Layer>(
    states: Seq<Seq<L>>,
    consumers: Seq<Option<usize>>,
    j: int,
    i: int,
) -> bool {
    0 <= j < consumers.len() && place(i, states[j].len()) && asked(consumers[j], i)
}

/// What the first half of a frame does to the layers: the events of the
/// frame are offered to the stack in their order, and then every layer is
/// updated.
pub open spec fn dispatched_and_updated<L: Layer>(
    before: Seq<L>,
    calls: Seq<Notification>,
    after: Seq<L>,
) -> bool {
    exists|mid: Seq<L>| #[trigger]
        routed(before, calls, mid) && broadcast_to(mid, Notification::Update, after)
}

/// The request that is outstanding and the running flag after a reply of the
/// kind `reply` came in, where they were `awaiting` and `running` before it.
/// `closing` says whether a `WindowClosed` was among the events of the reply.
///
/// A reply that does not answer the outstanding request changes nothing. A
/// request to close the window clears the flag and lets the frame go on: the
/// loop ends only when the frame has been presented. A frame that cannot be
/// presented ends the loop at once.
pub open spec fn control_after(
    awaiting: Request,
    running: bool,
    reply: ReplyKind,
    closing: bool,
) -> (Request, bool) {
    match (awaiting, reply) {
        (Request::Poll, ReplyKind::Polled) => (Request::Clear, running && !closing),
        (Request::Clear, ReplyKind::Cleared) => (Request::Present, running),
        (Request::Present, ReplyKind::Presented) => if running {
            (Request::Poll, true)
        } else {
            (Request::Exit, false)
        },
        (Request::Present, ReplyKind::PresentFailed) => (Request::Exit, false),
        _ => (awaiting, running),
    }
}

/// Once the user has asked for the window to be closed, the frame in
/// progress is still updated, cleared, rendered and presented, and then the
/// loop ends without another poll.
pub proof fn lemma_close_ends_loop_after_frame(running: bool)
    ensures
        control_after(Request::Poll, running, ReplyKind::Polled, true) == (Request::Clear, false),
        control_after(Request::Clear, false, ReplyKind::Cleared, false) == (
            Request::Present,
            false,
        ),
        control_after(Request::Present, false, ReplyKind::Presented, false) == (
            Request::Exit,
            false,
        ),
{
}

/// An engine that has stopped stays stopped, and a loop that has ended asks
/// for nothing more, whatever replies come in.
pub proof fn lemma_stopped_is_terminal(
    awaiting: Request,
    running: bool,
    reply: ReplyKind,
    closing: bool,
)
    ensures
        control_after(awaiting, running, reply, closing).1 ==> running,
        control_after(Request::Exit, running, reply, closing) == (Request::Exit, running),
        control_after(awaiting, running, reply, closing).0 == Request::Exit && awaiting
            != Request::Exit ==> !control_after(awaiting, running, reply, closing).1,
{
}

/// The part of an engine that its application may touch: the layer stack, to
/// push layers, and the running flag and the input snapshot, to read them.
pub struct EngineData<L: Layer> {
    is_running: bool,
    input: InputSnapshot,
    layer_stack: LayerStack<L>,
}

impl<L: Layer> EngineData<L> {
    /// The invariant: the layer stack is well formed.
    pub open spec fn well_formed(&self) -> bool {
        self.stack().well_formed()
    }

    /// Whether the loop goes on after the frame in progress.
    pub closed spec fn running(&self) -> bool {
        self.is_running
    }

    /// The input snapshot.
    pub closed spec fn snapshot(&self) -> InputSnapshot {
        self.input
    }

    /// The layer stack.
    pub closed spec fn stack(&self) -> LayerStack<L> {
        self.layer_stack
    }

    /// What a new engine starts with: it is running, it has seen no input,
    /// and it has no layers.
    pub fn new() -> (data: EngineData<L>)
        ensures
            data.well_formed(),
            data.running(),
            data.snapshot().held() == Set::<Button>::empty(),
            data.snapshot().pointer() == Vec2::of_bits(0, 0),
            data.stack()@ == Seq::<L>::empty(),
            data.stack().layers() == 0,
    {
        EngineData { is_running: true, input: InputSnapshot::new(), layer_stack: LayerStack::new() }
    }

    pub fn is_running(&self) -> (running: bool)
        ensures
            running == self.running(),
    {
        self.is_running
    }

    /// The current state of the keys, the mouse buttons and the pointer.
    pub fn input(&self) -> (input: &InputSnapshot)
        ensures
            *input == self.snapshot(),
    {
        &self.input
    }

    /// The layer stack, to look at.
    pub fn layer_stack(&self) -> (stack: &LayerStack<L>)
        ensures
            *stack == self.stack(),
    {
        &self.layer_stack
    }

    /// Attaches `layer` and puts it in front of the stack.
    pub fn push_layer(&mut self, layer: L)
        requires
            old(self).well_formed(),
        ensures
            final(self).well_formed(),
            final(self).running() == old(self).running(),
            final(self).snapshot() == old(self).snapshot(),
            final(self).stack()@.len() == old(self).stack()@.len() + 1,
            delivered(
                layer,
                Notification::Attach,
                final(self).stack()@[0],
                false,
            ),
            exists|m: &mut L|
                *m == layer && *final(m) == final(self).stack()@[0] && attach_called(m),
            final(self).stack()@ == old(self).stack()@.insert(0, final(self).stack()@[0]),
            final(self).stack().layers() == old(self).stack().layers() + 1,
    {
        self.layer_stack.push_layer(layer);
    }

    /// Attaches `layer` and puts it behind everything else in the stack.
    pub fn push_overlay(&mut self, layer: L)
        requires
            old(self).well_formed(),
        ensures
            final(self).well_formed(),
            final(self).running() == old(self).running(),
            final(self).snapshot() == old(self).snapshot(),
            final(self).stack()@.len() == old(self).stack()@.len() + 1,
            delivered(
                layer,
                Notification::Attach,
                final(self).stack()@.last(),
                false,
            ),
            exists|m: &mut L|
                *m == layer && *final(m) == final(self).stack()@.last() && attach_called(m),
            final(self).stack()@ == old(self).stack()@.push(final(self).stack()@.last()),
            final(self).stack().layers() == old(self).stack().layers(),
    {
        self.layer_stack.push_overlay(layer);
    }
}

/// The driver of the frame loop. It owns the application and the layer
/// stack, keeps the running flag and the input snapshot, and is itself the
/// first listener of every event.
///
/// The engine does no input or output. It says what the backend is to do
/// next (`request`), and is told what came of it (`advance`).
pub struct Engine<A: Application> {
    app: A,
    data: EngineData<A::Layer>,
    awaiting: Request,
}

impl<A: Application> Engine<A> {
    /// The invariant: the layer stack is well formed.
    pub open spec fn well_formed(&self) -> bool {
        self.stack().well_formed()
    }

    /// The application.
    pub closed spec fn application(&self) -> A {
        self.app
    }

    /// The request that is outstanding.
    pub closed spec fn awaiting(&self) -> Request {
        self.awaiting
    }

    /// Whether the loop goes on after the frame in progress.
    pub closed spec fn running(&self) -> bool {
        self.data.running()
    }

    /// The input snapshot.
    pub closed spec fn snapshot(&self) -> InputSnapshot {
        self.data.snapshot()
    }

    /// The layer stack.
    pub closed spec fn stack(&self) -> LayerStack<A::Layer> {
        self.data.stack()
    }

    /// What the engine's own listener does about `call`: the engine `self`
    /// is `before` after having observed `call`. A request to close the
    /// window clears the running flag; presses, releases and moves go into
    /// the input snapshot; the application, the layers and the outstanding
    /// request are left alone.
    pub open spec fn observed(&self, before: &Self, call: Notification) -> bool {
        &&& self.application() == before.application()
        &&& self.awaiting() == before.awaiting()
        &&& self.stack() == before.stack()
        &&& self.running() == (before.running() && call != Notification::WindowClosed)
        &&& self.snapshot().held() == held_after(before.snapshot().held(), call)
        &&& self.snapshot().pointer() == pointer_after(before.snapshot().pointer(), call)
    }

    /// The engine for `app`: running, with no input seen, with the layers
    /// that `app` pushes when it is started, and about to poll.
    pub fn new(app: A) -> (engine: Engine<A>)
        ensures
            engine.well_formed(),
            engine.running(),
            engine.awaiting() == Request::Poll,
            engine.snapshot().held() == Set::<Button>::empty(),
            engine.snapshot().pointer() == Vec2::of_bits(0, 0),
            app.starts(&engine.application(), engine.stack()@, engine.stack().layers()),
    {
        let mut app = app;
        let mut data = EngineData::new();
        app.start(&mut data);
        Engine { app, data, awaiting: Request::Poll }
    }

    /// What the backend is to do next.
    pub fn request(&self) -> (request: Request)
        ensures
            request == self.awaiting(),
    {
        self.awaiting
    }

    pub fn is_running(&self) -> (running: bool)
        ensures
            running == self.running(),
    {
        self.data.is_running()
    }

    /// The current state of the keys, the mouse buttons and the pointer.
    pub fn input(&self) -> (input: &InputSnapshot)
        ensures
            *input == self.snapshot(),
    {
        self.data.input()
    }

    /// The layer stack, to look at.
    pub fn layer_stack(&self) -> (stack: &LayerStack<A::Layer>)
        ensures
            *stack == self.stack(),
    {
        self.data.layer_stack()
    }

    /// The application, to look at.
    pub fn app(&self) -> (app: &A)
        ensures
            *app == self.application(),
    {
        &self.app
    }

    /// Attaches `layer` and puts it in front of the stack.
    pub fn push_layer(&mut self, layer: A::Layer)
        requires
            old(self).well_formed(),
        ensures
            final(self).well_formed(),
            final(self).application() == old(self).application(),
            final(self).awaiting() == old(self).awaiting(),
            final(self).running() == old(self).running(),
            final(self).snapshot() == old(self).snapshot(),
            final(self).stack()@.len() == old(self).stack()@.len() + 1,
            delivered(
                layer,
                Notification::Attach,
                final(self).stack()@[0],
                false,
            ),
            exists|m: &mut A::Layer|
                *m == layer && *final(m) == final(self).stack()@[0] && attach_called(m),
            final(self).stack()@ == old(self).stack()@.insert(0, final(self).stack()@[0]),
            final(self).stack().layers() == old(self).stack().layers() + 1,
    {
        self.data.push_layer(layer);
    }

    /// Attaches `layer` and puts it behind everything else in the stack.
    pub fn push_overlay(&mut self, layer: A::Layer)
        requires
            old(self).well_formed(),
        ensures
            final(self).well_formed(),
            final(self).application() == old(self).application(),
            final(self).awaiting() == old(self).awaiting(),
            final(self).running() == old(self).running(),
            final(self).snapshot() == old(self).snapshot(),
            final(self).stack()@.len() == old(self).stack()@.len() + 1,
            delivered(
                layer,
                Notification::Attach,
                final(self).stack()@.last(),
                false,
            ),
            exists|m: &mut A::Layer|
                *m == layer && *final(m) == final(self).stack()@.last() && attach_called(m),
            final(self).stack()@ == old(self).stack()@.push(final(self).stack()@.last()),
            final(self).stack().layers() == old(self).stack().layers(),
    {
        self.data.push_overlay(layer);
    }

    /// Lets the engine's own listener see `event`, so that the running flag
    /// and the input snapshot follow every event, whatever the layers go on
    /// to do with it. The engine consumes nothing: the event is not touched.
    pub fn observe(&mut self, event: &EventBox)
        ensures
            final(self).observed(old(self), event.notification()),
            final(self).well_formed() == old(self).well_formed(),
    {
        match event.call() {
            Notification::Update => self.on_update(),
            Notification::Render => self.on_render(),
            Notification::WindowClosed => self.on_window_closed(),
            Notification::WindowResize { width, height } => self.on_window_resize(width, height),
            Notification::KeyPress { button, repeat } => {
                self.on_key_press(button, repeat);
            },
            Notification::KeyRelease { button } => {
                self.on_key_release(button);
            },
            Notification::CharWritten { which } => {
                self.on_char_written(which);
            },
            Notification::MousePress { button } => {
                self.on_mouse_press(button);
            },
            Notification::MouseRelease { button } => {
                self.on_mouse_release(button);
            },
            Notification::MouseMove { position } => {
                self.on_mouse_move(position);
            },
            Notification::MouseScroll { delta } => {
                self.on_mouse_scroll(delta);
            },
            Notification::Attach | Notification::Detach => {},
        }
    }
}

impl<A: Application> Engine<A> {
    /// Takes in the answer to the outstanding request, does the part of the
    /// frame that comes after it, and says what the backend is to do next.
    ///
    /// After `Polled`, every event is shown to the engine itself and then
    /// offered to the layers, back to front, until one of them consumes it;
    /// then every layer is updated, and the frame buffer is to be cleared.
    /// After `Cleared`, every layer renders, and the frame is to be
    /// presented. After `Presented`, the next frame begins with a poll, or,
    /// where the engine has stopped, the application is closed and the loop
    /// ends. After `PresentFailed` the application is closed, the loop ends,
    /// and the failure is returned. A reply that does not answer the
    /// outstanding request is dropped, and the request is repeated.
    ///
    /// The contract states the calls on the layers. For a poll there is a
    /// record of the stack before and after each event, and of the layer
    /// that consumed it: every layer that was asked got the call of that
    /// event, the consumer answering `true` and the others `false`, and after
    /// the last event every layer got `on_update`. For a clear every layer
    /// got `on_render`.
    ///
    /// The events of a `Polled` reply must not have been handled before.
    pub fn advance(&mut self, reply: Reply) -> (next: Result<Request, Error>)
        requires
            old(self).well_formed(),
            reply.fresh(),
        ensures
            final(self).well_formed(),
            (final(self).awaiting(), final(self).running()) == control_after(
                old(self).awaiting(),
                old(self).running(),
                reply.kind(),
                close_requested(reply.calls()),
            ),
            next == if old(self).awaiting() == Request::Present && reply.kind()
                == ReplyKind::PresentFailed {
                Err::<Request, Error>(Error::Presentation)
            } else {
                Ok::<Request, Error>(final(self).awaiting())
            },
            final(self).stack().layers() == old(self).stack().layers(),
            match (old(self).awaiting(), reply.kind()) {
                (Request::Poll, ReplyKind::Polled) => {
                    &&& final(self).snapshot().held() == held_after_all(
                        old(self).snapshot().held(),
                        reply.calls(),
                    )
                    &&& final(self).snapshot().pointer() == pointer_after_all(
                        old(self).snapshot().pointer(),
                        reply.calls(),
                    )
                    &&& dispatched_and_updated(
                        old(self).stack()@,
                        reply.calls(),
                        final(self).stack()@,
                    )
                    &&& final(self).stack()@.len() == old(self).stack()@.len()
                    &&& exists|states: Seq<Seq<A::Layer>>, consumers: Seq<Option<usize>>|
                        #![trigger stepped(old(self).stack()@, reply.calls(), states, consumers)]
                        {
                            &&& stepped(old(self).stack()@, reply.calls(), states, consumers)
                            &&& forall|j: int, i: int|
                                #![trigger asked_at(states, consumers, j, i)]
                                asked_at(states, consumers, j, i) ==> exists|m: &mut A::Layer|
                                    *m == states[j][i] && *final(m) == states[j + 1][i]
                                        && called(m, reply.calls()[j], answer(consumers[j], i))
                            &&& forall|i: int|
                                #![trigger place(i, states.last().len())]
                                place(i, states.last().len()) ==> exists|m: &mut A::Layer|
                                    *m == states.last()[i]
                                        && *final(m) == final(self).stack()@[i]
                                        && called(m, Notification::Update, false)
                        }
                },
                (Request::Clear, ReplyKind::Cleared) => {
                    &&& final(self).snapshot() == old(self).snapshot()
                    &&& broadcast_to(
                        old(self).stack()@,
                        Notification::Render,
                        final(self).stack()@,
                    )
                    &&& final(self).stack()@.len() == old(self).stack()@.len()
                    &&& forall|i: int|
                        #![trigger place(i, old(self).stack()@.len())]
                        place(i, old(self).stack()@.len()) ==> exists|m: &mut A::Layer|
                            *m == old(self).stack()@[i] && *final(m) == final(self).stack()@[i]
                                && called(m, Notification::Render, false)
                },
                _ => {
                    &&& final(self).snapshot() == old(self).snapshot()
                    &&& final(self).stack() == old(self).stack()
                },
            },
            if final(self).awaiting() == Request::Exit && old(self).awaiting()
                != Request::Exit {
                old(self).application().closes(&final(self).application())
            } else {
                final(self).application() == old(self).application()
            },
    {
        match (self.awaiting, reply) {
            (Request::Poll, Reply::Polled(events)) => {
                let ghost calls = calls_of(events@);
                let trace = self.dispatch_events(events);
                let ghost dispatched = self.stack()@;
                self.update();
                self.awaiting = Request::Clear;
                proof {
                    let states = trace@.0;
                    let consumers = trace@.1;
                    assert(final(self).stack()@ == self.stack()@);
                    assert(stepped(old(self).stack()@, calls, states, consumers));
                    assert(states.last() == dispatched);
                    assert forall|i: int|
                        #![trigger place(i, states.last().len())]
                        place(i, states.last().len()) implies exists|m: &mut A::Layer|
                        *m == states.last()[i] && *final(m) == final(self).stack()@[i] && called(
                            m,
                            Notification::Update,
                            false,
                        ) by {
                        assert(place(i, dispatched.len()));
                    }
                }
                Ok(Request::Clear)
            },
            (Request::Clear, Reply::Cleared) => {
                self.render();
                self.awaiting = Request::Present;
                Ok(Request::Present)
            },
            (Request::Present, Reply::Presented) => {
                if self.data.is_running {
                    self.awaiting = Request::Poll;
                    Ok(Request::Poll)
                } else {
                    self.app.close();
                    self.awaiting = Request::Exit;
                    Ok(Request::Exit)
                }
            },
            (Request::Present, Reply::PresentFailed) => {
                self.data.is_running = false;
                self.app.close();
                self.awaiting = Request::Exit;
                Err(Error::Presentation)
            },
            (awaiting, _) => Ok(awaiting),
        }
    }

    /// Shows each of `events` to the engine and then to the layers, in the
    /// order of `events`.
    fn dispatch_events(&mut self, events: Vec<EventBox>) -> (trace: Ghost<
        (Seq<Seq<A::Layer>>, Seq<Option<usize>>),
    >)
        requires
            old(self).well_formed(),
            forall|i: int| 0 <= i < events@.len() ==> !(#[trigger] events@[i]).handled(),
        ensures
            final(self).well_formed(),
            final(self).application() == old(self).application(),
            final(self).awaiting() == old(self).awaiting(),
            final(self).running() == (old(self).running() && !close_requested(calls_of(events@))),
            final(self).snapshot().held() == held_after_all(
                old(self).snapshot().held(),
                calls_of(events@),
            ),
            final(self).snapshot().pointer() == pointer_after_all(
                old(self).snapshot().pointer(),
                calls_of(events@),
            ),
            final(self).stack().layers() == old(self).stack().layers(),
            routed(old(self).stack()@, calls_of(events@), final(self).stack()@),
            final(self).stack()@.len() == old(self).stack()@.len(),
            stepped(old(self).stack()@, calls_of(events@), trace@.0, trace@.1),
            trace@.0.last() == final(self).stack()@,
            forall|j: int, i: int|
                #![trigger asked_at(trace@.0, trace@.1, j, i)]
                asked_at(trace@.0, trace@.1, j, i) ==> exists|m: &mut A::Layer|
                    *m == trace@.0[j][i] && *final(m) == trace@.0[j + 1][i] && called(
                        m,
                        calls_of(events@)[j],
                        answer(trace@.1[j], i),
                    ),
    {
        let ghost calls = calls_of(events@);
        let mut events = events;
        let mut i: usize = 0;
        let ghost mut states: Seq<Seq<A::Layer>> = seq![self.stack()@];
        let ghost mut consumers: Seq<Option<usize>> = Seq::empty();
        proof {
            assert(calls.take(0) =~= Seq::<Notification>::empty());
        }
        while i < events.len()
            invariant
                i <= events@.len(),
                events@.len() == calls.len(),
                forall|j: int| 0 <= j < events@.len() ==> (#[trigger] events@[j]).notification()
                    == calls[j],
                forall|j: int| i <= j < events@.len() ==> !(#[trigger] events@[j]).handled(),
                self.well_formed(),
                self.application() == old(self).application(),
                self.awaiting() == old(self).awaiting(),
                self.running() == (old(self).running() && !close_requested(calls.take(i as int))),
                self.snapshot().held() == held_after_all(
                    old(self).snapshot().held(),
                    calls.take(i as int),
                ),
                self.snapshot().pointer() == pointer_after_all(
                    old(self).snapshot().pointer(),
                    calls.take(i as int),
                ),
                self.stack().layers() == old(self).stack().layers(),
                routed(old(self).stack()@, calls.take(i as int), self.stack()@),
                self.stack()@.len() == old(self).stack()@.len(),
                states.len() == i + 1,
                consumers.len() == i,
                states[0] == old(self).stack()@,
                states[i as int] == self.stack()@,
                forall|j: int|
                    #![trigger consumers[j]]
                    0 <= j < i ==> propagated(states[j], calls[j], states[j + 1], consumers[j]),
                forall|j: int, k: int|
                    #![trigger asked_at(states, consumers, j, k)]
                    asked_at(states, consumers, j, k) ==> exists|m: &mut A::Layer|
                        *m == states[j][k] && *final(m) == states[j + 1][k] && called(
                            m,
                            calls[j],
                            answer(consumers[j], k),
                        ),
            decreases events@.len() - i,
        {
            let ghost before = self.stack()@;
            let ghost call = calls[i as int];
            self.observe(&events[i]);
            let consumer = self.data.layer_stack.propagate(&mut events[i]);
            proof {
                let longer = states.push(self.stack()@);
                let more = consumers.push(consumer);
                assert forall|j: int, k: int|
                    #![trigger asked_at(longer, more, j, k)]
                    asked_at(longer, more, j, k) implies exists|m: &mut A::Layer|
                    *m == longer[j][k] && *final(m) == longer[j + 1][k] && called(
                        m,
                        calls[j],
                        answer(more[j], k),
                    ) by {
                    if j < i {
                        assert(longer[j] == states[j] && longer[j + 1] == states[j + 1]);
                        assert(more[j] == consumers[j]);
                        assert(asked_at(states, consumers, j, k));
                    } else {
                        assert(longer[j] == before && longer[j + 1] == self.stack()@);
                        assert(more[j] == consumer);
                        assert(asked(consumer, k));
                    }
                }
                assert forall|j: int|
                    #![trigger more[j]]
                    0 <= j < i + 1 implies propagated(longer[j], calls[j], longer[j + 1], more[j]) by {
                    if j < i {
                        assert(longer[j] == states[j] && longer[j + 1] == states[j + 1]);
                        assert(more[j] == consumers[j]);
                    }
                }
                states = longer;
                consumers = more;
                let seen = calls.take(i + 1);
                assert(seen.drop_last() =~= calls.take(i as int));
                assert(seen.last() == call);
                assert(seen =~= calls.take(i as int).push(call));
                lemma_routed_push(
                    old(self).stack()@,
                    calls.take(i as int),
                    before,
                    call,
                    self.stack()@,
                    consumer,
                );
                assert(close_requested(seen) == (close_requested(calls.take(i as int)) || call
                    == Notification::WindowClosed)) by {
                    if close_requested(calls.take(i as int)) {
                        let k = choose|k: int|
                            0 <= k < calls.take(i as int).len() && #[trigger] calls.take(
                                i as int,
                            )[k] == Notification::WindowClosed;
                        assert(seen[k] == Notification::WindowClosed);
                    }
                    if call == Notification::WindowClosed {
                        assert(seen[i as int] == Notification::WindowClosed);
                    }
                    if close_requested(seen) {
                        let k = choose|k: int|
                            0 <= k < seen.len() && #[trigger] seen[k]
                                == Notification::WindowClosed;
                        if k < i {
                            assert(calls.take(i as int)[k] == Notification::WindowClosed);
                        }
                    }
                }
            }
            i = i + 1;
        }
        proof {
            assert(calls.take(calls.len() as int) =~= calls);
        }
        Ghost((states, consumers))
    }

    /// Makes the update pass of the frame: every layer, front to back.
    fn update(&mut self)
        requires
            old(self).well_formed(),
        ensures
            final(self).well_formed(),
            final(self).application() == old(self).application(),
            final(self).awaiting() == old(self).awaiting(),
            final(self).running() == old(self).running(),
            final(self).snapshot() == old(self).snapshot(),
            final(self).stack().layers() == old(self).stack().layers(),
            broadcast_to(old(self).stack()@, Notification::Update, final(self).stack()@),
            forall|i: int|
                #![trigger final(self).stack()@[i]]
                #![trigger place(i, old(self).stack()@.len())]
                place(i, old(self).stack()@.len()) ==> delivered(
                    old(self).stack()@[i],
                    Notification::Update,
                    final(self).stack()@[i],
                    false,
                ) && exists|m: &mut A::Layer|
                    *m == old(self).stack()@[i] && *final(m) == final(self).stack()@[i]
                        && called(m, Notification::Update, false),
    {
        let mut event = AppUpdateEvent::new();
        self.data.layer_stack.broadcast(&mut event);
    }

    /// Makes the render pass of the frame: every layer, front to back, so
    /// that what stands further back is drawn over what stands in front of it.
    fn render(&mut self)
        requires
            old(self).well_formed(),
        ensures
            final(self).well_formed(),
            final(self).application() == old(self).application(),
            final(self).awaiting() == old(self).awaiting(),
            final(self).running() == old(self).running(),
            final(self).snapshot() == old(self).snapshot(),
            final(self).stack().layers() == old(self).stack().layers(),
            broadcast_to(old(self).stack()@, Notification::Render, final(self).stack()@),
            forall|i: int|
                #![trigger final(self).stack()@[i]]
                #![trigger place(i, old(self).stack()@.len())]
                place(i, old(self).stack()@.len()) ==> delivered(
                    old(self).stack()@[i],
                    Notification::Render,
                    final(self).stack()@[i],
                    false,
                ) && exists|m: &mut A::Layer|
                    *m == old(self).stack()@[i] && *final(m) == final(self).stack()@[i]
                        && called(m, Notification::Render, false),
    {
        let mut event = AppRenderEvent::new();
        self.data.layer_stack.broadcast(&mut event);
    }
}

impl<A: Application> EventListener for Engine<A> {
    open spec fn reacts(&self, call: Notification, after: &Self, handled: bool) -> bool {
        !handled && after.observed(self, call)
    }

    fn on_window_closed(&mut self)
        ensures
            final(self).observed(old(self), Notification::WindowClosed),
    {
        self.data.is_running = false;
    }

    fn on_mouse_move(&mut self, position: Vec2) -> (handled: bool)
        ensures
            !handled,
            final(self).observed(old(self), Notification::MouseMove { position }),
    {
        self.data.input.move_mouse(position);
        false
    }

    fn on_key_press(&mut self, button: Button, repeat: bool) -> (handled: bool)
        ensures
            !handled,
            final(self).observed(old(self), Notification::KeyPress { button, repeat }),
    {
        self.data.input.press(button);
        false
    }

    fn on_key_release(&mut self, button: Button) -> (handled: bool)
        ensures
            !handled,
            final(self).observed(old(self), Notification::KeyRelease { button }),
    {
        self.data.input.release(button);
        false
    }

    fn on_mouse_press(&mut self, button: Button) -> (handled: bool)
        ensures
            !handled,
            final(self).observed(old(self), Notification::MousePress { button }),
    {
        self.data.input.press(button);
        false
    }

    fn on_mouse_release(&mut self, button: Button) -> (handled: bool)
        ensures
            !handled,
            final(self).observed(old(self), Notification::MouseRelease { button }),
    {
        self.data.input.release(button);
        false
    }
}

/// Hands out engines, at most one at a time.
///
/// The resources of a backend cannot be shared between two engines, so a
/// program keeps one factory and makes its engine through it. While that
/// engine is alive the factory refuses to make another one; it makes the next
/// one when the first has been given back.
pub struct EngineFactory {
    live: bool,
}

impl EngineFactory {
    /// Whether an engine of this factory is alive.
    pub closed spec fn occupied(&self) -> bool {
        self.live
    }

    /// A factory that has made no engine yet.
    pub fn new() -> (factory: EngineFactory)
        ensures
            !factory.occupied(),
    {
        EngineFactory { live: false }
    }

    /// Whether an engine of this factory is alive, so that `create` would
    /// refuse.
    pub fn is_occupied(&self) -> (occupied: bool)
        ensures
            occupied == self.occupied(),
    {
        self.live
    }

    /// Makes the engine for `app`, unless an engine of this factory is alive:
    /// then `app` is dropped and `Error::AlreadyRunning` is returned.
    pub fn create<A: Application>(&mut self, app: A) -> (engine: Result<Engine<A>, Error>)
        ensures
            final(self).occupied(),
            match engine {
                Ok(e) => {
                    &&& !old(self).occupied()
                    &&& e.well_formed()
                    &&& e.running()
                    &&& e.awaiting() == Request::Poll
                    &&& e.snapshot().held() == Set::<Button>::empty()
                    &&& e.snapshot().pointer() == Vec2::of_bits(0, 0)
                    &&& app.starts(&e.application(), e.stack()@, e.stack().layers())
                },
                Err(error) => {
                    &&& old(self).occupied()
                    &&& error == Error::AlreadyRunning
                },
            },
    {
        if self.live {
            return Err(Error::AlreadyRunning);
        }
        self.live = true;
        Ok(Engine::new(app))
    }

    /// Takes back the engine that this factory made and ends it: the layers
    /// that are left are detached, front to back, and the factory is free to
    /// make another engine.
    pub fn release<A: Application>(&mut self, engine: Engine<A>) -> (detached: Vec<A::Layer>)
        requires
            engine.well_formed(),
        ensures
            !final(self).occupied(),
            detached@.len() == engine.stack()@.len(),
            forall|i: int|
                #![trigger detached@[i]]
                #![trigger place(i, engine.stack()@.len())]
                place(i, engine.stack()@.len()) ==> delivered(
                    engine.stack()@[i],
                    Notification::Detach,
                    detached@[i],
                    false,
                ) && exists|m: &mut A::Layer|
                    *m == engine.stack()@[i] && *final(m) == detached@[i] && detach_called(m),
    {
        self.live = false;
        let detached = engine.data.layer_stack.teardown();
        detached
    }
}

/// The flag of a button follows the last press or release of that button:
/// it is held after a press, up after a release, and no other button's flag
/// moves. So a press, a release and another press leave the button held.
pub proof fn lemma_snapshot_follows_last_event(held: Set<Button>, button: Button, other: Button)
    requires
        button != Button::Unknown,
        other != button,
    ensures
        held_after(held, Notification::KeyPress { button, repeat: false }).contains(button),
        !held_after(held, Notification::KeyRelease { button }).contains(button),
        held_after(held, Notification::MousePress { button }).contains(button),
        !held_after(held, Notification::MouseRelease { button }).contains(button),
        held_after(held, Notification::KeyPress { button, repeat: false }).contains(other)
            == held.contains(other),
        held_after(held, Notification::KeyRelease { button }).contains(other) == held.contains(
            other,
        ),
        held_after_all(
            held,
            seq![
                Notification::KeyPress { button, repeat: false },
                Notification::KeyRelease { button },
                Notification::KeyPress { button, repeat: false },
            ],
        ).contains(button),
{
    let press = Notification::KeyPress { button, repeat: false };
    let release = Notification::KeyRelease { button };
    let one = seq![press];
    let two = seq![press, release];
    let three = seq![press, release, press];
    assert(one.drop_last() =~= Seq::<Notification>::empty());
    assert(two.drop_last() =~= one);
    assert(three.drop_last() =~= two);
    assert(held_after_all(held, Seq::<Notification>::empty()) == held);
    assert(held_after_all(held, one) == held_after(held, press));
    assert(held_after_all(held, two) == held_after(held_after(held, press), release));
    assert(held_after_all(held, three) == held_after(held_after_all(held, two), press));
}

/// The snapshot is cumulative: what it shows after the events of two frames
/// is what it shows after all of them, taken in their order as one run. No
/// frame rolls back what an earlier one recorded.
pub proof fn lemma_snapshot_is_cumulative(
    held: Set<Button>,
    pointer: Vec2,
    first: Seq<Notification>,
    second: Seq<Notification>,
)
    ensures
        held_after_all(held_after_all(held, first), second) == held_after_all(
            held,
            first + second,
        ),
        pointer_after_all(pointer_after_all(pointer, first), second) == pointer_after_all(
            pointer,
            first + second,
        ),
    decreases second.len(),
{
    if second.len() == 0 {
        assert(first + second =~= first);
    } else {
        lemma_snapshot_is_cumulative(held, pointer, first, second.drop_last());
        assert((first + second).drop_last() =~= first + second.drop_last());
        assert((first + second).last() == second.last());
    }
}

/// The pointer is where the last move put it.
pub proof fn lemma_pointer_follows_last_move(pointer: Vec2, position: Vec2)
    ensures
        pointer_after(pointer, Notification::MouseMove { position }) == position,
        pointer_after_all(pointer, seq![Notification::MouseMove { position }]) == position,
{
    let calls = seq![Notification::MouseMove { position }];
    assert(calls.drop_last() =~= Seq::<Notification>::empty());
    assert(pointer_after_all(pointer, Seq::<Notification>::empty()) == pointer);
}

} // verus!
