use layer_engine::events::{
    AppRenderEvent, AppUpdateEvent, CharWrittenEvent, Event, EventListener, KeyPressedEvent,
    MouseMovedEvent, WindowClosedEvent, WindowResizedEvent,
};
use layer_engine::input::Button;
use layer_engine::layers::{Either, Layer, LayerStack};
use layer_engine::vecs::Vec2;
use std::cell::RefCell;
use std::rc::Rc;

type Log = Rc<RefCell<Vec<String>>>;

/// A layer that writes down every call it receives.
struct Probe {
    name: &'static str,
    log: Log,
    consumes: bool,
}

impl Probe {
    fn new(name: &'static str, log: &Log) -> Probe {
        Probe { name, log: log.clone(), consumes: false }
    }

    fn consuming(name: &'static str, log: &Log) -> Probe {
        Probe { name, log: log.clone(), consumes: true }
    }

    fn note(&self, what: &str) {
        self.log.borrow_mut().push(format!("{}:{}", self.name, what));
    }
}

impl EventListener for Probe {
    fn on_update(&mut self) {
        self.note("update");
    }
    fn on_render(&mut self) {
        self.note("render");
    }
    fn on_window_closed(&mut self) {
        self.note("closed");
    }
    fn on_window_resize(&mut self, width: u32, height: u32) {
        self.note(&format!("resize {}x{}", width, height));
    }
    fn on_key_press(&mut self, _button: Button, _repeat: bool) -> bool {
        self.note("key");
        self.consumes
    }
    fn on_char_written(&mut self, which: char) -> bool {
        self.note(&format!("char {}", which));
        self.consumes
    }
}

impl Layer for Probe {
    fn on_attach(&mut self) {
        self.note("attach");
    }
    fn on_detach(&mut self) {
        self.note("detach");
    }
}

fn log() -> Log {
    Rc::new(RefCell::new(Vec::new()))
}

fn taken(log: &Log) -> Vec<String> {
    log.borrow_mut().drain(..).collect()
}

fn names(stack: &LayerStack<Probe>) -> Vec<&'static str> {
    (0..stack.len()).map(|i| stack.get(i).unwrap().name).collect()
}

#[test]
fn new_stack_is_empty() {
    let stack: LayerStack<Probe> = LayerStack::new();
    assert_eq!(stack.len(), 0);
    assert_eq!(stack.layer_count(), 0);
    assert!(stack.get(0).is_none());
}

#[test]
fn push_attaches_at_once() {
    let log = log();
    let mut stack = LayerStack::new();
    stack.push_layer(Probe::new("a", &log));
    assert_eq!(taken(&log), vec!["a:attach"]);
    stack.push_overlay(Probe::new("c", &log));
    assert_eq!(taken(&log), vec!["c:attach"]);
    assert_eq!(stack.len(), 2);
    assert_eq!(stack.layer_count(), 1);
}

#[test]
fn layers_stand_in_front_of_overlays() {
    let log = log();
    let mut stack = LayerStack::new();
    stack.push_overlay(Probe::new("c", &log));
    stack.push_layer(Probe::new("a", &log));
    stack.push_overlay(Probe::new("d", &log));
    stack.push_layer(Probe::new("b", &log));
    assert_eq!(names(&stack), vec!["b", "a", "c", "d"]);
    assert_eq!(stack.layer_count(), 2);
    assert_eq!(stack.len(), 4);
}

#[test]
fn insertion_order_of_two_layers_and_two_overlays() {
    let log = log();
    let mut stack = LayerStack::new();
    stack.push_layer(Probe::new("A", &log));
    stack.push_layer(Probe::new("B", &log));
    stack.push_overlay(Probe::new("C", &log));
    stack.push_overlay(Probe::new("D", &log));
    taken(&log);

    let mut update = AppUpdateEvent::new();
    stack.broadcast(&mut update);
    assert_eq!(taken(&log), vec!["B:update", "A:update", "C:update", "D:update"]);

    let mut render = AppRenderEvent::new();
    stack.broadcast(&mut render);
    assert_eq!(taken(&log), vec!["B:render", "A:render", "C:render", "D:render"]);

    let mut key = KeyPressedEvent::new(Button::Q, false);
    assert_eq!(stack.propagate(&mut key), None);
    assert_eq!(taken(&log), vec!["D:key", "C:key", "A:key", "B:key"]);
    assert!(!key.is_handled());
}

#[test]
fn insertion_order_of_one_layer_and_two_overlays() {
    let log = log();
    let mut stack = LayerStack::new();
    stack.push_layer(Probe::new("A", &log));
    stack.push_overlay(Probe::new("C", &log));
    stack.push_overlay(Probe::new("D", &log));
    taken(&log);

    let mut update = AppUpdateEvent::new();
    stack.broadcast(&mut update);
    assert_eq!(taken(&log), vec!["A:update", "C:update", "D:update"]);

    let mut key = KeyPressedEvent::new(Button::Q, false);
    stack.propagate(&mut key);
    assert_eq!(taken(&log), vec!["D:key", "C:key", "A:key"]);
}

#[test]
fn consumed_event_goes_no_further() {
    let log = log();
    let mut stack = LayerStack::new();
    stack.push_overlay(Probe::new("third", &log));
    stack.push_overlay(Probe::consuming("second", &log));
    stack.push_overlay(Probe::new("first", &log));
    taken(&log);

    let mut key = KeyPressedEvent::new(Button::Space, false);
    let consumer = stack.propagate(&mut key);
    assert_eq!(taken(&log), vec!["first:key", "second:key"]);
    assert_eq!(consumer, Some(1));
    assert!(key.is_handled());
}

#[test]
fn consumer_at_the_back_is_the_only_one_asked() {
    let log = log();
    let mut stack = LayerStack::new();
    stack.push_layer(Probe::new("base", &log));
    stack.push_overlay(Probe::consuming("top", &log));
    taken(&log);
    let mut written = CharWrittenEvent::new('q');
    assert_eq!(stack.propagate(&mut written), Some(1));
    assert_eq!(taken(&log), vec!["top:char q"]);
    assert!(written.is_handled());
}

#[test]
fn unanswered_event_stays_unhandled() {
    let log = log();
    let mut stack = LayerStack::new();
    stack.push_layer(Probe::new("a", &log));
    stack.push_layer(Probe::new("b", &log));
    taken(&log);
    let mut moved = MouseMovedEvent::new(Vec2::zero());
    assert_eq!(stack.propagate(&mut moved), None);
    assert!(!moved.is_handled());
    assert!(taken(&log).is_empty());
}

#[test]
fn lifecycle_events_reach_every_layer() {
    let log = log();
    let mut stack = LayerStack::new();
    stack.push_layer(Probe::consuming("one", &log));
    stack.push_layer(Probe::consuming("two", &log));
    stack.push_overlay(Probe::consuming("three", &log));
    taken(&log);

    let mut resized = WindowResizedEvent::new(640, 480);
    assert_eq!(stack.propagate(&mut resized), None);
    assert_eq!(
        taken(&log),
        vec!["three:resize 640x480", "one:resize 640x480", "two:resize 640x480"]
    );
    assert!(!resized.is_handled());

    let mut closed = WindowClosedEvent::new();
    assert_eq!(stack.propagate(&mut closed), None);
    assert_eq!(taken(&log), vec!["three:closed", "one:closed", "two:closed"]);
    assert!(!closed.is_handled());
}

#[test]
fn propagate_on_an_empty_stack_does_nothing() {
    let mut stack: LayerStack<Probe> = LayerStack::new();
    let mut key = KeyPressedEvent::new(Button::A, false);
    assert_eq!(stack.propagate(&mut key), None);
    assert!(!key.is_handled());
    let mut update = AppUpdateEvent::new();
    stack.broadcast(&mut update);
    assert_eq!(stack.len(), 0);
}

#[test]
fn pop_layer_takes_the_front_most_layer() {
    let log = log();
    let mut stack = LayerStack::new();
    stack.push_layer(Probe::new("a", &log));
    stack.push_layer(Probe::new("b", &log));
    stack.push_overlay(Probe::new("c", &log));
    taken(&log);
    let popped = stack.pop_layer().unwrap();
    assert_eq!(popped.name, "b");
    assert_eq!(taken(&log), vec!["b:detach"]);
    assert_eq!(names(&stack), vec!["a", "c"]);
    assert_eq!(stack.layer_count(), 1);
}

#[test]
fn pop_overlay_takes_the_back_most_overlay() {
    let log = log();
    let mut stack = LayerStack::new();
    stack.push_layer(Probe::new("a", &log));
    stack.push_overlay(Probe::new("c", &log));
    stack.push_overlay(Probe::new("d", &log));
    taken(&log);
    let popped = stack.pop_overlay().unwrap();
    assert_eq!(popped.name, "d");
    assert_eq!(taken(&log), vec!["d:detach"]);
    assert_eq!(names(&stack), vec!["a", "c"]);
    assert_eq!(stack.layer_count(), 1);
}

#[test]
fn pop_on_an_empty_region_is_no_error() {
    let log = log();
    let mut stack = LayerStack::new();
    assert!(stack.pop_layer().is_none());
    assert!(stack.pop_overlay().is_none());

    stack.push_overlay(Probe::new("c", &log));
    assert!(stack.pop_layer().is_none());
    assert_eq!(names(&stack), vec!["c"]);
    assert!(stack.pop_overlay().is_some());
    assert_eq!(stack.len(), 0);

    stack.push_layer(Probe::new("a", &log));
    assert!(stack.pop_overlay().is_none());
    assert_eq!(names(&stack), vec!["a"]);
    assert_eq!(stack.layer_count(), 1);
    assert!(stack.pop_layer().is_some());
    assert_eq!(stack.layer_count(), 0);
    assert_eq!(taken(&log), vec!["c:attach", "c:detach", "a:attach", "a:detach"]);
}

#[test]
fn every_attached_layer_is_detached_exactly_once() {
    let log = log();
    let mut stack = LayerStack::new();
    stack.push_layer(Probe::new("stays", &log));
    stack.push_layer(Probe::new("goes", &log));
    taken(&log);

    let popped = stack.pop_layer();
    assert_eq!(taken(&log), vec!["goes:detach"]);

    drop(stack);
    assert_eq!(taken(&log), vec!["stays:detach"]);

    drop(popped);
    assert!(taken(&log).is_empty());
}

#[test]
fn dropped_stack_detaches_front_to_back() {
    let log = log();
    let mut stack = LayerStack::new();
    stack.push_layer(Probe::new("a", &log));
    stack.push_layer(Probe::new("b", &log));
    stack.push_overlay(Probe::new("c", &log));
    stack.push_overlay(Probe::new("d", &log));
    taken(&log);
    drop(stack);
    assert_eq!(taken(&log), vec!["b:detach", "a:detach", "c:detach", "d:detach"]);
}

#[test]
fn teardown_detaches_front_to_back_and_only_once() {
    let log = log();
    let mut stack = LayerStack::new();
    stack.push_layer(Probe::new("a", &log));
    stack.push_layer(Probe::new("b", &log));
    stack.push_overlay(Probe::new("c", &log));
    taken(&log);
    let detached = stack.teardown();
    assert_eq!(taken(&log), vec!["b:detach", "a:detach", "c:detach"]);
    let order: Vec<&str> = detached.iter().map(|layer| layer.name).collect();
    assert_eq!(order, vec!["b", "a", "c"]);
    drop(detached);
    assert!(taken(&log).is_empty());
}

#[test]
fn get_mut_reaches_the_layer_in_place() {
    let log = log();
    let mut stack = LayerStack::new();
    stack.push_layer(Probe::new("a", &log));
    stack.push_overlay(Probe::new("c", &log));
    taken(&log);
    stack.get_mut(1).unwrap().consumes = true;
    assert!(stack.get_mut(2).is_none());
    let mut key = KeyPressedEvent::new(Button::A, false);
    assert_eq!(stack.propagate(&mut key), Some(1));
    assert_eq!(taken(&log), vec!["c:key"]);
}

/// A second kind of layer, which counts the frames it sees.
struct Counter {
    frames: Rc<RefCell<u32>>,
}

impl EventListener for Counter {
    fn on_update(&mut self) {
        *self.frames.borrow_mut() += 1;
    }
    fn on_key_press(&mut self, _button: Button, _repeat: bool) -> bool {
        true
    }
}

impl Layer for Counter {
    fn on_detach(&mut self) {
        *self.frames.borrow_mut() = 0;
    }
}

#[test]
fn either_lets_one_stack_hold_two_kinds_of_layer() {
    let log = log();
    let frames = Rc::new(RefCell::new(0));
    let mut stack: LayerStack<Either<Probe, Counter>> = LayerStack::new();
    stack.push_layer(Either::Left(Probe::new("probe", &log)));
    stack.push_layer(Either::Right(Counter { frames: frames.clone() }));
    assert_eq!(taken(&log), vec!["probe:attach"]);

    let mut update = AppUpdateEvent::new();
    stack.broadcast(&mut update);
    stack.broadcast(&mut update);
    assert_eq!(*frames.borrow(), 2);
    assert_eq!(taken(&log), vec!["probe:update", "probe:update"]);

    let mut key = KeyPressedEvent::new(Button::A, false);
    assert_eq!(stack.propagate(&mut key), Some(0));
    assert_eq!(taken(&log), vec!["probe:key"]);
    assert!(key.is_handled());

    drop(stack);
    assert_eq!(*frames.borrow(), 0);
    assert_eq!(taken(&log), vec!["probe:detach"]);
}

#[test]
fn iter_mut_reaches_every_layer_front_to_back() {
    let log = log();
    let mut stack = LayerStack::new();
    stack.push_layer(Probe::new("a", &log));
    stack.push_layer(Probe::new("b", &log));
    stack.push_overlay(Probe::new("c", &log));
    taken(&log);
    assert!(LayerStack::<Probe>::new().iter_mut().is_empty());

    let order: Vec<&str> = stack.iter_mut().into_iter().map(|layer| layer.name).collect();
    assert_eq!(order, vec!["b", "a", "c"]);

    for layer in stack.iter_mut() {
        layer.on_update();
        layer.name = "renamed";
    }
    assert_eq!(taken(&log), vec!["b:update", "a:update", "c:update"]);
    assert_eq!(names(&stack), vec!["renamed", "renamed", "renamed"]);
    assert_eq!(stack.layer_count(), 2);
    assert_eq!(stack.len(), 3);
}
