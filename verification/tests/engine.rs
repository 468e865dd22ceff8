use layer_engine::application::Application;
use layer_engine::engine::{Engine, EngineData, EngineFactory, Reply, Request};
use layer_engine::error::Error;
use layer_engine::events::{
    CharWrittenEvent, EventBox, EventListener, KeyPressedEvent, KeyReleasedEvent,
    MouseMovedEvent, MousePressedEvent, MouseReleasedEvent, MouseScrolledEvent,
    WindowClosedEvent, WindowResizedEvent,
};
use layer_engine::input::Button;
use layer_engine::layers::Layer;
use layer_engine::vecs::{Float, Vec2};
use std::cell::RefCell;
use std::rc::Rc;

type Log = Rc<RefCell<Vec<String>>>;

struct Probe {
    name: &'static str,
    log: Log,
    consumes: bool,
}

impl Probe {
    fn note(&self, what: &str) {
        self.log.borrow_mut().push(format!("{}:{}", self.name, what));
    }
}

impl EventListener for Probe {
    fn on_update(&mut self) {
        self.note("update");
    }
    fn on_render(&mut self) {
        self.note("render");
    }
    fn on_window_closed(&mut self) {
        self.note("closed");
    }
    fn on_window_resize(&mut self, width: u32, height: u32) {
        self.note(&format!("resize {}x{}", width, height));
    }
    fn on_key_press(&mut self, _button: Button, _repeat: bool) -> bool {
        self.note("key");
        self.consumes
    }
    fn on_mouse_move(&mut self, _position: Vec2) -> bool {
        self.note("move");
        self.consumes
    }
}

impl Layer for Probe {
    fn on_attach(&mut self) {
        self.note("attach");
    }
    fn on_detach(&mut self) {
        self.note("detach");
    }
}

/// An application with one layer and one overlay.
struct Sandbox {
    log: Log,
    consuming_overlay: bool,
}

impl Application for Sandbox {
    type Layer = Probe;

    fn start(&mut self, ed: &mut EngineData<Probe>) {
        self.log.borrow_mut().push("app:start".to_string());
        ed.push_layer(Probe { name: "game", log: self.log.clone(), consumes: false });
        ed.push_overlay(Probe {
            name: "ui",
            log: self.log.clone(),
            consumes: self.consuming_overlay,
        });
    }

    fn close(&mut self) {
        self.log.borrow_mut().push("app:close".to_string());
    }
}

/// An application with three overlays, pushed in the order X, Y, Z.
struct Overlays {
    log: Log,
    consuming: [bool; 3],
}

impl Application for Overlays {
    type Layer = Probe;

    fn start(&mut self, ed: &mut EngineData<Probe>) {
        let names = ["X", "Y", "Z"];
        for i in 0..3 {
            ed.push_overlay(Probe {
                name: names[i],
                log: self.log.clone(),
                consumes: self.consuming[i],
            });
        }
    }

    fn close(&mut self) {}
}

fn count(calls: &[String], what: &str) -> usize {
    calls.iter().filter(|call| call.as_str() == what).count()
}

fn log() -> Log {
    Rc::new(RefCell::new(Vec::new()))
}

fn taken(log: &Log) -> Vec<String> {
    log.borrow_mut().drain(..).collect()
}

fn sandbox(log: &Log) -> Engine<Sandbox> {
    Engine::new(Sandbox { log: log.clone(), consuming_overlay: false })
}

fn at(x: f64, y: f64) -> Vec2 {
    Vec2::new(Float::from_bits(x.to_bits()), Float::from_bits(y.to_bits()))
}

fn frame(engine: &mut Engine<Sandbox>, events: Vec<EventBox>) -> Result<Request, Error> {
    assert_eq!(engine.request(), Request::Poll);
    assert_eq!(engine.advance(Reply::Polled(events)), Ok(Request::Clear));
    assert_eq!(engine.advance(Reply::Cleared), Ok(Request::Present));
    engine.advance(Reply::Presented)
}

#[test]
fn new_engine_starts_its_application_and_polls() {
    let log = log();
    let engine = sandbox(&log);
    assert_eq!(taken(&log), vec!["app:start", "game:attach", "ui:attach"]);
    assert!(engine.is_running());
    assert_eq!(engine.request(), Request::Poll);
    assert_eq!(engine.layer_stack().len(), 2);
    assert_eq!(engine.layer_stack().layer_count(), 1);
    assert!(!engine.input().is_down(Button::Q));
    assert_eq!(engine.input().mouse_position(), Vec2::zero());
}

#[test]
fn frame_goes_poll_update_clear_render_present() {
    let log = log();
    let mut engine = sandbox(&log);
    taken(&log);
    assert_eq!(
        engine.advance(Reply::Polled(vec![KeyPressedEvent::new(Button::A, false)])),
        Ok(Request::Clear)
    );
    assert_eq!(taken(&log), vec!["ui:key", "game:key", "game:update", "ui:update"]);
    assert_eq!(engine.request(), Request::Clear);
    assert_eq!(engine.advance(Reply::Cleared), Ok(Request::Present));
    assert_eq!(taken(&log), vec!["game:render", "ui:render"]);
    assert_eq!(engine.advance(Reply::Presented), Ok(Request::Poll));
    assert!(taken(&log).is_empty());
    assert!(engine.is_running());
}

#[test]
fn frame_without_events_still_updates_and_renders() {
    let log = log();
    let mut engine = sandbox(&log);
    taken(&log);
    assert_eq!(frame(&mut engine, Vec::new()), Ok(Request::Poll));
    assert_eq!(taken(&log), vec!["game:update", "ui:update", "game:render", "ui:render"]);
}

#[test]
fn events_are_dispatched_in_the_order_of_delivery() {
    let log = log();
    let mut engine = sandbox(&log);
    taken(&log);
    engine
        .advance(Reply::Polled(vec![
            MouseMovedEvent::new(at(1.0, 1.0)),
            KeyPressedEvent::new(Button::A, false),
            MouseMovedEvent::new(at(2.0, 2.0)),
        ]))
        .unwrap();
    assert_eq!(
        taken(&log),
        vec![
            "ui:move", "game:move", "ui:key", "game:key", "ui:move", "game:move", "game:update",
            "ui:update"
        ]
    );
}

#[test]
fn consumed_event_stops_at_the_overlay_but_not_at_the_engine() {
    let log = log();
    let mut engine = Engine::new(Sandbox { log: log.clone(), consuming_overlay: true });
    taken(&log);
    engine
        .advance(Reply::Polled(vec![
            KeyPressedEvent::new(Button::W, false),
            MouseMovedEvent::new(at(7.0, 9.0)),
        ]))
        .unwrap();
    assert_eq!(taken(&log), vec!["ui:key", "ui:move", "game:update", "ui:update"]);
    assert!(engine.input().is_down(Button::W));
    assert_eq!(engine.input().mouse_position(), at(7.0, 9.0));
}

#[test]
fn window_closed_stops_the_loop_after_the_frame() {
    let log = log();
    let mut engine = sandbox(&log);
    taken(&log);
    assert_eq!(
        engine.advance(Reply::Polled(vec![
            WindowClosedEvent::new(),
            KeyPressedEvent::new(Button::A, false),
        ])),
        Ok(Request::Clear)
    );
    assert!(!engine.is_running());
    assert_eq!(
        taken(&log),
        vec!["ui:closed", "game:closed", "ui:key", "game:key", "game:update", "ui:update"]
    );
    assert_eq!(engine.advance(Reply::Cleared), Ok(Request::Present));
    assert_eq!(taken(&log), vec!["game:render", "ui:render"]);
    assert_eq!(engine.advance(Reply::Presented), Ok(Request::Exit));
    assert_eq!(taken(&log), vec!["app:close"]);
    assert_eq!(engine.request(), Request::Exit);

    assert_eq!(engine.advance(Reply::Polled(Vec::new())), Ok(Request::Exit));
    assert_eq!(engine.advance(Reply::Cleared), Ok(Request::Exit));
    assert_eq!(engine.advance(Reply::Presented), Ok(Request::Exit));
    assert_eq!(engine.advance(Reply::PresentFailed), Ok(Request::Exit));
    assert!(taken(&log).is_empty());
    assert!(!engine.is_running());
}

#[test]
fn failed_presentation_is_reported_and_ends_the_loop() {
    let log = log();
    let mut engine = sandbox(&log);
    engine.advance(Reply::Polled(Vec::new())).unwrap();
    engine.advance(Reply::Cleared).unwrap();
    taken(&log);
    assert_eq!(engine.advance(Reply::PresentFailed), Err(Error::Presentation));
    assert_eq!(taken(&log), vec!["app:close"]);
    assert!(!engine.is_running());
    assert_eq!(engine.request(), Request::Exit);
    assert_eq!(engine.advance(Reply::Presented), Ok(Request::Exit));
}

#[test]
fn reply_to_another_request_is_dropped() {
    let log = log();
    let mut engine = sandbox(&log);
    taken(&log);
    assert_eq!(engine.advance(Reply::Cleared), Ok(Request::Poll));
    assert_eq!(engine.advance(Reply::Presented), Ok(Request::Poll));
    assert_eq!(engine.advance(Reply::PresentFailed), Ok(Request::Poll));
    assert!(taken(&log).is_empty());
    engine.advance(Reply::Polled(Vec::new())).unwrap();
    taken(&log);
    assert_eq!(
        engine.advance(Reply::Polled(vec![WindowClosedEvent::new()])),
        Ok(Request::Clear)
    );
    assert_eq!(engine.advance(Reply::Presented), Ok(Request::Clear));
    assert!(taken(&log).is_empty());
    assert!(engine.is_running());
}

#[test]
fn snapshot_follows_keys_across_frames() {
    let log = log();
    let mut engine = sandbox(&log);
    frame(
        &mut engine,
        vec![
            KeyPressedEvent::new(Button::Q, false),
            KeyReleasedEvent::new(Button::Q),
            KeyPressedEvent::new(Button::Q, false),
        ],
    )
    .unwrap();
    assert!(engine.input().is_down(Button::Q));
    frame(&mut engine, vec![MouseMovedEvent::new(at(3.0, 4.0))]).unwrap();
    assert_eq!(engine.input().mouse_position(), at(3.0, 4.0));
    assert!(engine.input().is_down(Button::Q));
    frame(&mut engine, vec![KeyReleasedEvent::new(Button::Q)]).unwrap();
    assert!(!engine.input().is_down(Button::Q));
    assert_eq!(engine.input().mouse_position(), at(3.0, 4.0));
}

#[test]
fn snapshot_follows_mouse_buttons() {
    let log = log();
    let mut engine = sandbox(&log);
    frame(
        &mut engine,
        vec![
            MousePressedEvent::new(Button::MouseLeft),
            MousePressedEvent::new(Button::MouseRight),
            MouseReleasedEvent::new(Button::MouseLeft),
        ],
    )
    .unwrap();
    assert!(!engine.input().is_down(Button::MouseLeft));
    assert!(engine.input().is_down(Button::MouseRight));
}

#[test]
fn snapshot_ignores_what_is_no_press_release_or_move() {
    let log = log();
    let mut engine = sandbox(&log);
    frame(
        &mut engine,
        vec![
            CharWrittenEvent::new('q'),
            MouseScrolledEvent::new(at(0.0, 1.0)),
            WindowResizedEvent::new(10, 10),
            KeyPressedEvent::new(Button::Unknown, false),
        ],
    )
    .unwrap();
    assert!(!engine.input().is_down(Button::Q));
    assert!(!engine.input().is_down(Button::Unknown));
    assert_eq!(engine.input().mouse_position(), Vec2::zero());
    assert!(engine.is_running());
}

#[test]
fn observe_updates_the_engine_and_leaves_the_event() {
    let log = log();
    let mut engine = sandbox(&log);
    taken(&log);
    let event = KeyPressedEvent::new(Button::F5, false);
    engine.observe(&event);
    assert!(engine.input().is_down(Button::F5));
    assert!(!layer_engine::events::Event::is_handled(&event));
    engine.observe(&WindowClosedEvent::new());
    assert!(!engine.is_running());
    assert!(taken(&log).is_empty());
}

#[test]
fn engine_is_a_listener_that_consumes_nothing() {
    let log = log();
    let mut engine = sandbox(&log);
    assert!(!engine.on_key_press(Button::A, false));
    assert!(engine.input().is_down(Button::A));
    assert!(!engine.on_key_release(Button::A));
    assert!(!engine.input().is_down(Button::A));
    assert!(!engine.on_mouse_press(Button::Mouse4));
    assert!(engine.input().is_down(Button::Mouse4));
    assert!(!engine.on_mouse_release(Button::Mouse4));
    assert!(!engine.input().is_down(Button::Mouse4));
    assert!(!engine.on_mouse_move(at(5.0, 6.0)));
    assert_eq!(engine.input().mouse_position(), at(5.0, 6.0));
    assert!(!engine.on_char_written('x'));
    assert!(!engine.on_mouse_scroll(at(1.0, 1.0)));
    assert!(engine.is_running());
    engine.on_window_closed();
    assert!(!engine.is_running());
}

#[test]
fn engine_pushes_layers_in_front_and_overlays_behind() {
    let log = log();
    let mut engine = sandbox(&log);
    engine.push_layer(Probe { name: "menu", log: log.clone(), consumes: false });
    engine.push_overlay(Probe { name: "debug", log: log.clone(), consumes: false });
    taken(&log);
    let stack = engine.layer_stack();
    let names: Vec<&str> = (0..stack.len()).map(|i| stack.get(i).unwrap().name).collect();
    assert_eq!(names, vec!["menu", "game", "ui", "debug"]);
    assert_eq!(stack.layer_count(), 2);
}

#[test]
fn dropped_engine_detaches_its_layers() {
    let log = log();
    let engine = sandbox(&log);
    taken(&log);
    drop(engine);
    assert_eq!(taken(&log), vec!["game:detach", "ui:detach"]);
}

#[test]
fn factory_makes_one_engine_at_a_time() {
    let log = log();
    let mut factory = EngineFactory::new();
    let first = factory.create(Sandbox { log: log.clone(), consuming_overlay: false }).unwrap();
    let second = factory.create(Sandbox { log: log.clone(), consuming_overlay: false });
    assert!(matches!(second, Err(Error::AlreadyRunning)));
    taken(&log);
    let detached = factory.release(first);
    assert_eq!(taken(&log), vec!["game:detach", "ui:detach"]);
    assert_eq!(detached.len(), 2);
    let third = factory.create(Sandbox { log: log.clone(), consuming_overlay: false });
    assert!(third.is_ok());
}

#[test]
fn factory_tells_whether_its_engine_is_alive() {
    let log = log();
    let mut factory = EngineFactory::new();
    assert!(!factory.is_occupied());
    let engine = factory.create(Sandbox { log: log.clone(), consuming_overlay: false }).unwrap();
    assert!(factory.is_occupied());
    factory.release(engine);
    assert!(!factory.is_occupied());
}

#[test]
fn consumed_key_press_reaches_the_overlays_behind_the_consumer_only() {
    let log = log();
    let mut engine = Engine::new(Overlays { log: log.clone(), consuming: [false, true, false] });
    taken(&log);
    engine
        .advance(Reply::Polled(vec![
            KeyPressedEvent::new(Button::Q, false),
            WindowClosedEvent::new(),
        ]))
        .unwrap();
    let calls = taken(&log);
    assert_eq!(count(&calls, "Z:key"), 1);
    assert_eq!(count(&calls, "Y:key"), 1);
    assert_eq!(count(&calls, "X:key"), 0);
    assert_eq!(
        calls,
        vec![
            "Z:key", "Y:key", "Z:closed", "Y:closed", "X:closed", "X:update", "Y:update",
            "Z:update"
        ]
    );
    assert!(engine.input().is_down(Button::Q));
}

#[test]
fn resize_reaches_every_overlay_whatever_they_consume() {
    let log = log();
    let mut engine = Engine::new(Overlays { log: log.clone(), consuming: [true, true, true] });
    taken(&log);
    engine
        .advance(Reply::Polled(vec![
            WindowResizedEvent::new(800, 600),
            WindowClosedEvent::new(),
        ]))
        .unwrap();
    let calls = taken(&log);
    assert_eq!(count(&calls, "X:resize 800x600"), 1);
    assert_eq!(count(&calls, "Y:resize 800x600"), 1);
    assert_eq!(count(&calls, "Z:resize 800x600"), 1);
    assert_eq!(count(&calls, "X:closed"), 1);
    assert_eq!(count(&calls, "Y:closed"), 1);
    assert_eq!(count(&calls, "Z:closed"), 1);
}

#[test]
fn closing_frame_updates_and_renders_once() {
    let log = log();
    let mut engine = Engine::new(Overlays { log: log.clone(), consuming: [false, false, false] });
    taken(&log);
    assert_eq!(engine.advance(Reply::Polled(vec![WindowClosedEvent::new()])), Ok(Request::Clear));
    assert_eq!(engine.advance(Reply::Cleared), Ok(Request::Present));
    assert_eq!(engine.advance(Reply::Presented), Ok(Request::Exit));
    let calls = taken(&log);
    for name in ["X", "Y", "Z"] {
        assert_eq!(count(&calls, &format!("{}:update", name)), 1);
        assert_eq!(count(&calls, &format!("{}:render", name)), 1);
    }
}
