use layer_engine::error::Error;
use layer_engine::events::{Event, Notification};
use layer_engine::input::{Button, PointerButton, VirtualKey};
use layer_engine::vecs::{Float, Vec2};
use layer_engine::window::{translate, ElementState, RawEvent, Window, WindowOptions};

fn at(x: f64, y: f64) -> Vec2 {
    Vec2::new(Float::from_bits(x.to_bits()), Float::from_bits(y.to_bits()))
}

fn call_of(raw: RawEvent) -> Option<Notification> {
    translate(raw).map(|event| {
        assert!(!event.is_handled());
        event.call()
    })
}

#[test]
fn raw_notifications_become_canonical_events() {
    assert_eq!(call_of(RawEvent::CloseRequested), Some(Notification::WindowClosed));
    assert_eq!(
        call_of(RawEvent::Resized { width: 1280, height: 720 }),
        Some(Notification::WindowResize { width: 1280, height: 720 })
    );
    assert_eq!(
        call_of(RawEvent::KeyboardInput {
            state: ElementState::Pressed,
            key: Some(VirtualKey::Q)
        }),
        Some(Notification::KeyPress { button: Button::Q, repeat: false })
    );
    assert_eq!(
        call_of(RawEvent::KeyboardInput {
            state: ElementState::Released,
            key: Some(VirtualKey::Return)
        }),
        Some(Notification::KeyRelease { button: Button::Enter })
    );
    assert_eq!(
        call_of(RawEvent::ReceivedCharacter('é')),
        Some(Notification::CharWritten { which: 'é' })
    );
    assert_eq!(
        call_of(RawEvent::MouseInput {
            state: ElementState::Pressed,
            button: PointerButton::Left
        }),
        Some(Notification::MousePress { button: Button::MouseLeft })
    );
    assert_eq!(
        call_of(RawEvent::MouseInput {
            state: ElementState::Released,
            button: PointerButton::Other(5)
        }),
        Some(Notification::MouseRelease { button: Button::Mouse5 })
    );
    assert_eq!(
        call_of(RawEvent::MouseWheel { delta: at(0.0, -2.0) }),
        Some(Notification::MouseScroll { delta: at(0.0, -2.0) })
    );
    assert_eq!(
        call_of(RawEvent::CursorMoved { position: at(3.0, 4.0) }),
        Some(Notification::MouseMove { position: at(3.0, 4.0) })
    );
    assert_eq!(call_of(RawEvent::Other), None);
}

#[test]
fn unmapped_input_becomes_unknown_and_is_no_error() {
    assert_eq!(
        call_of(RawEvent::KeyboardInput { state: ElementState::Pressed, key: None }),
        Some(Notification::KeyPress { button: Button::Unknown, repeat: false })
    );
    assert_eq!(
        call_of(RawEvent::KeyboardInput {
            state: ElementState::Released,
            key: Some(VirtualKey::WebSearch)
        }),
        Some(Notification::KeyRelease { button: Button::Unknown })
    );
    assert_eq!(
        call_of(RawEvent::MouseInput {
            state: ElementState::Pressed,
            button: PointerButton::Other(42)
        }),
        Some(Notification::MousePress { button: Button::Unknown })
    );
}

#[test]
fn window_keeps_what_it_was_made_with() {
    let window = Window::new("Sandbox", 1280, 720, true).unwrap();
    assert_eq!(window.get_title(), "Sandbox");
    assert_eq!(window.get_width(), 1280);
    assert_eq!(window.get_height(), 720);
    assert!(window.get_vsync());
    let window = Window::new("", 1, 1, false).unwrap();
    assert_eq!(window.get_title(), "");
    assert!(!window.get_vsync());
}

#[test]
fn window_without_area_is_refused() {
    assert!(matches!(Window::new("w", 0, 720, true), Err(Error::Construction)));
    assert!(matches!(Window::new("w", 1280, 0, false), Err(Error::Construction)));
    assert!(matches!(Window::new("w", 0, 0, false), Err(Error::Construction)));
}

#[test]
fn window_queues_events_in_the_order_of_arrival() {
    let mut window = Window::new("w", 800, 600, false).unwrap();
    assert!(window.pop_event().is_none());
    window.on_update(vec![
        RawEvent::KeyboardInput { state: ElementState::Pressed, key: Some(VirtualKey::A) },
        RawEvent::Other,
        RawEvent::CursorMoved { position: at(1.0, 2.0) },
        RawEvent::KeyboardInput { state: ElementState::Released, key: Some(VirtualKey::A) },
    ]);
    window.on_update(vec![RawEvent::CloseRequested]);
    let mut calls = Vec::new();
    while let Some(event) = window.pop_event() {
        assert!(!event.is_handled());
        calls.push(event.call());
    }
    assert_eq!(
        calls,
        vec![
            Notification::KeyPress { button: Button::A, repeat: false },
            Notification::MouseMove { position: at(1.0, 2.0) },
            Notification::KeyRelease { button: Button::A },
            Notification::WindowClosed,
        ]
    );
    assert!(window.pop_event().is_none());
}

#[test]
fn window_follows_the_last_resize() {
    let mut window = Window::new("w", 800, 600, false).unwrap();
    window.on_update(vec![RawEvent::CursorMoved { position: at(0.0, 0.0) }]);
    assert_eq!((window.get_width(), window.get_height()), (800, 600));
    window.on_update(vec![
        RawEvent::Resized { width: 1024, height: 768 },
        RawEvent::Other,
        RawEvent::Resized { width: 640, height: 480 },
        RawEvent::CloseRequested,
    ]);
    assert_eq!((window.get_width(), window.get_height()), (640, 480));
    assert_eq!(
        window.pop_event().unwrap().call(),
        Notification::MouseMove { position: at(0.0, 0.0) }
    );
    assert_eq!(
        window.pop_event().unwrap().call(),
        Notification::WindowResize { width: 1024, height: 768 }
    );
    assert_eq!(
        window.pop_event().unwrap().call(),
        Notification::WindowResize { width: 640, height: 480 }
    );
    window.on_update(Vec::new());
    assert_eq!((window.get_width(), window.get_height()), (640, 480));
    assert_eq!(window.get_title(), "w");
}

#[test]
fn window_is_made_from_options() {
    let options =
        WindowOptions { title: "Editor".to_string(), width: 300, height: 200, vsync: true };
    let window = Window::with_options(options).unwrap();
    assert_eq!(window.get_title(), "Editor");
    assert_eq!((window.get_width(), window.get_height()), (300, 200));
    assert!(window.get_vsync());
    let flat = WindowOptions { title: "Editor".to_string(), width: 300, height: 0, vsync: true };
    assert!(matches!(Window::with_options(flat), Err(Error::Construction)));
}
