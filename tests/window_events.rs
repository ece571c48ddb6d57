use yippee::engine::{
    BrowserId, EmbedderEvent, MouseButton, MouseWindowEvent, ScrollDelta, TouchEventType,
};
use yippee::shell::WindowAction;
use yippee::window::{
    self, Axis, ElementState, Position, TouchPhase, WheelDelta, WheelMode, WindowInput,
};
use yippee::{Status, Yippee};

fn at(x: f64, y: f64) -> Position {
    Position { x: x.to_bits(), y: y.to_bits() }
}

fn queued(y: &mut Yippee) -> Vec<EmbedderEvent> {
    y.take_events()
}

#[test]
fn new_shell_is_fresh() {
    let y = Yippee::new();
    assert_eq!(y.status(), Status::Initial);
    assert!(y.engine_running());
    assert_eq!(y.browser_id(), None);
    assert_eq!(y.mouse_position(), at(0.0, 0.0));
    assert_eq!(y.pending_events(), 0);
}

#[test]
fn status_default_is_initial() {
    assert_eq!(Status::default(), Status::Initial);
}

#[test]
fn suspended_queues_nothing() {
    let mut y = Yippee::new();
    assert_eq!(y.handle_window_event(WindowInput::Suspended), WindowAction::Continue);
    assert!(queued(&mut y).is_empty());
}

#[test]
fn resumed_and_wake_queue_idle() {
    let mut y = Yippee::new();
    assert_eq!(y.handle_window_event(WindowInput::Resumed), WindowAction::Continue);
    assert_eq!(y.handle_window_event(WindowInput::Wake), WindowAction::Continue);
    assert_eq!(queued(&mut y), vec![EmbedderEvent::Idle, EmbedderEvent::Idle]);
}

#[test]
fn redraw_recomposites_while_engine_runs() {
    let mut y = Yippee::new();
    assert_eq!(y.handle_window_event(WindowInput::RedrawRequested), WindowAction::Recomposite);
    assert_eq!(queued(&mut y), vec![EmbedderEvent::Idle]);
}

#[test]
fn resize_resizes_view_and_queues_resize() {
    let mut y = Yippee::new();
    let a = y.handle_window_event(WindowInput::Resized { width: 800, height: 600 });
    assert_eq!(a, WindowAction::ResizeView { width: 800, height: 600 });
    assert_eq!(queued(&mut y), vec![EmbedderEvent::Resize]);
}

#[test]
fn cursor_move_updates_pointer() {
    let mut y = Yippee::new();
    let p = at(12.5, 40.25);
    assert_eq!(
        y.handle_window_event(WindowInput::CursorMoved { position: p }),
        WindowAction::Continue
    );
    assert_eq!(y.mouse_position(), p);
    assert_eq!(queued(&mut y), vec![EmbedderEvent::MouseWindowMoveEventClass(p)]);
}

#[test]
fn press_queues_mouse_down_at_pointer() {
    let mut y = Yippee::new();
    let p = at(3.0, 4.0);
    y.handle_window_event(WindowInput::CursorMoved { position: p });
    y.take_events();
    let a = y.handle_window_event(WindowInput::MouseInput {
        state: ElementState::Pressed,
        button: window::MouseButton::Right,
    });
    assert_eq!(a, WindowAction::Continue);
    assert_eq!(
        queued(&mut y),
        vec![EmbedderEvent::MouseWindowEventClass(MouseWindowEvent::MouseDown(
            MouseButton::Right,
            p
        ))]
    );
}

#[test]
fn release_queues_mouse_up_then_click() {
    let mut y = Yippee::new();
    let p = at(7.0, 9.5);
    y.handle_window_event(WindowInput::CursorMoved { position: p });
    y.take_events();
    y.handle_window_event(WindowInput::MouseInput {
        state: ElementState::Released,
        button: window::MouseButton::Middle,
    });
    assert_eq!(
        queued(&mut y),
        vec![
            EmbedderEvent::MouseWindowEventClass(MouseWindowEvent::MouseUp(MouseButton::Middle, p)),
            EmbedderEvent::MouseWindowEventClass(MouseWindowEvent::Click(MouseButton::Middle, p)),
        ]
    );
}

#[test]
fn unsupported_buttons_queue_nothing() {
    let mut y = Yippee::new();
    for b in [window::MouseButton::Back, window::MouseButton::Forward, window::MouseButton::Other(9)] {
        let a = y.handle_window_event(WindowInput::MouseInput { state: ElementState::Pressed, button: b });
        assert_eq!(a, WindowAction::Unsupported);
    }
    assert!(queued(&mut y).is_empty());
}

#[test]
fn magnify_queues_zoom() {
    let mut y = Yippee::new();
    let zoom = (1.0f32 + 0.25f32).to_bits();
    y.handle_window_event(WindowInput::TouchpadMagnify { zoom });
    assert_eq!(queued(&mut y), vec![EmbedderEvent::Zoom(zoom)]);
    assert_eq!(f32::from_bits(zoom), 1.25);
}

#[test]
fn vertical_wheel_scrolls_vertically() {
    let mut y = Yippee::new();
    let p = at(100.0, 200.0);
    y.handle_window_event(WindowInput::CursorMoved { position: p });
    y.take_events();
    let delta = WheelDelta { x: 1.0f64.to_bits(), y: (-76.0f64).to_bits(), mode: WheelMode::DeltaLine };
    y.handle_window_event(WindowInput::MouseWheel { delta, dominant: Axis::Vertical, phase: TouchPhase::Moved });
    assert_eq!(
        queued(&mut y),
        vec![
            EmbedderEvent::Wheel(delta, p),
            EmbedderEvent::Scroll(
                ScrollDelta { x: 0.0f64.to_bits(), y: (-76.0f64).to_bits() },
                p,
                TouchEventType::Move
            ),
        ]
    );
}

#[test]
fn horizontal_wheel_scrolls_horizontally() {
    let mut y = Yippee::new();
    let delta = WheelDelta { x: 30.0f64.to_bits(), y: 2.0f64.to_bits(), mode: WheelMode::DeltaPixel };
    y.handle_window_event(WindowInput::MouseWheel { delta, dominant: Axis::Horizontal, phase: TouchPhase::Started });
    assert_eq!(
        queued(&mut y),
        vec![
            EmbedderEvent::Wheel(delta, at(0.0, 0.0)),
            EmbedderEvent::Scroll(
                ScrollDelta { x: 30.0f64.to_bits(), y: 0.0f64.to_bits() },
                at(0.0, 0.0),
                TouchEventType::Down
            ),
        ]
    );
}

#[test]
fn wheel_phases_map_to_touch_types() {
    let cases = [
        (TouchPhase::Started, TouchEventType::Down),
        (TouchPhase::Moved, TouchEventType::Move),
        (TouchPhase::Ended, TouchEventType::Up),
        (TouchPhase::Cancelled, TouchEventType::Cancel),
    ];
    for (phase, kind) in cases {
        let mut y = Yippee::new();
        let delta = WheelDelta { x: 0, y: 0, mode: WheelMode::DeltaPixel };
        y.handle_window_event(WindowInput::MouseWheel { delta, dominant: Axis::Vertical, phase });
        let events = queued(&mut y);
        assert_eq!(events.len(), 2);
        match events[1] {
            EmbedderEvent::Scroll(_, _, k) => assert_eq!(k, kind),
            other => panic!("expected a scroll, got {other:?}"),
        }
    }
}

#[test]
fn close_request_queues_quit() {
    let mut y = Yippee::new();
    y.handle_window_event(WindowInput::CloseRequested);
    assert_eq!(queued(&mut y), vec![EmbedderEvent::Quit]);
}

#[test]
fn other_window_events_are_unsupported() {
    let mut y = Yippee::new();
    assert_eq!(y.handle_window_event(WindowInput::Other), WindowAction::Unsupported);
    assert!(queued(&mut y).is_empty());
}

#[test]
fn window_events_keep_status_and_browser() {
    let mut y = Yippee::new();
    y.handle_window_event(WindowInput::CloseRequested);
    y.handle_window_event(WindowInput::Resized { width: 1, height: 1 });
    assert_eq!(y.status(), Status::Initial);
    assert_eq!(y.browser_id(), None::<BrowserId>);
    assert_eq!(y.pending_events(), 2);
}

#[test]
fn shutdown_queues_quit() {
    let mut y = Yippee::new();
    y.handle_window_event(WindowInput::Wake);
    y.shutdown();
    assert_eq!(queued(&mut y), vec![EmbedderEvent::Idle, EmbedderEvent::Quit]);
    assert_eq!(y.pending_events(), 0);
}
