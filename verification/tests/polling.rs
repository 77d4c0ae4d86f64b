use glutin_window::geometry::{Extent, Offset, Point, Size, UNIT};
use glutin_window::input::{
    Button, ButtonArgs, ButtonState, ControllerAxisArgs, Event, FileDrag, Input, Motion,
    ResizeArgs,
};
use glutin_window::keyboard::{Key, KeyboardIgnoreModifiers, LogicalKey, NamedKey};
use glutin_window::mouse::{MouseButton, NativeMouseButton};
use glutin_window::native::{ElementState, KeyEvent, RawEvent, ScrollDelta};
use glutin_window::settings::WindowSettings;
use glutin_window::window::{GlutinWindow, UserEvent};

fn settings(exit_on_esc: bool, automatic_close: bool) -> WindowSettings {
    WindowSettings {
        title: "game".to_string(),
        size: Size { width: 640, height: 480 },
        samples: 0,
        fullscreen: false,
        exit_on_esc,
        automatic_close,
        vsync: false,
        graphics_api: None,
        srgb: true,
        resizable: true,
        decorated: true,
        controllers: true,
        transparent: false,
    }
}

fn window() -> GlutinWindow {
    GlutinWindow::new(&settings(false, true))
}

fn pt(x: i64, y: i64) -> Point {
    Point { x: x * UNIT, y: y * UNIT }
}

fn off(dx: i64, dy: i64) -> Offset {
    Offset { dx: dx * UNIT, dy: dy * UNIT }
}

fn moved(x: i64, y: i64) -> RawEvent {
    RawEvent::CursorMoved(pt(x, y))
}

fn absolute(x: i64, y: i64) -> Option<Event> {
    Some(Event::Input(Input::Move(Motion::MouseCursor(pt(x, y))), None))
}

fn relative(dx: i64, dy: i64) -> Option<Event> {
    Some(Event::Input(Input::Move(Motion::MouseRelative(off(dx, dy))), None))
}

fn key(text: &str, state: ElementState) -> RawEvent {
    RawEvent::KeyboardInput(KeyEvent {
        logical_key: LogicalKey::Character(text.to_string()),
        state,
        scancode: Some(30),
    })
}

fn escape(state: ElementState) -> RawEvent {
    RawEvent::KeyboardInput(KeyEvent {
        logical_key: LogicalKey::Named(NamedKey::Escape),
        state,
        scancode: Some(1),
    })
}

fn button(state: ButtonState, key: Key, scancode: i32) -> Option<Event> {
    Some(Event::Input(
        Input::Button(ButtonArgs { state, button: Button::Keyboard(key), scancode: Some(scancode) }),
        None,
    ))
}

fn drain(w: &mut GlutinWindow) -> Vec<Event> {
    let mut out = Vec::new();
    while let Some(e) = w.poll_event() {
        out.push(e);
    }
    out
}

#[test]
fn new_window_takes_its_settings() {
    let w = GlutinWindow::new(&settings(true, false));
    assert_eq!(w.get_title(), "game");
    assert!(w.get_exit_on_esc());
    assert!(!w.get_automatic_close());
    assert!(!w.should_close());
    assert!(!w.get_capture_cursor());
    assert_eq!(w.last_cursor_position(), None);
    assert!(!w.has_pending_motion());
    assert_eq!(w.pending_events(), 0);
    assert_eq!(w.devices(), 0);
    assert_eq!(w.get_keyboard_ignore_modifiers(), KeyboardIgnoreModifiers::Keep);
    let v = GlutinWindow::new(&settings(false, true));
    assert!(!v.get_exit_on_esc());
    assert!(v.get_automatic_close());
}

#[test]
fn poll_on_an_empty_queue_returns_nothing() {
    let mut w = window();
    assert_eq!(w.poll_event(), None);
    assert_eq!(w.poll_event(), None);
}

#[test]
fn wait_falls_back_to_idle() {
    let mut w = window();
    assert_eq!(w.wait_event(), Event::Idle);
    w.window_event(RawEvent::Focused(true));
    assert_eq!(w.wait_event(), Event::Input(Input::Focus(true), None));
    assert_eq!(w.wait_event(), Event::Idle);
}

#[test]
fn one_event_per_raw_event_in_arrival_order() {
    let mut w = window();
    let resize = ResizeArgs {
        window_size: Extent { width: 800 * UNIT, height: 600 * UNIT },
        draw_size: Size { width: 1600, height: 1200 },
    };
    w.window_event(RawEvent::Resized(resize));
    w.window_event(RawEvent::Unsupported);
    w.window_event(RawEvent::Text("a".to_string()));
    w.window_event(RawEvent::Focused(true));
    w.window_event(RawEvent::Unsupported);
    w.window_event(RawEvent::Unsupported);
    w.window_event(key("a", ElementState::Pressed));
    w.window_event(key("a", ElementState::Released));
    w.window_event(RawEvent::CursorEntered);
    w.window_event(moved(1, 1));
    w.window_event(RawEvent::MouseWheel(ScrollDelta::Line(off(0, -1))));
    w.window_event(RawEvent::MouseInput {
        state: ElementState::Pressed,
        button: NativeMouseButton::Left,
    });
    w.window_event(RawEvent::DroppedFile("x".to_string()));
    w.window_event(RawEvent::AxisMotion { device: 77, axis: 1, value: UNIT });
    w.window_event(RawEvent::CursorLeft);
    w.window_event(RawEvent::Unsupported);
    assert_eq!(w.pending_events(), 16);
    let expected = vec![
        Input::Resize(resize),
        Input::Text("a".to_string()),
        Input::Focus(true),
        Input::Button(ButtonArgs {
            state: ButtonState::Press,
            button: Button::Keyboard(Key::A),
            scancode: Some(30),
        }),
        Input::Button(ButtonArgs {
            state: ButtonState::Release,
            button: Button::Keyboard(Key::A),
            scancode: Some(30),
        }),
        Input::Cursor(true),
        Input::Move(Motion::MouseCursor(pt(1, 1))),
        Input::Move(Motion::MouseScroll(off(0, -1))),
        Input::Button(ButtonArgs {
            state: ButtonState::Press,
            button: Button::Mouse(MouseButton::Left),
            scancode: None,
        }),
        Input::FileDrag(FileDrag::Drop("x".to_string())),
        Input::Move(Motion::ControllerAxis(ControllerAxisArgs { id: 0, axis: 1, position: UNIT })),
        Input::Cursor(false),
    ];
    let expected: Vec<Event> = expected.into_iter().map(|i| Event::Input(i, None)).collect();
    assert_eq!(drain(&mut w), expected);
    assert_eq!(w.pending_events(), 0);
    assert_eq!(w.poll_event(), None);
}

#[test]
fn unsupported_events_never_surface() {
    let mut w = window();
    for _ in 0..5 {
        w.window_event(RawEvent::Unsupported);
    }
    assert_eq!(w.poll_event(), None);
    assert_eq!(w.pending_events(), 0);
    w.window_event(RawEvent::Unsupported);
    w.window_event(RawEvent::Focused(false));
    assert_eq!(w.poll_event(), Some(Event::Input(Input::Focus(false), None)));
}

#[test]
fn repeated_press_yields_one_press() {
    let mut w = window();
    w.window_event(key("k", ElementState::Pressed));
    w.window_event(key("k", ElementState::Pressed));
    assert_eq!(drain(&mut w), vec![button(ButtonState::Press, Key::K, 30).unwrap()]);
}

#[test]
fn press_release_press_yields_two_presses() {
    let mut w = window();
    w.window_event(key("k", ElementState::Pressed));
    w.window_event(key("k", ElementState::Released));
    w.window_event(key("k", ElementState::Pressed));
    assert_eq!(
        drain(&mut w),
        vec![
            button(ButtonState::Press, Key::K, 30).unwrap(),
            button(ButtonState::Release, Key::K, 30).unwrap(),
            button(ButtonState::Press, Key::K, 30).unwrap(),
        ]
    );
}

#[test]
fn text_repeats_pass_while_key_repeats_are_dropped() {
    let mut w = window();
    w.window_event(RawEvent::Text("k".to_string()));
    w.window_event(key("k", ElementState::Pressed));
    w.window_event(RawEvent::Text("k".to_string()));
    w.window_event(key("k", ElementState::Pressed));
    assert_eq!(
        drain(&mut w),
        vec![
            Event::Input(Input::Text("k".to_string()), None),
            button(ButtonState::Press, Key::K, 30).unwrap(),
            Event::Input(Input::Text("k".to_string()), None),
        ]
    );
}

#[test]
fn escape_closes_and_is_swallowed() {
    let mut w = GlutinWindow::new(&settings(true, true));
    w.window_event(escape(ElementState::Pressed));
    assert!(!w.should_close());
    assert_eq!(w.poll_event(), None);
    assert!(w.should_close());
    assert_eq!(w.pending_events(), 0);
}

#[test]
fn escape_is_swallowed_and_polling_goes_on() {
    let mut w = GlutinWindow::new(&settings(true, true));
    w.window_event(escape(ElementState::Pressed));
    w.window_event(RawEvent::Focused(true));
    assert_eq!(w.poll_event(), Some(Event::Input(Input::Focus(true), None)));
    assert!(w.should_close());
    // The release of the key is an ordinary button event.
    w.window_event(escape(ElementState::Released));
    assert_eq!(w.poll_event(), button(ButtonState::Release, Key::Escape, 1));
}

#[test]
fn escape_is_a_button_without_exit_on_escape() {
    let mut w = window();
    w.window_event(escape(ElementState::Pressed));
    assert_eq!(w.poll_event(), button(ButtonState::Press, Key::Escape, 1));
    assert!(!w.should_close());
    w.set_exit_on_esc(true);
    assert!(w.get_exit_on_esc());
    w.window_event(escape(ElementState::Pressed));
    assert_eq!(w.poll_event(), None);
    assert!(w.should_close());
}

#[test]
fn cursor_motion_pairing() {
    let mut w = window();
    w.window_event(moved(10, 10));
    w.window_event(moved(15, 12));
    assert_eq!(w.poll_event(), absolute(10, 10));
    assert!(!w.has_pending_motion());
    assert_eq!(w.poll_event(), absolute(15, 12));
    assert!(w.has_pending_motion());
    assert_eq!(w.poll_event(), relative(5, 2));
    assert!(!w.has_pending_motion());
    assert_eq!(w.poll_event(), None);
    assert_eq!(w.last_cursor_position(), Some(pt(15, 12)));
}

#[test]
fn relative_motion_comes_before_the_next_raw_event() {
    let mut w = window();
    w.window_event(moved(10, 10));
    assert_eq!(w.poll_event(), absolute(10, 10));
    w.window_event(moved(15, 12));
    w.window_event(RawEvent::Focused(true));
    w.window_event(moved(14, 20));
    assert_eq!(w.poll_event(), absolute(15, 12));
    assert_eq!(w.poll_event(), relative(5, 2));
    assert_eq!(w.poll_event(), Some(Event::Input(Input::Focus(true), None)));
    assert_eq!(w.poll_event(), absolute(14, 20));
    assert_eq!(w.poll_event(), relative(-1, 8));
    assert_eq!(w.poll_event(), None);
}

#[test]
fn fractional_displacement_is_exact() {
    let mut w = window();
    w.window_event(RawEvent::CursorMoved(Point { x: UNIT / 4, y: 3 }));
    w.window_event(RawEvent::CursorMoved(Point { x: -UNIT / 2, y: 10 }));
    let events = drain(&mut w);
    assert_eq!(
        events[2],
        Event::Input(Input::Move(Motion::MouseRelative(Offset { dx: -49152, dy: 7 })), None)
    );
}

#[test]
fn capture_toggle_changes_nothing_else() {
    let mut w = window();
    w.window_event(moved(10, 10));
    assert_eq!(w.poll_event(), absolute(10, 10));
    w.set_capture_cursor(true);
    assert!(w.get_capture_cursor());
    w.set_capture_cursor(false);
    assert!(!w.get_capture_cursor());
    assert_eq!(w.last_cursor_position(), Some(pt(10, 10)));
    assert!(!w.has_pending_motion());
    assert_eq!(w.fake_capture(Size { width: 640, height: 480 }), None);
    assert_eq!(w.poll_event(), None);

    let mut fresh = window();
    fresh.set_capture_cursor(true);
    fresh.set_capture_cursor(false);
    assert_eq!(fresh.last_cursor_position(), None);
    assert_eq!(fresh.poll_event(), None);
}

#[test]
fn captured_first_move_only_sets_the_baseline() {
    let mut w = window();
    w.set_capture_cursor(true);
    w.window_event(moved(100, 100));
    assert_eq!(w.poll_event(), None);
    assert_eq!(w.last_cursor_position(), Some(pt(100, 100)));
    assert_eq!(w.fake_capture(Size { width: 640, height: 480 }), None);
    w.window_event(moved(103, 99));
    assert_eq!(w.poll_event(), relative(3, -1));
    assert!(!w.has_pending_motion());
    assert_eq!(w.last_cursor_position(), Some(pt(103, 99)));
}

#[test]
fn captured_first_move_is_skipped_for_the_next_event() {
    let mut w = window();
    w.set_capture_cursor(true);
    w.window_event(moved(100, 100));
    w.window_event(RawEvent::CursorEntered);
    assert_eq!(w.poll_event(), Some(Event::Input(Input::Cursor(true), None)));
    assert_eq!(w.last_cursor_position(), Some(pt(100, 100)));
}

#[test]
fn captured_move_asks_for_recentring() {
    let size = Size { width: 640, height: 480 };
    let mut w = window();
    w.window_event(moved(10, 10));
    assert_eq!(w.poll_event(), absolute(10, 10));
    w.set_capture_cursor(true);
    // Nothing is due before a move was seen.
    assert_eq!(w.fake_capture(size), None);
    w.window_event(moved(12, 13));
    assert_eq!(w.poll_event(), relative(2, 3));
    assert_eq!(w.fake_capture(size), Some(pt(320, 240)));
    // The request is made once.
    assert_eq!(w.fake_capture(size), None);
    w.cursor_warped(pt(320, 240));
    assert_eq!(w.last_cursor_position(), Some(pt(320, 240)));
    w.window_event(moved(321, 238));
    assert_eq!(w.poll_event(), relative(1, -2));
    assert_eq!(w.fake_capture(size), Some(pt(320, 240)));
}

#[test]
fn failed_warp_leaves_the_baseline() {
    let size = Size { width: 640, height: 480 };
    let mut w = window();
    w.set_capture_cursor(true);
    w.window_event(moved(10, 10));
    w.window_event(moved(12, 13));
    assert_eq!(w.poll_event(), relative(2, 3));
    assert_eq!(w.fake_capture(size), Some(pt(320, 240)));
    // The front end could not move the cursor and reports nothing.
    assert_eq!(w.last_cursor_position(), Some(pt(12, 13)));
    w.window_event(moved(13, 13));
    assert_eq!(w.poll_event(), relative(1, 0));
}

#[test]
fn no_warp_when_the_cursor_is_at_the_centre() {
    let size = Size { width: 640, height: 480 };
    let mut w = window();
    w.set_capture_cursor(true);
    w.window_event(moved(0, 0));
    w.window_event(moved(320, 240));
    assert_eq!(w.poll_event(), relative(320, 240));
    assert_eq!(w.fake_capture(size), None);
    w.window_event(moved(320, 241));
    assert_eq!(w.poll_event(), relative(0, 1));
    assert_eq!(w.fake_capture(size), Some(pt(320, 240)));
}

#[test]
fn no_warp_after_capture_is_switched_off() {
    let size = Size { width: 640, height: 480 };
    let mut w = window();
    w.set_capture_cursor(true);
    w.window_event(moved(0, 0));
    w.window_event(moved(5, 5));
    assert_eq!(w.poll_event(), relative(5, 5));
    w.set_capture_cursor(false);
    assert_eq!(w.fake_capture(size), None);
    w.set_capture_cursor(true);
    assert_eq!(w.fake_capture(size), None);
    assert_eq!(w.last_cursor_position(), Some(pt(5, 5)));
}

#[test]
fn close_request_without_automatic_close() {
    let mut w = GlutinWindow::new(&settings(false, false));
    w.window_event(RawEvent::CloseRequested);
    assert_eq!(w.poll_event(), Some(Event::Input(Input::Close, None)));
    assert!(!w.should_close());
}

#[test]
fn close_request_with_automatic_close() {
    let mut w = GlutinWindow::new(&settings(false, true));
    w.window_event(RawEvent::CloseRequested);
    assert!(!w.should_close());
    assert_eq!(w.poll_event(), Some(Event::Input(Input::Close, None)));
    assert!(w.should_close());
    w.set_should_close(false);
    assert!(!w.should_close());
    w.set_automatic_close(false);
    assert!(!w.get_automatic_close());
    w.window_event(RawEvent::Destroyed);
    assert_eq!(w.wait_event(), Event::Input(Input::Close, None));
    assert!(!w.should_close());
}

#[test]
fn title_is_remembered() {
    let mut w = window();
    w.set_title("other".to_string());
    assert_eq!(w.get_title(), "other");
}

#[test]
fn window_keeps_device_identities() {
    let mut w = window();
    w.window_event(RawEvent::AxisMotion { device: 5, axis: 0, value: 1 });
    w.window_event(RawEvent::AxisMotion { device: 9, axis: 0, value: 2 });
    w.window_event(RawEvent::AxisMotion { device: 5, axis: 1, value: 3 });
    let ids: Vec<u32> = drain(&mut w)
        .into_iter()
        .map(|e| match e {
            Event::Input(Input::Move(Motion::ControllerAxis(a)), None) => a.id,
            other => panic!("unexpected event {:?}", other),
        })
        .collect();
    assert_eq!(ids, vec![0, 1, 0]);
    assert_eq!(w.devices(), 2);
    assert_eq!(w.device_id(5), Some(0));
    assert_eq!(w.device_id(9), Some(1));
    assert_eq!(w.device_id(6), None);
}

#[test]
fn window_uses_its_modifier_setting() {
    let mut w = window();
    w.window_event(key("?", ElementState::Pressed));
    assert_eq!(w.poll_event(), button(ButtonState::Press, Key::Question, 30));
    w.set_keyboard_ignore_modifiers(KeyboardIgnoreModifiers::AbcKeyCode);
    w.window_event(key("?", ElementState::Pressed));
    assert_eq!(w.poll_event(), button(ButtonState::Press, Key::Slash, 30));
}

#[test]
fn wake_up_is_the_only_user_event() {
    assert_eq!(UserEvent::WakeUp, UserEvent::WakeUp);
}

#[test]
fn events_are_needed_only_when_nothing_waits() {
    let mut w = window();
    assert!(w.needs_events());
    w.window_event(moved(1, 1));
    w.window_event(moved(2, 2));
    assert!(!w.needs_events());
    assert_eq!(w.poll_event(), absolute(1, 1));
    assert!(!w.needs_events());
    assert_eq!(w.poll_event(), absolute(2, 2));
    assert_eq!(w.pending_events(), 0);
    // The paired relative motion still waits.
    assert!(!w.needs_events());
    assert_eq!(w.poll_event(), relative(1, 1));
    assert!(w.needs_events());
}

#[test]
fn plain_queues_yield_one_event_each() {
    // A fixed pseudo-random walk over events that are never exceptional.
    let mut seed: u64 = 0x2545_f491_4f6c_dd1d;
    for round in 0..50 {
        let mut w = window();
        let mut expected = Vec::new();
        let len = 1 + (round % 17);
        for _ in 0..len {
            seed = seed.wrapping_mul(6364136223846793005).wrapping_add(1442695040888963407);
            match (seed >> 33) % 6 {
                0 => w.window_event(RawEvent::Unsupported),
                1 => {
                    w.window_event(RawEvent::Focused(seed % 2 == 0));
                    expected.push(Input::Focus(seed % 2 == 0));
                }
                2 => {
                    w.window_event(RawEvent::CursorEntered);
                    expected.push(Input::Cursor(true));
                }
                3 => {
                    w.window_event(RawEvent::Text("x".to_string()));
                    expected.push(Input::Text("x".to_string()));
                }
                4 => {
                    w.window_event(RawEvent::HoveredFileCancelled);
                    expected.push(Input::FileDrag(FileDrag::Cancel));
                }
                _ => {
                    w.window_event(RawEvent::CloseRequested);
                    expected.push(Input::Close);
                }
            }
        }
        let expected: Vec<Event> = expected.into_iter().map(|i| Event::Input(i, None)).collect();
        assert_eq!(drain(&mut w), expected);
    }
}
