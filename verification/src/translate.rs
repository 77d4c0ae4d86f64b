//! Translation of one raw window event into an engine input.
//!
//! The translation reads and updates two pieces of state: the key that is
//! held, by which repeated presses are suppressed, and the device table.

use vstd::prelude::*;
use vstd::string::*;
use crate::devices::{DeviceTable, DeviceTableView};
use crate::geometry::UNIT;
use crate::input::{
    Button, ButtonArgs, ButtonState, ControllerAxisArgs, FileDrag, FileDragView, Input, InputView,
    Motion, Touch, TouchArgs, input_value,
};
use crate::keyboard::{Key, KeyboardIgnoreModifiers, key_of, map_key};
use crate::mouse::{map_mouse, mouse_button_of};
use crate::native::{
    ElementState, KeyEvent, KeyEventView, NativeTouch, RawEvent, RawEventView, ScrollDelta,
    TouchPhase,
};

verus! {

/// The control characters whose text is not reported: delete, escape,
/// backspace, carriage return, line feed and tab.
pub open spec fn is_control(c: char) -> bool {
    c == '\u{7f}' || c == '\u{1b}' || c == '\u{8}' || c == '\r' || c == '\n' || c == '\t'
}

/// The text reported for typed text: nothing for a single control
/// character, the text itself otherwise.
pub open spec fn text_of(typed: Seq<char>) -> Seq<char> {
    if typed.len() == 1 && is_control(typed[0]) {
        Seq::empty()
    } else {
        typed
    }
}

/// Maps typed text to the text of a text event.
pub fn map_text(typed: String) -> (text: String)
    ensures
        text@ == text_of(typed@),
{
    let s = typed.as_str();
    if s.unicode_len() == 1 {
        let c = s.get_char(0);
        if c == '\u{7f}' || c == '\u{1b}' || c == '\u{8}' || c == '\r' || c == '\n' || c == '\t' {
            return String::new();
        }
    }
    typed
}

/// The button state that a native element state stands for.
pub open spec fn button_state_of(state: ElementState) -> ButtonState {
    match state {
        ElementState::Pressed => ButtonState::Press,
        ElementState::Released => ButtonState::Release,
    }
}

/// The engine's touch stage for a native one.
pub open spec fn touch_of(phase: TouchPhase) -> Touch {
    match phase {
        TouchPhase::Started => Touch::Start,
        TouchPhase::Moved => Touch::Move,
        TouchPhase::Ended => Touch::End,
        TouchPhase::Cancelled => Touch::Cancel,
    }
}

/// The touch motion reported for a native touch: device 0, the finger's
/// identifier, full pressure.
pub open spec fn touch_args_of(touch: NativeTouch) -> TouchArgs {
    TouchArgs {
        device: 0,
        id: touch.id as i64,
        position: touch.location,
        pressure: UNIT,
        touch: touch_of(touch.phase),
    }
}

/// Whether a keyboard event repeats the press of the key that is held.
pub open spec fn is_repeat(
    input: KeyEventView,
    kim: KeyboardIgnoreModifiers,
    held: Option<Key>,
) -> bool {
    input.state == ElementState::Pressed && held == Some(key_of(input.logical_key, kim))
}

/// The key that is held after a keyboard event: a press holds its key, a
/// release of the held key leaves none held.
pub open spec fn held_after(
    input: KeyEventView,
    kim: KeyboardIgnoreModifiers,
    held: Option<Key>,
) -> Option<Key> {
    let key = key_of(input.logical_key, kim);
    match input.state {
        ElementState::Pressed => Some(key),
        ElementState::Released => if held == Some(key) {
            None
        } else {
            held
        },
    }
}

/// The button event for a keyboard event; none for a repeated press.
pub open spec fn keyboard_button(
    input: KeyEventView,
    kim: KeyboardIgnoreModifiers,
    held: Option<Key>,
) -> Option<ButtonArgs> {
    if is_repeat(input, kim, held) {
        None
    } else {
        Some(
            ButtonArgs {
                state: button_state_of(input.state),
                button: Button::Keyboard(key_of(input.logical_key, kim)),
                scancode: input.scancode,
            },
        )
    }
}

/// Maps a native keyboard event to a button event and updates the held
/// key. A press of the key that is already held yields nothing.
pub fn map_keyboard_input(
    input: &KeyEvent,
    kim: KeyboardIgnoreModifiers,
    last_key_pressed: &mut Option<Key>,
) -> (button: Option<ButtonArgs>)
    ensures
        button == keyboard_button(input@, kim, *old(last_key_pressed)),
        *final(last_key_pressed) == held_after(input@, kim, *old(last_key_pressed)),
{
    let key = map_key(&input.logical_key, kim);
    let held = match *last_key_pressed {
        Some(last_key) => last_key == key,
        None => false,
    };
    let state = match input.state {
        ElementState::Pressed => {
            if held {
                return None;
            }
            *last_key_pressed = Some(key);
            ButtonState::Press
        },
        ElementState::Released => {
            if held {
                *last_key_pressed = None;
            }
            ButtonState::Release
        },
    };
    Some(ButtonArgs { state, button: Button::Keyboard(key), scancode: input.scancode })
}

/// What the translation of one raw event yields.
pub struct Translation {
    /// The input to report; none if the event is not reported.
    pub input: Option<InputView>,
    /// The key held afterwards.
    pub held: Option<Key>,
    /// The device table afterwards.
    pub devices: DeviceTableView,
}

/// The translation of a raw event that touches neither the held key nor
/// the device table.
pub open spec fn plain_input(event: RawEventView) -> Option<InputView> {
    match event {
        RawEventView::Resized(r) => Some(InputView::Resize(r)),
        RawEventView::Text(s) => Some(InputView::Text(text_of(s))),
        RawEventView::Focused(f) => Some(InputView::Focus(f)),
        RawEventView::CursorMoved(p) => Some(InputView::Move(Motion::MouseCursor(p))),
        RawEventView::CursorEntered => Some(InputView::Cursor(true)),
        RawEventView::CursorLeft => Some(InputView::Cursor(false)),
        RawEventView::MouseWheel(ScrollDelta::Line(d)) => Some(
            InputView::Move(Motion::MouseScroll(d)),
        ),
        RawEventView::MouseWheel(ScrollDelta::Pixel(d)) => Some(
            InputView::Move(Motion::MouseScroll(d)),
        ),
        RawEventView::MouseInput { state, button } => Some(
            InputView::Button(
                ButtonArgs {
                    state: button_state_of(state),
                    button: Button::Mouse(mouse_button_of(button)),
                    scancode: None,
                },
            ),
        ),
        RawEventView::HoveredFile(p) => Some(InputView::FileDrag(FileDragView::Hover(p))),
        RawEventView::DroppedFile(p) => Some(InputView::FileDrag(FileDragView::Drop(p))),
        RawEventView::HoveredFileCancelled => Some(InputView::FileDrag(FileDragView::Cancel)),
        RawEventView::Touch(t) => Some(InputView::Move(Motion::Touch(touch_args_of(t)))),
        RawEventView::CloseRequested => Some(InputView::Close),
        RawEventView::Destroyed => Some(InputView::Close),
        _ => None,
    }
}

/// The translation of a raw event.
///
/// A keyboard event goes by the held key; an axis motion is reported under
/// the identity of its device, and not at all if the device can get none;
/// every other event is translated by itself.
pub open spec fn translate(
    event: RawEventView,
    kim: KeyboardIgnoreModifiers,
    held: Option<Key>,
    devices: DeviceTableView,
) -> Translation {
    match event {
        RawEventView::KeyboardInput(k) => Translation {
            input: match keyboard_button(k, kim, held) {
                Some(b) => Some(InputView::Button(b)),
                None => None,
            },
            held: held_after(k, kim, held),
            devices,
        },
        RawEventView::AxisMotion { device, axis, value } => Translation {
            input: match devices.identity(device) {
                Some(id) => Some(
                    InputView::Move(
                        Motion::ControllerAxis(
                            ControllerAxisArgs { id, axis: axis as u8, position: value },
                        ),
                    ),
                ),
                None => None,
            },
            held,
            devices: devices.identify(device),
        },
        _ => Translation { input: plain_input(event), held, devices },
    }
}

/// Converts a raw window event into an engine input.
///
/// Returns `None` for an event that is not passed on: one the engine does
/// not model, a repeated key press, or an axis motion of a device that can
/// get no identity.
pub fn map_window_event(
    window_event: RawEvent,
    kim: KeyboardIgnoreModifiers,
    last_key_pressed: &mut Option<Key>,
    devices: &mut DeviceTable,
) -> (input: Option<Input>)
    ensures
        input_value(input) == translate(
            window_event@,
            kim,
            *old(last_key_pressed),
            old(devices)@,
        ).input,
        *final(last_key_pressed) == translate(
            window_event@,
            kim,
            *old(last_key_pressed),
            old(devices)@,
        ).held,
        final(devices)@ == translate(
            window_event@,
            kim,
            *old(last_key_pressed),
            old(devices)@,
        ).devices,
{
    match window_event {
        RawEvent::DroppedFile(path) => Some(Input::FileDrag(FileDrag::Drop(path))),
        RawEvent::HoveredFile(path) => Some(Input::FileDrag(FileDrag::Hover(path))),
        RawEvent::HoveredFileCancelled => Some(Input::FileDrag(FileDrag::Cancel)),
        RawEvent::Resized(size) => Some(Input::Resize(size)),
        RawEvent::CloseRequested => Some(Input::Close),
        RawEvent::Destroyed => Some(Input::Close),
        RawEvent::Focused(focused) => Some(Input::Focus(focused)),
        RawEvent::Text(typed) => Some(Input::Text(map_text(typed))),
        RawEvent::KeyboardInput(event) => {
            match map_keyboard_input(&event, kim, last_key_pressed) {
                Some(button) => Some(Input::Button(button)),
                None => None,
            }
        },
        RawEvent::CursorMoved(position) => Some(Input::Move(Motion::MouseCursor(position))),
        RawEvent::CursorEntered => Some(Input::Cursor(true)),
        RawEvent::CursorLeft => Some(Input::Cursor(false)),
        RawEvent::MouseWheel(delta) => match delta {
            ScrollDelta::Pixel(d) => Some(Input::Move(Motion::MouseScroll(d))),
            ScrollDelta::Line(d) => Some(Input::Move(Motion::MouseScroll(d))),
        },
        RawEvent::MouseInput { state, button } => {
            let button = map_mouse(button);
            let state = match state {
                ElementState::Pressed => ButtonState::Press,
                ElementState::Released => ButtonState::Release,
            };
            Some(Input::Button(ButtonArgs { state, button: Button::Mouse(button), scancode: None }))
        },
        RawEvent::AxisMotion { device, axis, value } => {
            match devices.identify(device) {
                Some(id) => Some(
                    Input::Move(
                        Motion::ControllerAxis(
                            ControllerAxisArgs {
                                id,
                                axis: #[verifier::truncate] (axis as u8),
                                position: value,
                            },
                        ),
                    ),
                ),
                None => None,
            }
        },
        RawEvent::Touch(touch) => {
            let stage = match touch.phase {
                TouchPhase::Started => Touch::Start,
                TouchPhase::Moved => Touch::Move,
                TouchPhase::Ended => Touch::End,
                TouchPhase::Cancelled => Touch::Cancel,
            };
            Some(
                Input::Move(
                    Motion::Touch(
                        TouchArgs {
                            device: 0,
                            id: #[verifier::truncate] (touch.id as i64),
                            position: touch.location,
                            pressure: UNIT,
                            touch: stage,
                        },
                    ),
                ),
            )
        },
        RawEvent::Unsupported => None,
    }
}

} // verus!
