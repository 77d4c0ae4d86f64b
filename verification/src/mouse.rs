//! Mouse buttons: the native layer's numbering and the engine's.

use vstd::prelude::*;

verus! {

/// A mouse button as the native layer reports it.
#[derive(Clone, Copy, PartialEq, Eq, Structural, Debug)]
pub enum NativeMouseButton {
    Left,
    Right,
    Middle,
    Back,
    Forward,
    /// Any further button, by the native layer's own number.
    Other(u16),
}

/// A mouse button of the engine's input model.
#[derive(Clone, Copy, PartialEq, Eq, Structural, Debug)]
pub enum MouseButton {
    Unknown,
    Left,
    Right,
    Middle,
    X1,
    X2,
    Button6,
    Button7,
    Button8,
}

/// The engine button for a numbered extra button: numbers 0 to 4 are the
/// five extra buttons the engine knows, in order.
pub open spec fn extra_button(n: u16) -> MouseButton {
    if n == 0 {
        MouseButton::X1
    } else if n == 1 {
        MouseButton::X2
    } else if n == 2 {
        MouseButton::Button6
    } else if n == 3 {
        MouseButton::Button7
    } else if n == 4 {
        MouseButton::Button8
    } else {
        MouseButton::Unknown
    }
}

/// The engine button that stands for a native button.
pub open spec fn mouse_button_of(button: NativeMouseButton) -> MouseButton {
    match button {
        NativeMouseButton::Left => MouseButton::Left,
        NativeMouseButton::Right => MouseButton::Right,
        NativeMouseButton::Middle => MouseButton::Middle,
        NativeMouseButton::Other(n) => extra_button(n),
        NativeMouseButton::Back | NativeMouseButton::Forward => MouseButton::Unknown,
    }
}

/// Maps the native layer's mouse button to the engine's mouse button.
pub fn map_mouse(mouse_button: NativeMouseButton) -> (button: MouseButton)
    ensures
        button == mouse_button_of(mouse_button),
{
    match mouse_button {
        NativeMouseButton::Left => MouseButton::Left,
        NativeMouseButton::Right => MouseButton::Right,
        NativeMouseButton::Middle => MouseButton::Middle,
        NativeMouseButton::Other(0) => MouseButton::X1,
        NativeMouseButton::Other(1) => MouseButton::X2,
        NativeMouseButton::Other(2) => MouseButton::Button6,
        NativeMouseButton::Other(3) => MouseButton::Button7,
        NativeMouseButton::Other(4) => MouseButton::Button8,
        _ => MouseButton::Unknown,
    }
}

} // verus!
