//! Raw window events, as the front end reports them.
//!
//! Positions and sizes arrive already converted to logical coordinates.

use vstd::prelude::*;
use crate::geometry::{Offset, Point};
use crate::input::ResizeArgs;
use crate::keyboard::{LogicalKey, LogicalKeyView};
use crate::mouse::NativeMouseButton;

verus! {

/// Whether a key or button is down or up.
#[derive(Clone, Copy, PartialEq, Eq, Structural, Debug)]
pub enum ElementState {
    Pressed,
    Released,
}

/// A native keyboard event.
#[derive(Clone, PartialEq, Eq, Debug)]
pub struct KeyEvent {
    pub logical_key: LogicalKey,
    pub state: ElementState,
    /// The code of the physical key, where the native layer knows it.
    pub scancode: Option<i32>,
}

/// The mathematical value of a [`KeyEvent`].
pub struct KeyEventView {
    pub logical_key: LogicalKeyView,
    pub state: ElementState,
    pub scancode: Option<i32>,
}

impl View for KeyEvent {
    type V = KeyEventView;

    open spec fn view(&self) -> KeyEventView {
        KeyEventView {
            logical_key: self.logical_key@,
            state: self.state,
            scancode: self.scancode,
        }
    }
}

/// A turn of the mouse wheel.
#[derive(Clone, Copy, PartialEq, Eq, Structural, Debug)]
pub enum ScrollDelta {
    /// A number of lines or rows.
    Line(Offset),
    /// A distance in logical units.
    Pixel(Offset),
}

/// The stage of a native touch.
#[derive(Clone, Copy, PartialEq, Eq, Structural, Debug)]
pub enum TouchPhase {
    Started,
    Moved,
    Ended,
    Cancelled,
}

/// A native touch event.
#[derive(Clone, Copy, PartialEq, Eq, Structural, Debug)]
pub struct NativeTouch {
    pub phase: TouchPhase,
    /// The native layer's identifier of the finger.
    pub id: u64,
    pub location: Point,
}

/// A raw window event.
#[derive(Clone, PartialEq, Eq, Debug)]
pub enum RawEvent {
    Resized(ResizeArgs),
    /// Text typed by the user.
    Text(String),
    Focused(bool),
    KeyboardInput(KeyEvent),
    CursorMoved(Point),
    CursorEntered,
    CursorLeft,
    MouseWheel(ScrollDelta),
    MouseInput { state: ElementState, button: NativeMouseButton },
    HoveredFile(String),
    DroppedFile(String),
    HoveredFileCancelled,
    Touch(NativeTouch),
    /// An axis of the device `device` moved to `value` (fixed point).
    AxisMotion { device: u64, axis: u32, value: i64 },
    CloseRequested,
    Destroyed,
    /// Any native event that the engine does not model.
    Unsupported,
}

/// The mathematical value of a [`RawEvent`].
pub enum RawEventView {
    Resized(ResizeArgs),
    Text(Seq<char>),
    Focused(bool),
    KeyboardInput(KeyEventView),
    CursorMoved(Point),
    CursorEntered,
    CursorLeft,
    MouseWheel(ScrollDelta),
    MouseInput { state: ElementState, button: NativeMouseButton },
    HoveredFile(Seq<char>),
    DroppedFile(Seq<char>),
    HoveredFileCancelled,
    Touch(NativeTouch),
    AxisMotion { device: u64, axis: u32, value: i64 },
    CloseRequested,
    Destroyed,
    Unsupported,
}

impl View for RawEvent {
    type V = RawEventView;

    open spec fn view(&self) -> RawEventView {
        match self {
            RawEvent::Resized(r) => RawEventView::Resized(*r),
            RawEvent::Text(s) => RawEventView::Text(s@),
            RawEvent::Focused(f) => RawEventView::Focused(*f),
            RawEvent::KeyboardInput(k) => RawEventView::KeyboardInput(k@),
            RawEvent::CursorMoved(p) => RawEventView::CursorMoved(*p),
            RawEvent::CursorEntered => RawEventView::CursorEntered,
            RawEvent::CursorLeft => RawEventView::CursorLeft,
            RawEvent::MouseWheel(d) => RawEventView::MouseWheel(*d),
            RawEvent::MouseInput { state, button } => RawEventView::MouseInput {
                state: *state,
                button: *button,
            },
            RawEvent::HoveredFile(p) => RawEventView::HoveredFile(p@),
            RawEvent::DroppedFile(p) => RawEventView::DroppedFile(p@),
            RawEvent::HoveredFileCancelled => RawEventView::HoveredFileCancelled,
            RawEvent::Touch(t) => RawEventView::Touch(*t),
            RawEvent::AxisMotion { device, axis, value } => RawEventView::AxisMotion {
                device: *device,
                axis: *axis,
                value: *value,
            },
            RawEvent::CloseRequested => RawEventView::CloseRequested,
            RawEvent::Destroyed => RawEventView::Destroyed,
            RawEvent::Unsupported => RawEventView::Unsupported,
        }
    }
}

impl RawEventView {
    /// A cursor position, if the event carries one, is within the
    /// coordinate bound.
    pub open spec fn in_range(self) -> bool {
        match self {
            RawEventView::CursorMoved(p) => p.in_range(),
            _ => true,
        }
    }
}

impl RawEvent {
    /// Tests whether the event may be queued: a cursor position must be
    /// within the coordinate bound.
    pub fn is_in_range(&self) -> (ok: bool)
        ensures
            ok == self@.in_range(),
    {
        match self {
            RawEvent::CursorMoved(p) => p.is_in_range(),
            _ => true,
        }
    }
}

} // verus!
