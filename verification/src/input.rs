//! The engine's input event model: what the adapter emits.

use vstd::prelude::*;
use crate::geometry::{Extent, Offset, Point, Size};
use crate::keyboard::Key;
use crate::mouse::MouseButton;

verus! {

/// Whether a button went down or came up.
#[derive(Clone, Copy, PartialEq, Eq, Structural, Debug)]
pub enum ButtonState {
    Press,
    Release,
}

/// A button of any device.
#[derive(Clone, Copy, PartialEq, Eq, Structural, Debug)]
pub enum Button {
    Keyboard(Key),
    Mouse(MouseButton),
}

/// A button press or release.
#[derive(Clone, Copy, PartialEq, Eq, Structural, Debug)]
pub struct ButtonArgs {
    pub state: ButtonState,
    pub button: Button,
    /// The hardware scancode, where the native layer reported one.
    pub scancode: Option<i32>,
}

/// A change of the window's size.
#[derive(Clone, Copy, PartialEq, Eq, Structural, Debug)]
pub struct ResizeArgs {
    /// The window's size in logical units.
    pub window_size: Extent,
    /// The size of the drawable surface in physical pixels.
    pub draw_size: Size,
}

/// The stage of a touch.
#[derive(Clone, Copy, PartialEq, Eq, Structural, Debug)]
pub enum Touch {
    Start,
    Move,
    End,
    Cancel,
}

/// The state of one finger on a touch device.
#[derive(Clone, Copy, PartialEq, Eq, Structural, Debug)]
pub struct TouchArgs {
    pub device: i64,
    pub id: i64,
    pub position: Point,
    /// The pressure in fixed point.
    pub pressure: i64,
    pub touch: Touch,
}

/// The position of one axis of a controller.
#[derive(Clone, Copy, PartialEq, Eq, Structural, Debug)]
pub struct ControllerAxisArgs {
    /// The small integer the adapter assigned to the device.
    pub id: u32,
    pub axis: u8,
    /// The axis value in fixed point.
    pub position: i64,
}

/// A motion of some device.
#[derive(Clone, Copy, PartialEq, Eq, Structural, Debug)]
pub enum Motion {
    /// The cursor's absolute position.
    MouseCursor(Point),
    /// The cursor's displacement since its previous position.
    MouseRelative(Offset),
    MouseScroll(Offset),
    ControllerAxis(ControllerAxisArgs),
    Touch(TouchArgs),
}

/// A file dragged over or dropped on the window, by its path.
#[derive(Clone, PartialEq, Eq, Debug)]
pub enum FileDrag {
    Hover(String),
    Drop(String),
    Cancel,
}

/// The mathematical value of a [`FileDrag`].
pub enum FileDragView {
    Hover(Seq<char>),
    Drop(Seq<char>),
    Cancel,
}

impl View for FileDrag {
    type V = FileDragView;

    open spec fn view(&self) -> FileDragView {
        match self {
            FileDrag::Hover(p) => FileDragView::Hover(p@),
            FileDrag::Drop(p) => FileDragView::Drop(p@),
            FileDrag::Cancel => FileDragView::Cancel,
        }
    }
}

/// An input event.
#[derive(Clone, PartialEq, Eq, Debug)]
pub enum Input {
    Resize(ResizeArgs),
    Text(String),
    Focus(bool),
    Button(ButtonArgs),
    /// Whether the cursor is now inside the window.
    Cursor(bool),
    Move(Motion),
    FileDrag(FileDrag),
    Close,
}

/// The mathematical value of an [`Input`].
pub enum InputView {
    Resize(ResizeArgs),
    Text(Seq<char>),
    Focus(bool),
    Button(ButtonArgs),
    Cursor(bool),
    Move(Motion),
    FileDrag(FileDragView),
    Close,
}

impl View for Input {
    type V = InputView;

    open spec fn view(&self) -> InputView {
        match self {
            Input::Resize(r) => InputView::Resize(*r),
            Input::Text(s) => InputView::Text(s@),
            Input::Focus(f) => InputView::Focus(*f),
            Input::Button(b) => InputView::Button(*b),
            Input::Cursor(c) => InputView::Cursor(*c),
            Input::Move(m) => InputView::Move(*m),
            Input::FileDrag(f) => InputView::FileDrag(f@),
            Input::Close => InputView::Close,
        }
    }
}

/// An event handed to the engine's loop.
#[derive(Clone, PartialEq, Eq, Debug)]
pub enum Event {
    /// An input, with its time stamp where the native layer supplied one.
    Input(Input, Option<u32>),
    /// Nothing happened.
    Idle,
}

/// The mathematical value of an [`Event`].
pub enum EventView {
    Input(InputView, Option<u32>),
    Idle,
}

impl View for Event {
    type V = EventView;

    open spec fn view(&self) -> EventView {
        match self {
            Event::Input(i, t) => EventView::Input(i@, *t),
            Event::Idle => EventView::Idle,
        }
    }
}

/// The value of an input that may be absent.
pub open spec fn input_value(input: Option<Input>) -> Option<InputView> {
    match input {
        Some(i) => Some(i@),
        None => None,
    }
}

/// The value of an event that may be absent.
pub open spec fn event_value(event: Option<Event>) -> Option<EventView> {
    match event {
        Some(e) => Some(e@),
        None => None,
    }
}

} // verus!
