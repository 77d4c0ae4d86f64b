//! Event translation and cursor tracking for an OpenGL game window.
//!
//! A front end that owns the native window feeds raw window events into a
//! [`GlutinWindow`] and polls engine input events out of it. Everything in
//! this crate is a pure state machine over plain values: quantities that a
//! native layer reports as real numbers are carried in fixed point (see
//! [`geometry`]).

pub mod devices;
pub mod geometry;
pub mod input;
pub mod keyboard;
pub mod laws;
pub mod model;
pub mod mouse;
pub mod native;
pub mod settings;
pub mod translate;
pub mod window;

pub use keyboard::KeyboardIgnoreModifiers;
pub use mouse::map_mouse;
pub use window::{GlutinWindow, UserEvent};
