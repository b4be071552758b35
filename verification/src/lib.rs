//! A small terminal todo list, as a verified library.
//!
//! Nothing here touches the terminal. Every renderer appends terminal
//! operations to a sink that the caller owns, and the event loop is a step
//! function from an input event to the action that the caller must perform.
//! The contracts say exactly which operations are appended and how the
//! state changes.

pub mod error;
pub mod term;
pub mod canvas;
pub mod constants;
pub mod format;
pub mod event;
pub mod traits;
pub mod primitives;
pub mod components;
pub mod app;
pub mod screen;
