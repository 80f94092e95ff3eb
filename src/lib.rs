//! Rendering core of an interactive terminal application: semantic colors resolved
//! against the terminal's capabilities, a display that owns the terminal port, a
//! styled view model, and the state kept by the render loop.
pub mod color;
pub mod display;
pub mod display_color;
pub mod render;
pub mod render_loop;
pub mod render_slice;
pub mod sender;
pub mod testutil;
pub mod tui;
pub mod view;
