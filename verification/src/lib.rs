//! Keyboard-driven window switching: the rules that decide which window lies
//! in which direction, how the history of visited windows is kept, and what
//! each hotkey does.

pub mod geometry;
pub mod window;
pub mod window_manager;
pub mod laws;
pub mod config;
pub mod keybinds;
pub mod events;
pub mod core_process;
