//! Keyboard-driven pointer emulation for a tiling window manager: a verified
//! model of held keys and the active mode, the interpreter that turns binding
//! events into changes of that model, and the motion rules that turn the
//! model into cursor displacements once per tick.
pub mod keys;
pub mod config;
pub mod interpreter;
pub mod motion;
pub mod daemon;
