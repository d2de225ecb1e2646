//! Core logic of a self-relaunching countdown timer: duration parsing, the
//! countdown and dashboard state machines, and the plan for spawning the
//! floating timer window.

pub mod args;
pub mod countdown;
pub mod dashboard;
pub mod decimal;
pub mod duration;
pub mod input;
pub mod text;
pub mod ui;
pub mod window;
