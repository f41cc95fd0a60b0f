//! A keyboard-driven browser shell: the state layer between raw key events
//! and the actions of an embedded web engine.
//!
//! The crate owns the modal interaction logic of the shell: a keyboard
//! dispatcher that routes every key press, a command palette that turns a
//! typed query into a navigation, search or command action, an ordered
//! registry of page sessions (tabs), and the in-page hint mode that labels
//! clickable elements for pointerless activation. Rendering, networking and
//! widgetry are left to the surrounding program; the shell hands it small
//! effect values to perform.

pub mod action;
pub mod editstate;
pub mod hint;
pub mod keys;
pub mod palette;
pub mod rng;
pub mod session;
pub mod shortcuts;
pub mod text;
pub mod window;
