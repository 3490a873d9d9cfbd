//! The X11 backend: events in, handler calls and X requests out.

pub mod application;
pub mod event;
pub mod masks;
pub mod pointer;
pub mod window;
