//! Event dispatch and scheduling core of a windowing shell.
//!
//! The library takes native events as plain values and answers with what is
//! to be done: the calls to make into the client of a window, in order, and
//! the requests to send to the platform. It never blocks and never calls
//! out; the embedding program owns the connection, the clock and the client.

pub mod backend;
pub mod dialog;
pub mod error;
pub mod fixed;
pub mod handler;
pub mod keyboard;
pub mod kurbo;
pub mod mouse;
pub mod pointer;
pub mod region;
pub mod scale;
pub mod text;
pub mod time;
pub mod timer;
pub mod window;
