//! Core of an agent-driven terminal: rendering of screen snapshots, decoding of
//! escaped input, configuration checks, the decisions of the session worker, the
//! execution gate and the HTML session transcript.

pub mod capture;
pub mod config;
pub mod gate;
pub mod input;
pub mod repl;
pub mod screen;
pub mod session;
pub mod snapshot;
pub mod text;
pub mod worker;
