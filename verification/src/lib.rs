//! Capability-gated terminal control.
//!
//! The crate renders terminal commands (cursor motion, erasure, styling,
//! screen-buffer switching) as exact byte sequences, gates them on what the
//! attached terminal's capability profile supports, and tracks the state a
//! session must restore on teardown: a LIFO stack of inverse commands and the
//! original line-discipline attributes.

pub mod command;
pub mod cursor;
pub mod decimal;
pub mod erase;
pub mod logging;
pub mod profile;
pub mod style;
pub mod terminal;
pub mod termios;

pub use command::{Command, RenderError, ResetCommand};
pub use profile::Profile;
pub use terminal::{SetAttrsError, Terminal};
pub use termios::{termios_mostly_equal, Termios};
