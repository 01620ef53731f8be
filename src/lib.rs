//! State and rules of a small project-timer window: a list of projects read
//! from a line-oriented file, a start/stop timer and a project selector.
//!
//! Everything here is a pure function of plain values. The window itself,
//! the clock and the file are driven by the caller, which hands the library
//! the lines it read and the instants it measured.

pub mod project;
pub mod app_state;
