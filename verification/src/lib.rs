//! Decision logic of a terminal process manager that runs the commands of a
//! Procfile side by side: key handling, pane layout and pty sizing.
//!
//! The library is pure: it decides, and reports what must be done to the
//! processes (spawn, kill, write input, scroll, resize) as plain values.

pub mod keys;
pub mod app;
pub mod procfile;
pub mod ui;
pub mod laws;
