//! Startup sequencing for the Zoo Databáze desktop shell.
//!
//! The shell itself (windows, plugins, the event loop) lives outside this
//! library. What lives here is everything that is decided during startup:
//! which step is due, what follows from each step's outcome, and what the
//! main window is called. A driver performs the steps and reports back.

pub mod laws;
pub mod model;
pub mod sequencer;
pub mod title;
