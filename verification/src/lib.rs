//! Live shader-reload core: configuration loading, the library-fragment
//! index, the watch-set model, and the reload controller state machine.
//!
//! The host engine (window, GPU, filesystem watcher) drives this crate from
//! the outside: it polls for debounced change events, performs the watch and
//! compile actions the controller decides on, and hands the outcomes back.

pub mod path;
pub mod jsonio;
pub mod config;
pub mod library;
pub mod watch;
pub mod controller;
pub mod laws;
pub mod state;
