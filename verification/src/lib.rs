//! Core engine for a live window-thumbnail previewer: window classification,
//! per-thumbnail state machine, compositing request computation, and the
//! registry of tracked windows. All protocol I/O is decided here and carried
//! out by an unverified shell around this library.
pub mod classify;
pub mod config;
pub mod registry;
pub mod requests;
pub mod thumbnail;
