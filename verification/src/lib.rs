//! A small desktop logger front-end: a view-state with an append-only output
//! log, two status messages, an identifier field, and a decoded logo image.
//! The state transitions and the decode bookkeeping are verified; the windowing
//! shell lives outside the library.

pub mod logo;
pub mod state;
pub mod text;
