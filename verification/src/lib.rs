//! Core of a terminal mail client: a mode-based UI controller, its message
//! data model, editable text buffers for composing, and an in-memory message
//! store. Terminal rendering, persistence and mail transport live outside
//! this crate; the controller consumes plain key events and application
//! events and answers with the actions the surrounding program must perform.

pub mod app;
pub mod event;
pub mod fixture;
pub mod laws;
pub mod message;
pub mod textbuffer;
