//! Core of a terminal RSS news reader.
//!
//! The library owns the application state machine, the transition channel
//! through which every state change travels, the feed-entry normalization
//! rules, the aggregation step that combines per-source article lists, and
//! the configuration defaults. Terminal rendering and network retrieval sit
//! outside and talk to this core only through plain values and transitions.

pub mod app;
pub mod channel;
pub mod newsroomcore;
pub mod settings;
pub mod tabs;
