//! Tab contents exposed to the presentation layer.

pub mod settings;
