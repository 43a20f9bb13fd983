//! Product-level state that is independent of the hardware drivers and UI.

pub mod settings;
