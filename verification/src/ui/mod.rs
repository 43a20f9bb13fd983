//! Touch input widgets.

pub mod t9_keyboard;
