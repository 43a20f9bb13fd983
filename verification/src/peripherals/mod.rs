//! Session state of the watch's radios.

pub mod wifi;
