//! Core of a minimal window manager: atom classification, the key-bind
//! registry and the translation of raw protocol events into abstract events.

pub mod assoc;
pub mod keys;
pub mod atoms;
pub mod client;
pub mod window;
