//! The operations of the protocol.
//!
//! Each operation checks everything that can fail before it changes any
//! state: an operation that is refused leaves no trace.

pub mod initialize;
pub mod selective_reveal;
pub mod shield;
pub mod transfer;
pub mod unshield;
