//! Reaching a machine over SSH.

pub mod client;
pub mod key;
