//! Virtual machines: how they are described, numbered, started, reached and removed.

pub mod cloud_init;
pub mod config;
pub mod image;
pub mod launch;
pub mod mount;
pub mod ops;
pub mod platform;
pub mod port;
pub mod process;
pub mod progress;
pub mod qemu;
pub mod record;
pub mod ssh;
pub mod startup;
