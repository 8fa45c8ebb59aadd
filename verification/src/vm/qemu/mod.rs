//! QEMU: its command line, and the start and end of its processes.

pub mod config;
pub mod runner;
