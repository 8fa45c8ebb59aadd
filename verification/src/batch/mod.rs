//! Running every script of a directory in one virtual machine.

pub mod cli;
pub mod error;
pub mod job;
pub mod result;
pub mod runner;
pub mod task;
