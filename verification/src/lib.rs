//! The logic behind a small tool set that runs batches of shell scripts inside
//! throw-away QEMU virtual machines.

pub mod batch;
pub mod cli;
pub mod dashboard;
pub mod json;
pub mod order;
pub mod path;
pub mod replay;
pub mod reply;
pub mod shell;
pub mod task;
pub mod text;
pub mod vm;
pub mod vm_dashboard;
pub mod worker;
