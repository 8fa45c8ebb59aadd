//! Running one task, or a chain of tasks, each in a virtual machine of its own.

pub mod chain;
pub mod error;
pub mod kernel_config;
pub mod launch;
pub mod paths;
pub mod progress;
pub mod result;
pub mod runner;
pub mod vm_ops;

use vstd::prelude::*;

verus! {

/// How many tasks run at a time.
pub const MAX_BATCH_TASKS: usize = 4;

} // verus!
