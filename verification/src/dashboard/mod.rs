//! The dashboard on which tasks are queued, run and watched.

pub mod candidate;
pub mod event;
pub mod state;
pub mod task;
