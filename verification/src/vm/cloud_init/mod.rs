//! What a machine is told on its first boot.

pub mod iso;
pub mod seed;
