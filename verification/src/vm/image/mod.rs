//! Disk images: telling them apart, copying them, and fetching them.

pub mod disk;
pub mod downloader;
