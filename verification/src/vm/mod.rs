//! What a VM is made of: its size, its network and its root filesystem.

pub mod config;
pub mod network;
pub mod rootfs;
