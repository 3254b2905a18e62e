//! The host side of Firecracker: networking, checks at startup and cleaning up.
use vstd::prelude::*;

pub mod network;
pub mod orphan;
pub mod preflight;
pub mod version;

pub use crate::firecracker::preflight::preflight_check;
pub use crate::vm::rootfs::CopyStrategy;

verus! {

/// UID of the jailed Firecracker process.
pub const JAILER_UID: usize = 1100;

/// GID of the jailed Firecracker process.
pub const JAILER_GID: usize = 1100;

/// Directory for per-VM rootfs copies.
pub const VM_IMAGES_DIR: &'static str = "/srv/jailer/vm-images";

/// Configuration determined at startup for the jailer.
#[derive(Debug, Clone)]
pub struct JailerConfig {
    /// Detected cgroup version (1 or 2).
    pub cgroup_version: usize,
    /// Absolute path to the Firecracker binary.
    pub firecracker_path: String,
    /// Absolute path to the jailer binary.
    pub jailer_path: String,
    /// Absolute path to the kernel image.
    pub kernel_path: String,
    /// Absolute path to the base rootfs image.
    pub rootfs_path: String,
    /// Directory for per-VM rootfs copies.
    pub vm_images_dir: String,
    /// Detected strategy for copying rootfs images per VM.
    pub copy_strategy: CopyStrategy,
    /// Host's outward-facing network interface (e.g. `eth0`).
    pub host_interface: String,
}

} // verus!
