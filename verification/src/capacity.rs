//! What the host has to give to VMs.
use vstd::prelude::*;

verus! {

/// Memory in MB reserved for the host OS and Warlock itself.
pub const HOST_RESERVED_MEMORY_MB: u64 = 256;

/// What the host has.
#[derive(Debug, Clone, Copy, PartialEq, Eq, Structural)]
pub struct Capacity {
    /// Total system memory in megabytes.
    pub memory_mb: u64,
    /// Total number of CPU cores.
    pub vcpus: u8,
}

impl Capacity {
    /// Memory for VMs: all but the host's share, which may be all there is.
    pub open spec fn allocatable(self) -> nat {
        if self.memory_mb >= HOST_RESERVED_MEMORY_MB {
            (self.memory_mb - HOST_RESERVED_MEMORY_MB) as nat
        } else {
            0
        }
    }

    /// Memory available for VM allocation after the host reservation.
    pub fn allocatable_memory_mb(&self) -> (r: u64)
        ensures
            r == self.allocatable(),
    {
        self.memory_mb.saturating_sub(HOST_RESERVED_MEMORY_MB)
    }
}

/// Why the capacity of the host is not known.
#[derive(Debug, Clone, Copy, PartialEq, Eq, Structural)]
pub enum CapacityError {
    /// The amount of memory could not be read.
    UnknownMemory,
}

/// Returns the total system memory in megabytes, if its size in bytes could be read.
pub fn total_memory_mb(total_memory_bytes: Option<u64>) -> (r: Result<u64, CapacityError>)
    ensures
        match total_memory_bytes {
            Some(bytes) => r == Ok::<u64, CapacityError>(bytes / 0x10_0000),
            None => r == Err::<u64, CapacityError>(CapacityError::UnknownMemory),
        },
{
    match total_memory_bytes {
        Some(bytes) => Ok(bytes / 1024 / 1024),
        None => Err(CapacityError::UnknownMemory),
    }
}

/// The core count, as far as eight bits hold it: 255 stands for any number above. One core
/// if the count is not known.
pub open spec fn core_count(available_parallelism: Option<usize>) -> u8 {
    match available_parallelism {
        Some(n) => if n <= 255 {
            n as u8
        } else {
            255
        },
        None => 1,
    }
}

/// Returns the number of available CPU cores: the parallelism that the system makes
/// available, or 255 if there are more. If the number cannot be determined, it defaults to 1.
pub fn total_cpus(available_parallelism: Option<usize>) -> (r: u8)
    ensures
        r == core_count(available_parallelism),
        available_parallelism != Some(0usize) ==> r > 0,
{
    match available_parallelism {
        Some(n) => if n <= 255 {
            n as u8
        } else {
            255
        },
        None => 1,
    }
}

/// Returns the total available system capacity, or an error if the memory information
/// could not be read.
pub fn available_capacity(
    total_memory_bytes: Option<u64>,
    available_parallelism: Option<usize>,
) -> (r: Result<Capacity, CapacityError>)
    ensures
        match total_memory_bytes {
            Some(bytes) => r == Ok::<Capacity, CapacityError>(
                Capacity {
                    memory_mb: bytes / 0x10_0000,
                    vcpus: core_count(available_parallelism),
                },
            ),
            None => r == Err::<Capacity, CapacityError>(CapacityError::UnknownMemory),
        },
{
    match total_memory_mb(total_memory_bytes) {
        Ok(memory_mb) => Ok(Capacity { memory_mb, vcpus: total_cpus(available_parallelism) }),
        Err(e) => Err(e),
    }
}

/// The memory is counted in full megabytes, the cores up to 255, and a host whose cores are
/// not known has one.
pub proof fn capacity_of_host(
    bytes: u64,
    cores: Option<usize>,
    r: Result<Capacity, CapacityError>,
    alone: u8,
)
    requires
        call_ensures(available_capacity, (Some(bytes), cores), r),
        call_ensures(total_cpus, (cores,), alone),
    ensures
        r matches Ok(c) && c.memory_mb * 1048576 <= bytes && bytes < c.memory_mb * 1048576 + 1048576
            && c.vcpus == alone,
        cores is Some && cores->0 <= 255 ==> alone == cores->0,
        cores is Some && cores->0 > 255 ==> alone == 255,
        cores is None ==> alone == 1,
{
}

/// Without a memory size there is no capacity, whatever the cores.
pub proof fn unknown_memory_is_an_error(
    cores: Option<usize>,
    r: Result<Capacity, CapacityError>,
    m: Result<u64, CapacityError>,
)
    requires
        call_ensures(available_capacity, (None::<u64>, cores), r),
        call_ensures(total_memory_mb, (None::<u64>,), m),
    ensures
        r is Err,
        m is Err,
{
}

/// All memory but 256 MB is for VMs.
pub proof fn host_keeps_its_share(c: Capacity, r: u64)
    requires
        call_ensures(Capacity::allocatable_memory_mb, (&c,), r),
    ensures
        c.memory_mb >= 256 ==> r + 256 == c.memory_mb,
        c.memory_mb < 256 ==> r == 0,
        r == c.allocatable(),
{
}

/// The memory alone is counted as it is in the capacity.
pub proof fn memory_is_counted_in_megabytes(bytes: u64, r: Result<u64, CapacityError>)
    requires
        call_ensures(total_memory_mb, (Some(bytes),), r),
    ensures
        r matches Ok(mb) && mb * 1048576 <= bytes && bytes < mb * 1048576 + 1048576,
{
}

} // verus!
