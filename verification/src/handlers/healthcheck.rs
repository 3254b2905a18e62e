//! Liveness and readiness probes.
use crate::app::VmRegistry;
use crate::capacity::Capacity;
use crate::firecracker::CopyStrategy;
use vstd::prelude::*;

verus! {

/// The answer to the liveness probe.
#[derive(Debug)]
pub struct HealthResponse {
    pub status: &'static str,
}

/// Minimal liveness probe: the answer is the same as long as there is one.
pub fn health() -> (r: HealthResponse)
    ensures
        r.status@ == "ok"@,
{
    HealthResponse { status: "ok" }
}

/// The answer to the readiness probe.
#[derive(Debug)]
pub struct ReadyResponse {
    pub status: &'static str,
    pub version: &'static str,
    pub capacity: Option<CapacityInfo>,
    pub vms: Option<VmInfo>,
    pub copy_strategy: Option<&'static str>,
}

/// What the host has.
#[derive(Debug, Clone, Copy, PartialEq, Eq, Structural)]
pub struct CapacityInfo {
    pub total_memory_mb: u64,
    pub allocatable_memory_mb: u64,
    pub total_vcpus: u8,
}

/// What the VMs hold together.
#[derive(Debug, Clone, Copy, PartialEq, Eq, Structural)]
pub struct VmInfo {
    pub count: usize,
    pub allocated_vcpus: u8,
    pub allocated_memory_mb: u64,
}

/// Enriched readiness probe. Reports capacity, VM allocations, and copy
/// strategy. `vms` is the registry if its lock could be had at once; what
/// the VMs hold is left out of the answer otherwise.
pub fn ready<I>(
    version: &'static str,
    capacity: &Capacity,
    copy_strategy: &CopyStrategy,
    vms: Option<&VmRegistry<I>>,
) -> (r: ReadyResponse)
    requires
        vms matches Some(registry) ==> registry.wf(),
    ensures
        r.status@ == "ready"@,
        r.version@ == version@,
        r.capacity matches Some(c) && c.total_memory_mb == capacity.memory_mb
            && c.allocatable_memory_mb == capacity.allocatable() && c.total_vcpus
            == capacity.vcpus,
        r.copy_strategy matches Some(s) && s@ == match *copy_strategy {
            CopyStrategy::Reflink => "reflink"@,
            CopyStrategy::Sparse => "sparse"@,
        },
        match vms {
            Some(registry) => {
                &&& r.vms matches Some(info)
                &&& info.count == registry@.len()
                &&& info.allocated_vcpus == crate::app::allocated_vcpus(registry@)
                &&& info.allocated_memory_mb == crate::app::allocated_memory(registry@)
            },
            None => r.vms is None,
        },
{
    let info = match vms {
        Some(registry) => {
            let (allocated_vcpus, allocated_memory_mb) = registry.allocated();
            Some(VmInfo { count: registry.len(), allocated_vcpus, allocated_memory_mb })
        },
        None => None,
    };
    let strategy = match copy_strategy {
        CopyStrategy::Reflink => "reflink",
        CopyStrategy::Sparse => "sparse",
    };
    ReadyResponse {
        status: "ready",
        version,
        capacity: Some(
            CapacityInfo {
                total_memory_mb: capacity.memory_mb,
                allocatable_memory_mb: capacity.allocatable_memory_mb(),
                total_vcpus: capacity.vcpus,
            },
        ),
        vms: info,
        copy_strategy: Some(strategy),
    }
}

/// The readiness probe tells the size of the host, what of its memory is for VMs, and, if the
/// registry could be had, how many VMs there are and what they hold together.
pub proof fn probe_tells_host_and_vms<I>(
    version: &'static str,
    capacity: Capacity,
    strategy: CopyStrategy,
    vms: Option<&VmRegistry<I>>,
    r: ReadyResponse,
)
    requires
        call_ensures(ready::<I>, (version, &capacity, &strategy, vms), r),
    ensures
        r.status@ == "ready"@,
        r.version@ == version@,
        r.capacity matches Some(c) && c.total_memory_mb == capacity.memory_mb && c.total_vcpus
            == capacity.vcpus && (capacity.memory_mb >= 256 ==> c.allocatable_memory_mb + 256
            == capacity.memory_mb) && (capacity.memory_mb < 256 ==> c.allocatable_memory_mb == 0),
        r.copy_strategy matches Some(s) && s@ == if strategy is Reflink {
            "reflink"@
        } else {
            "sparse"@
        },
        r.vms is Some <==> vms is Some,
        vms matches Some(registry) ==> r.vms->0.count == registry@.len()
            && r.vms->0.allocated_vcpus == crate::app::allocated_vcpus(registry@)
            && r.vms->0.allocated_memory_mb == crate::app::allocated_memory(registry@),
{
}

/// The liveness probe answers `ok`.
pub proof fn liveness_is_ok(r: HealthResponse)
    requires
        call_ensures(health, (), r),
    ensures
        r.status@ == "ok"@,
{
}

} // verus!
