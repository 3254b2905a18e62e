//! The VMs of the host: their resources, their states and their registry.
use crate::capacity::Capacity;
use crate::error::ApiError;
use crate::firecracker::network::NatHandles;
use std::collections::HashMap;
use vstd::prelude::*;

verus! {

/// Resources allocated to a VM, shared across all lifecycle states.
#[derive(Debug)]
pub struct VmResources {
    pub vcpus: u8,
    pub memory_mb: u32,
    /// Path to the per-VM rootfs copy (cleaned up on delete/shutdown).
    pub rootfs_copy: Option<String>,
    /// Name of the tap device (e.g. `fc0`), if networking is configured.
    pub tap_name: Option<String>,
    /// Subnet pool index for this VM's /30 allocation.
    pub subnet_index: Option<u16>,
    /// nftables rule handles for NAT cleanup.
    pub nat_handles: Option<NatHandles>,
    /// Guest IP address assigned to this VM.
    pub guest_ip: Option<String>,
    /// Path to the vsock Unix domain socket (for console access).
    pub vsock_uds_path: Option<String>,
    /// SSH public keys authorized to access this VM's console.
    /// Each key is in OpenSSH authorized_keys format (e.g., "ssh-ed25519 AAAA...").
    pub ssh_keys: Vec<String>,
}

/// A VM entry in the registry. The variant determines what operations
/// are valid — the instance only exists in the `Running` state.
pub enum VmEntry<I> {
    /// Resources are reserved and capacity is accounted for, but the
    /// Firecracker instance is still being set up.
    Creating(VmResources),
    /// Firecracker instance is active and queryable.
    Running { instance: I, resources: VmResources },
}

impl<I> VmEntry<I> {
    /// The VM's allocated resources.
    pub open spec fn res(self) -> VmResources {
        match self {
            VmEntry::Creating(r) => r,
            VmEntry::Running { resources, .. } => resources,
        }
    }

    /// The instance of a running VM.
    pub open spec fn live(self) -> Option<I> {
        match self {
            VmEntry::Creating(_) => None,
            VmEntry::Running { instance, .. } => Some(instance),
        }
    }

    /// The status label for API responses.
    pub open spec fn label(self) -> Seq<char> {
        match self {
            VmEntry::Creating(_) => "creating"@,
            VmEntry::Running { .. } => "running"@,
        }
    }

    /// Returns the status label for API responses.
    pub fn status(&self) -> (r: &'static str)
        ensures
            r@ == self.label(),
    {
        match self {
            VmEntry::Creating(_) => "creating",
            VmEntry::Running { .. } => "running",
        }
    }

    /// Returns a reference to the VM's allocated resources.
    pub fn resources(&self) -> (r: &VmResources)
        ensures
            *r == self.res(),
    {
        match self {
            VmEntry::Creating(r) => r,
            VmEntry::Running { resources, .. } => resources,
        }
    }
}

/// The sum of the values of a finite map.
pub open spec fn total(m: Map<u128, nat>) -> nat
    decreases m.dom().len(),
    when m.dom().finite()
{
    if m.dom().len() == 0 {
        0
    } else {
        let k = m.dom().choose();
        m[k] + total(m.remove(k))
    }
}

/// Any one value can be taken out of the sum.
pub proof fn total_remove(m: Map<u128, nat>, k: u128)
    requires
        m.dom().finite(),
        m.contains_key(k),
    ensures
        total(m) == m[k] + total(m.remove(k)),
    decreases m.dom().len(),
{
    let c = m.dom().choose();
    assert(m.dom().contains(k));
    assert(m.dom().contains(c));
    if c != k {
        total_remove(m.remove(c), k);
        total_remove(m.remove(k), c);
        assert(m.remove(c).remove(k) =~= m.remove(k).remove(c));
    }
}

/// Putting a value in its place changes the sum by that value only.
pub proof fn total_insert(m: Map<u128, nat>, k: u128, v: nat)
    requires
        m.dom().finite(),
    ensures
        total(m.insert(k, v)) == v + total(m.remove(k)),
        total(m.remove(k)) <= total(m),
{
    total_remove(m.insert(k, v), k);
    assert(m.insert(k, v).remove(k) =~= m.remove(k));
    if m.contains_key(k) {
        total_remove(m, k);
    } else {
        assert(m.remove(k) =~= m);
    }
}

/// The vCPUs of each VM.
pub open spec fn vcpus_of<I>(vms: Map<u128, VmEntry<I>>) -> Map<u128, nat> {
    vms.map_values(|e: VmEntry<I>| e.res().vcpus as nat)
}

/// The memory of each VM.
pub open spec fn memory_of<I>(vms: Map<u128, VmEntry<I>>) -> Map<u128, nat> {
    vms.map_values(|e: VmEntry<I>| e.res().memory_mb as nat)
}

/// The vCPUs that the VMs hold together.
pub open spec fn allocated_vcpus<I>(vms: Map<u128, VmEntry<I>>) -> nat {
    total(vcpus_of(vms))
}

/// The memory that the VMs hold together.
pub open spec fn allocated_memory<I>(vms: Map<u128, VmEntry<I>>) -> nat {
    total(memory_of(vms))
}

/// What the VMs hold together is within what the host has.
pub open spec fn within_capacity<I>(vms: Map<u128, VmEntry<I>>, capacity: Capacity) -> bool {
    &&& vms.dom().finite()
    &&& allocated_vcpus(vms) <= capacity.vcpus
    &&& allocated_memory(vms) <= capacity.allocatable()
}

/// Entering a VM adds what it holds, less what an entry in its place held.
pub proof fn entered<I>(vms: Map<u128, VmEntry<I>>, id: u128, entry: VmEntry<I>)
    requires
        vms.dom().finite(),
    ensures
        allocated_vcpus(vms.insert(id, entry)) == entry.res().vcpus + allocated_vcpus(
            vms.remove(id),
        ),
        allocated_memory(vms.insert(id, entry)) == entry.res().memory_mb + allocated_memory(
            vms.remove(id),
        ),
        allocated_vcpus(vms.remove(id)) <= allocated_vcpus(vms),
        allocated_memory(vms.remove(id)) <= allocated_memory(vms),
{
    assert(vcpus_of(vms).dom() =~= vms.dom());
    assert(memory_of(vms).dom() =~= vms.dom());
    assert(vcpus_of(vms.insert(id, entry)) =~= vcpus_of(vms).insert(
        id,
        entry.res().vcpus as nat,
    ));
    assert(memory_of(vms.insert(id, entry)) =~= memory_of(vms).insert(
        id,
        entry.res().memory_mb as nat,
    ));
    assert(vcpus_of(vms.remove(id)) =~= vcpus_of(vms).remove(id));
    assert(memory_of(vms.remove(id)) =~= memory_of(vms).remove(id));
    total_insert(vcpus_of(vms), id, entry.res().vcpus as nat);
    total_insert(memory_of(vms), id, entry.res().memory_mb as nat);
}

/// Removing a VM frees what it held.
pub proof fn removed<I>(vms: Map<u128, VmEntry<I>>, id: u128)
    requires
        vms.dom().finite(),
        vms.contains_key(id),
    ensures
        allocated_vcpus(vms) == vms[id].res().vcpus + allocated_vcpus(vms.remove(id)),
        allocated_memory(vms) == vms[id].res().memory_mb + allocated_memory(vms.remove(id)),
{
    entered(vms, id, vms[id]);
    assert(vms.insert(id, vms[id]) =~= vms);
}

/// The VMs of the host, each under its id, and what the host has for them.
pub struct VmRegistry<I> {
    capacity: Capacity,
    entries: HashMap<u128, VmEntry<I>>,
}

impl<I> View for VmRegistry<I> {
    type V = Map<u128, VmEntry<I>>;

    closed spec fn view(&self) -> Map<u128, VmEntry<I>> {
        self.entries@
    }
}

impl<I> VmRegistry<I> {
    /// What the host has.
    pub closed spec fn limit(self) -> Capacity {
        self.capacity
    }

    /// The VMs do not hold more than the host has.
    pub open spec fn wf(self) -> bool {
        within_capacity(self@, self.limit())
    }

    /// A registry with no VM.
    pub fn new(capacity: Capacity) -> (r: VmRegistry<I>)
        ensures
            r.wf(),
            r@ == Map::<u128, VmEntry<I>>::empty(),
            r.limit() == capacity,
    {
        broadcast use vstd::std_specs::hash::group_hash_axioms;

        let r = VmRegistry { capacity, entries: HashMap::new() };
        proof {
            assert(r@ =~= Map::empty());
            assert(vcpus_of(r@).dom() =~= Set::empty());
            assert(memory_of(r@).dom() =~= Set::empty());
        }
        r
    }

    /// What the host has.
    pub fn capacity(&self) -> (r: Capacity)
        ensures
            r == self.limit(),
    {
        self.capacity
    }

    /// The number of VMs.
    pub fn len(&self) -> (r: usize)
        ensures
            r == self@.len(),
    {
        broadcast use vstd::std_specs::hash::group_hash_axioms;

        self.entries.len()
    }

    /// The entry of a VM.
    pub fn entry(&self, id: u128) -> (r: Option<&VmEntry<I>>)
        ensures
            match r {
                Some(e) => self@.contains_key(id) && *e == self@[id],
                None => !self@.contains_key(id),
            },
    {
        broadcast use vstd::std_specs::hash::group_hash_axioms;

        self.entries.get(&id)
    }

    /// The ids of all VMs, each once, in no particular order.
    pub fn ids(&self) -> (r: Vec<u128>)
        ensures
            r@.no_duplicates(),
            r@.to_set() == self@.dom(),
            r@.len() == self@.len(),
    {
        broadcast use vstd::std_specs::hash::group_hash_axioms;

        let mut out: Vec<u128> = Vec::new();
        for k in it: self.entries.keys()
            invariant
                out@ == it.seq().unref().take(it.index()),
                it.seq().unref().to_set() == self@.dom(),
                it.index() == it.seq().len() ==> out@.to_set() == self@.dom(),
        {
            proof {
                assert(it.seq().unref().take(it.seq().len() as int) =~= it.seq().unref());
                assert(it.seq().unref().take(it.index()).push(*k) =~= it.seq().unref().take(
                    it.index() + 1,
                ));
            }
            out.push(*k);
        }
        out
    }

    /// The vCPUs and the memory that the VMs hold together.
    pub fn allocated(&self) -> (r: (u8, u64))
        requires
            self.wf(),
        ensures
            r.0 == allocated_vcpus(self@),
            r.1 == allocated_memory(self@),
    {
        let ids = self.ids();
        let ghost vms = self@;
        let mut vcpus: u8 = 0;
        let mut memory_mb: u64 = 0;
        let mut i: usize = 0;
        proof {
            assert(vms.remove_keys(ids@.take(0).to_set()) =~= vms);
        }
        while i < ids.len()
            invariant
                i <= ids@.len(),
                ids@.no_duplicates(),
                ids@.to_set() == vms.dom(),
                vms == self@,
                self.wf(),
                vcpus + allocated_vcpus(vms.remove_keys(ids@.take(i as int).to_set()))
                    == allocated_vcpus(vms),
                memory_mb + allocated_memory(vms.remove_keys(ids@.take(i as int).to_set()))
                    == allocated_memory(vms),
            decreases ids@.len() - i,
        {
            let ghost left = vms.remove_keys(ids@.take(i as int).to_set());
            proof {
                assert(ids@.to_set().contains(ids@[i as int]));
                assert(!ids@.take(i as int).contains(ids@[i as int]));
                assert(left.dom().subset_of(vms.dom()));
                removed(left, ids@[i as int]);
                assert(ids@.take(i + 1) =~= ids@.take(i as int).push(ids@[i as int]));
                assert(left.remove(ids@[i as int]) =~= vms.remove_keys(
                    ids@.take(i + 1).to_set(),
                )) by {
                    assert(ids@.take(i + 1).to_set() =~= ids@.take(i as int).to_set().insert(
                        ids@[i as int],
                    )) by {
                        ids@.take(i as int).lemma_push_to_set_commute(ids@[i as int]);
                    }
                }
            }
            match self.entry(ids[i]) {
                Some(entry) => {
                    vcpus = vcpus + entry.resources().vcpus;
                    memory_mb = memory_mb + entry.resources().memory_mb as u64;
                },
                None => {},
            }
            i += 1;
        }
        proof {
            assert(ids@.take(i as int) =~= ids@);
            let left = vms.remove_keys(ids@.to_set());
            assert(left =~= Map::empty());
            assert(vcpus_of(left).dom() =~= Set::empty());
            assert(memory_of(left).dom() =~= Set::empty());
        }
        (vcpus, memory_mb)
    }

    /// The vCPUs that are left.
    pub open spec fn free_vcpus(self) -> int {
        self.limit().vcpus - allocated_vcpus(self@)
    }

    /// The memory that is left.
    pub open spec fn free_memory(self) -> int {
        self.limit().allocatable() - allocated_memory(self@)
    }

    /// Reserves what a VM asks for by entering it as `Creating`, unless the host has less
    /// than that left.
    pub fn reserve(&mut self, id: u128, resources: VmResources) -> (r: Result<(), Shortage>)
        requires
            old(self).wf(),
        ensures
            final(self).wf(),
            final(self).limit() == old(self).limit(),
            r is Ok <==> {
                &&& allocated_vcpus(old(self)@) + resources.vcpus <= old(self).limit().vcpus
                &&& allocated_memory(old(self)@) + resources.memory_mb + 256 <= old(self).limit().memory_mb || (resources.memory_mb == 0 && allocated_memory(old(self)@)
                    == 0)
            },
            r is Ok ==> final(self)@ == old(self)@.insert(id, VmEntry::Creating(resources)),
            r is Err ==> final(self)@ == old(self)@,
            r matches Err(Shortage::Vcpus { available }) ==> {
                &&& available + allocated_vcpus(old(self)@) == old(self).limit().vcpus
                &&& available < resources.vcpus
            },
            r matches Err(Shortage::Memory { available }) ==> {
                &&& available + allocated_memory(old(self)@) == if old(self).limit().memory_mb
                    >= 256 {
                    old(self).limit().memory_mb - 256
                } else {
                    0
                }
                &&& available < resources.memory_mb
                &&& allocated_vcpus(old(self)@) + resources.vcpus <= old(self).limit().vcpus
            },
            match r {
                Ok(()) => {
                    &&& resources.vcpus <= old(self).free_vcpus()
                    &&& resources.memory_mb <= old(self).free_memory()
                    &&& final(self)@ == old(self)@.insert(id, VmEntry::Creating(resources))
                },
                Err(shortage) => {
                    &&& final(self)@ == old(self)@
                    &&& shortage.is_of(
                        resources.vcpus,
                        resources.memory_mb,
                        old(self).free_vcpus(),
                        old(self).free_memory(),
                    )
                },
            },
    {
        broadcast use vstd::std_specs::hash::group_hash_axioms;

        let (vcpus, memory_mb) = self.allocated();
        let available_vcpus: u8 = self.capacity.vcpus - vcpus;
        let available_memory: u64 = self.capacity.allocatable_memory_mb() - memory_mb;
        if resources.vcpus > available_vcpus {
            return Err(Shortage::Vcpus { available: available_vcpus as u64 });
        }
        if resources.memory_mb as u64 > available_memory {
            return Err(Shortage::Memory { available: available_memory });
        }
        proof {
            entered(self@, id, VmEntry::Creating(resources));
        }
        self.entries.insert(id, VmEntry::Creating(resources));
        Ok(())
    }

    /// Turns a `Creating` entry into a `Running` one with the given instance. Without such
    /// an entry the instance is dropped and nothing is kept under the id. Returns whether
    /// the VM runs.
    pub fn start(&mut self, id: u128, instance: I) -> (r: bool)
        requires
            old(self).wf(),
        ensures
            final(self).wf(),
            final(self).limit() == old(self).limit(),
            r == (old(self)@.contains_key(id) && old(self)@[id] is Creating),
            final(self)@ == if r {
                old(self)@.insert(
                    id,
                    VmEntry::Running { instance, resources: old(self)@[id].res() },
                )
            } else {
                old(self)@.remove(id)
            },
    {
        broadcast use vstd::std_specs::hash::group_hash_axioms;

        let ghost before = self@;
        match self.remove(id) {
            Some(VmEntry::Creating(resources)) => {
                proof {
                    removed(before, id);
                    entered(before, id, VmEntry::Running { instance, resources });
                    assert(before.remove(id).insert(id, VmEntry::Running { instance, resources })
                        =~= before.insert(id, VmEntry::Running { instance, resources }));
                }
                self.entries.insert(id, VmEntry::Running { instance, resources });
                true
            },
            _ => false,
        }
    }

    /// Removes a VM and frees what it held.
    pub fn remove(&mut self, id: u128) -> (r: Option<VmEntry<I>>)
        requires
            old(self).wf(),
        ensures
            final(self).wf(),
            final(self).limit() == old(self).limit(),
            final(self)@ == old(self)@.remove(id),
            match r {
                Some(e) => old(self)@.contains_key(id) && e == old(self)@[id],
                None => !old(self)@.contains_key(id),
            },
    {
        broadcast use vstd::std_specs::hash::group_hash_axioms;

        let ghost before = self@;
        let r = self.entries.remove(&id);
        proof {
            if before.contains_key(id) {
                removed(before, id);
            } else {
                assert(before.remove(id) =~= before);
            }
            assert(self@ =~= before.remove(id));
        }
        r
    }

    /// The instance of a running VM, to be queried. What becomes of the instance does not
    /// touch what the VM holds.
    pub fn instance(&mut self, id: u128) -> (r: Option<&mut I>)
        requires
            old(self).wf(),
        ensures
            final(self).wf(),
            final(self).limit() == old(self).limit(),
            match r {
                Some(i) => {
                    &&& old(self)@.contains_key(id)
                    &&& old(self)@[id] matches VmEntry::Running { instance, resources }
                    &&& *i == instance
                    &&& final(self)@ == old(self)@.insert(
                        id,
                        VmEntry::Running { instance: *final(i), resources },
                    )
                },
                None => {
                    &&& !(old(self)@.contains_key(id) && old(self)@[id] is Running)
                    &&& final(self)@ == old(self)@
                },
            },
    {
        broadcast use vstd::std_specs::hash::group_hash_axioms;

        proof {
            let vms = self@;
            if vms.contains_key(id) {
                assert(vms.insert(id, vms[id]) =~= vms);
            } else {
                assert(vms.remove(id) =~= vms);
            }
            if vms.contains_key(id) && vms[id] is Running {
                assert forall|v: I|
                    within_capacity(
                        #[trigger] vms.insert(
                            id,
                            VmEntry::Running { instance: v, resources: vms[id].res() },
                        ),
                        self.limit(),
                    ) by {
                    removed(vms, id);
                    entered(vms, id, VmEntry::Running { instance: v, resources: vms[id].res() });
                }
            }
        }
        match self.entries.entry(id) {
            std::collections::hash_map::Entry::Occupied(e) => match e.into_mut() {
                VmEntry::Running { instance, .. } => Some(instance),
                VmEntry::Creating(_) => None,
            },
            std::collections::hash_map::Entry::Vacant(_) => None,
        }
    }
}

/// What the host has too little of.
#[derive(Debug, Clone, Copy, PartialEq, Eq, Structural)]
pub enum Shortage {
    Vcpus { available: u64 },
    Memory { available: u64 },
}

impl Shortage {
    /// Whether this is what stands in the way of a VM of the given size: too few vCPUs, or
    /// else too little memory.
    pub open spec fn is_of(
        self,
        vcpus: u8,
        memory_mb: u32,
        free_vcpus: int,
        free_memory: int,
    ) -> bool {
        match self {
            Shortage::Vcpus { available } => vcpus > free_vcpus && available == free_vcpus,
            Shortage::Memory { available } => vcpus <= free_vcpus && memory_mb > free_memory
                && available == free_memory,
        }
    }
}

/// The answer to a request for anything that is not there.
pub fn fallback() -> (r: ApiError)
    ensures
        r.says(404, "Not found"@),
{
    ApiError::not_found("Not found")
}

/// An entry holds the resources that it was made with, and an instance exactly if it runs; its
/// status is its state.
pub proof fn entries_hold_what_they_were_made_with<I>(
    r: VmResources,
    instance: I,
    creating: &'static str,
    running: &'static str,
    held: &VmResources,
    running_held: &VmResources,
)
    requires
        call_ensures(VmEntry::<I>::status, (&VmEntry::Creating(r),), creating),
        call_ensures(
            VmEntry::<I>::status,
            (&VmEntry::Running { instance, resources: r },),
            running,
        ),
        call_ensures(VmEntry::<I>::resources, (&VmEntry::Creating(r),), held),
        call_ensures(
            VmEntry::<I>::resources,
            (&VmEntry::Running { instance, resources: r },),
            running_held,
        ),
    ensures
        creating@ == "creating"@,
        running@ == "running"@,
        *held == r,
        *running_held == r,
        VmEntry::<I>::Creating(r).res() == r,
        (VmEntry::Running { instance, resources: r }).res() == r,
        VmEntry::<I>::Creating(r).live() is None,
        (VmEntry::Running { instance, resources: r }).live() == Some(instance),
        VmEntry::<I>::Creating(r).label() == "creating"@,
        (VmEntry::Running { instance, resources: r }).label() == "running"@,
{
}

/// Without VMs nothing is held, and one VM holds what it holds.
pub proof fn holdings_of_few<I>(id: u128, entry: VmEntry<I>)
    ensures
        allocated_vcpus(Map::<u128, VmEntry<I>>::empty()) == 0,
        allocated_memory(Map::<u128, VmEntry<I>>::empty()) == 0,
        allocated_vcpus(Map::<u128, VmEntry<I>>::empty().insert(id, entry)) == entry.res().vcpus,
        allocated_memory(Map::<u128, VmEntry<I>>::empty().insert(id, entry))
            == entry.res().memory_mb,
{
    let none = Map::<u128, VmEntry<I>>::empty();
    assert(vcpus_of(none).dom() =~= Set::empty());
    assert(memory_of(none).dom() =~= Set::empty());
    entered(none, id, entry);
    assert(none.remove(id) =~= none);
}

/// VMs are within the capacity exactly if together they hold no more vCPUs than the host has
/// and no more memory than the host has beside its own 256 MB.
pub proof fn capacity_bounds_all<I>(vms: Map<u128, VmEntry<I>>, capacity: Capacity)
    requires
        vms.dom().finite(),
    ensures
        within_capacity(vms, capacity) <==> {
            &&& allocated_vcpus(vms) <= capacity.vcpus
            &&& allocated_memory(vms) + 256 <= capacity.memory_mb || allocated_memory(vms) == 0
        },
{
}

/// Starting a VM, or replacing its instance, changes nothing of what all VMs hold.
pub proof fn starting_changes_no_holdings<I>(vms: Map<u128, VmEntry<I>>, id: u128, instance: I)
    requires
        vms.dom().finite(),
        vms.contains_key(id),
    ensures
        allocated_vcpus(
            vms.insert(id, VmEntry::Running { instance, resources: vms[id].res() }),
        ) == allocated_vcpus(vms),
        allocated_memory(
            vms.insert(id, VmEntry::Running { instance, resources: vms[id].res() }),
        ) == allocated_memory(vms),
{
    entered(vms, id, VmEntry::Running { instance, resources: vms[id].res() });
    removed(vms, id);
}

/// What stands in the way of a VM is named with what is left of it: vCPUs, or else memory.
pub proof fn shortages_name_what_is_left(
    s: Shortage,
    vcpus: u8,
    memory_mb: u32,
    free_vcpus: int,
    free_memory: int,
)
    requires
        s.is_of(vcpus, memory_mb, free_vcpus, free_memory),
    ensures
        vcpus > free_vcpus ==> (s matches Shortage::Vcpus { available } && available == free_vcpus),
        vcpus <= free_vcpus ==> memory_mb > free_memory && (s matches Shortage::Memory { available }
            && available == free_memory),
{
}

/// The answer to a request for anything that is not there.
pub proof fn fallback_is_not_found(r: ApiError)
    requires
        call_ensures(fallback, (), r),
    ensures
        r.status == 404,
        r.message@ == "Not found"@,
{
}

/// A VM is let in exactly if it fits beside the others; it is then entered as being created,
/// with what it asked for, and no other VM is touched. A VM that is not let in touches none.
pub proof fn vm_is_let_in_if_it_fits<I>(
    vms: &mut VmRegistry<I>,
    id: u128,
    held: VmResources,
    r: Result<(), Shortage>,
)
    requires
        old(vms).wf(),
        call_ensures(VmRegistry::<I>::reserve, (vms, id, held), r),
    ensures
        final(vms).wf(),
        final(vms).limit() == old(vms).limit(),
        r is Ok <==> {
            &&& allocated_vcpus(old(vms)@) + held.vcpus <= old(vms).limit().vcpus
            &&& allocated_memory(old(vms)@) + held.memory_mb + 256 <= old(vms).limit().memory_mb
                || (held.memory_mb == 0 && allocated_memory(old(vms)@) == 0)
        },
        r is Ok ==> final(vms)@ == old(vms)@.insert(id, VmEntry::Creating(held)),
        r is Err ==> final(vms)@ == old(vms)@,
        r matches Err(Shortage::Vcpus { available }) ==> available + allocated_vcpus(old(vms)@)
            == old(vms).limit().vcpus && available < held.vcpus,
        r matches Err(Shortage::Memory { available }) ==> available < held.memory_mb && (old(vms).limit().memory_mb >= 256 ==> available + allocated_memory(old(vms)@) + 256 == old(vms).limit().memory_mb),
        allocated_vcpus(old(vms)@) + held.vcpus > old(vms).limit().vcpus ==> r matches Err(
            Shortage::Vcpus { .. },
        ),
{
}

/// A VM that is being created is started with its instance and keeps what it holds; nothing is
/// kept under the id of another. No other VM is touched.
pub proof fn created_vm_is_started<I>(vms: &mut VmRegistry<I>, id: u128, instance: I, r: bool)
    requires
        old(vms).wf(),
        call_ensures(VmRegistry::<I>::start, (vms, id, instance), r),
    ensures
        final(vms).wf(),
        final(vms).limit() == old(vms).limit(),
        r <==> old(vms)@.contains_key(id) && old(vms)@[id] is Creating,
        r ==> final(vms)@.contains_key(id) && final(vms)@[id] == (VmEntry::Running {
            instance,
            resources: old(vms)@[id]->Creating_0,
        }),
        !r ==> !final(vms)@.contains_key(id),
        final(vms)@.remove(id) == old(vms)@.remove(id),
{
    assert(final(vms)@.remove(id) =~= old(vms)@.remove(id));
}

/// A VM that is removed is handed back as it was, and no other VM is touched.
pub proof fn removed_vm_is_handed_back<I>(
    vms: &mut VmRegistry<I>,
    id: u128,
    r: Option<VmEntry<I>>,
)
    requires
        old(vms).wf(),
        call_ensures(VmRegistry::<I>::remove, (vms, id), r),
    ensures
        final(vms).wf(),
        final(vms).limit() == old(vms).limit(),
        r == if old(vms)@.contains_key(id) {
            Some(old(vms)@[id])
        } else {
            None
        },
        final(vms)@ == old(vms)@.remove(id),
{
}

/// What can be asked of a registry: its VMs by their ids, how many there are, what they hold
/// together, and what the host has. A new one has no VM.
pub proof fn registry_is_queried<I>(
    vms: VmRegistry<I>,
    id: u128,
    entry: Option<&VmEntry<I>>,
    count: usize,
    ids: Vec<u128>,
    held: (u8, u64),
    capacity: Capacity,
    fresh: VmRegistry<I>,
    told: Capacity,
)
    requires
        call_ensures(VmRegistry::<I>::entry, (&vms, id), entry),
        call_ensures(VmRegistry::<I>::len, (&vms,), count),
        call_ensures(VmRegistry::<I>::ids, (&vms,), ids),
        call_ensures(VmRegistry::<I>::allocated, (&vms,), held),
        call_ensures(VmRegistry::<I>::new, (capacity,), fresh),
        call_ensures(VmRegistry::<I>::capacity, (&vms,), told),
    ensures
        entry is Some <==> vms@.contains_key(id),
        entry matches Some(e) ==> *e == vms@[id],
        count == vms@.len(),
        ids@.len() == count,
        ids@.to_set() == vms@.dom(),
        ids@.no_duplicates(),
        held.0 == allocated_vcpus(vms@),
        held.1 == allocated_memory(vms@),
        fresh@ == Map::<u128, VmEntry<I>>::empty(),
        fresh.limit() == capacity,
        told == vms.limit(),
{
}

/// The instance of a VM can be had exactly if the VM runs. What becomes of it changes neither
/// what the VM holds nor any other VM.
pub proof fn instances_are_of_running_vms<I>(
    vms: &mut VmRegistry<I>,
    id: u128,
    r: Option<&mut I>,
)
    requires
        old(vms).wf(),
        call_ensures(VmRegistry::<I>::instance, (vms, id), r),
    ensures
        final(vms).wf(),
        final(vms).limit() == old(vms).limit(),
        r is Some <==> old(vms)@.contains_key(id) && old(vms)@[id] is Running,
        r is None ==> final(vms)@ == old(vms)@,
        r matches Some(i) ==> *i == old(vms)@[id]->instance && final(vms)@.remove(id) == old(
            vms)@.remove(id) && final(vms)@[id] is Running && final(vms)@[id]->instance == *final(
            i) && final(vms)@[id]->Running_resources == old(vms)@[id]->Running_resources,
{
    if r is Some {
        assert(final(vms)@.remove(id) =~= old(vms)@.remove(id));
    }
}

} // verus!
