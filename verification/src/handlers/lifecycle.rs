//! What holds over the life of a VM, from its creation to its end.
use crate::app::{VmEntry, VmResources};
use crate::firecracker::network::NatHandles;
use crate::handlers::vm::{CleanupAct, VmPlan};
use crate::vm::network::{SubnetAllocation, MAX_SUBNETS};
use vstd::prelude::*;

verus! {

/// What taking the steps does to the pool of subnets.
pub open spec fn pool_after(slots: Seq<bool>, acts: Seq<CleanupAct>) -> Seq<bool>
    decreases acts.len(),
{
    if acts.len() == 0 {
        slots
    } else {
        let before = pool_after(slots, acts.drop_last());
        match acts.last() {
            CleanupAct::ReleaseSubnet(index) => before.update(index as int, false),
            _ => before,
        }
    }
}

/// Giving back what a VM held frees its subnet and no other.
pub proof fn cleanup_frees_subnet(slots: Seq<bool>, r: VmResources)
    ensures
        pool_after(slots, crate::handlers::vm::cleanup_acts(r)) == match r.subnet_index {
            Some(index) => slots.update(index as int, false),
            None => slots,
        },
{
    let acts = crate::handlers::vm::cleanup_acts(r);
    let with_rootfs = r.rootfs_copy is Some;
    let a = if with_rootfs {
        acts.drop_last()
    } else {
        acts
    };
    let b = if r.subnet_index is Some {
        a.drop_last()
    } else {
        a
    };
    let c = if r.nat_handles is Some {
        b.drop_last()
    } else {
        b
    };
    let d = if r.tap_name is Some {
        c.drop_last()
    } else {
        c
    };
    assert(d.len() == 0);
    assert(pool_after(slots, d) == slots);
    assert(pool_after(slots, c) == slots);
    assert(pool_after(slots, b) == slots);
    assert(r.subnet_index matches Some(index) ==> a.last() == CleanupAct::ReleaseSubnet(index));
    let freed = match r.subnet_index {
        Some(index) => slots.update(index as int, false),
        None => slots,
    };
    assert(pool_after(slots, a) == freed);
    assert(with_rootfs ==> acts.last() is RemoveRootfs);
    if with_rootfs {
        assert(pool_after(slots, acts) == pool_after(slots, acts.drop_last()));
    }
}

/// A request that is refused for want of capacity leaves the pool as it was before its
/// subnet was allocated.
pub proof fn refused_create_restores_pool(
    before: Seq<bool>,
    after: Seq<bool>,
    subnet: SubnetAllocation,
    handles: NatHandles,
)
    requires
        before.len() == MAX_SUBNETS,
        crate::vm::network::allocated(before, after, Some(subnet)),
    ensures
        pool_after(
            after,
            seq![
                CleanupAct::RemoveNatRules(handles),
                CleanupAct::DeleteTap(subnet.tap_name@),
                CleanupAct::ReleaseSubnet(subnet.index),
            ],
        ) == before,
        pool_after(after, seq![CleanupAct::ReleaseSubnet(subnet.index)]) == before,
{
    reveal_with_fuel(pool_after, 4);
    let one = seq![CleanupAct::ReleaseSubnet(subnet.index)];
    assert(one.drop_last() =~= Seq::empty());
    let three = seq![
        CleanupAct::RemoveNatRules(handles),
        CleanupAct::DeleteTap(subnet.tap_name@),
        CleanupAct::ReleaseSubnet(subnet.index),
    ];
    assert(three.drop_last().drop_last().drop_last() =~= Seq::empty());
    crate::vm::network::allocate_then_release(before, after, subnet);
}

/// A VM whose instance cannot be started, or that is deleted, leaves the pool as it was
/// before its subnet was allocated, if nothing else touched the pool.
pub proof fn ended_vm_restores_pool(
    before: Seq<bool>,
    after: Seq<bool>,
    subnet: SubnetAllocation,
    plan: VmPlan,
    handles: NatHandles,
    held: VmResources,
)
    requires
        before.len() == MAX_SUBNETS,
        crate::vm::network::allocated(before, after, Some(subnet)),
        crate::handlers::vm::holds(held, plan, subnet, handles),
    ensures
        pool_after(after, crate::handlers::vm::cleanup_acts(held)) == before,
{
    cleanup_frees_subnet(after, held);
    crate::vm::network::allocate_then_release(before, after, subnet);
}

/// A VM's end gives back all that its creation made: its tap device, its NAT rules, its
/// subnet and its rootfs copy.
pub proof fn ended_vm_gives_back_all(
    plan: VmPlan,
    subnet: SubnetAllocation,
    handles: NatHandles,
    held: VmResources,
)
    requires
        crate::handlers::vm::holds(held, plan, subnet, handles),
    ensures
        crate::handlers::vm::cleanup_acts(held) == seq![
            CleanupAct::DeleteTap(subnet.tap_name@),
            CleanupAct::RemoveNatRules(handles),
            CleanupAct::ReleaseSubnet(subnet.index),
            CleanupAct::RemoveRootfs(plan.rootfs@),
        ],
{
    assert(crate::handlers::vm::cleanup_acts(held) =~= seq![
        CleanupAct::DeleteTap(subnet.tap_name@),
        CleanupAct::RemoveNatRules(handles),
        CleanupAct::ReleaseSubnet(subnet.index),
        CleanupAct::RemoveRootfs(plan.rootfs@),
    ]);
}

/// A VM that is created under a fresh id, started and deleted leaves the registry as it was.
pub proof fn create_then_delete_restores_registry<I>(
    vms: Map<u128, VmEntry<I>>,
    id: u128,
    held: VmResources,
    instance: I,
)
    requires
        !vms.contains_key(id),
    ensures
        vms.insert(id, VmEntry::Creating(held)).insert(
            id,
            VmEntry::Running { instance, resources: held },
        ).remove(id) == vms,
        vms.insert(id, VmEntry::Creating(held)).remove(id) == vms,
{
    assert(vms.insert(id, VmEntry::Creating(held)).insert(
        id,
        VmEntry::Running { instance, resources: held },
    ).remove(id) =~= vms);
    assert(vms.insert(id, VmEntry::Creating(held)).remove(id) =~= vms);
}

/// Whether a VM holds the subnet.
pub open spec fn holds_subnet<I>(vms: Map<u128, VmEntry<I>>, id: u128, index: u16) -> bool {
    vms.contains_key(id) && vms[id].res().subnet_index == Some(index)
}

/// Every subnet that a VM holds is in use, and no two VMs hold the same.
pub open spec fn subnets_held<I>(vms: Map<u128, VmEntry<I>>, slots: Seq<bool>) -> bool {
    &&& forall|id: u128, index: u16| #[trigger]
        holds_subnet(vms, id, index) ==> index < MAX_SUBNETS && slots[index as int]
    &&& forall|a: u128, b: u128, index: u16|
        #![trigger holds_subnet(vms, a, index), holds_subnet(vms, b, index)]
        holds_subnet(vms, a, index) && holds_subnet(vms, b, index) ==> a == b
}

/// At the start, with no VM, no subnet is held.
pub proof fn no_subnets_held<I>(slots: Seq<bool>)
    ensures
        subnets_held(Map::<u128, VmEntry<I>>::empty(), slots),
{
}

/// An allocation takes no subnet that a VM holds.
pub proof fn allocation_keeps_subnets<I>(
    vms: Map<u128, VmEntry<I>>,
    before: Seq<bool>,
    after: Seq<bool>,
    r: Option<SubnetAllocation>,
)
    requires
        before.len() == MAX_SUBNETS,
        subnets_held(vms, before),
        crate::vm::network::allocated(before, after, r),
    ensures
        subnets_held(vms, after),
        r matches Some(subnet) ==> after[subnet.index as int] && forall|id: u128|
            !#[trigger] holds_subnet(vms, id, subnet.index),
{
    if r is Some {
        assert forall|id: u128| !#[trigger] holds_subnet(vms, id, r->0.index) by {
            if holds_subnet(vms, id, r->0.index) {
                assert(before[r->0.index as int]);
            }
        }
    }
}

/// A VM that enters with an allocated subnet that no other VM holds keeps the subnets apart,
/// and so does its start.
pub proof fn entering_keeps_subnets<I>(
    vms: Map<u128, VmEntry<I>>,
    slots: Seq<bool>,
    id: u128,
    subnet: SubnetAllocation,
    entry: VmEntry<I>,
)
    requires
        slots.len() == MAX_SUBNETS,
        subnets_held(vms, slots),
        subnet.index < MAX_SUBNETS,
        slots[subnet.index as int],
        forall|other: u128| holds_subnet(vms, other, subnet.index) ==> other == id,
        entry.res().subnet_index == Some(subnet.index),
    ensures
        subnets_held(vms.insert(id, entry), slots),
{
    let after = vms.insert(id, entry);
    assert forall|a: u128, index: u16| #[trigger] holds_subnet(after, a, index) implies index
        < MAX_SUBNETS && slots[index as int] by {
        if a != id {
            assert(holds_subnet(vms, a, index));
        }
    }
    assert forall|a: u128, b: u128, index: u16|
        #![trigger holds_subnet(after, a, index), holds_subnet(after, b, index)]
        holds_subnet(after, a, index) && holds_subnet(after, b, index) implies a == b by {
        if a != id {
            assert(holds_subnet(vms, a, index));
        }
        if b != id {
            assert(holds_subnet(vms, b, index));
        }
    }
}

/// A VM that leaves and gives back what it held frees no subnet of another VM.
pub proof fn leaving_keeps_subnets<I>(vms: Map<u128, VmEntry<I>>, slots: Seq<bool>, id: u128)
    requires
        slots.len() == MAX_SUBNETS,
        subnets_held(vms, slots),
        vms.contains_key(id),
    ensures
        subnets_held(
            vms.remove(id),
            pool_after(slots, crate::handlers::vm::cleanup_acts(vms[id].res())),
        ),
{
    cleanup_frees_subnet(slots, vms[id].res());
    let after = vms.remove(id);
    if vms[id].res().subnet_index is Some {
        assert(holds_subnet(vms, id, vms[id].res().subnet_index->0));
    }
    assert forall|a: u128, index: u16| #[trigger] holds_subnet(after, a, index) implies holds_subnet(
        vms,
        a,
        index,
    ) && a != id by {}
    assert forall|a: u128, index: u16| #[trigger] holds_subnet(after, a, index) implies index
        < MAX_SUBNETS && pool_after(
        slots,
        crate::handlers::vm::cleanup_acts(vms[id].res()),
    )[index as int] by {
        assert(holds_subnet(vms, a, index));
        if vms[id].res().subnet_index == Some(index) {
            assert(holds_subnet(vms, id, index));
        }
    }
}

/// Two VMs that hold subnets share no address and no tap device.
pub proof fn vms_share_no_address<I>(
    vms: Map<u128, VmEntry<I>>,
    slots: Seq<bool>,
    a: u128,
    i: u16,
    b: u128,
    j: u16,
)
    requires
        subnets_held(vms, slots),
        holds_subnet(vms, a, i),
        holds_subnet(vms, b, j),
        a != b,
    ensures
        crate::vm::network::pool_address(4 * i + 1).value() / 4
            != crate::vm::network::pool_address(4 * j + 1).value() / 4,
        crate::vm::network::pool_address(4 * i + 2) != crate::vm::network::pool_address(4 * j + 2),
        crate::vm::network::tap_device(i) != crate::vm::network::tap_device(j),
{
    crate::vm::network::subnets_disjoint(i as int, j as int);
    crate::vm::network::tap_names_distinct(i, j);
}

/// The console of a VM is closed to every key while the VM is being created, after it has
/// left, and always if it was created without keys.
pub proof fn console_is_closed<I>(vms: Map<u128, VmEntry<I>>, id: u128, blob: Seq<u8>)
    ensures
        !crate::ssh::session::admits(vms.remove(id), id, blob),
        vms.contains_key(id) && vms[id] is Creating ==> !crate::ssh::session::admits(vms, id, blob),
        vms.contains_key(id) && vms[id].res().ssh_keys@.len() == 0
            ==> !crate::ssh::session::admits(vms, id, blob),
{
}

/// The shell of a VM that was created and started leads to the socket in the VM's own chroot.
pub proof fn shell_leads_to_own_console<I>(
    vms: Map<u128, VmEntry<I>>,
    plan: VmPlan,
    subnet: SubnetAllocation,
    handles: NatHandles,
    held: VmResources,
    instance: I,
)
    requires
        crate::handlers::vm::holds(held, plan, subnet, handles),
    ensures
        crate::ssh::session::console_path(
            vms.insert(plan.id, VmEntry::Running { instance, resources: held }),
            plan.id,
        ) == Ok::<Seq<char>, Seq<char>>(crate::handlers::vm::vsock_socket(plan.id)),
{
}

/// A VM that was created for a request opens its console to exactly the keys of the request.
pub proof fn console_opens_to_requested_keys<I>(
    vms: Map<u128, VmEntry<I>>,
    body: Option<crate::handlers::vm::CreateVmRequest>,
    jailer: crate::firecracker::JailerConfig,
    plan: VmPlan,
    subnet: SubnetAllocation,
    handles: NatHandles,
    held: VmResources,
    instance: I,
    blob: Seq<u8>,
)
    requires
        plan.is_for(body, plan.id, jailer),
        crate::handlers::vm::holds(held, plan, subnet, handles),
    ensures
        crate::ssh::session::admits(
            vms.insert(plan.id, VmEntry::Running { instance, resources: held }),
            plan.id,
            blob,
        ) == crate::ssh::authorized_keys::authorized(blob, crate::handlers::vm::asked_keys(body)),
{
}

/// Letting a VM in that fits what is left, and letting one go, keep what all VMs hold within
/// what the host has.
pub proof fn no_overcommit<I>(
    vms: Map<u128, VmEntry<I>>,
    capacity: crate::capacity::Capacity,
    id: u128,
    held: VmResources,
)
    requires
        crate::app::within_capacity(vms, capacity),
        held.vcpus <= capacity.vcpus - crate::app::allocated_vcpus(vms),
        held.memory_mb <= capacity.allocatable() - crate::app::allocated_memory(vms),
    ensures
        crate::app::within_capacity(vms.insert(id, VmEntry::Creating(held)), capacity),
        crate::app::within_capacity(vms.remove(id), capacity),
{
    crate::app::entered(vms, id, VmEntry::Creating(held));
}

} // verus!
