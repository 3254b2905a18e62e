//! The life of a VM: creation, queries and deletion.
use crate::app::{Shortage, VmEntry, VmRegistry, VmResources};
use crate::command::CommandLine;
use crate::decimal::decimal_text;
use crate::error::ApiError;
use crate::firecracker::network::{set_up_network, NatHandles, NetworkStep};
use crate::firecracker::{JailerConfig, JAILER_GID, JAILER_UID};
use crate::ids::{id_text, random_id};
use crate::platform::Platform;
use crate::text::join_path;
use crate::vm::config::{build_cgroup_config, validate_vm_config};
use crate::vm::network::{build_network_boot_args, Ipv4Addr, SubnetAllocation, SubnetPool};
use crate::vm::rootfs::{copy_rootfs, RootfsCopy};
use vstd::prelude::*;

verus! {

/// The body of a request to create a VM.
#[derive(Debug)]
pub struct CreateVmRequest {
    /// Number of vCPUs. Must be 1 or an even number up to 32.
    pub vcpus: Option<u8>,
    /// Memory in megabytes. Must be at least 128.
    pub memory_mb: Option<u32>,
    /// SSH public keys authorized to access this VM's console.
    /// Each key must be in OpenSSH format (e.g., "ssh-ed25519 AAAA...").
    /// If not provided, the VM will have no SSH access.
    pub ssh_keys: Vec<String>,
}

/// The state of a microVM as Firecracker reports it.
#[derive(Debug, Clone, Copy, PartialEq, Eq, Structural)]
pub enum InstanceState {
    NotStarted,
    Running,
    Paused,
}

/// What Firecracker reports of a microVM.
#[derive(Debug)]
pub struct InstanceInfo {
    pub state: InstanceState,
    pub vmm_version: String,
}

/// The answer to a request to create a VM.
#[derive(Debug)]
pub struct CreateVmResponse {
    pub id: u128,
    pub vcpus: u8,
    pub memory_mb: u32,
    pub state: InstanceState,
    pub vmm_version: String,
    pub guest_ip: String,
}

/// What came of a task that was run on a thread of its own.
#[derive(Debug)]
pub enum TaskOutcome<T> {
    Panicked,
    Failed,
    Finished(T),
}

/// A step in giving back what a VM held. Whatever comes of one, the next is taken.
#[derive(Debug)]
pub enum CleanupStep {
    DeleteTap(String),
    RemoveNatRules(NatHandles),
    ReleaseSubnet(u16),
    RemoveRootfs(String),
}

/// What a `CleanupStep` does.
pub enum CleanupAct {
    DeleteTap(Seq<char>),
    RemoveNatRules(NatHandles),
    ReleaseSubnet(u16),
    RemoveRootfs(Seq<char>),
}

impl View for CleanupStep {
    type V = CleanupAct;

    open spec fn view(&self) -> CleanupAct {
        match self {
            CleanupStep::DeleteTap(name) => CleanupAct::DeleteTap(name@),
            CleanupStep::RemoveNatRules(handles) => CleanupAct::RemoveNatRules(*handles),
            CleanupStep::ReleaseSubnet(index) => CleanupAct::ReleaseSubnet(*index),
            CleanupStep::RemoveRootfs(path) => CleanupAct::RemoveRootfs(path@),
        }
    }
}

/// What the steps do, in order.
pub open spec fn acts(steps: Seq<CleanupStep>) -> Seq<CleanupAct> {
    steps.map_values(|s: CleanupStep| s@)
}

/// What is done to give back what a VM held: its tap device, its NAT rules, its subnet and
/// its rootfs copy, in this order, as far as it had them.
pub open spec fn cleanup_acts(r: VmResources) -> Seq<CleanupAct> {
    let tap = match r.tap_name {
        Some(name) => seq![CleanupAct::DeleteTap(name@)],
        None => Seq::empty(),
    };
    let rules = match r.nat_handles {
        Some(handles) => seq![CleanupAct::RemoveNatRules(handles)],
        None => Seq::empty(),
    };
    let subnet = match r.subnet_index {
        Some(index) => seq![CleanupAct::ReleaseSubnet(index)],
        None => Seq::empty(),
    };
    let rootfs = match r.rootfs_copy {
        Some(path) => seq![CleanupAct::RemoveRootfs(path@)],
        None => Seq::empty(),
    };
    tap + rules + subnet + rootfs
}

/// The steps that give back what a VM held.
pub fn cleanup_vm_resources(resources: &VmResources) -> (r: Vec<CleanupStep>)
    ensures
        acts(r@) == cleanup_acts(*resources),
{
    let mut steps: Vec<CleanupStep> = Vec::new();
    match &resources.tap_name {
        Some(name) => steps.push(CleanupStep::DeleteTap(name.clone())),
        None => {},
    }
    match resources.nat_handles {
        Some(handles) => steps.push(CleanupStep::RemoveNatRules(handles)),
        None => {},
    }
    match resources.subnet_index {
        Some(index) => steps.push(CleanupStep::ReleaseSubnet(index)),
        None => {},
    }
    match &resources.rootfs_copy {
        Some(path) => steps.push(CleanupStep::RemoveRootfs(path.clone())),
        None => {},
    }
    proof {
        assert(acts(steps@) =~= cleanup_acts(*resources));
    }
    steps
}

/// A VM that was asked for and found to be of a valid size.
#[derive(Debug)]
pub struct VmPlan {
    pub id: u128,
    pub vcpus: u8,
    pub memory_mb: u32,
    pub ssh_keys: Vec<String>,
    /// Path of its own copy of the rootfs.
    pub rootfs: String,
}

/// The vCPUs that a request names.
pub open spec fn asked_vcpus(body: Option<CreateVmRequest>) -> Option<u8> {
    match body {
        Some(request) => request.vcpus,
        None => None,
    }
}

/// The memory that a request names.
pub open spec fn asked_memory(body: Option<CreateVmRequest>) -> Option<u32> {
    match body {
        Some(request) => request.memory_mb,
        None => None,
    }
}

/// The SSH keys that a request names.
pub open spec fn asked_keys(body: Option<CreateVmRequest>) -> Seq<String> {
    match body {
        Some(request) => request.ssh_keys@,
        None => Seq::empty(),
    }
}

/// Whether the size that a request asks for is one that a VM can have.
pub open spec fn valid_request(body: Option<CreateVmRequest>) -> bool {
    &&& crate::vm::config::valid_vcpus(crate::vm::config::resolved_vcpus(asked_vcpus(body)))
    &&& crate::vm::config::resolved_memory(asked_memory(body))
        >= crate::vm::config::MIN_MEMORY_MB
}

/// The answer to a request for a size that no VM can have.
pub open spec fn invalid_request_message(body: Option<CreateVmRequest>) -> Seq<char> {
    if !crate::vm::config::valid_vcpus(crate::vm::config::resolved_vcpus(asked_vcpus(body))) {
        crate::vm::config::vcpus_message()
    } else {
        crate::vm::config::memory_message()
    }
}

/// The path of the rootfs copy of a VM.
pub open spec fn rootfs_path(vm_images_dir: Seq<char>, id: u128) -> Seq<char> {
    crate::text::path_in(vm_images_dir, crate::ids::hyphenated(id) + ".ext4"@)
}

impl VmPlan {
    /// Whether this is the plan for the request under the given id.
    pub open spec fn is_for(
        self,
        body: Option<CreateVmRequest>,
        id: u128,
        jailer: JailerConfig,
    ) -> bool {
        &&& self.id == id
        &&& self.vcpus == crate::vm::config::resolved_vcpus(asked_vcpus(body))
        &&& self.memory_mb == crate::vm::config::resolved_memory(asked_memory(body))
        &&& self.ssh_keys@ == asked_keys(body)
        &&& self.rootfs@ == rootfs_path(jailer.vm_images_dir@, id)
    }
}

/// Begins the creation of a VM under a fresh random id: validates the request and names the
/// command that copies the rootfs.
pub fn create(body: Option<CreateVmRequest>, jailer: &JailerConfig) -> (r: Result<
    (VmPlan, CommandLine, RootfsCopy),
    ApiError,
>)
    ensures
        match r {
            Ok((plan, line, copy)) => {
                &&& valid_request(body)
                &&& crate::ids::is_random_id(plan.id)
                &&& plan.is_for(body, plan.id, *jailer)
                &&& copies_rootfs(plan, *jailer, line, copy)
            },
            Err(e) => !valid_request(body) && e.says(422, invalid_request_message(body)),
        },
{
    create_with_id(body, random_id(), jailer)
}

/// Whether the command and what follows it make the rootfs copy of the planned VM.
pub open spec fn copies_rootfs(
    plan: VmPlan,
    jailer: JailerConfig,
    line: CommandLine,
    copy: RootfsCopy,
) -> bool {
    &&& line@ == crate::vm::rootfs::copy_line(
        jailer.copy_strategy,
        jailer.rootfs_path@,
        plan.rootfs@,
    )
    &&& copy.dest@ == plan.rootfs@
    &&& copy.uid == JAILER_UID
    &&& copy.gid == JAILER_GID
    &&& copy.stage is Copying
}

/// Begins the creation of a VM under the given id.
pub fn create_with_id(
    body: Option<CreateVmRequest>,
    id: u128,
    jailer: &JailerConfig,
) -> (r: Result<(VmPlan, CommandLine, RootfsCopy), ApiError>)
    ensures
        match r {
            Ok((plan, line, copy)) => {
                &&& valid_request(body)
                &&& plan.is_for(body, id, *jailer)
                &&& copies_rootfs(plan, *jailer, line, copy)
            },
            Err(e) => !valid_request(body) && e.says(422, invalid_request_message(body)),
        },
{
    let (vcpus, memory_mb, ssh_keys) = match body {
        Some(request) => (request.vcpus, request.memory_mb, request.ssh_keys),
        None => (None, None, Vec::new()),
    };
    let (vcpus, memory_mb) = match validate_vm_config(vcpus, memory_mb) {
        Ok(size) => size,
        Err(e) => return Err(ApiError::unprocessable(e.message().as_str())),
    };
    let mut name = id_text(id);
    name.append(".ext4");
    let rootfs = join_path(jailer.vm_images_dir.as_str(), name.as_str());
    let (line, copy) = copy_rootfs(
        &jailer.copy_strategy,
        jailer.rootfs_path.as_str(),
        rootfs.as_str(),
        JAILER_UID,
        JAILER_GID,
    );
    Ok((VmPlan { id, vcpus, memory_mb, ssh_keys, rootfs }, line, copy))
}

/// Goes on when the rootfs copy has been made, or not: takes a subnet from the pool and
/// begins its setup.
pub fn rootfs_copied(
    outcome: TaskOutcome<()>,
    platform: Platform,
    host_interface: &str,
    pool: &mut SubnetPool,
) -> (r: Result<(SubnetAllocation, NetworkStep), ApiError>)
    requires
        old(pool).wf(),
    ensures
        final(pool).wf(),
        r is Ok <==> outcome is Finished && (exists|i: int|
            0 <= i < crate::vm::network::MAX_SUBNETS && !#[trigger] old(pool)@[i]),
        r is Err ==> final(pool)@ == old(pool)@,
        r matches Ok((subnet, step)) ==> {
            &&& !old(pool)@[subnet.index as int]
            &&& final(pool)@ == old(pool)@.update(subnet.index as int, true)
            &&& subnet.guest_ip.value() == 172 * 0x100_0000 + 16 * 0x1_0000 + 4 * subnet.index + 2
            &&& platform == Platform::Linux ==> step is Run && step->Run_0@ == (
                "ip"@,
                seq!["tuntap"@, "add"@, subnet.tap_name@, "mode"@, "tap"@],
            )
        },
        r matches Err(e) ==> e.status == if outcome is Finished {
            409u16
        } else {
            500
        },
        match r {
            Ok((subnet, step)) => {
                &&& outcome is Finished
                &&& crate::vm::network::allocated(old(pool)@, final(pool)@, Some(subnet))
                &&& begins_setup(step, platform, subnet, host_interface@)
            },
            Err(e) => if outcome is Finished {
                &&& crate::vm::network::allocated(old(pool)@, final(pool)@, None)
                &&& e.says(409, "No available network subnets"@)
            } else {
                &&& e.is_internal()
                &&& final(pool)@ == old(pool)@
            },
        },
{
    match outcome {
        TaskOutcome::Finished(()) => match pool.allocate() {
            Some(subnet) => {
                let step = set_up_network(
                    platform,
                    subnet.tap_name.as_str(),
                    &subnet.tap_ip,
                    &subnet.guest_ip,
                    host_interface,
                );
                Ok((subnet, step))
            },
            None => Err(ApiError::conflict("No available network subnets")),
        },
        _ => Err(ApiError::internal("Internal server error")),
    }
}

/// Whether this is the beginning of the setup of the subnet's network: its tap device is added.
/// On systems other than Linux the setup is done as it begins.
pub open spec fn begins_setup(
    step: NetworkStep,
    platform: Platform,
    subnet: SubnetAllocation,
    host_interface: Seq<char>,
) -> bool {
    if platform is Linux {
        &&& step matches NetworkStep::Run(line, setup)
        &&& line@ == crate::firecracker::network::tap_add_line(subnet.tap_name@)
        &&& setup.wf()
        &&& setup.tap_name@ == subnet.tap_name@
        &&& setup.guest_ip == subnet.guest_ip
        &&& setup.host_iface@ == host_interface
        &&& setup.stage matches crate::firecracker::network::NetworkStage::CreatingTap(t)
        &&& t.tap_ip == subnet.tap_ip
        &&& t.stage is Adding
    } else {
        step == NetworkStep::Done(Ok(NatHandles { postrouting: 0, filter: 0 }))
    }
}

/// A request that was given up: what has to be given back, and the answer.
#[derive(Debug)]
pub struct Rejection {
    pub steps: Vec<CleanupStep>,
    pub error: ApiError,
}

/// Judges what came of the setup of a VM's network. If it failed, the subnet goes back to
/// the pool; if its task panicked, it is not known what stands of it, and the subnet stays
/// taken.
pub fn network_set_up(subnet: &SubnetAllocation, outcome: TaskOutcome<NatHandles>) -> (r: Result<
    NatHandles,
    Rejection,
>)
    ensures
        match r {
            Ok(handles) => outcome == TaskOutcome::Finished(handles),
            Err(rejection) => {
                &&& outcome !is Finished
                &&& rejection.error.is_internal()
                &&& acts(rejection.steps@) == if outcome is Failed {
                    seq![CleanupAct::ReleaseSubnet(subnet.index)]
                } else {
                    Seq::empty()
                }
            },
        },
{
    let mut steps: Vec<CleanupStep> = Vec::new();
    match outcome {
        TaskOutcome::Finished(handles) => return Ok(handles),
        TaskOutcome::Failed => steps.push(CleanupStep::ReleaseSubnet(subnet.index)),
        TaskOutcome::Panicked => {},
    }
    proof {
        assert(acts(steps@) =~= if outcome is Failed {
            seq![CleanupAct::ReleaseSubnet(subnet.index)]
        } else {
            Seq::empty()
        });
    }
    Err(Rejection { steps, error: ApiError::internal("Internal server error") })
}

/// The file that stands for a VM's vsock socket while it is set up.
pub open spec fn vsock_placeholder(id: u128) -> Seq<char> {
    crate::text::path_in("/srv/jailer/vsock"@, crate::ids::hyphenated(id) + ".sock"@)
}

/// Where Firecracker creates a VM's vsock socket, inside the VM's chroot.
pub open spec fn vsock_socket(id: u128) -> Seq<char> {
    "/srv/jailer/firecracker/"@ + crate::ids::hyphenated(id) + "/root/"@ + (
    crate::ids::hyphenated(id) + ".sock"@)
}

/// The file name of a VM's vsock socket.
fn vsock_filename(id: u128) -> (r: String)
    ensures
        r@ == crate::ids::hyphenated(id) + ".sock"@,
{
    let mut name = id_text(id);
    name.append(".sock");
    name
}

/// The file that stands for a VM's vsock socket while it is set up.
pub fn vsock_placeholder_path(id: u128) -> (r: String)
    ensures
        r@ == vsock_placeholder(id),
{
    join_path("/srv/jailer/vsock", vsock_filename(id).as_str())
}

/// Where Firecracker creates a VM's vsock socket.
pub fn vsock_runtime_path(id: u128) -> (r: String)
    ensures
        r@ == vsock_socket(id),
{
    let mut path = "/srv/jailer/firecracker/".to_string();
    path.append(id_text(id).as_str());
    path.append("/root/");
    path.append(vsock_filename(id).as_str());
    path
}

/// Whether `r` is what the planned VM holds on the given network.
pub open spec fn holds(
    r: VmResources,
    plan: VmPlan,
    subnet: SubnetAllocation,
    handles: NatHandles,
) -> bool {
    &&& r.vcpus == plan.vcpus
    &&& r.memory_mb == plan.memory_mb
    &&& r.rootfs_copy matches Some(path) && path@ == plan.rootfs@
    &&& r.tap_name matches Some(name) && name@ == subnet.tap_name@
    &&& r.subnet_index == Some(subnet.index)
    &&& r.nat_handles == Some(handles)
    &&& r.guest_ip matches Some(ip) && ip@ == subnet.guest_ip.text()
    &&& r.vsock_uds_path matches Some(path) && path@ == vsock_socket(plan.id)
    &&& r.ssh_keys@ == plan.ssh_keys@
}

/// The answer when the host has too little left.
pub open spec fn shortage_message(plan: VmPlan, shortage: Shortage) -> Seq<char> {
    match shortage {
        Shortage::Vcpus { available } => "Insufficient vCPUs: requested "@
            + crate::decimal::decimal(plan.vcpus as nat) + " but only "@
            + crate::decimal::decimal(available as nat) + " available"@,
        Shortage::Memory { available } => "Insufficient memory: requested "@
            + crate::decimal::decimal(plan.memory_mb as nat) + " MB but only "@
            + crate::decimal::decimal(available as nat) + " MB available"@,
    }
}

/// The answer when the host has too little left.
fn shortage_text(vcpus: u8, memory_mb: u32, shortage: Shortage) -> (r: String)
    ensures
        forall|plan: VmPlan|
            plan.vcpus == vcpus && plan.memory_mb == memory_mb ==> r@ == #[trigger] shortage_message(
                plan,
                shortage,
            ),
{
    match shortage {
        Shortage::Vcpus { available } => {
            let mut msg = "Insufficient vCPUs: requested ".to_string();
            msg.append(decimal_text(vcpus as u64).as_str());
            msg.append(" but only ");
            msg.append(decimal_text(available).as_str());
            msg.append(" available");
            msg
        },
        Shortage::Memory { available } => {
            let mut msg = "Insufficient memory: requested ".to_string();
            msg.append(decimal_text(memory_mb as u64).as_str());
            msg.append(" MB but only ");
            msg.append(decimal_text(available).as_str());
            msg.append(" MB available");
            msg
        },
    }
}

/// A VM whose place is reserved and whose instance is being started.
#[derive(Debug)]
pub struct StartingVm {
    pub id: u128,
    pub vcpus: u8,
    pub memory_mb: u32,
    pub guest_ip: String,
}

impl VmPlan {
    /// Reserves what the VM needs and enters it as `Creating`, or gives up if the host has
    /// too little left: the NAT rules, the tap device and the subnet are then given back,
    /// and no VM is touched.
    pub fn reserve<I>(
        self,
        subnet: &SubnetAllocation,
        handles: NatHandles,
        vms: &mut VmRegistry<I>,
    ) -> (r: Result<StartingVm, Rejection>)
        requires
            old(vms).wf(),
        ensures
            final(vms).wf(),
            final(vms).limit() == old(vms).limit(),
            r is Ok <==> {
                &&& crate::app::allocated_vcpus(old(vms)@) + self.vcpus <= old(vms).limit().vcpus
                &&& crate::app::allocated_memory(old(vms)@) + self.memory_mb + 256 <= old(vms).limit().memory_mb || (self.memory_mb == 0 && crate::app::allocated_memory(
                    old(vms)@,
                ) == 0)
            },
            r matches Ok(vm) ==> {
                &&& vm.id == self.id
                &&& vm.vcpus == self.vcpus
                &&& vm.memory_mb == self.memory_mb
                &&& vm.guest_ip@ == subnet.guest_ip.text()
                &&& final(vms)@.contains_key(self.id)
                &&& final(vms)@.remove(self.id) == old(vms)@.remove(self.id)
                &&& final(vms)@[self.id] matches VmEntry::Creating(held)
                &&& held.vcpus == self.vcpus
                &&& held.memory_mb == self.memory_mb
                &&& held.ssh_keys@ == self.ssh_keys@
                &&& held.subnet_index == Some(subnet.index)
                &&& held.nat_handles == Some(handles)
                &&& held.rootfs_copy is Some && held.rootfs_copy->0@ == self.rootfs@
                &&& held.tap_name is Some && held.tap_name->0@ == subnet.tap_name@
                &&& held.guest_ip is Some && held.guest_ip->0@ == subnet.guest_ip.text()
                &&& held.vsock_uds_path is Some
                &&& held.vsock_uds_path->0@ == vsock_socket(self.id)
            },
            r matches Err(rejection) ==> {
                &&& final(vms)@ == old(vms)@
                &&& rejection.error.status == 409
                &&& rejection.steps@.len() == 3
                &&& rejection.steps@[0] == CleanupStep::RemoveNatRules(handles)
                &&& rejection.steps@[1] is DeleteTap
                &&& rejection.steps@[1]->DeleteTap_0@ == subnet.tap_name@
                &&& rejection.steps@[2] == CleanupStep::ReleaseSubnet(subnet.index)
            },
            match r {
                Ok(vm) => {
                    &&& self.vcpus <= old(vms).free_vcpus()
                    &&& self.memory_mb <= old(vms).free_memory()
                    &&& vm.id == self.id
                    &&& vm.vcpus == self.vcpus
                    &&& vm.memory_mb == self.memory_mb
                    &&& vm.guest_ip@ == subnet.guest_ip.text()
                    &&& exists|held: VmResources|
                        #![trigger holds(held, self, *subnet, handles)]
                        {
                            &&& holds(held, self, *subnet, handles)
                            &&& final(vms)@ == old(vms)@.insert(self.id, VmEntry::Creating(held))
                        }
                },
                Err(rejection) => {
                    &&& final(vms)@ == old(vms)@
                    &&& exists|shortage: Shortage|
                        #![trigger shortage_message(self, shortage)]
                        {
                            &&& shortage.is_of(
                                self.vcpus,
                                self.memory_mb,
                                old(vms).free_vcpus(),
                                old(vms).free_memory(),
                            )
                            &&& rejection.error.says(409, shortage_message(self, shortage))
                        }
                    &&& acts(rejection.steps@) == seq![
                        CleanupAct::RemoveNatRules(handles),
                        CleanupAct::DeleteTap(subnet.tap_name@),
                        CleanupAct::ReleaseSubnet(subnet.index),
                    ]
                },
            },
    {
        let ghost plan = self;
        let VmPlan { id, vcpus, memory_mb, ssh_keys, rootfs } = self;
        let guest_ip = subnet.guest_ip.to_text();
        let held = VmResources {
            vcpus,
            memory_mb,
            rootfs_copy: Some(rootfs),
            tap_name: Some(subnet.tap_name.clone()),
            subnet_index: Some(subnet.index),
            nat_handles: Some(handles),
            guest_ip: Some(guest_ip.clone()),
            vsock_uds_path: Some(vsock_runtime_path(id)),
            ssh_keys,
        };
        proof {
            assert(holds(held, plan, *subnet, handles));
            assert(old(vms)@.insert(id, VmEntry::Creating(held)).remove(id) =~= old(vms)@.remove(
                id,
            ));
        }
        match vms.reserve(id, held) {
            Ok(()) => Ok(StartingVm { id, vcpus, memory_mb, guest_ip }),
            Err(shortage) => {
                let msg = shortage_text(vcpus, memory_mb, shortage);
                let mut steps: Vec<CleanupStep> = Vec::new();
                steps.push(CleanupStep::RemoveNatRules(handles));
                steps.push(CleanupStep::DeleteTap(subnet.tap_name.clone()));
                steps.push(CleanupStep::ReleaseSubnet(subnet.index));
                proof {
                    assert(msg@ == shortage_message(plan, shortage));
                    assert(acts(steps@) =~= seq![
                        CleanupAct::RemoveNatRules(handles),
                        CleanupAct::DeleteTap(subnet.tap_name@),
                        CleanupAct::ReleaseSubnet(subnet.index),
                    ]);
                }
                Err(Rejection { steps, error: ApiError::conflict(msg.as_str()) })
            },
        }
    }
}

impl StartingVm {
    /// Gives up a VM whose instance could not be started: its entry is removed, and what it
    /// held is given back.
    pub fn failed<I>(&self, vms: &mut VmRegistry<I>) -> (r: (Option<I>, Rejection))
        requires
            old(vms).wf(),
        ensures
            final(vms).wf(),
            final(vms).limit() == old(vms).limit(),
            final(vms)@ == old(vms)@.remove(self.id),
            r.1.error.is_internal(),
            acts(r.1.steps@) == if old(vms)@.contains_key(self.id) {
                cleanup_acts(old(vms)@[self.id].res())
            } else {
                Seq::empty()
            },
            r.0 == if old(vms)@.contains_key(self.id) {
                old(vms)@[self.id].live()
            } else {
                None
            },
    {
        let error = ApiError::internal("Internal server error");
        match vms.remove(self.id) {
            Some(entry) => {
                let (instance, steps) = cleanup_entry(entry);
                (instance, Rejection { steps, error })
            },
            None => {
                let steps: Vec<CleanupStep> = Vec::new();
                proof {
                    assert(acts(steps@) =~= Seq::empty());
                }
                (None, Rejection { steps, error })
            },
        }
    }

    /// Records that the instance of the VM has been started, and answers the request. The
    /// guest may still be booting, so the answer is 202 Accepted.
    pub fn started<I>(self, instance: I, info: InstanceInfo, vms: &mut VmRegistry<I>) -> (r: (
        u16,
        CreateVmResponse,
    ))
        requires
            old(vms).wf(),
        ensures
            final(vms).wf(),
            final(vms).limit() == old(vms).limit(),
            final(vms)@ == if old(vms)@.contains_key(self.id) && old(vms)@[self.id] is Creating {
                old(vms)@.insert(
                    self.id,
                    VmEntry::Running { instance, resources: old(vms)@[self.id].res() },
                )
            } else {
                old(vms)@.remove(self.id)
            },
            r.0 == 202,
            r.1.id == self.id,
            r.1.vcpus == self.vcpus,
            r.1.memory_mb == self.memory_mb,
            r.1.state == info.state,
            r.1.vmm_version@ == info.vmm_version@,
            r.1.guest_ip@ == self.guest_ip@,
    {
        vms.start(self.id, instance);
        (
            202,
            CreateVmResponse {
                id: self.id,
                vcpus: self.vcpus,
                memory_mb: self.memory_mb,
                state: info.state,
                vmm_version: info.vmm_version,
                guest_ip: self.guest_ip,
            },
        )
    }
}

/// Takes a VM's entry apart: the instance to stop, if it runs, and the steps that give back
/// what it held.
pub fn cleanup_entry<I>(entry: VmEntry<I>) -> (r: (Option<I>, Vec<CleanupStep>))
    ensures
        r.0 == entry.live(),
        acts(r.1@) == cleanup_acts(entry.res()),
{
    match entry {
        VmEntry::Creating(resources) => (None, cleanup_vm_resources(&resources)),
        VmEntry::Running { instance, resources } => {
            let steps = cleanup_vm_resources(&resources);
            (Some(instance), steps)
        },
    }
}

/// How the jailer brings files into a VM's chroot.
#[derive(Debug, Clone, Copy, PartialEq, Eq, Structural)]
pub enum LinkStrategy {
    /// Each file that the instance is told of is linked into the root of the chroot.
    NaiveLink,
    /// Each file that the instance is told of is linked at its own path inside the chroot.
    FullLink,
}

/// How the jailer is to run Firecracker.
#[derive(Debug)]
pub struct JailPlan {
    pub jailer_path: String,
    pub firecracker_path: String,
    /// The id that Firecracker knows the VM by.
    pub instance_id: String,
    pub gid: usize,
    pub uid: usize,
    pub link_strategy: LinkStrategy,
    pub new_pid_ns: bool,
    pub cgroup_version: usize,
    pub cgroups: Vec<(String, String)>,
    /// File that takes what the jailer writes to its standard error.
    pub stderr: String,
    /// Whether the jailer's workspace is removed together with the instance.
    pub remove_workspace: bool,
    /// Firecracker's log file, inside the chroot.
    pub log_path: String,
    pub log_level: String,
}

/// A request to the Firecracker instance of a VM.
#[derive(Debug)]
pub enum InstanceRequest {
    StartVmm,
    MachineConfiguration { vcpu_count: u8, mem_size_mib: u32 },
    BootSource { kernel_image_path: String, boot_args: String },
    NetworkInterface { iface_id: String, host_dev_name: String },
    Drive { drive_id: String, path_on_host: String, is_root_device: bool, is_read_only: bool },
    Vsock { guest_cid: u32, uds_path: String, vsock_id: String },
    Start,
    Describe,
}

/// What it takes to start a VM: a jailed instance, and the requests to it in order. The
/// first request that fails ends the attempt.
#[derive(Debug)]
pub struct InstancePlan {
    pub jail: JailPlan,
    pub requests: Vec<InstanceRequest>,
}

/// The file that takes what the jailer of a VM writes to its standard error.
pub open spec fn jailer_log(id: u128) -> Seq<char> {
    "/tmp/warlock-jailer-"@ + crate::ids::hyphenated(id) + ".log"@
}

/// The vsock context id of a VM's guest: the low 31 bits of its id, with the lowest two set.
pub open spec fn guest_cid(id: u128) -> u32 {
    ((id % 0x1_0000_0000) as u32 & 0x7FFF_FFFF) | 3
}

/// The kernel command line of a guest.
pub open spec fn boot_args(guest_ip: Ipv4Addr, tap_ip: Ipv4Addr) -> Seq<char> {
    "console=ttyS0 reboot=k panic=1 pci=off "@ + crate::vm::network::network_boot_args(
        guest_ip,
        tap_ip,
    )
}

impl JailPlan {
    /// Whether this jails the VM: under its own id, as the jailed user, with its files
    /// hard-linked into the chroot, in a PID namespace of its own and within the cgroup limits
    /// of its size; and whether the workspace goes with the instance.
    pub open spec fn is_for(
        self,
        jailer: JailerConfig,
        id: u128,
        vcpus: u8,
        memory_mb: u32,
    ) -> bool {
        &&& self.jailer_path@ == jailer.jailer_path@
        &&& self.firecracker_path@ == jailer.firecracker_path@
        &&& self.instance_id@ == crate::ids::hyphenated(id)
        &&& self.gid == JAILER_GID
        &&& self.uid == JAILER_UID
        &&& self.link_strategy == LinkStrategy::NaiveLink
        &&& self.new_pid_ns
        &&& self.cgroup_version == jailer.cgroup_version
        &&& crate::vm::config::settings(self.cgroups@) == crate::vm::config::cgroup_settings(
            jailer.cgroup_version,
            vcpus,
            memory_mb,
        )
        &&& self.stderr@ == jailer_log(id)
        &&& self.remove_workspace
        &&& self.log_path@ == "firecracker.log"@
        &&& self.log_level@ == "Info"@
    }
}

/// Whether the requests configure and start the VM: the VMM is started, then the machine,
/// the boot source, the network interface, the drive and the vsock device are configured,
/// then the guest is started and described.
pub open spec fn starts_vm(
    requests: Seq<InstanceRequest>,
    vm: StartingVm,
    kernel: Seq<char>,
    vm_rootfs: Seq<char>,
    tap_name: Seq<char>,
    guest_ip: Ipv4Addr,
    tap_ip: Ipv4Addr,
    vsock_placeholder_path: Seq<char>,
) -> bool {
    &&& requests.len() == 8
    &&& requests[0] is StartVmm
    &&& requests[1] == InstanceRequest::MachineConfiguration {
        vcpu_count: vm.vcpus,
        mem_size_mib: vm.memory_mb,
    }
    &&& requests[2] matches InstanceRequest::BootSource { kernel_image_path, boot_args: args }
        && kernel_image_path@ == kernel && args@ == boot_args(guest_ip, tap_ip)
    &&& requests[3] matches InstanceRequest::NetworkInterface { iface_id, host_dev_name }
        && iface_id@ == "eth0"@ && host_dev_name@ == tap_name
    &&& requests[4] matches InstanceRequest::Drive {
        drive_id,
        path_on_host,
        is_root_device,
        is_read_only,
    } && drive_id@ == "rootfs"@ && path_on_host@ == vm_rootfs && is_root_device && !is_read_only
    &&& requests[5] matches InstanceRequest::Vsock { guest_cid: cid, uds_path, vsock_id } && cid
        == guest_cid(vm.id) && uds_path@ == vsock_placeholder_path && vsock_id@ == "vsock0"@
    &&& requests[6] is Start
    &&& requests[7] is Describe
}

/// Guest context ids are none of the reserved ones, and fit 31 bits.
pub proof fn guest_cid_in_range(id: u128)
    ensures
        3 <= guest_cid(id) < 0x8000_0000,
{
    let low = (id % 0x1_0000_0000) as u32;
    assert(3 <= ((low & 0x7FFF_FFFF) | 3) < 0x8000_0000) by (bit_vector);
}

/// Plans the start of a jailed Firecracker instance for a VM whose place is reserved.
pub fn setup_firecracker_instance(
    jailer: &JailerConfig,
    vm: &StartingVm,
    kernel: &str,
    vm_rootfs: &str,
    tap_name: &str,
    guest_ip: &Ipv4Addr,
    tap_ip: &Ipv4Addr,
    vsock_placeholder_path: &str,
) -> (r: InstancePlan)
    ensures
        r.jail.jailer_path@ == jailer.jailer_path@,
        r.jail.firecracker_path@ == jailer.firecracker_path@,
        r.jail.instance_id@ == crate::ids::hyphenated(vm.id),
        r.jail.uid == 1100,
        r.jail.gid == 1100,
        r.jail.cgroup_version == jailer.cgroup_version,
        r.jail.new_pid_ns,
        r.jail.remove_workspace,
        r.jail.link_strategy == LinkStrategy::NaiveLink,
        r.jail.is_for(*jailer, vm.id, vm.vcpus, vm.memory_mb),
        starts_vm(
            r.requests@,
            *vm,
            kernel@,
            vm_rootfs@,
            tap_name@,
            *guest_ip,
            *tap_ip,
            vsock_placeholder_path@,
        ),
{
    let mut stderr = "/tmp/warlock-jailer-".to_string();
    stderr.append(id_text(vm.id).as_str());
    stderr.append(".log");
    let jail = JailPlan {
        jailer_path: jailer.jailer_path.clone(),
        firecracker_path: jailer.firecracker_path.clone(),
        instance_id: id_text(vm.id),
        gid: JAILER_GID,
        uid: JAILER_UID,
        link_strategy: LinkStrategy::NaiveLink,
        new_pid_ns: true,
        cgroup_version: jailer.cgroup_version,
        cgroups: build_cgroup_config(jailer.cgroup_version, vm.vcpus, vm.memory_mb),
        stderr,
        remove_workspace: true,
        log_path: "firecracker.log".to_string(),
        log_level: "Info".to_string(),
    };
    let mut args = "console=ttyS0 reboot=k panic=1 pci=off ".to_string();
    args.append(build_network_boot_args(guest_ip, tap_ip).as_str());
    let cid: u32 = ((vm.id % 0x1_0000_0000) as u32 & 0x7FFF_FFFF) | 3;
    let mut requests: Vec<InstanceRequest> = Vec::new();
    requests.push(InstanceRequest::StartVmm);
    requests.push(
        InstanceRequest::MachineConfiguration {
            vcpu_count: vm.vcpus,
            mem_size_mib: vm.memory_mb,
        },
    );
    requests.push(
        InstanceRequest::BootSource { kernel_image_path: kernel.to_string(), boot_args: args },
    );
    requests.push(
        InstanceRequest::NetworkInterface {
            iface_id: "eth0".to_string(),
            host_dev_name: tap_name.to_string(),
        },
    );
    requests.push(
        InstanceRequest::Drive {
            drive_id: "rootfs".to_string(),
            path_on_host: vm_rootfs.to_string(),
            is_root_device: true,
            is_read_only: false,
        },
    );
    requests.push(
        InstanceRequest::Vsock {
            guest_cid: cid,
            uds_path: vsock_placeholder_path.to_string(),
            vsock_id: "vsock0".to_string(),
        },
    );
    requests.push(InstanceRequest::Start);
    requests.push(InstanceRequest::Describe);
    InstancePlan { jail, requests }
}

/// Finds the instance of a running VM, to be described to the client.
pub fn get<I>(vms: &mut VmRegistry<I>, id: u128) -> (r: Result<&mut I, ApiError>)
    requires
        old(vms).wf(),
    ensures
        final(vms).wf(),
        final(vms).limit() == old(vms).limit(),
        match r {
            Ok(i) => {
                &&& old(vms)@.contains_key(id)
                &&& old(vms)@[id] matches VmEntry::Running { instance, resources }
                &&& *i == instance
                &&& final(vms)@ == old(vms)@.insert(
                    id,
                    VmEntry::Running { instance: *final(i), resources },
                )
            },
            Err(e) => {
                &&& final(vms)@ == old(vms)@
                &&& if old(vms)@.contains_key(id) {
                    old(vms)@[id] is Creating && e.says(409, "VM is still being created"@)
                } else {
                    e.says(404, "VM not found"@)
                }
            },
        },
{
    let known = vms.entry(id).is_some();
    match vms.instance(id) {
        Some(instance) => Ok(instance),
        None => if known {
            Err(ApiError::conflict("VM is still being created"))
        } else {
            Err(ApiError::not_found("VM not found"))
        },
    }
}

/// The answer to a request to delete a VM.
#[derive(Debug)]
pub struct DeleteVmResponse {
    pub id: u128,
    pub deleted: bool,
}

/// A VM that was taken out of the registry: the instance to stop and drop first, then the
/// steps that give back what it held, and the answer to the client.
pub struct Deletion<I> {
    pub instance: I,
    pub steps: Vec<CleanupStep>,
    pub response: DeleteVmResponse,
}

/// Takes a running VM out of the registry. A VM that is still being created stays.
pub fn delete<I>(vms: &mut VmRegistry<I>, id: u128) -> (r: Result<Deletion<I>, ApiError>)
    requires
        old(vms).wf(),
    ensures
        final(vms).wf(),
        final(vms).limit() == old(vms).limit(),
        match r {
            Ok(d) => {
                &&& old(vms)@.contains_key(id)
                &&& old(vms)@[id] matches VmEntry::Running { instance, resources }
                &&& d.instance == instance
                &&& acts(d.steps@) == cleanup_acts(resources)
                &&& d.response.id == id
                &&& d.response.deleted
                &&& final(vms)@ == old(vms)@.remove(id)
            },
            Err(e) => {
                &&& final(vms)@ == old(vms)@
                &&& if old(vms)@.contains_key(id) {
                    &&& old(vms)@[id] is Creating
                    &&& e.says(409, "VM is still being created, try again shortly"@)
                } else {
                    e.says(404, "VM not found"@)
                }
            },
        },
{
    match vms.entry(id) {
        None => return Err(ApiError::not_found("VM not found")),
        Some(VmEntry::Creating(_)) => return Err(
            ApiError::conflict("VM is still being created, try again shortly"),
        ),
        Some(VmEntry::Running { .. }) => {},
    }
    match vms.remove(id) {
        Some(VmEntry::Running { instance, resources }) => {
            let steps = cleanup_vm_resources(&resources);
            Ok(Deletion { instance, steps, response: DeleteVmResponse { id, deleted: true } })
        },
        _ => Err(ApiError::not_found("VM not found")),
    }
}

/// Ensures the `Creating` placeholder is removed from the registry if the
/// create handler panics between the two lock windows.
#[derive(Debug)]
pub struct CreateGuard {
    pub vm_id: u128,
    pub defused: bool,
}

impl CreateGuard {
    /// A guard of the VM's placeholder.
    pub fn new(vm_id: u128) -> (r: CreateGuard)
        ensures
            r.vm_id == vm_id,
            !r.defused,
    {
        CreateGuard { vm_id, defused: false }
    }

    /// Disarms the guard. Call this after successful upgrade to Running or
    /// after explicit error cleanup.
    pub fn defuse(&mut self)
        ensures
            final(self).vm_id == old(self).vm_id,
            final(self).defused,
    {
        self.defused = true;
    }

    /// What the guard does when it is dropped: unless it was disarmed, it removes the VM's
    /// entry, and names the steps that give back what a placeholder held.
    pub fn dropped<I>(&self, vms: &mut VmRegistry<I>) -> (r: Vec<CleanupStep>)
        requires
            old(vms).wf(),
        ensures
            final(vms).wf(),
            final(vms).limit() == old(vms).limit(),
            final(vms)@ == if self.defused {
                old(vms)@
            } else {
                old(vms)@.remove(self.vm_id)
            },
            acts(r@) == if !self.defused && old(vms)@.contains_key(self.vm_id)
                && old(vms)@[self.vm_id] is Creating {
                cleanup_acts(old(vms)@[self.vm_id].res())
            } else {
                Seq::empty()
            },
    {
        let none: Vec<CleanupStep> = Vec::new();
        proof {
            assert(acts(none@) =~= Seq::empty());
        }
        if self.defused {
            return none;
        }
        match vms.remove(self.vm_id) {
            Some(VmEntry::Creating(resources)) => cleanup_vm_resources(&resources),
            _ => none,
        }
    }
}

/// What a list of VMs says of one of them.
#[derive(Debug)]
pub struct VmSummary {
    pub id: u128,
    pub vcpus: u8,
    pub memory_mb: u32,
    pub status: &'static str,
    pub state: Option<InstanceState>,
    pub guest_ip: Option<String>,
}

/// The answer to a request to list the VMs.
#[derive(Debug)]
pub struct ListVmsResponse {
    pub vms: Vec<VmSummary>,
    pub count: usize,
}

impl VmSummary {
    /// Whether this says of the VM under `id` what its entry holds, and `state` if it runs.
    pub open spec fn tells<I>(
        self,
        id: u128,
        entry: VmEntry<I>,
        state: Option<InstanceState>,
    ) -> bool {
        &&& self.id == id
        &&& self.vcpus == entry.res().vcpus
        &&& self.memory_mb == entry.res().memory_mb
        &&& self.status@ == entry.label()
        &&& self.state == if entry is Running {
            state
        } else {
            None
        }
        &&& match (self.guest_ip, entry.res().guest_ip) {
            (Some(a), Some(b)) => a@ == b@,
            (None, None) => true,
            _ => false,
        }
    }
}

/// The state that was reported of a VM, if any was.
pub open spec fn reported(states: Map<u128, InstanceState>, id: u128) -> Option<InstanceState> {
    if states.contains_key(id) {
        Some(states[id])
    } else {
        None
    }
}

/// Summarises one VM.
fn summary<I>(id: u128, entry: &VmEntry<I>, state: Option<InstanceState>) -> (r: VmSummary)
    ensures
        r.tells(id, *entry, state),
{
    let held = entry.resources();
    let guest_ip = match &held.guest_ip {
        Some(ip) => Some(ip.clone()),
        None => None,
    };
    let state = match entry {
        VmEntry::Running { .. } => state,
        VmEntry::Creating(_) => None,
    };
    VmSummary {
        id,
        vcpus: held.vcpus,
        memory_mb: held.memory_mb,
        status: entry.status(),
        state,
        guest_ip,
    }
}

/// Lists all VMs, each once, in no particular order. `states` holds what the instances that
/// could be queried reported.
pub fn list<I>(
    vms: &VmRegistry<I>,
    states: &std::collections::HashMap<u128, InstanceState>,
) -> (r: ListVmsResponse)
    ensures
        r.count == vms@.len(),
        r.vms@.len() == vms@.len(),
        forall|i: int|
            0 <= i < r.vms@.len() ==> {
                let s = #[trigger] r.vms@[i];
                vms@.contains_key(s.id) && s.tells(s.id, vms@[s.id], reported(states@, s.id))
            },
        forall|i: int, j: int|
            0 <= i < j < r.vms@.len() ==> (#[trigger] r.vms@[i]).id != (#[trigger] r.vms@[j]).id,
        forall|id: u128| #[trigger]
            vms@.contains_key(id) ==> exists|i: int|
                0 <= i < r.vms@.len() && (#[trigger] r.vms@[i]).id == id,
{
    broadcast use vstd::std_specs::hash::group_hash_axioms;

    let ids = vms.ids();
    let mut summaries: Vec<VmSummary> = Vec::new();
    let mut i: usize = 0;
    while i < ids.len()
        invariant
            i <= ids@.len(),
            summaries@.len() == i,
            ids@.to_set() == vms@.dom(),
            forall|k: int|
                0 <= k < i ==> {
                    let s = #[trigger] summaries@[k];
                    s.id == ids@[k] && s.tells(s.id, vms@[s.id], reported(states@, s.id))
                },
        decreases ids@.len() - i,
    {
        let id: u128 = ids[i];
        proof {
            assert(ids@.to_set().contains(ids@[i as int]));
        }
        let state = match states.get(&id) {
            Some(state) => Some(*state),
            None => None,
        };
        match vms.entry(id) {
            Some(entry) => summaries.push(summary(id, entry, state)),
            None => {},
        }
        i += 1;
    }
    proof {
        assert forall|k: int| 0 <= k < summaries@.len() implies vms@.contains_key(
            (#[trigger] summaries@[k]).id,
        ) by {
            assert(ids@.to_set().contains(ids@[k]));
        }
        assert forall|id: u128| #[trigger] vms@.contains_key(id) implies exists|k: int|
            0 <= k < summaries@.len() && (#[trigger] summaries@[k]).id == id by {
            assert(ids@.to_set().contains(id));
            let k = choose|k: int| 0 <= k < ids@.len() && ids@[k] == id;
            assert(summaries@[k].id == id);
        }
    }
    let count: usize = summaries.len();
    ListVmsResponse { vms: summaries, count }
}

/// A VM that ends with the server: the instance to stop and drop first, if it runs, then
/// the steps that give back what it held.
pub struct Termination<I> {
    pub id: u128,
    pub instance: Option<I>,
    pub steps: Vec<CleanupStep>,
}

impl<I> Termination<I> {
    /// Whether this ends one of the VMs.
    pub open spec fn ends(self, vms: Map<u128, VmEntry<I>>) -> bool {
        &&& vms.contains_key(self.id)
        &&& self.instance == vms[self.id].live()
        &&& acts(self.steps@) == cleanup_acts(vms[self.id].res())
    }
}

/// Takes all VMs out of the registry, each once, whatever its state.
pub fn shut_down<I>(vms: &mut VmRegistry<I>) -> (r: Vec<Termination<I>>)
    requires
        old(vms).wf(),
    ensures
        final(vms).wf(),
        final(vms).limit() == old(vms).limit(),
        final(vms)@ == Map::<u128, VmEntry<I>>::empty(),
        r@.len() == old(vms)@.len(),
        forall|i: int| 0 <= i < r@.len() ==> (#[trigger] r@[i]).ends(old(vms)@),
        forall|i: int, j: int|
            0 <= i < j < r@.len() ==> (#[trigger] r@[i]).id != (#[trigger] r@[j]).id,
{
    let ids = vms.ids();
    let ghost before = vms@;
    let mut out: Vec<Termination<I>> = Vec::new();
    let mut i: usize = 0;
    proof {
        assert(before.remove_keys(ids@.take(0).to_set()) =~= before);
    }
    while i < ids.len()
        invariant
            i <= ids@.len(),
            out@.len() == i,
            ids@.no_duplicates(),
            ids@.to_set() == before.dom(),
            before == old(vms)@,
            vms.wf(),
            vms.limit() == old(vms).limit(),
            vms@ == before.remove_keys(ids@.take(i as int).to_set()),
            forall|k: int|
                0 <= k < i ==> (#[trigger] out@[k]).ends(before) && out@[k].id == ids@[k],
        decreases ids@.len() - i,
    {
        let id: u128 = ids[i];
        let ghost left = vms@;
        proof {
            assert(ids@.to_set().contains(id));
            assert(!ids@.take(i as int).contains(id));
            ids@.take(i as int).lemma_push_to_set_commute(id);
            assert(ids@.take(i + 1) =~= ids@.take(i as int).push(id));
            assert(left.remove(id) =~= before.remove_keys(ids@.take(i + 1).to_set()));
        }
        match vms.remove(id) {
            Some(entry) => {
                let (instance, steps) = cleanup_entry(entry);
                out.push(Termination { id, instance, steps });
            },
            None => {},
        }
        i += 1;
    }
    proof {
        assert(ids@.take(i as int) =~= ids@);
        assert(vms@ =~= Map::empty());
    }
    out
}

/// A request is refused with 422 exactly if it asks for a size that no VM can have. Otherwise a
/// VM of the size that was asked for, or of one vCPU and 128 MB where nothing was, is planned,
/// with the keys of the request and a rootfs copy of its own, which is made from the host's
/// image and given to the jailed user.
pub proof fn request_is_planned(
    body: Option<CreateVmRequest>,
    id: u128,
    jailer: JailerConfig,
    r: Result<(VmPlan, CommandLine, RootfsCopy), ApiError>,
)
    requires
        call_ensures(create_with_id, (body, id, &jailer), r),
    ensures
        r is Ok <==> match body {
            Some(request) => {
                &&& request.vcpus matches Some(v) ==> v == 1 || (v % 2 == 0 && 2 <= v <= 32)
                &&& request.memory_mb matches Some(m) ==> m >= 128
            },
            None => true,
        },
        r matches Err(e) ==> e.status == 422,
        r matches Ok((plan, line, copy)) ==> {
            &&& plan.id == id
            &&& plan.vcpus == match body {
                Some(request) => match request.vcpus {
                    Some(v) => v,
                    None => 1,
                },
                None => 1,
            }
            &&& plan.memory_mb == match body {
                Some(request) => match request.memory_mb {
                    Some(m) => m,
                    None => 128,
                },
                None => 128,
            }
            &&& body matches Some(request) ==> plan.ssh_keys@ == request.ssh_keys@
            &&& body is None ==> plan.ssh_keys@.len() == 0
            &&& jailer.vm_images_dir@.is_prefix_of(plan.rootfs@)
            &&& (crate::ids::hyphenated(id) + ".ext4"@).is_suffix_of(plan.rootfs@)
            &&& line@.0 == "cp"@
            &&& line@.1.len() == 3
            &&& line@.1[0] == if jailer.copy_strategy is Reflink {
                "--reflink=always"@
            } else {
                "--sparse=always"@
            }
            &&& line@.1[1] == jailer.rootfs_path@
            &&& line@.1[2] == plan.rootfs@
            &&& copy.dest@ == plan.rootfs@
            &&& copy.uid == 1100
            &&& copy.gid == 1100
        },
{
    if r is Ok {
        let dir = jailer.vm_images_dir@;
        let name = crate::ids::hyphenated(id) + ".ext4"@;
        let path = crate::text::path_in(dir, name);
        assert(dir =~= path.subrange(0, dir.len() as int));
        assert(name =~= path.subrange(path.len() - name.len(), path.len() as int));
    }
}

/// A VM is created under a random id as it would be under that id.
pub proof fn request_is_planned_at_random(
    body: Option<CreateVmRequest>,
    jailer: JailerConfig,
    r: Result<(VmPlan, CommandLine, RootfsCopy), ApiError>,
)
    requires
        call_ensures(create, (body, &jailer), r),
    ensures
        r is Ok <==> match body {
            Some(request) => {
                &&& request.vcpus matches Some(v) ==> v == 1 || (v % 2 == 0 && 2 <= v <= 32)
                &&& request.memory_mb matches Some(m) ==> m >= 128
            },
            None => true,
        },
        r matches Err(e) ==> e.status == 422,
        r matches Ok((plan, line, copy)) ==> {
            &&& (plan.id >> 76) & 0xf == 4
            &&& (plan.id >> 62) & 3 == 2
            &&& plan.vcpus == match body {
                Some(request) => match request.vcpus {
                    Some(v) => v,
                    None => 1,
                },
                None => 1,
            }
            &&& plan.memory_mb == match body {
                Some(request) => match request.memory_mb {
                    Some(m) => m,
                    None => 128,
                },
                None => 128,
            }
            &&& body matches Some(request) ==> plan.ssh_keys@ == request.ssh_keys@
            &&& body is None ==> plan.ssh_keys@.len() == 0
            &&& (crate::ids::hyphenated(plan.id) + ".ext4"@).is_suffix_of(plan.rootfs@)
            &&& line@.1[1] == jailer.rootfs_path@
            &&& line@.1[2] == plan.rootfs@
            &&& copy.dest@ == plan.rootfs@
            &&& copy.uid == 1100
            &&& copy.gid == 1100
        },
{
    if r is Ok {
        let dir = jailer.vm_images_dir@;
        let name = crate::ids::hyphenated((r->Ok_0).0.id) + ".ext4"@;
        let path = crate::text::path_in(dir, name);
        assert(name =~= path.subrange(path.len() - name.len(), path.len() as int));
    }
}

/// Two VMs have rootfs copies, console sockets and logs of their own.
pub proof fn vms_share_no_files(dir: Seq<char>, a: u128, b: u128)
    requires
        a != b,
    ensures
        rootfs_path(dir, a) != rootfs_path(dir, b),
        vsock_socket(a) != vsock_socket(b),
        vsock_placeholder(a) != vsock_placeholder(b),
        jailer_log(a) != jailer_log(b),
{
    crate::ids::ids_told_apart(a, b);
    let (x, y) = (crate::ids::hyphenated(a), crate::ids::hyphenated(b));
    let n = rootfs_path(dir, a).len() - (x + ".ext4"@).len();
    assert(rootfs_path(dir, a).subrange(n, n + 36) =~= x);
    assert(rootfs_path(dir, b).subrange(n, n + 36) =~= y);
    let k = "/srv/jailer/firecracker/"@.len() as int;
    assert(vsock_socket(a).subrange(k, k + 36) =~= x);
    assert(vsock_socket(b).subrange(k, k + 36) =~= y);
    reveal_strlit("/srv/jailer/vsock");
    let m = vsock_placeholder(a).len() - (x + ".sock"@).len();
    assert(vsock_placeholder(a).subrange(m, m + 36) =~= x);
    assert(vsock_placeholder(b).subrange(m, m + 36) =~= y);
    let l = "/tmp/warlock-jailer-"@.len() as int;
    assert(jailer_log(a).subrange(l, l + 36) =~= x);
    assert(jailer_log(b).subrange(l, l + 36) =~= y);
}

/// The console socket lies in the root of the chroot that the jailer makes for the instance,
/// under the file name of the placeholder.
pub proof fn console_socket_is_in_the_chroot(id: u128, runtime: String, placeholder: String)
    requires
        call_ensures(vsock_runtime_path, (id,), runtime),
        call_ensures(vsock_placeholder_path, (id,), placeholder),
    ensures
        runtime@ == "/srv/jailer/firecracker/"@ + crate::ids::hyphenated(id) + "/root/"@
            + crate::ids::hyphenated(id) + ".sock"@,
        placeholder@ == "/srv/jailer/vsock/"@ + crate::ids::hyphenated(id) + ".sock"@,
        runtime@ == vsock_socket(id),
{
    reveal_strlit("/srv/jailer/vsock");
    reveal_strlit("/srv/jailer/vsock/");
    reveal_strlit("/");
    let x = crate::ids::hyphenated(id);
    assert(runtime@ =~= "/srv/jailer/firecracker/"@ + x + "/root/"@ + x + ".sock"@);
    assert(placeholder@ =~= "/srv/jailer/vsock/"@ + x + ".sock"@);
}

/// The instance of a VM is jailed by the host's jailer, which runs the host's Firecracker,
/// under the VM's id and as the jailed user, within the limits of the VM's size. It is told of
/// the VM's size, kernel, rootfs copy, tap device, addresses and socket.
pub proof fn instance_is_planned(
    jailer: JailerConfig,
    vm: StartingVm,
    kernel: &str,
    vm_rootfs: &str,
    tap_name: &str,
    guest_ip: Ipv4Addr,
    tap_ip: Ipv4Addr,
    socket: &str,
    r: InstancePlan,
)
    requires
        call_ensures(
            setup_firecracker_instance,
            (&jailer, &vm, kernel, vm_rootfs, tap_name, &guest_ip, &tap_ip, socket),
            r,
        ),
    ensures
        r.jail.jailer_path@ == jailer.jailer_path@,
        r.jail.firecracker_path@ == jailer.firecracker_path@,
        r.jail.instance_id@ == crate::ids::hyphenated(vm.id),
        r.jail.uid == 1100 && r.jail.gid == 1100,
        r.jail.new_pid_ns && r.jail.remove_workspace,
        r.jail.link_strategy == LinkStrategy::NaiveLink,
        r.jail.cgroup_version == jailer.cgroup_version,
        forall|limits: Vec<(String, String)>|
            #[trigger] call_ensures(
                build_cgroup_config,
                (jailer.cgroup_version, vm.vcpus, vm.memory_mb),
                limits,
            ) ==> crate::vm::config::settings(r.jail.cgroups@) == crate::vm::config::settings(
                limits@,
            ),
        r.jail.stderr@ == "/tmp/warlock-jailer-"@ + crate::ids::hyphenated(vm.id) + ".log"@,
        r.jail.log_path@ == "firecracker.log"@,
        r.jail.log_level@ == "Info"@,
        r.requests@.len() == 8,
        r.requests@[0] is StartVmm,
        r.requests@[1] == (InstanceRequest::MachineConfiguration {
            vcpu_count: vm.vcpus,
            mem_size_mib: vm.memory_mb,
        }),
        r.requests@[2] matches InstanceRequest::BootSource { kernel_image_path, boot_args: args }
            && kernel_image_path@ == kernel@ && forall|network: String|
            #[trigger] call_ensures(build_network_boot_args, (&guest_ip, &tap_ip), network)
                ==> args@ == "console=ttyS0 reboot=k panic=1 pci=off "@ + network@,
        r.requests@[3] matches InstanceRequest::NetworkInterface { iface_id, host_dev_name }
            && iface_id@ == "eth0"@ && host_dev_name@ == tap_name@,
        r.requests@[4] matches InstanceRequest::Drive {
            drive_id,
            path_on_host,
            is_root_device,
            is_read_only,
        } && drive_id@ == "rootfs"@ && path_on_host@ == vm_rootfs@ && is_root_device
            && !is_read_only,
        r.requests@[5] matches InstanceRequest::Vsock { guest_cid: cid, uds_path, vsock_id }
            && uds_path@ == socket@ && vsock_id@ == "vsock0"@ && cid == guest_cid(vm.id),
        r.requests@[6] is Start,
        r.requests@[7] is Describe,
{
}

/// The program that is run as the jailer is the one that was checked as the jailer, and the
/// program that it runs is the one that was checked as Firecracker.
pub proof fn checked_programs_are_run(
    facts: crate::firecracker::preflight::HostFacts,
    site: crate::firecracker::preflight::HostSite,
    config: JailerConfig,
    vm: StartingVm,
    kernel: &str,
    vm_rootfs: &str,
    tap_name: &str,
    guest_ip: Ipv4Addr,
    tap_ip: Ipv4Addr,
    socket: &str,
    r: InstancePlan,
    fc: Result<(String, String), String>,
    jail: Result<String, String>,
)
    requires
        call_ensures(
            crate::firecracker::preflight::preflight_check,
            (false, &facts, site),
            Ok::<JailerConfig, String>(config),
        ),
        call_ensures(
            setup_firecracker_instance,
            (&config, &vm, kernel, vm_rootfs, tap_name, &guest_ip, &tap_ip, socket),
            r,
        ),
        call_ensures(
            crate::firecracker::preflight::check_firecracker_binary,
            (&facts.firecracker,),
            fc,
        ),
        call_ensures(crate::firecracker::preflight::check_jailer_binary, (&facts.jailer,), jail),
    ensures
        fc matches Ok((_, path)) && r.jail.firecracker_path@ == path@,
        jail matches Ok(path) && r.jail.jailer_path@ == path@,
{
}

/// The guest's context id keeps the bits of the VM's id but for the highest of 32, which is
/// clear, and the two lowest, which are set.
pub proof fn guest_cid_keeps_bits(id: u128)
    ensures
        guest_cid(id) / 4 == ((id % 0x8000_0000) / 4),
        guest_cid(id) % 4 == 3,
        3 <= guest_cid(id) < 0x8000_0000,
{
    let low = (id % 0x1_0000_0000) as u32;
    let cid = (low & 0x7FFF_FFFF) | 3;
    assert(cid / 4 == (low % 0x8000_0000) / 4 && cid % 4 == 3 && cid < 0x8000_0000) by (bit_vector)
        requires
            cid == (low & 0x7FFF_FFFF) | 3,
    ;
    assert(low % 0x8000_0000 == id % 0x8000_0000);
}

/// What a VM holds is given back, each thing once: its tap device, then its rules, then its
/// subnet, then its rootfs copy. What it does not hold is left alone.
pub proof fn holdings_are_given_back(held: VmResources, r: Vec<CleanupStep>, i: int)
    requires
        call_ensures(cleanup_vm_resources, (&held,), r),
    ensures
        r@.len() == (if held.tap_name is Some {
            1int
        } else {
            0
        }) + (if held.nat_handles is Some {
            1int
        } else {
            0
        }) + (if held.subnet_index is Some {
            1int
        } else {
            0
        }) + (if held.rootfs_copy is Some {
            1int
        } else {
            0
        }),
        held.tap_name matches Some(name) ==> (r@[0] matches CleanupStep::DeleteTap(n) && n@
            == name@),
        held.nat_handles matches Some(handles) ==> exists|k: int|
            0 <= k < r@.len() && #[trigger] r@[k] == CleanupStep::RemoveNatRules(handles),
        held.subnet_index matches Some(index) ==> exists|k: int|
            0 <= k < r@.len() && #[trigger] r@[k] == CleanupStep::ReleaseSubnet(index),
        held.rootfs_copy matches Some(path) ==> (r@[r@.len() - 1] matches CleanupStep::RemoveRootfs(
            p,
        ) && p@ == path@),
        0 <= i < r@.len() ==> match r@[i] {
            CleanupStep::DeleteTap(name) => held.tap_name is Some && held.tap_name->0@ == name@,
            CleanupStep::RemoveNatRules(handles) => held.nat_handles == Some(handles),
            CleanupStep::ReleaseSubnet(index) => held.subnet_index == Some(index),
            CleanupStep::RemoveRootfs(path) => held.rootfs_copy is Some && held.rootfs_copy->0@
                == path@,
        },
{
    let done = acts(r@);
    assert(done.len() == r@.len());
    assert forall|k: int| 0 <= k < r@.len() implies #[trigger] done[k] == r@[k]@ by {}
    let a: int = if held.tap_name is Some {
        1
    } else {
        0
    };
    let b: int = if held.nat_handles is Some {
        a + 1
    } else {
        a
    };
    if held.tap_name is Some {
        assert(done[0] == r@[0]@);
    }
    if held.nat_handles is Some {
        assert(done[a] == CleanupAct::RemoveNatRules(held.nat_handles->0));
        assert(done[a] == r@[a]@);
    }
    if held.subnet_index is Some {
        assert(done[b] == CleanupAct::ReleaseSubnet(held.subnet_index->0));
        assert(done[b] == r@[b]@);
    }
    if held.rootfs_copy is Some {
        assert(done[done.len() - 1] == r@[r@.len() - 1]@);
    }
    if 0 <= i < r@.len() {
        assert(done[i] == r@[i]@);
    }
}

/// What a step does is what it names.
pub proof fn steps_do_what_they_name(steps: Seq<CleanupStep>, i: int)
    requires
        0 <= i < steps.len(),
    ensures
        acts(steps).len() == steps.len(),
        acts(steps)[i] == match steps[i] {
            CleanupStep::DeleteTap(name) => CleanupAct::DeleteTap(name@),
            CleanupStep::RemoveNatRules(handles) => CleanupAct::RemoveNatRules(handles),
            CleanupStep::ReleaseSubnet(index) => CleanupAct::ReleaseSubnet(index),
            CleanupStep::RemoveRootfs(path) => CleanupAct::RemoveRootfs(path@),
        },
{
}

/// An entry is taken apart into its instance, if it runs, and what gives back what it held.
pub proof fn entry_is_taken_apart<I>(
    held: VmResources,
    instance: I,
    a: (Option<I>, Vec<CleanupStep>),
    b: (Option<I>, Vec<CleanupStep>),
    steps: Vec<CleanupStep>,
)
    requires
        call_ensures(cleanup_entry::<I>, (VmEntry::Creating(held),), a),
        call_ensures(cleanup_entry::<I>, (VmEntry::Running { instance, resources: held },), b),
        call_ensures(cleanup_vm_resources, (&held,), steps),
    ensures
        a.0 is None,
        b.0 == Some(instance),
        acts(a.1@) == acts(steps@),
        acts(b.1@) == acts(steps@),
{
}

/// The handles of a network that was set up are taken; a setup that failed gives the subnet
/// back; one whose task panicked keeps it. The client learns nothing of the reason.
pub proof fn failed_network_is_internal(
    subnet: SubnetAllocation,
    handles: NatHandles,
    good: Result<NatHandles, Rejection>,
    bad: Result<NatHandles, Rejection>,
    worse: Result<NatHandles, Rejection>,
)
    requires
        call_ensures(network_set_up, (&subnet, TaskOutcome::Finished(handles)), good),
        call_ensures(network_set_up, (&subnet, TaskOutcome::<NatHandles>::Failed), bad),
        call_ensures(network_set_up, (&subnet, TaskOutcome::<NatHandles>::Panicked), worse),
    ensures
        good == Ok::<NatHandles, Rejection>(handles),
        bad matches Err(r) && r.error.status == 500 && r.error.message@ == "Internal server error"@
            && r.steps@.len() == 1 && r.steps@[0] == CleanupStep::ReleaseSubnet(subnet.index),
        worse matches Err(r) && r.error.status == 500 && r.error.message@
            == "Internal server error"@ && r.steps@.len() == 0,
{
    if bad is Err {
        let steps = bad->Err_0.steps@;
        assert(acts(steps).len() == steps.len());
        if steps.len() > 0 {
            assert(acts(steps)[0] == steps[0]@);
        }
    }
    if worse is Err {
        let steps = worse->Err_0.steps@;
        assert(acts(steps).len() == steps.len());
    }
}

/// The answer to a VM for which too little is left names what was asked for and what is left.
pub proof fn shortage_is_told(plan: VmPlan, available: u64)
    ensures
        shortage_message(plan, Shortage::Vcpus { available }) == "Insufficient vCPUs: requested "@
            + crate::decimal::decimal(plan.vcpus as nat) + " but only "@
            + crate::decimal::decimal(available as nat) + " available"@,
        shortage_message(plan, Shortage::Memory { available })
            == "Insufficient memory: requested "@ + crate::decimal::decimal(plan.memory_mb as nat)
            + " MB but only "@ + crate::decimal::decimal(available as nat) + " MB available"@,
{
}

/// A VM is summed up by its id, its size, its status, its address, and its state if it runs and
/// told it.
pub proof fn summary_tells_the_vm<I>(
    s: VmSummary,
    id: u128,
    held: VmResources,
    instance: I,
    state: Option<InstanceState>,
)
    ensures
        s.tells(id, VmEntry::<I>::Creating(held), state) ==> s.id == id && s.vcpus == held.vcpus
            && s.memory_mb == held.memory_mb && s.status@ == "creating"@ && s.state is None && (
        s.guest_ip is Some <==> held.guest_ip is Some) && (held.guest_ip is Some
            ==> s.guest_ip->0@ == held.guest_ip->0@),
        s.tells(id, VmEntry::Running { instance, resources: held }, state) ==> s.id == id && s.vcpus
            == held.vcpus && s.memory_mb == held.memory_mb && s.status@ == "running"@ && s.state
            == state && (s.guest_ip is Some <==> held.guest_ip is Some) && (held.guest_ip is Some
            ==> s.guest_ip->0@ == held.guest_ip->0@),
{
}

/// Every VM is listed once, with what it holds and the state that was reported of it.
pub proof fn every_vm_is_listed<I>(
    vms: VmRegistry<I>,
    states: std::collections::HashMap<u128, InstanceState>,
    r: ListVmsResponse,
    id: u128,
)
    requires
        call_ensures(list::<I>, (&vms, &states), r),
    ensures
        r.count == vms@.len(),
        r.vms@.len() == r.count,
        vms@.contains_key(id) ==> exists|i: int|
            {
                &&& 0 <= i < r.vms@.len()
                &&& (#[trigger] r.vms@[i]).id == id
                &&& r.vms@[i].vcpus == vms@[id].res().vcpus
                &&& r.vms@[i].memory_mb == vms@[id].res().memory_mb
                &&& r.vms@[i].status@ == if vms@[id] is Running {
                    "running"@
                } else {
                    "creating"@
                }
                &&& r.vms@[i].state == if vms@[id] is Running && states@.contains_key(id) {
                    Some(states@[id])
                } else {
                    None
                }
            },
        forall|i: int| 0 <= i < r.vms@.len() ==> vms@.contains_key((#[trigger] r.vms@[i]).id),
        forall|i: int, j: int|
            0 <= i < j < r.vms@.len() ==> (#[trigger] r.vms@[i]).id != (#[trigger] r.vms@[j]).id,
{
    if vms@.contains_key(id) {
        let i = choose|i: int| 0 <= i < r.vms@.len() && (#[trigger] r.vms@[i]).id == id;
        assert(r.vms@[i].tells(id, vms@[id], reported(states@, id)));
    }
}

/// A VM that ends with the server is one of the registry, with its instance if it runs.
pub proof fn termination_is_of_a_vm<I>(t: Termination<I>, vms: Map<u128, VmEntry<I>>)
    requires
        t.ends(vms),
    ensures
        vms.contains_key(t.id),
        vms[t.id] is Creating ==> t.instance is None,
        vms[t.id] matches VmEntry::Running { instance, .. } ==> t.instance == Some(instance),
        forall|steps: Vec<CleanupStep>|
            #[trigger] call_ensures(cleanup_vm_resources, (&vms[t.id].res(),), steps) ==> acts(
                t.steps@,
            ) == acts(steps@),
{
}

/// A guard is armed for its VM.
pub proof fn guards_start_armed(id: u128, r: CreateGuard)
    requires
        call_ensures(CreateGuard::new, (id,), r),
    ensures
        r.vm_id == id && !r.defused,
{
}

/// The network of a VM is begun with the first subnet that is free, on Linux by adding the tap
/// device of that subnet. Nothing is taken from the pool if the rootfs was not copied.
pub proof fn copied_vm_gets_a_subnet(
    outcome: TaskOutcome<()>,
    platform: Platform,
    host_interface: &str,
    pool: &mut SubnetPool,
    r: Result<(SubnetAllocation, NetworkStep), ApiError>,
)
    requires
        old(pool).wf(),
        call_ensures(rootfs_copied, (outcome, platform, host_interface, pool), r),
    ensures
        final(pool).wf(),
        r is Ok <==> outcome is Finished && !(forall|i: int| 0 <= i < 16384 ==> old(pool)@[i]),
        r is Err ==> final(pool)@ == old(pool)@,
        r matches Ok((s, step)) ==> {
            &&& s.index < 16384
            &&& !old(pool)@[s.index as int]
            &&& forall|i: int| 0 <= i < s.index ==> old(pool)@[i]
            &&& final(pool)@ == old(pool)@.update(s.index as int, true)
            &&& s.tap_ip.value() == 172 * 0x100_0000 + 16 * 0x1_0000 + 4 * s.index + 1
            &&& s.guest_ip.value() == 172 * 0x100_0000 + 16 * 0x1_0000 + 4 * s.index + 2
            &&& s.tap_name@ == "fc"@ + crate::decimal::decimal(s.index as nat)
            &&& platform == Platform::Linux ==> step is Run && step->Run_0@ == (
                "ip"@,
                seq!["tuntap"@, "add"@, s.tap_name@, "mode"@, "tap"@],
            ) && step->Run_1.tap_name@ == s.tap_name@ && step->Run_1.guest_ip == s.guest_ip
                && step->Run_1.host_iface@ == host_interface@
            &&& platform != Platform::Linux ==> step == NetworkStep::Done(
                Ok(NatHandles { postrouting: 0, filter: 0 }),
            )
        },
        r matches Err(e) ==> if outcome is Finished {
            e.status == 409 && e.message@ == "No available network subnets"@
        } else {
            e.status == 500 && e.message@ == "Internal server error"@
        },
{
}

/// A VM is let in exactly if it fits. It is then being created, and holds the size, the keys
/// and the rootfs copy of its plan, its network and its console socket. If it does not fit, its
/// network is given back, and the registry stays as it is.
pub proof fn vm_is_reserved_if_it_fits<I>(
    plan: VmPlan,
    subnet: SubnetAllocation,
    handles: NatHandles,
    vms: &mut VmRegistry<I>,
    r: Result<StartingVm, Rejection>,
)
    requires
        old(vms).wf(),
        call_ensures(VmPlan::reserve::<I>, (plan, &subnet, handles, vms), r),
    ensures
        final(vms).wf(),
        final(vms).limit() == old(vms).limit(),
        r is Ok <==> {
            &&& crate::app::allocated_vcpus(old(vms)@) + plan.vcpus <= old(vms).limit().vcpus
            &&& crate::app::allocated_memory(old(vms)@) + plan.memory_mb + 256 <= old(vms).limit().memory_mb || (plan.memory_mb == 0 && crate::app::allocated_memory(
                old(vms)@,
            ) == 0)
        },
        r matches Ok(vm) ==> {
            &&& vm.id == plan.id && vm.vcpus == plan.vcpus && vm.memory_mb == plan.memory_mb
            &&& vm.guest_ip@ == subnet.guest_ip.text()
            &&& final(vms)@.contains_key(plan.id)
            &&& final(vms)@.remove(plan.id) == old(vms)@.remove(plan.id)
            &&& final(vms)@[plan.id] matches VmEntry::Creating(held)
            &&& held.vcpus == plan.vcpus && held.memory_mb == plan.memory_mb
            &&& held.ssh_keys@ == plan.ssh_keys@
            &&& held.subnet_index == Some(subnet.index)
            &&& held.nat_handles == Some(handles)
            &&& held.rootfs_copy is Some && held.rootfs_copy->0@ == plan.rootfs@
            &&& held.tap_name is Some && held.tap_name->0@ == subnet.tap_name@
            &&& held.guest_ip is Some && held.guest_ip->0@ == subnet.guest_ip.text()
            &&& held.vsock_uds_path is Some && held.vsock_uds_path->0@ == vsock_socket(plan.id)
        },
        r matches Err(rejection) ==> {
            &&& final(vms)@ == old(vms)@
            &&& rejection.error.status == 409
            &&& rejection.steps@.len() == 3
            &&& rejection.steps@[0] == CleanupStep::RemoveNatRules(handles)
            &&& rejection.steps@[1] is DeleteTap
            &&& rejection.steps@[1]->DeleteTap_0@ == subnet.tap_name@
            &&& rejection.steps@[2] == CleanupStep::ReleaseSubnet(subnet.index)
        },
        r matches Err(rejection) ==> crate::app::allocated_vcpus(old(vms)@) + plan.vcpus > old(
            vms).limit().vcpus ==> rejection.error.message@ == "Insufficient vCPUs: requested "@
            + crate::decimal::decimal(plan.vcpus as nat) + " but only "@ + crate::decimal::decimal(
            (old(vms).limit().vcpus - crate::app::allocated_vcpus(old(vms)@)) as nat,
        ) + " available"@,
{
}

/// A VM whose instance could not be started is removed, whatever it held is given back, and
/// the client learns nothing of the reason.
pub proof fn failed_vm_is_removed<I>(
    vm: StartingVm,
    vms: &mut VmRegistry<I>,
    r: (Option<I>, Rejection),
)
    requires
        old(vms).wf(),
        call_ensures(StartingVm::failed::<I>, (&vm, vms), r),
    ensures
        final(vms).wf(),
        final(vms)@ == old(vms)@.remove(vm.id),
        r.1.error.status == 500 && r.1.error.message@ == "Internal server error"@,
        old(vms)@.contains_key(vm.id) ==> forall|steps: Vec<CleanupStep>|
            #[trigger] call_ensures(cleanup_vm_resources, (&old(vms)@[vm.id].res(),), steps)
                ==> acts(r.1.steps@) == acts(steps@),
        !old(vms)@.contains_key(vm.id) ==> r.1.steps@.len() == 0 && r.0 is None,
        old(vms)@.contains_key(vm.id) && old(vms)@[vm.id] is Creating ==> r.0 is None,
{
    if !old(vms)@.contains_key(vm.id) {
        assert(acts(r.1.steps@).len() == r.1.steps@.len());
    }
}

/// A VM whose instance was started runs with that instance and keeps what it holds. The client
/// is answered with 202, the VM as it was asked for, and what the instance reported.
pub proof fn started_vm_runs<I>(
    vm: StartingVm,
    instance: I,
    info: InstanceInfo,
    vms: &mut VmRegistry<I>,
    r: (u16, CreateVmResponse),
)
    requires
        old(vms).wf(),
        call_ensures(StartingVm::started::<I>, (vm, instance, info, vms), r),
    ensures
        final(vms).wf(),
        final(vms)@.remove(vm.id) == old(vms)@.remove(vm.id),
        old(vms)@.contains_key(vm.id) && old(vms)@[vm.id] is Creating ==> final(vms)@.contains_key(vm.id) && final(vms)@[vm.id] == (VmEntry::Running {
            instance,
            resources: old(vms)@[vm.id]->Creating_0,
        }),
        r.0 == 202,
        r.1.id == vm.id && r.1.vcpus == vm.vcpus && r.1.memory_mb == vm.memory_mb,
        r.1.guest_ip@ == vm.guest_ip@,
        r.1.state == info.state,
        r.1.vmm_version@ == info.vmm_version@,
{
    assert(final(vms)@.remove(vm.id) =~= old(vms)@.remove(vm.id));
}

/// A VM that runs is deleted, with its instance and all that it held; one that is being created
/// is not, nor is one that is not there. No other VM is touched.
pub proof fn running_vm_is_deleted<I>(
    vms: &mut VmRegistry<I>,
    id: u128,
    r: Result<Deletion<I>, ApiError>,
)
    requires
        old(vms).wf(),
        call_ensures(delete::<I>, (vms, id), r),
    ensures
        final(vms).wf(),
        r is Ok <==> old(vms)@.contains_key(id) && old(vms)@[id] is Running,
        r matches Ok(d) ==> {
            &&& final(vms)@ == old(vms)@.remove(id)
            &&& d.instance == old(vms)@[id]->instance
            &&& d.response.id == id
            &&& d.response.deleted
            &&& forall|steps: Vec<CleanupStep>|
                #[trigger] call_ensures(
                    cleanup_vm_resources,
                    (&old(vms)@[id]->Running_resources,),
                    steps,
                ) ==> acts(d.steps@) == acts(steps@)
        },
        r matches Err(e) ==> final(vms)@ == old(vms)@ && if old(vms)@.contains_key(id) {
            e.status == 409 && e.message@ == "VM is still being created, try again shortly"@
        } else {
            e.status == 404 && e.message@ == "VM not found"@
        },
{
}

/// A VM can be asked for exactly if it runs, and asking changes no VM but for what becomes of
/// the instance.
pub proof fn running_vm_is_found<I>(
    vms: &mut VmRegistry<I>,
    id: u128,
    r: Result<&mut I, ApiError>,
)
    requires
        old(vms).wf(),
        call_ensures(get::<I>, (vms, id), r),
    ensures
        final(vms).wf(),
        r is Ok <==> old(vms)@.contains_key(id) && old(vms)@[id] is Running,
        r matches Ok(i) ==> *i == old(vms)@[id]->instance && final(vms)@.remove(id) == old(vms)@.remove(id) && final(vms)@[id].res() == old(vms)@[id].res(),
        r matches Err(e) ==> final(vms)@ == old(vms)@ && if old(vms)@.contains_key(id) {
            e.status == 409 && e.message@ == "VM is still being created"@
        } else {
            e.status == 404 && e.message@ == "VM not found"@
        },
{
    if r is Ok {
        assert(final(vms)@.remove(id) =~= old(vms)@.remove(id));
    }
}

/// A guard that was not disarmed removes its VM, and gives back what the VM held if it was
/// still being created; a disarmed one does nothing.
pub proof fn armed_guard_removes_its_vm<I>(
    guard: CreateGuard,
    vms: &mut VmRegistry<I>,
    r: Vec<CleanupStep>,
)
    requires
        old(vms).wf(),
        call_ensures(CreateGuard::dropped::<I>, (&guard, vms), r),
    ensures
        final(vms).wf(),
        guard.defused ==> final(vms)@ == old(vms)@ && r@.len() == 0,
        !guard.defused ==> final(vms)@ == old(vms)@.remove(guard.vm_id),
        !guard.defused && old(vms)@.contains_key(guard.vm_id) && old(vms)@[guard.vm_id] is Creating
            ==> forall|steps: Vec<CleanupStep>|
            #[trigger] call_ensures(
                cleanup_vm_resources,
                (&old(vms)@[guard.vm_id]->Creating_0,),
                steps,
            ) ==> acts(r@) == acts(steps@),
        !(old(vms)@.contains_key(guard.vm_id) && old(vms)@[guard.vm_id] is Creating) ==> r@.len()
            == 0,
{
    assert(acts(r@).len() == r@.len());
}

/// A guard that is disarmed stays that of its VM.
pub proof fn defused_guard_is_disarmed(guard: &mut CreateGuard)
    requires
        call_ensures(CreateGuard::defuse, (guard,), ()),
    ensures
        final(guard).defused,
        final(guard).vm_id == old(guard).vm_id,
{
}

/// The end of the server ends every VM once and leaves none.
pub proof fn every_vm_is_ended<I>(vms: &mut VmRegistry<I>, r: Vec<Termination<I>>)
    requires
        old(vms).wf(),
        call_ensures(shut_down::<I>, (vms,), r),
    ensures
        final(vms)@ == Map::<u128, VmEntry<I>>::empty(),
        r@.len() == old(vms)@.len(),
        forall|i: int| 0 <= i < r@.len() ==> old(vms)@.contains_key((#[trigger] r@[i]).id),
        forall|i: int|
            0 <= i < r@.len() ==> (#[trigger] r@[i]).instance == match old(vms)@[r@[i].id] {
                VmEntry::Running { instance, .. } => Some(instance),
                VmEntry::Creating(_) => None,
            },
        forall|i: int, j: int|
            0 <= i < j < r@.len() ==> (#[trigger] r@[i]).id != (#[trigger] r@[j]).id,
        forall|i: int, steps: Vec<CleanupStep>|
            0 <= i < r@.len() && #[trigger] call_ensures(
                cleanup_vm_resources,
                (&old(vms)@[r@[i].id].res(),),
                steps,
            ) ==> acts(r@[i].steps@) == acts(steps@),
{
    assert forall|i: int| 0 <= i < r@.len() implies old(vms)@.contains_key((#[trigger] r@[i]).id)
        && r@[i].instance == match old(vms)@[r@[i].id] {
        VmEntry::Running { instance, .. } => Some(instance),
        VmEntry::Creating(_) => None,
    } by {
        assert(r@[i].ends(old(vms)@));
    }
    assert forall|i: int, steps: Vec<CleanupStep>|
        0 <= i < r@.len() && #[trigger] call_ensures(
            cleanup_vm_resources,
            (&old(vms)@[r@[i].id].res(),),
            steps,
        ) implies acts(r@[i].steps@) == acts(steps@) by {
        assert(r@[i].ends(old(vms)@));
    }
}

/// A refused size is answered with the reason: the vCPUs, or else the memory.
pub proof fn refused_size_is_told(
    body: CreateVmRequest,
    id: u128,
    jailer: JailerConfig,
    r: Result<(VmPlan, CommandLine, RootfsCopy), ApiError>,
)
    requires
        call_ensures(create_with_id, (Some(body), id, &jailer), r),
    ensures
        body.vcpus is Some && (body.vcpus->0 == 0 || body.vcpus->0 > 32 || (body.vcpus->0 != 1
            && body.vcpus->0 % 2 == 1)) ==> (r matches Err(e) && e.message@
            == "vcpus must be 1 or an even number between 2 and 32"@),
        r matches Err(e) ==> e.message@ == "vcpus must be 1 or an even number between 2 and 32"@
            || (body.memory_mb is Some && body.memory_mb->0 < 128 && e.message@
            == "memory_mb must be at least "@ + seq!['1', '2', '8']),
        body.memory_mb is Some && body.memory_mb->0 < 128 && body.vcpus is None ==> (r matches Err(
            e,
        ) && e.message@ == "memory_mb must be at least "@ + seq!['1', '2', '8']),
{
    reveal_with_fuel(crate::decimal::decimal, 4);
    assert(crate::decimal::decimal(128) =~= seq!['1', '2', '8']);
}

/// Every listed VM is listed with the address that it holds.
pub proof fn listed_vms_have_their_address<I>(
    vms: VmRegistry<I>,
    states: std::collections::HashMap<u128, InstanceState>,
    r: ListVmsResponse,
    i: int,
)
    requires
        call_ensures(list::<I>, (&vms, &states), r),
        0 <= i < r.vms@.len(),
    ensures
        r.vms@[i].guest_ip is Some <==> vms@[r.vms@[i].id].res().guest_ip is Some,
        r.vms@[i].guest_ip matches Some(ip) ==> ip@ == vms@[r.vms@[i].id].res().guest_ip->0@,
{
    assert(r.vms@[i].tells(r.vms@[i].id, vms@[r.vms@[i].id], reported(states@, r.vms@[i].id)));
}

/// The rootfs copy of a VM lies in the directory of the copies, under the VM's id.
pub proof fn copy_lies_in_the_images_dir(
    body: Option<CreateVmRequest>,
    id: u128,
    jailer: JailerConfig,
    r: Result<(VmPlan, CommandLine, RootfsCopy), ApiError>,
)
    requires
        call_ensures(create_with_id, (body, id, &jailer), r),
    ensures
        r matches Ok((plan, _, _)) ==> {
            let dir = jailer.vm_images_dir@;
            let name = crate::ids::hyphenated(id) + seq!['.', 'e', 'x', 't', '4'];
            &&& dir.len() > 0 && dir.last() != '/' ==> plan.rootfs@ == dir + seq!['/'] + name
            &&& dir.len() > 0 && dir.last() == '/' ==> plan.rootfs@ == dir + name
            &&& dir.len() == 0 ==> plan.rootfs@ == name
        },
        r matches Ok((_, _, copy)) ==> copy.stage is Copying,
{
    reveal_strlit(".ext4");
    reveal_strlit("/");
    assert(".ext4"@ =~= seq!['.', 'e', 'x', 't', '4']);
    assert("/"@ =~= seq!['/']);
    if r is Ok {
        let dir = jailer.vm_images_dir@;
        let name = crate::ids::hyphenated(id) + ".ext4"@;
        if dir.len() == 0 {
            assert(dir + name =~= name);
        }
    }
}

/// A VM that is created under a random id is planned, or refused, as it is under that id.
pub proof fn random_id_changes_nothing(
    body: Option<CreateVmRequest>,
    jailer: JailerConfig,
    r: Result<(VmPlan, CommandLine, RootfsCopy), ApiError>,
    id: u128,
    s: Result<(VmPlan, CommandLine, RootfsCopy), ApiError>,
)
    requires
        call_ensures(create, (body, &jailer), r),
        r is Ok ==> (r->Ok_0).0.id == id,
        call_ensures(create_with_id, (body, id, &jailer), s),
    ensures
        r is Ok <==> s is Ok,
        r is Ok ==> {
            let (plan, line, copy) = r->Ok_0;
            let (other, second, made) = s->Ok_0;
            &&& plan.id == other.id && plan.vcpus == other.vcpus
            &&& plan.memory_mb == other.memory_mb
            &&& plan.ssh_keys@ == other.ssh_keys@
            &&& plan.rootfs@ == other.rootfs@
            &&& line@ == second@
            &&& copy.dest@ == made.dest@ && copy.uid == made.uid && copy.gid == made.gid
            &&& copy.stage == made.stage
        },
        r matches Err(e) ==> e.status == s->Err_0.status && e.message@ == s->Err_0.message@,
{
}

/// The network of a VM is begun with all that belongs to its subnet, each in its place.
pub proof fn network_is_of_the_subnet(
    outcome: TaskOutcome<()>,
    host_interface: &str,
    pool: &mut SubnetPool,
    r: Result<(SubnetAllocation, NetworkStep), ApiError>,
)
    requires
        old(pool).wf(),
        call_ensures(rootfs_copied, (outcome, Platform::Linux, host_interface, pool), r),
    ensures
        r matches Ok((s, step)) ==> {
            &&& step matches NetworkStep::Run(_, setup)
            &&& setup.wf()
            &&& setup.stage is CreatingTap
            &&& setup.stage->CreatingTap_0.name@ == s.tap_name@
            &&& setup.stage->CreatingTap_0.tap_ip == s.tap_ip
            &&& setup.stage->CreatingTap_0.stage is Adding
            &&& setup.guest_ip == s.guest_ip
            &&& setup.host_iface@ == host_interface@
        },
{
}

/// What a VM holds is given back in one order: what stands before a thing in that order stands
/// before it in the steps.
pub proof fn holdings_are_given_back_in_order(held: VmResources, r: Vec<CleanupStep>)
    requires
        call_ensures(cleanup_vm_resources, (&held,), r),
    ensures
        held.nat_handles matches Some(handles) ==> r@[if held.tap_name is Some {
            1int
        } else {
            0
        }] == CleanupStep::RemoveNatRules(handles),
        held.subnet_index matches Some(index) ==> r@[(if held.tap_name is Some {
            1int
        } else {
            0
        }) + (if held.nat_handles is Some {
            1int
        } else {
            0
        })] == CleanupStep::ReleaseSubnet(index),
{
    let done = acts(r@);
    assert(done.len() == r@.len());
    let a: int = if held.tap_name is Some {
        1
    } else {
        0
    };
    let b: int = if held.nat_handles is Some {
        a + 1
    } else {
        a
    };
    if held.nat_handles is Some {
        assert(done[a] == CleanupAct::RemoveNatRules(held.nat_handles->0));
        assert(done[a] == r@[a]@);
    }
    if held.subnet_index is Some {
        assert(done[b] == CleanupAct::ReleaseSubnet(held.subnet_index->0));
        assert(done[b] == r@[b]@);
    }
}

/// A VM whose vCPUs fit and whose memory does not is answered with the memory that is left.
pub proof fn memory_shortage_is_answered<I>(
    plan: VmPlan,
    subnet: SubnetAllocation,
    handles: NatHandles,
    vms: &mut VmRegistry<I>,
    r: Result<StartingVm, Rejection>,
)
    requires
        old(vms).wf(),
        call_ensures(VmPlan::reserve::<I>, (plan, &subnet, handles, vms), r),
        r is Err,
        crate::app::allocated_vcpus(old(vms)@) + plan.vcpus <= old(vms).limit().vcpus,
    ensures
        r->Err_0.error.message@ == "Insufficient memory: requested "@ + crate::decimal::decimal(
            plan.memory_mb as nat,
        ) + " MB but only "@ + crate::decimal::decimal(
            if old(vms).limit().memory_mb >= 256 {
                (old(vms).limit().memory_mb - 256 - crate::app::allocated_memory(old(vms)@)) as nat
            } else {
                0
            },
        ) + " MB available"@,
{
}

/// A VM that fails while it runs hands its instance back; one that is started twice, or was
/// removed before, is not kept. What the host has never changes.
pub proof fn other_states_are_ended<I>(
    vm: StartingVm,
    failing: &mut VmRegistry<I>,
    f: (Option<I>, Rejection),
    instance: I,
    info: InstanceInfo,
    starting: &mut VmRegistry<I>,
    s: (u16, CreateVmResponse),
)
    requires
        old(failing).wf(),
        old(starting).wf(),
        call_ensures(StartingVm::failed::<I>, (&vm, failing), f),
        call_ensures(StartingVm::started::<I>, (vm, instance, info, starting), s),
    ensures
        final(failing).limit() == old(failing).limit(),
        final(starting).limit() == old(starting).limit(),
        old(failing)@.contains_key(vm.id) && old(failing)@[vm.id] is Running ==> f.0 == Some(
            old(failing)@[vm.id]->instance,
        ),
        !(old(starting)@.contains_key(vm.id) && old(starting)@[vm.id] is Creating) ==> !final(starting)@.contains_key(
            vm.id,
        ),
{
}

/// Asking for a VM, deleting it, dropping its guard and ending all VMs change nothing of what
/// the host has; an instance that was asked for stays that of its VM.
pub proof fn host_stays_the_same<I>(
    asked: &mut VmRegistry<I>,
    deleted: &mut VmRegistry<I>,
    guarded: &mut VmRegistry<I>,
    ended: &mut VmRegistry<I>,
    id: u128,
    guard: CreateGuard,
    a: Result<&mut I, ApiError>,
    d: Result<Deletion<I>, ApiError>,
    g: Vec<CleanupStep>,
    e: Vec<Termination<I>>,
)
    requires
        old(asked).wf(),
        old(deleted).wf(),
        old(guarded).wf(),
        old(ended).wf(),
        call_ensures(get::<I>, (asked, id), a),
        call_ensures(delete::<I>, (deleted, id), d),
        call_ensures(CreateGuard::dropped::<I>, (&guard, guarded), g),
        call_ensures(shut_down::<I>, (ended,), e),
    ensures
        final(asked).limit() == old(asked).limit(),
        final(deleted).limit() == old(deleted).limit(),
        final(guarded).limit() == old(guarded).limit(),
        final(ended).limit() == old(ended).limit(),
        a matches Ok(i) ==> final(asked)@.contains_key(id) && final(asked)@[id]
            == (VmEntry::Running {
            instance: *final(i),
            resources: old(asked)@[id]->Running_resources,
        }),
{
}

} // verus!
