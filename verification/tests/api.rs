use std::collections::HashMap;
use warlock::app::{fallback, Shortage, VmEntry, VmRegistry, VmResources};
use warlock::capacity::{available_capacity, total_cpus, total_memory_mb, Capacity, CapacityError};
use warlock::command::CommandOutcome;
use warlock::error::ApiError;
use warlock::firecracker::network::{NatHandles, NetworkStep};
use warlock::firecracker::{CopyStrategy, JailerConfig};
use warlock::firecracker::orphan::{
    parse_fc_tap_devices, remove_stale_jailer_logs, remove_stale_rootfs_copies, DirEntry,
};
use warlock::handlers::healthcheck::{health, ready, CapacityInfo, VmInfo};
use warlock::handlers::vm::{
    create, create_with_id, delete, get, list, network_set_up, rootfs_copied,
    setup_firecracker_instance, shut_down, vsock_placeholder_path, vsock_runtime_path,
    CleanupStep, CreateGuard, CreateVmRequest, InstanceInfo, InstanceRequest, InstanceState,
    LinkStrategy, StartingVm, TaskOutcome, VmPlan,
};
use warlock::platform::Platform;
use warlock::ssh::session::SessionHandler;
use warlock::vm::network::{tap_name, Ipv4Addr, SubnetAllocation, SubnetPool};
use warlock::vm::rootfs::CopyStep;

const ID: u128 = 0x00112233_4455_6677_8899_aabbccddeeff;
const OTHER: u128 = 0x7c9e6679_7425_40de_944b_e07fc1f90ae7;

fn jailer() -> JailerConfig {
    JailerConfig {
        cgroup_version: 2,
        firecracker_path: "/usr/bin/firecracker".to_string(),
        jailer_path: "/usr/bin/jailer".to_string(),
        kernel_path: "/tmp/fake-kernel".to_string(),
        rootfs_path: "/tmp/fake-rootfs".to_string(),
        vm_images_dir: "/tmp/fake-vm-images".to_string(),
        copy_strategy: CopyStrategy::Sparse,
        host_interface: "eth0".to_string(),
    }
}

fn registry() -> VmRegistry<u32> {
    VmRegistry::new(Capacity { memory_mb: 4096, vcpus: 8 })
}

fn bare_resources() -> VmResources {
    VmResources {
        vcpus: 1,
        memory_mb: 128,
        rootfs_copy: None,
        tap_name: None,
        subnet_index: None,
        nat_handles: None,
        guest_ip: None,
        vsock_uds_path: None,
        ssh_keys: vec![],
    }
}

fn request(vcpus: Option<u8>, memory_mb: Option<u32>) -> Option<CreateVmRequest> {
    Some(CreateVmRequest { vcpus, memory_mb, ssh_keys: vec![] })
}

fn ok() -> CommandOutcome {
    CommandOutcome::Finished { success: true, stdout: String::new(), stderr: String::new() }
}

fn failed(stderr: &str) -> CommandOutcome {
    CommandOutcome::Finished {
        success: false,
        stdout: String::new(),
        stderr: stderr.to_string(),
    }
}

fn shown(steps: &Vec<CleanupStep>) -> Vec<String> {
    steps.iter().map(|s| format!("{:?}", s)).collect()
}

/// Brings a VM up to the point at which its instance is to be started.
fn reserve(
    vms: &mut VmRegistry<u32>,
    pool: &mut SubnetPool,
    id: u128,
    body: Option<CreateVmRequest>,
) -> (StartingVm, SubnetAllocation) {
    let (plan, _, _) = create_with_id(body, id, &jailer()).unwrap();
    let copied = TaskOutcome::Finished(());
    let (subnet, _) = rootfs_copied(copied, Platform::Linux, "eth0", pool).unwrap();
    let handles = NatHandles { postrouting: 3, filter: 5 };
    let vm = plan.reserve(&subnet, handles, vms).unwrap();
    (vm, subnet)
}

fn running() -> InstanceInfo {
    InstanceInfo { state: InstanceState::Running, vmm_version: "1.14.1".to_string() }
}

// ── Errors ──

#[test]
fn into_response_returns_json_error_body() {
    let (status, body) = ApiError::not_found("VM not found").into_response();
    assert_eq!(status, 404);
    assert_eq!(body.error, "VM not found");
}

#[test]
fn into_response_internal_error() {
    let (status, body) = ApiError::internal("something broke").into_response();
    assert_eq!(status, 500);
    assert_eq!(body.error, "something broke");
}

#[test]
fn into_response_conflict() {
    let (status, body) = ApiError::conflict("resource busy").into_response();
    assert_eq!(status, 409);
    assert_eq!(body.error, "resource busy");
}

#[test]
fn into_response_unprocessable() {
    let (status, body) = ApiError::unprocessable("bad input").into_response();
    assert_eq!(status, 422);
    assert_eq!(body.error, "bad input");
}

#[test]
fn new_error_has_its_status() {
    let (status, body) = ApiError::new(418, "teapot").into_response();
    assert_eq!(status, 418);
    assert_eq!(body.error, "teapot");
}

#[test]
fn from_anyhow_obfuscates_error_message() {
    let original = anyhow::Error::msg("secret database connection string leaked");
    let api_err: ApiError = original.into();
    let (status, body) = api_err.into_response();
    assert_eq!(status, 500);
    assert_eq!(body.error, "Internal server error");
}

#[test]
fn unknown_route_returns_not_found_json() {
    let (status, body) = fallback().into_response();
    assert_eq!(status, 404);
    assert_eq!(body.error, "Not found");
}

// ── Capacity ──

#[test]
fn capacity_of_the_host() {
    let capacity = available_capacity(Some(8 * 1024 * 1024 * 1024 + 5), Some(6)).unwrap();
    assert_eq!(capacity, Capacity { memory_mb: 8192, vcpus: 6 });
    assert_eq!(capacity.allocatable_memory_mb(), 7936);
    assert_eq!(total_memory_mb(Some(1024 * 1024 - 1)), Ok(0));
    assert_eq!(total_memory_mb(None), Err(CapacityError::UnknownMemory));
    assert_eq!(available_capacity(None, Some(6)), Err(CapacityError::UnknownMemory));
    assert_eq!(total_cpus(None), 1);
    assert_eq!(total_cpus(Some(1)), 1);
    assert_eq!(total_cpus(Some(255)), 255);
    assert_eq!(total_cpus(Some(256)), 255);
    assert_eq!(total_cpus(Some(258)), 255);
    assert_eq!(available_capacity(Some(0), Some(512)).unwrap().vcpus, 255);
    assert_eq!(Capacity { memory_mb: 100, vcpus: 1 }.allocatable_memory_mb(), 0);
}

// ── Probes ──

#[test]
fn liveness_returns_200_with_ok_status() {
    assert_eq!(health().status, "ok");
}

#[test]
fn readiness_returns_200_with_enriched_json() {
    let vms = registry();
    let body = ready("0.1.0", &vms.capacity(), &CopyStrategy::Sparse, Some(&vms));
    assert_eq!(body.status, "ready");
    assert_eq!(body.version, "0.1.0");
    assert_eq!(
        body.capacity,
        Some(CapacityInfo { total_memory_mb: 4096, allocatable_memory_mb: 3840, total_vcpus: 8 })
    );
    assert_eq!(body.vms.unwrap().count, 0);
    assert_eq!(body.copy_strategy, Some("sparse"));
}

#[test]
fn readiness_leaves_out_vms_under_contention() {
    let capacity = Capacity { memory_mb: 4096, vcpus: 8 };
    let body = ready::<u32>("0.1.0", &capacity, &CopyStrategy::Reflink, None);
    assert!(body.vms.is_none());
    assert_eq!(body.copy_strategy, Some("reflink"));
}

#[test]
fn healthcheck_reflects_allocated_resources() {
    let mut vms = registry();
    let mut pool = SubnetPool::new();
    reserve(&mut vms, &mut pool, ID, None);
    reserve(&mut vms, &mut pool, OTHER, request(Some(2), Some(256)));
    let body = ready("0.1.0", &vms.capacity(), &CopyStrategy::Sparse, Some(&vms));
    assert_eq!(
        body.vms,
        Some(VmInfo { count: 2, allocated_vcpus: 3, allocated_memory_mb: 384 })
    );
}

// ── List ──

#[test]
fn list_vms_returns_empty_list() {
    let body = list(&registry(), &HashMap::new());
    assert_eq!(body.count, 0);
    assert!(body.vms.is_empty());
}

#[test]
fn list_tells_status_and_state() {
    let mut vms = registry();
    let mut pool = SubnetPool::new();
    let (vm, _) = reserve(&mut vms, &mut pool, ID, None);
    vm.started(7, running(), &mut vms);
    reserve(&mut vms, &mut pool, OTHER, request(Some(2), Some(256)));
    let mut states = HashMap::new();
    states.insert(ID, InstanceState::Paused);
    states.insert(OTHER, InstanceState::Running);
    let body = list(&vms, &states);
    assert_eq!(body.count, 2);
    let first = body.vms.iter().find(|s| s.id == ID).unwrap();
    assert_eq!(first.status, "running");
    assert_eq!(first.state, Some(InstanceState::Paused));
    assert_eq!(first.guest_ip, Some("172.16.0.2".to_string()));
    let second = body.vms.iter().find(|s| s.id == OTHER).unwrap();
    assert_eq!(second.status, "creating");
    assert_eq!(second.state, None);
    assert_eq!(second.vcpus, 2);
    assert_eq!(second.memory_mb, 256);
    assert_eq!(second.guest_ip, Some("172.16.0.6".to_string()));
}

#[test]
fn list_tolerates_a_failed_query() {
    let mut vms = registry();
    let mut pool = SubnetPool::new();
    let (vm, _) = reserve(&mut vms, &mut pool, ID, None);
    vm.started(7, running(), &mut vms);
    let body = list(&vms, &HashMap::new());
    assert_eq!(body.vms[0].status, "running");
    assert_eq!(body.vms[0].state, None);
}

// ── Validation ──

#[test]
fn create_vm_rejects_zero_vcpus() {
    let error = create(request(Some(0), None), &jailer()).unwrap_err();
    assert_eq!(error.status, 422);
    assert!(error.message.contains("vcpus"));
}

#[test]
fn create_vm_rejects_odd_vcpus() {
    let error = create(request(Some(3), None), &jailer()).unwrap_err();
    assert_eq!(error.status, 422);
    assert!(error.message.contains("vcpus"));
}

#[test]
fn create_vm_rejects_vcpus_over_max() {
    let error = create(request(Some(33), None), &jailer()).unwrap_err();
    assert_eq!(error.status, 422);
    assert!(error.message.contains("vcpus"));
}

#[test]
fn create_vm_rejects_memory_below_minimum() {
    let error = create(request(None, Some(64)), &jailer()).unwrap_err();
    assert_eq!(error.status, 422);
    assert!(error.message.contains("memory_mb"));
}

// ── Not found and conflict ──

#[test]
fn get_nonexistent_vm_returns_404() {
    let mut vms = registry();
    let error = get(&mut vms, ID).unwrap_err();
    assert_eq!(error.status, 404);
    assert_eq!(error.message, "VM not found");
}

#[test]
fn delete_nonexistent_vm_returns_404() {
    let mut vms = registry();
    let error = delete(&mut vms, ID).err().unwrap();
    assert_eq!(error.status, 404);
    assert_eq!(error.message, "VM not found");
}

#[test]
fn get_vm_in_creating_state_returns_409() {
    let mut vms = registry();
    vms.reserve(ID, bare_resources()).unwrap();
    let error = get(&mut vms, ID).unwrap_err();
    assert_eq!(error.status, 409);
    assert_eq!(error.message, "VM is still being created");
}

#[test]
fn delete_vm_in_creating_state_returns_409_and_preserves_entry() {
    let mut vms = registry();
    vms.reserve(ID, bare_resources()).unwrap();
    let error = delete(&mut vms, ID).err().unwrap();
    assert_eq!(error.status, 409);
    assert_eq!(error.message, "VM is still being created, try again shortly");
    assert!(vms.entry(ID).is_some());
}

// ── Creation, step by step ──

#[test]
fn create_draws_a_random_id() {
    let (plan, _, _) = create(None, &jailer()).unwrap();
    assert_eq!((plan.id >> 76) & 0xf, 4);
    assert_eq!((plan.id >> 62) & 3, 2);
    let (next, _, _) = create(None, &jailer()).unwrap();
    assert_ne!(plan.id, next.id);
    assert_eq!(
        plan.rootfs,
        format!("/tmp/fake-vm-images/{}.ext4", uuid::Uuid::from_u128(plan.id))
    );
}

#[test]
fn create_copies_the_rootfs_first() {
    let (plan, line, copy) = create_with_id(None, ID, &jailer()).unwrap();
    assert_eq!(plan.vcpus, 1);
    assert_eq!(plan.memory_mb, 128);
    assert!(plan.ssh_keys.is_empty());
    let dest = "/tmp/fake-vm-images/00112233-4455-6677-8899-aabbccddeeff.ext4";
    assert_eq!(plan.rootfs, dest);
    assert_eq!(line.program, "cp");
    assert_eq!(line.args, vec!["--sparse=always", "/tmp/fake-rootfs", dest]);
    let CopyStep::Run(line, copy) = copy.next(&ok()) else {
        panic!("chown must follow");
    };
    assert_eq!(line.program, "chown");
    assert_eq!(line.args, vec!["1100:1100", dest]);
    assert!(matches!(copy.next(&ok()), CopyStep::Done(Ok(()))));
}

#[test]
fn reflink_copies_on_capable_filesystems() {
    let mut config = jailer();
    config.copy_strategy = CopyStrategy::Reflink;
    config.vm_images_dir = "/srv/images/".to_string();
    let (plan, line, _) = create_with_id(None, ID, &config).unwrap();
    assert_eq!(line.args[0], "--reflink=always");
    assert_eq!(plan.rootfs, "/srv/images/00112233-4455-6677-8899-aabbccddeeff.ext4");
}

#[test]
fn failed_rootfs_copies_are_explained() {
    let (_, _, copy) = create_with_id(None, ID, &jailer()).unwrap();
    assert!(matches!(
        copy.next(&CommandOutcome::NotStarted),
        CopyStep::Done(Err(msg)) if msg == "Failed to execute cp"
    ));
    let (_, _, copy) = create_with_id(None, ID, &jailer()).unwrap();
    assert!(matches!(
        copy.next(&failed(" disk full\n")),
        CopyStep::Done(Err(msg)) if msg == "Failed to copy rootfs: disk full"
    ));
    let (_, _, copy) = create_with_id(None, ID, &jailer()).unwrap();
    let CopyStep::Run(_, copy) = copy.next(&ok()) else {
        panic!("chown must follow");
    };
    assert!(matches!(
        copy.next(&failed("denied")),
        CopyStep::Done(Err(msg)) if msg == "Failed to chown rootfs copy: denied"
    ));
    let (_, _, copy) = create_with_id(None, ID, &jailer()).unwrap();
    let CopyStep::Run(_, copy) = copy.next(&ok()) else {
        panic!("chown must follow");
    };
    assert!(matches!(
        copy.next(&CommandOutcome::NotStarted),
        CopyStep::Done(Err(msg)) if msg == "Failed to execute chown"
    ));
}

#[test]
fn create_vm_with_valid_config_returns_obfuscated_internal_error() {
    let mut pool = SubnetPool::new();
    create(request(Some(1), Some(128)), &jailer()).unwrap();
    let error = rootfs_copied(TaskOutcome::Failed, Platform::Linux, "eth0", &mut pool).unwrap_err();
    assert_eq!(error.status, 500);
    assert_eq!(error.message, "Internal server error");
}

#[test]
fn create_vm_with_empty_body_returns_obfuscated_internal_error() {
    let mut pool = SubnetPool::new();
    create(request(None, None), &jailer()).unwrap();
    let copied = TaskOutcome::Panicked;
    let error = rootfs_copied(copied, Platform::Linux, "eth0", &mut pool).unwrap_err();
    assert_eq!(error.status, 500);
    assert_eq!(error.message, "Internal server error");
    assert_eq!(pool.allocate().unwrap().index, 0);
}

#[test]
fn create_needs_a_free_subnet() {
    let mut pool = SubnetPool::new();
    while pool.allocate().is_some() {}
    let copied = TaskOutcome::Finished(());
    let error = rootfs_copied(copied, Platform::Linux, "eth0", &mut pool).unwrap_err();
    assert_eq!(error.status, 409);
    assert_eq!(error.message, "No available network subnets");
}

#[test]
fn create_sets_up_the_network_of_its_subnet() {
    let mut pool = SubnetPool::new();
    pool.allocate();
    let (subnet, step) =
        rootfs_copied(TaskOutcome::Finished(()), Platform::Linux, "wlan0", &mut pool).unwrap();
    assert_eq!(subnet.index, 1);
    let NetworkStep::Run(line, setup) = step else {
        panic!("the tap device must be added");
    };
    assert_eq!(line.args, vec!["tuntap", "add", "fc1", "mode", "tap"]);
    let NetworkStep::Run(line, _) = setup.next(&ok()) else {
        panic!("the address must follow");
    };
    assert_eq!(line.args, vec!["addr", "add", "172.16.0.5/30", "dev", "fc1"]);
}

#[test]
fn elsewhere_the_network_is_set_up_at_once() {
    let mut pool = SubnetPool::new();
    let outcome = TaskOutcome::Finished(());
    let (subnet, step) = rootfs_copied(outcome, Platform::OtherUnix, "eth0", &mut pool).unwrap();
    assert_eq!(subnet.index, 0);
    assert!(matches!(
        step,
        NetworkStep::Done(Ok(NatHandles { postrouting: 0, filter: 0 }))
    ));
    assert_eq!(pool.allocate().unwrap().index, 1);
}

#[test]
fn failed_network_gives_the_subnet_back() {
    let mut pool = SubnetPool::new();
    let copied = TaskOutcome::Finished(());
    let (subnet, _) = rootfs_copied(copied, Platform::Linux, "eth0", &mut pool).unwrap();
    let rejection = network_set_up(&subnet, TaskOutcome::Failed).unwrap_err();
    assert_eq!(rejection.error.status, 500);
    assert_eq!(rejection.error.message, "Internal server error");
    assert_eq!(shown(&rejection.steps), vec!["ReleaseSubnet(0)"]);
    let rejection = network_set_up(&subnet, TaskOutcome::Panicked).unwrap_err();
    assert_eq!(rejection.error.status, 500);
    assert!(rejection.steps.is_empty());
    let handles = NatHandles { postrouting: 1, filter: 2 };
    assert_eq!(network_set_up(&subnet, TaskOutcome::Finished(handles)).unwrap(), handles);
}

#[test]
fn too_few_vcpus_are_refused_and_rolled_back() {
    let mut vms = registry();
    let mut pool = SubnetPool::new();
    reserve(&mut vms, &mut pool, OTHER, request(Some(6), None));
    let (plan, _, _) = create_with_id(request(Some(4), None), ID, &jailer()).unwrap();
    let copied = TaskOutcome::Finished(());
    let (subnet, _) = rootfs_copied(copied, Platform::Linux, "eth0", &mut pool).unwrap();
    let handles = NatHandles { postrouting: 3, filter: 5 };
    let rejection = plan.reserve(&subnet, handles, &mut vms).unwrap_err();
    assert_eq!(rejection.error.status, 409);
    assert_eq!(
        rejection.error.message,
        "Insufficient vCPUs: requested 4 but only 2 available"
    );
    assert_eq!(
        shown(&rejection.steps),
        vec![
            "RemoveNatRules(NatHandles { postrouting: 3, filter: 5 })",
            "DeleteTap(\"fc1\")",
            "ReleaseSubnet(1)",
        ]
    );
    assert_eq!(vms.len(), 1);
    assert!(vms.entry(ID).is_none());
}

#[test]
fn too_little_memory_is_refused() {
    let mut vms = registry();
    let mut pool = SubnetPool::new();
    reserve(&mut vms, &mut pool, OTHER, request(None, Some(3000)));
    let (plan, _, _) = create_with_id(request(None, Some(841)), ID, &jailer()).unwrap();
    let copied = TaskOutcome::Finished(());
    let (subnet, _) = rootfs_copied(copied, Platform::Linux, "eth0", &mut pool).unwrap();
    let handles = NatHandles { postrouting: 3, filter: 5 };
    let rejection = plan.reserve(&subnet, handles, &mut vms).unwrap_err();
    assert_eq!(rejection.error.status, 409);
    assert_eq!(
        rejection.error.message,
        "Insufficient memory: requested 841 MB but only 840 MB available"
    );
}

#[test]
fn capacity_can_be_used_up_exactly() {
    let mut vms = registry();
    let mut pool = SubnetPool::new();
    reserve(&mut vms, &mut pool, OTHER, request(Some(8), Some(3840)));
    assert_eq!(vms.allocated(), (8, 3840));
    assert_eq!(
        vms.reserve(ID, bare_resources()),
        Err(Shortage::Vcpus { available: 0 })
    );
    vms.remove(OTHER);
    assert_eq!(vms.allocated(), (0, 0));
    assert_eq!(vms.reserve(ID, bare_resources()), Ok(()));
}

#[test]
fn placeholder_holds_what_the_vm_will_need() {
    let mut vms = registry();
    let mut pool = SubnetPool::new();
    let body = Some(CreateVmRequest {
        vcpus: Some(2),
        memory_mb: Some(256),
        ssh_keys: vec!["ssh-ed25519 AAAA me".to_string()],
    });
    let (vm, subnet) = reserve(&mut vms, &mut pool, ID, body);
    assert_eq!(vm.guest_ip, "172.16.0.2");
    let entry = vms.entry(ID).unwrap();
    assert_eq!(entry.status(), "creating");
    let held = entry.resources();
    assert_eq!(held.vcpus, 2);
    assert_eq!(held.memory_mb, 256);
    assert_eq!(held.tap_name, Some(subnet.tap_name));
    assert_eq!(held.subnet_index, Some(0));
    assert_eq!(held.nat_handles, Some(NatHandles { postrouting: 3, filter: 5 }));
    assert_eq!(held.guest_ip, Some("172.16.0.2".to_string()));
    assert_eq!(
        held.vsock_uds_path,
        Some(
            "/srv/jailer/firecracker/00112233-4455-6677-8899-aabbccddeeff/root/00112233-4455-6677-8899-aabbccddeeff.sock"
                .to_string()
        )
    );
    assert_eq!(held.ssh_keys, vec!["ssh-ed25519 AAAA me"]);
}

#[test]
fn vsock_paths_of_a_vm() {
    assert_eq!(
        vsock_placeholder_path(ID),
        "/srv/jailer/vsock/00112233-4455-6677-8899-aabbccddeeff.sock"
    );
    assert_eq!(
        vsock_runtime_path(ID),
        "/srv/jailer/firecracker/00112233-4455-6677-8899-aabbccddeeff/root/00112233-4455-6677-8899-aabbccddeeff.sock"
    );
}

#[test]
fn instance_is_jailed_and_configured() {
    let vm = StartingVm { id: ID, vcpus: 2, memory_mb: 256, guest_ip: "172.16.0.2".to_string() };
    let plan = setup_firecracker_instance(
        &jailer(),
        &vm,
        "/opt/vmlinux",
        "/srv/copy.ext4",
        "fc0",
        &Ipv4Addr::new(172, 16, 0, 2),
        &Ipv4Addr::new(172, 16, 0, 1),
        "/srv/jailer/vsock/x.sock",
    );
    assert_eq!(plan.jail.instance_id, "00112233-4455-6677-8899-aabbccddeeff");
    assert_eq!(plan.jail.uid, 1100);
    assert_eq!(plan.jail.gid, 1100);
    assert_eq!(plan.jail.link_strategy, LinkStrategy::NaiveLink);
    assert!(plan.jail.remove_workspace);
    assert!(plan.jail.new_pid_ns);
    assert_eq!(plan.jail.cgroups[0].1, "200000 100000");
    assert_eq!(
        plan.jail.stderr,
        "/tmp/warlock-jailer-00112233-4455-6677-8899-aabbccddeeff.log"
    );
    assert_eq!(plan.requests.len(), 8);
    assert!(matches!(plan.requests[0], InstanceRequest::StartVmm));
    assert!(matches!(
        plan.requests[1],
        InstanceRequest::MachineConfiguration { vcpu_count: 2, mem_size_mib: 256 }
    ));
    assert!(matches!(
        &plan.requests[2],
        InstanceRequest::BootSource { kernel_image_path, boot_args }
            if kernel_image_path == "/opt/vmlinux"
                && boot_args == "console=ttyS0 reboot=k panic=1 pci=off ip=172.16.0.2::172.16.0.1:255.255.255.252::eth0:off"
    ));
    assert!(matches!(
        &plan.requests[3],
        InstanceRequest::NetworkInterface { iface_id, host_dev_name }
            if iface_id == "eth0" && host_dev_name == "fc0"
    ));
    assert!(matches!(
        &plan.requests[4],
        InstanceRequest::Drive { drive_id, path_on_host, is_root_device: true, is_read_only: false }
            if drive_id == "rootfs" && path_on_host == "/srv/copy.ext4"
    ));
    assert!(matches!(
        &plan.requests[5],
        InstanceRequest::Vsock { guest_cid: 0x4cddeeff, uds_path, vsock_id }
            if uds_path == "/srv/jailer/vsock/x.sock" && vsock_id == "vsock0"
    ));
    assert!(matches!(plan.requests[6], InstanceRequest::Start));
    assert!(matches!(plan.requests[7], InstanceRequest::Describe));
}

#[test]
fn guest_context_ids_avoid_the_reserved_ones() {
    let vm = StartingVm { id: 0, vcpus: 1, memory_mb: 128, guest_ip: String::new() };
    let ip = Ipv4Addr::new(172, 16, 0, 2);
    let plan = setup_firecracker_instance(&jailer(), &vm, "", "", "", &ip, &ip, "");
    assert!(matches!(plan.requests[5], InstanceRequest::Vsock { guest_cid: 3, .. }));
}

#[test]
fn failed_start_gives_everything_back() {
    let mut vms = registry();
    let mut pool = SubnetPool::new();
    let (vm, _) = reserve(&mut vms, &mut pool, ID, None);
    let (instance, rejection) = vm.failed(&mut vms);
    assert_eq!(instance, None);
    assert_eq!(rejection.error.status, 500);
    assert_eq!(rejection.error.message, "Internal server error");
    assert_eq!(
        shown(&rejection.steps),
        vec![
            "DeleteTap(\"fc0\")",
            "RemoveNatRules(NatHandles { postrouting: 3, filter: 5 })",
            "ReleaseSubnet(0)",
            "RemoveRootfs(\"/tmp/fake-vm-images/00112233-4455-6677-8899-aabbccddeeff.ext4\")",
        ]
    );
    assert_eq!(vms.len(), 0);
    let (instance, rejection) = vm.failed(&mut vms);
    assert_eq!(instance, None);
    assert!(rejection.steps.is_empty());
}

#[test]
fn start_without_a_placeholder_keeps_nothing() {
    let mut vms = registry();
    let vm = StartingVm { id: ID, vcpus: 1, memory_mb: 128, guest_ip: "172.16.0.2".to_string() };
    let (status, response) = vm.started(7, running(), &mut vms);
    assert_eq!(status, 202);
    assert_eq!(response.id, ID);
    assert_eq!(vms.len(), 0);
}

// ── Lifecycle ──

#[test]
fn full_lifecycle() {
    let mut vms = registry();
    let mut pool = SubnetPool::new();

    let (vm, _) = reserve(&mut vms, &mut pool, ID, None);
    let (status, created) = vm.started(7, running(), &mut vms);
    assert_eq!(status, 202);
    assert_eq!(created.id, ID);
    assert_eq!(created.vcpus, 1);
    assert_eq!(created.memory_mb, 128);
    assert_eq!(created.state, InstanceState::Running);
    assert_eq!(created.vmm_version, "1.14.1");
    assert_eq!(created.guest_ip, "172.16.0.2");

    assert_eq!(*get(&mut vms, ID).unwrap(), 7);
    *get(&mut vms, ID).unwrap() = 8;

    let listed = list(&vms, &HashMap::new());
    assert_eq!(listed.count, 1);
    assert_eq!(listed.vms[0].id, ID);

    let deletion = delete(&mut vms, ID).ok().unwrap();
    assert_eq!(deletion.instance, 8);
    assert!(deletion.response.deleted);
    assert_eq!(deletion.response.id, ID);
    assert_eq!(
        shown(&deletion.steps),
        vec![
            "DeleteTap(\"fc0\")",
            "RemoveNatRules(NatHandles { postrouting: 3, filter: 5 })",
            "ReleaseSubnet(0)",
            "RemoveRootfs(\"/tmp/fake-vm-images/00112233-4455-6677-8899-aabbccddeeff.ext4\")",
        ]
    );

    assert_eq!(get(&mut vms, ID).unwrap_err().status, 404);
}

#[test]
fn create_vm_with_custom_config() {
    let mut vms = registry();
    let mut pool = SubnetPool::new();
    let (vm, _) = reserve(&mut vms, &mut pool, ID, request(Some(2), Some(256)));
    let (status, created) = vm.started(7, running(), &mut vms);
    assert_eq!(status, 202);
    assert_eq!(created.vcpus, 2);
    assert_eq!(created.memory_mb, 256);
    assert_eq!(created.state, InstanceState::Running);
    assert_eq!(created.guest_ip, "172.16.0.2");
}

#[test]
fn entries_without_networking_need_no_cleanup() {
    let mut vms = registry();
    vms.reserve(ID, bare_resources()).unwrap();
    assert!(vms.start(ID, 7));
    let deletion = delete(&mut vms, ID).ok().unwrap();
    assert!(deletion.steps.is_empty());
}

#[test]
fn guard_removes_the_placeholder_of_a_panicked_create() {
    let mut vms = registry();
    let mut pool = SubnetPool::new();
    reserve(&mut vms, &mut pool, ID, None);
    let mut guard = CreateGuard::new(ID);
    guard.defuse();
    assert!(guard.dropped(&mut vms).is_empty());
    assert_eq!(vms.len(), 1);
    let steps = CreateGuard::new(ID).dropped(&mut vms);
    assert_eq!(steps.len(), 4);
    assert_eq!(vms.len(), 0);
    assert!(CreateGuard::new(ID).dropped(&mut vms).is_empty());
}

#[test]
fn shutdown_ends_every_vm() {
    let mut vms = registry();
    let mut pool = SubnetPool::new();
    let (vm, _) = reserve(&mut vms, &mut pool, ID, None);
    vm.started(7, running(), &mut vms);
    reserve(&mut vms, &mut pool, OTHER, None);
    let ended = shut_down(&mut vms);
    assert_eq!(ended.len(), 2);
    assert_eq!(vms.len(), 0);
    for vm in ended {
        assert_eq!(vm.instance, if vm.id == ID { Some(7) } else { None });
        assert_eq!(vm.steps.len(), 4);
    }
}

#[test]
fn restarted_entry_is_removed() {
    let mut vms = registry();
    vms.reserve(ID, bare_resources()).unwrap();
    assert!(vms.start(ID, 7));
    assert!(!vms.start(ID, 8));
    assert!(vms.entry(ID).is_none());
}

#[test]
fn instances_of_running_vms_only() {
    let mut vms = registry();
    vms.reserve(ID, bare_resources()).unwrap();
    assert!(vms.instance(ID).is_none());
    vms.start(ID, 7);
    *vms.instance(ID).unwrap() = 9;
    assert!(matches!(vms.entry(ID), Some(VmEntry::Running { instance: 9, .. })));
    assert_eq!(vms.ids(), vec![ID]);
}

#[test]
fn plans_keep_the_requested_keys() {
    let body = Some(CreateVmRequest {
        vcpus: None,
        memory_mb: None,
        ssh_keys: vec!["a".to_string(), "b".to_string()],
    });
    let (plan, _, _): (VmPlan, _, _) = create_with_id(body, ID, &jailer()).unwrap();
    assert_eq!(plan.ssh_keys, vec!["a", "b"]);
}

// ── What holds over the life of a VM ──

fn release_all(pool: &mut SubnetPool, steps: &Vec<CleanupStep>) {
    for step in steps {
        if let CleanupStep::ReleaseSubnet(index) = step {
            pool.release(*index);
        }
    }
}

#[test]
fn refused_create_frees_its_subnet_only() {
    let mut vms = registry();
    let mut pool = SubnetPool::new();
    reserve(&mut vms, &mut pool, OTHER, request(Some(8), None));
    let (plan, _, _) = create_with_id(None, ID, &jailer()).unwrap();
    let copied = TaskOutcome::Finished(());
    let (subnet, _) = rootfs_copied(copied, Platform::Linux, "eth0", &mut pool).unwrap();
    assert_eq!(subnet.index, 1);
    let handles = NatHandles { postrouting: 3, filter: 5 };
    let rejection = plan.reserve(&subnet, handles, &mut vms).unwrap_err();
    release_all(&mut pool, &rejection.steps);
    assert_eq!(pool.allocate().unwrap().index, 1);
}

#[test]
fn deleted_vm_frees_its_subnet_only() {
    let mut vms = registry();
    let mut pool = SubnetPool::new();
    let (vm, _) = reserve(&mut vms, &mut pool, ID, None);
    vm.started(7, running(), &mut vms);
    let (_, other) = reserve(&mut vms, &mut pool, OTHER, None);
    let deletion = delete(&mut vms, ID).ok().unwrap();
    release_all(&mut pool, &deletion.steps);
    let next = pool.allocate().unwrap();
    assert_eq!(next.index, 0);
    assert_ne!(next.guest_ip, other.guest_ip);
    assert_eq!(vms.entry(OTHER).unwrap().resources().subnet_index, Some(other.index));
}

#[test]
fn registered_vms_share_no_address() {
    let mut vms = registry();
    let mut pool = SubnetPool::new();
    let (_, a) = reserve(&mut vms, &mut pool, ID, None);
    let (_, b) = reserve(&mut vms, &mut pool, OTHER, None);
    assert_ne!(a.index, b.index);
    assert_ne!(a.guest_ip, b.guest_ip);
    assert_ne!(a.tap_name, b.tap_name);
}

#[test]
fn sweep_finds_what_a_vm_leaves_behind() {
    let (plan, _, _) = create_with_id(None, ID, &jailer()).unwrap();
    let vm = StartingVm { id: ID, vcpus: 1, memory_mb: 128, guest_ip: String::new() };
    let ip = Ipv4Addr::new(172, 16, 0, 2);
    let instance = setup_firecracker_instance(&jailer(), &vm, "", "", "", &ip, &ip, "");
    let entry = |path: &String| {
        Some(DirEntry {
            name: path.rsplit('/').next().unwrap().to_string(),
            is_dir: false,
        })
    };
    let listing = Some(vec![entry(&plan.rootfs), entry(&instance.jail.stderr)]);
    assert_eq!(remove_stale_rootfs_copies(Platform::Linux, &listing), vec![0]);
    assert_eq!(remove_stale_jailer_logs(Platform::Linux, &listing), vec![1]);
    assert_eq!(parse_fc_tap_devices("9: fc7: <UP>\n"), vec![tap_name(7)]);
}

#[test]
fn shell_leads_to_the_socket_in_the_chroot() {
    let mut vms = registry();
    let mut pool = SubnetPool::new();
    let (vm, _) = reserve(&mut vms, &mut pool, ID, None);
    vm.started(7, running(), &mut vms);
    let session = SessionHandler { vm_id: Some(ID), channel_id: Some(1u32), connected: false };
    assert_eq!(session.shell_request(&vms).unwrap().vsock_uds_path, vsock_runtime_path(ID));
}
