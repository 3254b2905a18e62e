use warlock::vm::config::{build_cgroup_config, validate_vm_config, ConfigError};

// ── Defaults ──

#[test]
fn defaults_when_no_values() {
    let (vcpus, memory_mb) = validate_vm_config(None, None).unwrap();
    assert_eq!(vcpus, 1);
    assert_eq!(memory_mb, 128);
}

// ── Valid vCPU values ──

#[test]
fn accepts_1_vcpu() {
    let (vcpus, _) = validate_vm_config(Some(1), None).unwrap();
    assert_eq!(vcpus, 1);
}

#[test]
fn accepts_even_vcpus() {
    for n in [2, 4, 8, 16, 32] {
        let (vcpus, _) = validate_vm_config(Some(n), None).unwrap();
        assert_eq!(vcpus, n);
    }
}

// ── Invalid vCPU values ──

#[test]
fn rejects_0_vcpus() {
    let err = validate_vm_config(Some(0), None).unwrap_err();
    assert!(matches!(err, ConfigError::InvalidVcpus(_)));
}

#[test]
fn rejects_odd_vcpus_greater_than_1() {
    for n in [3, 5, 7, 15, 31] {
        let err = validate_vm_config(Some(n), None).unwrap_err();
        assert!(matches!(err, ConfigError::InvalidVcpus(_)));
    }
}

#[test]
fn rejects_vcpus_over_32() {
    let err = validate_vm_config(Some(34), None).unwrap_err();
    assert!(matches!(err, ConfigError::InvalidVcpus(_)));
}

// ── Valid memory values ──

#[test]
fn accepts_minimum_memory() {
    let (_, memory_mb) = validate_vm_config(None, Some(128)).unwrap();
    assert_eq!(memory_mb, 128);
}

#[test]
fn accepts_large_memory() {
    let (_, memory_mb) = validate_vm_config(None, Some(4096)).unwrap();
    assert_eq!(memory_mb, 4096);
}

// ── Invalid memory values ──

#[test]
fn rejects_memory_below_minimum() {
    let err = validate_vm_config(None, Some(64)).unwrap_err();
    assert!(matches!(err, ConfigError::InvalidMemory(_)));
}

// ── Cgroup configuration ──

#[test]
fn cgroup_v2_config() {
    let cgroups = build_cgroup_config(2, 1, 128);
    assert_eq!(cgroups.len(), 2);
    // 1 vCPU = 100_000 us quota per 100_000 us period
    assert_eq!(cgroups[0], ("cpu.max".into(), "100000 100000".into()));
    // 128 MB + 50 MB overhead = 178 MB in bytes
    let expected_mem = ((128u64 + 50) * 1024 * 1024).to_string();
    assert_eq!(cgroups[1], ("memory.max".into(), expected_mem));
}

#[test]
fn cgroup_v2_config_multi_vcpu() {
    let cgroups = build_cgroup_config(2, 4, 256);
    // 4 vCPUs = 400_000 us quota
    assert_eq!(cgroups[0], ("cpu.max".into(), "400000 100000".into()));
    let expected_mem = ((256u64 + 50) * 1024 * 1024).to_string();
    assert_eq!(cgroups[1], ("memory.max".into(), expected_mem));
}

#[test]
fn cgroup_v1_config() {
    let cgroups = build_cgroup_config(1, 2, 256);
    assert_eq!(cgroups.len(), 3);
    assert_eq!(cgroups[0], ("cpu.cfs_quota_us".into(), "200000".into()));
    assert_eq!(cgroups[1], ("cpu.cfs_period_us".into(), "100000".into()));
    let expected_mem = ((256u64 + 50) * 1024 * 1024).to_string();
    assert_eq!(cgroups[2], ("memory.limit_in_bytes".into(), expected_mem));
}

#[test]
fn cgroup_v1_single_vcpu() {
    let cgroups = build_cgroup_config(1, 1, 128);
    assert_eq!(cgroups.len(), 3);
    // 1 vCPU = 100_000 us quota
    assert_eq!(cgroups[0], ("cpu.cfs_quota_us".into(), "100000".into()));
    assert_eq!(cgroups[1], ("cpu.cfs_period_us".into(), "100000".into()));
    let expected_mem = ((128u64 + 50) * 1024 * 1024).to_string();
    assert_eq!(cgroups[2], ("memory.limit_in_bytes".into(), expected_mem));
}

#[test]
fn cgroup_v2_max_vcpus() {
    let cgroups = build_cgroup_config(2, 32, 4096);
    // 32 vCPUs = 3_200_000 us quota
    assert_eq!(cgroups[0], ("cpu.max".into(), "3200000 100000".into()));
    let expected_mem = ((4096u64 + 50) * 1024 * 1024).to_string();
    assert_eq!(cgroups[1], ("memory.max".into(), expected_mem));
}

// ── Messages and boundaries ──

#[test]
fn invalid_sizes_are_explained() {
    let vcpus = validate_vm_config(Some(3), Some(64)).unwrap_err();
    assert_eq!(vcpus.message(), "vcpus must be 1 or an even number between 2 and 32");
    let memory = validate_vm_config(None, Some(127)).unwrap_err();
    assert_eq!(memory.message(), "memory_mb must be at least 128");
}

#[test]
fn rejects_33_vcpus() {
    assert!(validate_vm_config(Some(33), None).is_err());
    assert!(validate_vm_config(Some(255), None).is_err());
}

#[test]
fn cgroup_limits_of_the_largest_vm() {
    let cgroups = build_cgroup_config(2, 255, u32::MAX);
    assert_eq!(cgroups[0].1, "25500000 100000");
    assert_eq!(cgroups[1].1, "4503599678750720");
}
