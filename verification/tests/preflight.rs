use warlock::command::CommandOutcome;
use warlock::firecracker::preflight::{
    binary_name, check_firecracker_binary, check_jailer_binary, check_jailer_filesystem,
    check_jailer_user, check_kvm_available, check_up_to, check_vm_images_dir,
    detect_cgroup_version, detect_copy_strategy, is_dev_mode, preflight_check, probe_command,
    resolve_binary_path, BinaryFacts, HostFacts, HostSite, Look, PasswdFile,
};
use warlock::firecracker::CopyStrategy;
use warlock::platform::Platform;

fn finished(success: bool, stdout: &str, stderr: &str) -> CommandOutcome {
    CommandOutcome::Finished {
        success,
        stdout: stdout.to_string(),
        stderr: stderr.to_string(),
    }
}

fn binary(configured: Option<&str>, found: Option<&str>, version: CommandOutcome) -> BinaryFacts {
    BinaryFacts {
        configured: configured.map(String::from),
        found: found.map(String::from),
        version,
    }
}

fn passwd(lines: Vec<&str>, read_error: Option<&str>) -> Option<PasswdFile> {
    Some(PasswdFile {
        lines: lines.into_iter().map(String::from).collect(),
        read_error: read_error.map(String::from),
    })
}

fn good_host() -> HostFacts {
    HostFacts {
        platform: Platform::Linux,
        firecracker: binary(
            None,
            Some("/usr/bin/firecracker"),
            finished(true, "Firecracker v1.14.1\n", ""),
        ),
        jailer: binary(Some("/opt/jailer"), None, finished(true, "Jailer v1.14.1", "")),
        kvm_exists: true,
        kvm_error: None,
        passwd: passwd(vec!["root:x:0:0", "firecracker:x:1100:1100::/:/bin/false"], None),
        assets_exist: true,
        jailer_dir_exists: true,
        assets_device: Some(7),
        jailer_device: Some(7),
        images_dir_exists: true,
        cgroup_controllers: true,
        probe_written: true,
        probe_copy: finished(true, "", ""),
    }
}

fn site() -> HostSite {
    HostSite {
        kernel_path: "/opt/firecracker/vmlinux-6.1".to_string(),
        rootfs_path: "/opt/firecracker/ubuntu.ext4".to_string(),
        vm_images_dir: "/srv/jailer/vm-images".to_string(),
        host_interface: "eth0".to_string(),
    }
}

fn problem(facts: &HostFacts) -> String {
    preflight_check(false, facts, site()).err().unwrap()
}

#[test]
fn test_dev_mode_detection() {
    // Neither set - not dev mode
    assert!(!is_dev_mode(None, None));

    // WARLOCK_DEV=true - dev mode
    assert!(is_dev_mode(Some("true"), None));

    // WARLOCK_DEV=false - not dev mode
    assert!(!is_dev_mode(Some("false"), None));

    // RUST_ENV=development (with WARLOCK_DEV cleared) - dev mode
    assert!(is_dev_mode(None, Some("development")));

    // RUST_ENV=production - not dev mode
    assert!(!is_dev_mode(None, Some("production")));
}

#[test]
fn good_host_passes() {
    let config = preflight_check(false, &good_host(), site()).unwrap();
    assert_eq!(config.cgroup_version, 2);
    assert_eq!(config.firecracker_path, "/usr/bin/firecracker");
    assert_eq!(config.jailer_path, "/opt/jailer");
    assert_eq!(config.copy_strategy, CopyStrategy::Reflink);
    assert_eq!(config.kernel_path, "/opt/firecracker/vmlinux-6.1");
    assert_eq!(config.rootfs_path, "/opt/firecracker/ubuntu.ext4");
    assert_eq!(config.vm_images_dir, "/srv/jailer/vm-images");
    assert_eq!(config.host_interface, "eth0");
}

#[test]
fn development_mode_checks_nothing() {
    let mut facts = good_host();
    facts.kvm_exists = false;
    facts.firecracker.version = CommandOutcome::NotStarted;
    let config = preflight_check(true, &facts, site()).unwrap();
    assert_eq!(config.cgroup_version, 2);
    assert_eq!(config.firecracker_path, "firecracker");
    assert_eq!(config.jailer_path, "jailer");
    assert_eq!(config.copy_strategy, CopyStrategy::Sparse);
}

#[test]
fn first_problem_is_reported() {
    let mut facts = good_host();
    facts.images_dir_exists = false;
    assert_eq!(
        problem(&facts),
        "/srv/jailer/vm-images does not exist. Run install-firecracker.sh to create it."
    );
    facts.jailer_device = Some(8);
    assert_eq!(
        problem(&facts),
        "/opt/firecracker and /srv/jailer are on different filesystems. The jailer uses hard links, which cannot cross filesystem boundaries. Move assets to the same filesystem as /srv/jailer."
    );
    facts.passwd = passwd(vec![], None);
    assert_eq!(
        problem(&facts),
        "No user with uid 1100 found. Run the install-firecracker.sh script to create the 'firecracker' system user."
    );
    facts.kvm_exists = false;
    assert_eq!(
        problem(&facts),
        "KVM device not found at /dev/kvm. Ensure KVM is enabled in your kernel and BIOS. On Ubuntu/Debian, try: sudo modprobe kvm kvm_intel (or kvm_amd for AMD CPUs)"
    );
    facts.jailer.version = finished(false, "", "bad");
    assert_eq!(problem(&facts), "Jailer execution failed: bad");
    facts.firecracker.version = finished(true, "v1.0.0", "");
    assert_eq!(
        problem(&facts),
        "Firecracker version 1.0.0 is too old. Minimum required: 1.14.1"
    );
    facts.firecracker.version = finished(true, " \n", "");
    assert_eq!(problem(&facts), "Firecracker version output was empty");
}

#[test]
fn binaries_are_resolved() {
    assert_eq!(binary_name(None, "jailer"), "jailer");
    assert_eq!(binary_name(Some("j2"), "jailer"), "j2");
    let b = binary(Some("/a/b"), Some("/c"), CommandOutcome::NotStarted);
    assert_eq!(resolve_binary_path(&b, "V", "d"), Ok("/a/b".to_string()));
    let b = binary(Some("b"), Some("/c/b"), CommandOutcome::NotStarted);
    assert_eq!(resolve_binary_path(&b, "V", "d"), Ok("/c/b".to_string()));
    let b = binary(None, None, CommandOutcome::NotStarted);
    assert_eq!(
        resolve_binary_path(&b, "V", "d"),
        Err("Could not find 'd' in PATH. Set `V` environment variable to the absolute path.".to_string())
    );
}

#[test]
fn broken_binaries_are_reported() {
    let b = binary(Some("/fc"), None, CommandOutcome::NotStarted);
    assert_eq!(
        check_firecracker_binary(&b).unwrap_err(),
        "Failed to execute Firecracker binary at '/fc'. Install Firecracker from https://github.com/firecracker-microvm/firecracker or set `FIRECRACKER_BIN` environment variable to the correct path."
    );
    assert_eq!(
        check_jailer_binary(&b).unwrap_err(),
        "Failed to execute jailer binary at '/fc'. The jailer is included in Firecracker releases. Set `JAILER_BIN` environment variable if it is installed elsewhere."
    );
    let b = binary(Some("/fc"), None, finished(false, "", "oops\n"));
    assert_eq!(check_firecracker_binary(&b).unwrap_err(), "Firecracker execution failed: oops\n");
    let b = binary(Some("/fc"), None, finished(true, "  v1.15.0\nexit\n", ""));
    assert_eq!(
        check_firecracker_binary(&b),
        Ok(("v1.15.0\nexit".to_string(), "/fc".to_string()))
    );
}

#[test]
fn inaccessible_kvm_is_reported() {
    assert_eq!(check_kvm_available(Platform::Linux, true, &None), Ok(()));
    assert_eq!(
        check_kvm_available(Platform::Linux, true, &Some("Permission denied".to_string())),
        Err("Cannot access /dev/kvm: Permission denied. You may need to add your user to the kvm group: sudo usermod -aG kvm $USER && newgrp kvm".to_string())
    );
}

#[test]
fn jailer_user_is_found_by_uid() {
    assert_eq!(check_jailer_user(Platform::Linux, &passwd(vec!["a:b:1100"], None)), Ok(()));
    assert_eq!(check_jailer_user(Platform::Linux, &passwd(vec!["a:b:1100:x"], Some("broken"))), Ok(()));
    assert_eq!(
        check_jailer_user(Platform::Linux, &passwd(vec!["a:1100", "a:b:11000", "1100:1100:1"], Some("broken"))),
        Err("broken".to_string())
    );
    assert_eq!(check_jailer_user(Platform::Linux, &None), Err("Failed to read /etc/passwd".to_string()));
}

#[test]
fn filesystems_are_compared() {
    assert_eq!(check_jailer_filesystem(Platform::Linux, true, true, Some(1), Some(1)), Ok(()));
    assert_eq!(
        check_jailer_filesystem(Platform::Linux, false, false, None, None),
        Err("/opt/firecracker does not exist. Run install-firecracker.sh to install Firecracker assets.".to_string())
    );
    assert_eq!(
        check_jailer_filesystem(Platform::Linux, true, false, None, None),
        Err("/srv/jailer does not exist. Run install-firecracker.sh to create the jailer chroot base directory.".to_string())
    );
    assert_eq!(
        check_jailer_filesystem(Platform::Linux, true, true, None, None),
        Err("Failed to stat /opt/firecracker".to_string())
    );
    assert_eq!(
        check_jailer_filesystem(Platform::Linux, true, true, Some(1), None),
        Err("Failed to stat /srv/jailer".to_string())
    );
    assert_eq!(check_vm_images_dir(Platform::Linux, true), Ok(()));
}

#[test]
fn settings_are_detected() {
    assert_eq!(detect_cgroup_version(Platform::Linux, true), 2);
    assert_eq!(detect_cgroup_version(Platform::Linux, false), 1);
    let worked = finished(true, "", "");
    let failed = finished(false, "", "");
    assert_eq!(detect_copy_strategy(Platform::Linux, true, &worked), CopyStrategy::Reflink);
    assert_eq!(detect_copy_strategy(Platform::Linux, true, &failed), CopyStrategy::Sparse);
    assert_eq!(detect_copy_strategy(Platform::Linux, true, &CommandOutcome::NotStarted), CopyStrategy::Sparse);
    assert_eq!(detect_copy_strategy(Platform::Linux, false, &worked), CopyStrategy::Sparse);
    assert_eq!(
        probe_command().args,
        vec![
            "--reflink=always",
            "/srv/jailer/vm-images/.warlock-probe",
            "/srv/jailer/vm-images/.warlock-probe.reflink"
        ]
    );
}

#[test]
fn host_is_judged_as_far_as_it_was_looked_at() {
    let mut facts = good_host();
    facts.passwd = None;
    facts.images_dir_exists = false;
    assert_eq!(check_up_to(&facts, Look::Firecracker), Ok(Some(Look::Jailer)));
    assert_eq!(check_up_to(&facts, Look::Jailer), Ok(Some(Look::Kvm)));
    assert_eq!(check_up_to(&facts, Look::Kvm), Ok(Some(Look::User)));
    let no_users = Err("Failed to read /etc/passwd".to_string());
    assert_eq!(check_up_to(&facts, Look::User), no_users);
    assert_eq!(check_up_to(&facts, Look::Images), no_users);
    facts.passwd = good_host().passwd;
    assert_eq!(check_up_to(&facts, Look::User), Ok(Some(Look::Filesystem)));
    assert_eq!(check_up_to(&facts, Look::Filesystem), Ok(Some(Look::Images)));
    assert!(check_up_to(&facts, Look::Images).is_err());
    assert_eq!(check_up_to(&good_host(), Look::Images), Ok(None));
}

#[test]
fn elsewhere_only_the_binaries_are_checked() {
    for platform in [Platform::OtherUnix, Platform::NotUnix] {
        assert_eq!(check_kvm_available(platform, false, &None), Ok(()));
        assert_eq!(check_jailer_user(platform, &None), Ok(()));
        assert_eq!(check_jailer_filesystem(platform, false, false, None, None), Ok(()));
        assert_eq!(check_vm_images_dir(platform, false), Ok(()));
        assert_eq!(detect_cgroup_version(platform, false), 2);
        let worked = finished(true, "", "");
        assert_eq!(detect_copy_strategy(platform, true, &worked), CopyStrategy::Sparse);

        let mut facts = good_host();
        facts.platform = platform;
        facts.kvm_exists = false;
        facts.passwd = None;
        facts.assets_exist = false;
        facts.images_dir_exists = false;
        facts.cgroup_controllers = false;
        let config = preflight_check(false, &facts, site()).unwrap();
        assert_eq!(config.cgroup_version, 2);
        assert_eq!(config.copy_strategy, CopyStrategy::Sparse);
        assert_eq!(config.jailer_path, "/opt/jailer");
        facts.jailer.version = finished(false, "", "bad");
        assert_eq!(problem(&facts), "Jailer execution failed: bad");
    }
}
