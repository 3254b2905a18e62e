use warlock::command::CommandOutcome;
use warlock::firecracker::orphan::{
    cleanup_orphans, flush_nftables_rules, flush_nftables_rules_next, has_nftables_rules,
    kill_orphaned_processes, kill_orphaned_processes_next, list_links, parse_fc_tap_devices,
    remove_stale_jailer_logs, remove_stale_jailer_workspaces, remove_stale_rootfs_copies,
    remove_stale_tap_devices, removed_any, DirEntry, FlushStep, KillStep, SweepStage, SweepStep,
};
use warlock::platform::Platform;

fn finished(success: bool, stdout: &str) -> CommandOutcome {
    CommandOutcome::Finished { success, stdout: stdout.to_string(), stderr: String::new() }
}

fn entry(name: &str, is_dir: bool) -> Option<DirEntry> {
    Some(DirEntry { name: name.to_string(), is_dir })
}

// ── parse_fc_tap_devices ──

#[test]
fn parse_tap_devices_from_ip_output() {
    let output = "\
1: lo: <LOOPBACK,UP,LOWER_UP> mtu 65536 qdisc noqueue state UNKNOWN mode DEFAULT group default qlen 1000\\    link/loopback 00:00:00:00:00:00 brd 00:00:00:00:00:00
2: eth0: <BROADCAST,MULTICAST,UP,LOWER_UP> mtu 1500 qdisc fq_codel state UP mode DEFAULT group default qlen 1000\\    link/ether 12:34:56:78:9a:bc brd ff:ff:ff:ff:ff:ff
3: fc0: <BROADCAST,MULTICAST,UP,LOWER_UP> mtu 1500 qdisc fq_codel state UP mode DEFAULT group default qlen 1000\\    link/ether aa:bb:cc:dd:ee:ff brd ff:ff:ff:ff:ff:ff
4: fc1: <BROADCAST,MULTICAST,UP,LOWER_UP> mtu 1500 qdisc fq_codel state UP mode DEFAULT group default qlen 1000\\    link/ether 11:22:33:44:55:66 brd ff:ff:ff:ff:ff:ff
";
    let devices = parse_fc_tap_devices(output);
    assert_eq!(devices, vec!["fc0", "fc1"]);
}

#[test]
fn parse_tap_devices_no_fc_interfaces() {
    let output = "\
1: lo: <LOOPBACK,UP,LOWER_UP> mtu 65536 qdisc noqueue state UNKNOWN
2: eth0: <BROADCAST,MULTICAST,UP,LOWER_UP> mtu 1500 qdisc fq_codel state UP
";
    let devices = parse_fc_tap_devices(output);
    assert!(devices.is_empty());
}

#[test]
fn parse_tap_devices_ignores_non_fc_prefixed() {
    // "fcc0" doesn't match because the suffix after "fc" must be all digits
    // "fc_0" doesn't match because '_' is not a digit
    let output = "\
1: lo: <LOOPBACK> mtu 65536
2: fcc0: <BROADCAST> mtu 1500
3: fc_0: <BROADCAST> mtu 1500
4: fc42: <BROADCAST> mtu 1500
";
    let devices = parse_fc_tap_devices(output);
    assert_eq!(devices, vec!["fc42"]);
}

#[test]
fn parse_tap_devices_empty_output() {
    let devices = parse_fc_tap_devices("");
    assert!(devices.is_empty());
}

#[test]
fn parse_tap_devices_high_index() {
    let output = "5: fc16383: <BROADCAST,MULTICAST> mtu 1500 qdisc noop state DOWN\n";
    let devices = parse_fc_tap_devices(output);
    assert_eq!(devices, vec!["fc16383"]);
}

// ── has_nftables_rules ──

#[test]
fn nftables_empty_table_has_no_rules() {
    let output = "\
table ip firecracker {
    chain postrouting {
        type nat hook postrouting priority srcnat; policy accept;
    }
    chain filter {
        type filter hook forward priority filter; policy accept;
    }
}
";
    assert!(!has_nftables_rules(output));
}

#[test]
fn nftables_table_with_masquerade_rule() {
    let output = "\
table ip firecracker {
    chain postrouting {
        type nat hook postrouting priority srcnat; policy accept;
        ip saddr 172.16.0.2 oifname \"eth0\" counter packets 0 bytes 0 masquerade
    }
    chain filter {
        type filter hook forward priority filter; policy accept;
    }
}
";
    assert!(has_nftables_rules(output));
}

#[test]
fn nftables_table_with_filter_rule() {
    let output = "\
table ip firecracker {
    chain postrouting {
        type nat hook postrouting priority srcnat; policy accept;
    }
    chain filter {
        type filter hook forward priority filter; policy accept;
        iifname \"fc0\" oifname \"eth0\" accept
    }
}
";
    assert!(has_nftables_rules(output));
}

#[test]
fn nftables_empty_output() {
    assert!(!has_nftables_rules(""));
}

// ── The sweep ──

#[test]
fn sweep_runs_six_stages_in_order() {
    let mut sweep = cleanup_orphans();
    let mut stages = vec![sweep.stage];
    loop {
        match sweep.next(sweep.stage == SweepStage::TapDevices) {
            SweepStep::Run(next) => {
                stages.push(next.stage);
                sweep = next;
            }
            SweepStep::Done { found_anything } => {
                assert!(found_anything);
                break;
            }
        }
    }
    assert_eq!(
        stages,
        vec![
            SweepStage::Processes,
            SweepStage::Workspaces,
            SweepStage::RootfsCopies,
            SweepStage::TapDevices,
            SweepStage::Nftables,
            SweepStage::JailerLogs,
        ]
    );
}

#[test]
fn sweep_of_a_clean_host_finds_nothing() {
    let mut sweep = cleanup_orphans();
    let mut count = 1;
    loop {
        match sweep.next(false) {
            SweepStep::Run(next) => {
                count += 1;
                sweep = next;
            }
            SweepStep::Done { found_anything } => {
                assert!(!found_anything);
                break;
            }
        }
    }
    assert_eq!(count, 6);
}

#[test]
fn orphaned_processes_are_terminated_then_killed() {
    let KillStep::Run { wait_seconds: 0, line, stage } = kill_orphaned_processes(Platform::Linux)
    else {
        panic!("SIGTERM must come at once");
    };
    assert_eq!(line.program, "pkill");
    assert_eq!(line.args, vec!["-15", "-u", "1100", "firecracker"]);
    match kill_orphaned_processes_next(stage, &finished(true, "")) {
        KillStep::Run { wait_seconds, line, stage } => {
            assert_eq!(wait_seconds, 2);
            assert_eq!(line.args, vec!["-9", "-u", "1100", "firecracker"]);
            assert!(matches!(
                kill_orphaned_processes_next(stage, &finished(false, "")),
                KillStep::Done(true)
            ));
        }
        KillStep::Done(_) => panic!("SIGKILL must follow"),
    }
}

#[test]
fn no_orphaned_processes() {
    let KillStep::Run { stage, .. } = kill_orphaned_processes(Platform::Linux) else {
        panic!("SIGTERM must come first");
    };
    assert!(matches!(
        kill_orphaned_processes_next(stage, &finished(false, "")),
        KillStep::Done(false)
    ));
    assert!(matches!(
        kill_orphaned_processes_next(stage, &CommandOutcome::NotStarted),
        KillStep::Done(false)
    ));
}

#[test]
fn stale_entries_are_picked_by_kind_and_name() {
    let listing = Some(vec![
        entry("b1946ac9-2492-4d23-a7b4-1c2f3a4b5c6d", true),
        None,
        entry("b1946ac9-2492-4d23-a7b4-1c2f3a4b5c6d.ext4", false),
        entry(".ext4", false),
        entry("rootfs.ext4.bak", false),
        entry("warlock-jailer-b1946ac9.log", false),
        entry("warlock-jailer-b1946ac9.txt", false),
        entry("other.log", false),
    ]);
    assert_eq!(
        remove_stale_jailer_workspaces(Platform::Linux, &listing),
        vec![0]
    );
    assert_eq!(
        remove_stale_rootfs_copies(Platform::Linux, &listing),
        vec![2]
    );
    assert_eq!(
        remove_stale_jailer_logs(Platform::Linux, &listing),
        vec![5]
    );
    assert!(remove_stale_jailer_workspaces(Platform::Linux, &None).is_empty());
    assert!(remove_stale_rootfs_copies(Platform::Linux, &None).is_empty());
    assert!(remove_stale_jailer_logs(Platform::Linux, &None).is_empty());
}

#[test]
fn something_was_removed() {
    assert!(removed_any(&vec![false, true, false]));
    assert!(!removed_any(&vec![false, false]));
    assert!(!removed_any(&vec![]));
}

#[test]
fn stale_tap_devices_are_deleted_one_by_one() {
    assert_eq!(list_links().args, vec!["-o", "link", "show"]);
    let listing = finished(false, "3: fc0: <UP>\n4: eth0: <UP>\n5: fc1: <UP>\n");
    let lines = remove_stale_tap_devices(Platform::Linux, &listing);
    assert_eq!(lines.len(), 2);
    assert_eq!(lines[0].program, "ip");
    assert_eq!(lines[0].args, vec!["link", "del", "fc0"]);
    assert_eq!(lines[1].args, vec!["link", "del", "fc1"]);
    assert!(remove_stale_tap_devices(Platform::Linux, &CommandOutcome::NotStarted).is_empty());
}

#[test]
fn a_bare_fc_interface_counts_as_a_tap_device() {
    assert_eq!(parse_fc_tap_devices("7: fc: <UP>\n"), vec!["fc"]);
    assert!(parse_fc_tap_devices("7:\n").is_empty());
}

#[test]
fn rules_are_flushed_only_if_there_are_any() {
    let FlushStep::Run(line, stage) = flush_nftables_rules(Platform::Linux) else {
        panic!("the table must be listed");
    };
    assert_eq!(line.args, vec!["list", "table", "firecracker"]);
    let with_rule = "table ip firecracker {\n\tiifname \"fc0\" accept\n}\n";
    match flush_nftables_rules_next(stage, &finished(true, with_rule)) {
        FlushStep::Run(line, stage) => {
            assert_eq!(line.args, vec!["flush", "table", "firecracker"]);
            assert!(matches!(
                flush_nftables_rules_next(stage, &finished(true, "")),
                FlushStep::Done(true)
            ));
            assert!(matches!(
                flush_nftables_rules_next(stage, &finished(false, "")),
                FlushStep::Done(false)
            ));
        }
        FlushStep::Done(_) => panic!("rules must be flushed"),
    }
    assert!(matches!(
        flush_nftables_rules_next(stage, &finished(true, "table ip firecracker {\n}\n")),
        FlushStep::Done(false)
    ));
    assert!(matches!(
        flush_nftables_rules_next(stage, &finished(false, with_rule)),
        FlushStep::Done(false)
    ));
}

#[test]
fn elsewhere_there_is_nothing_to_sweep_up() {
    let listing = Some(vec![
        entry("vm", true),
        entry("vm.ext4", false),
        entry("warlock-jailer-vm.log", false),
    ]);
    let links = finished(true, "3: fc0: <UP>\n");
    for platform in [Platform::OtherUnix, Platform::NotUnix] {
        assert!(matches!(kill_orphaned_processes(platform), KillStep::Done(false)));
        assert!(remove_stale_jailer_workspaces(platform, &listing).is_empty());
        assert!(remove_stale_rootfs_copies(platform, &listing).is_empty());
        assert!(remove_stale_tap_devices(platform, &links).is_empty());
        assert!(matches!(flush_nftables_rules(platform), FlushStep::Done(false)));
        assert!(remove_stale_jailer_logs(platform, &listing).is_empty());
    }
}

#[test]
fn every_leftover_is_taken_once() {
    let listing = Some(vec![
        entry("a.ext4", false),
        entry("b.txt", false),
        None,
        entry("a.ext4", true),
        entry("c.ext4", false),
    ]);
    assert_eq!(remove_stale_rootfs_copies(Platform::Linux, &listing), vec![0, 3, 4]);
    assert_eq!(remove_stale_jailer_workspaces(Platform::Linux, &listing), vec![3]);
}
