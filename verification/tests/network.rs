use warlock::command::{CommandLine, CommandOutcome};
use warlock::firecracker::network::{
    add_nat_rules, create_tap, delete_tap, detect_host_interface, parse_nft_handle,
    remove_nat_rules, set_up_network, NatAddition, NatHandles, NatStep, NetworkSetup, NetworkStep,
    TapCreation, TapStep,
};
use warlock::platform::Platform;
use warlock::vm::network::Ipv4Addr;

fn ok(stdout: &str) -> CommandOutcome {
    CommandOutcome::Finished {
        success: true,
        stdout: stdout.to_string(),
        stderr: String::new(),
    }
}

fn failed(stderr: &str) -> CommandOutcome {
    CommandOutcome::Finished {
        success: false,
        stdout: String::new(),
        stderr: stderr.to_string(),
    }
}

/// Begins the creation of a tap device on Linux.
fn tap_on_linux(name: &str, ip: &Ipv4Addr) -> (CommandLine, TapCreation) {
    match create_tap(Platform::Linux, name, ip) {
        TapStep::Run(line, tap) => (line, tap),
        TapStep::Done(_) => panic!("must begin"),
    }
}

/// Begins the addition of the NAT rules of one guest on Linux.
fn rules_on_linux() -> (CommandLine, NatAddition) {
    match add_nat_rules(Platform::Linux, &Ipv4Addr::new(172, 16, 0, 2), "fc0", "eth0") {
        NatStep::Run(line, rules) => (line, rules),
        NatStep::Done(_) => panic!("must begin"),
    }
}

/// Begins the setup of a network on Linux.
fn network_on_linux() -> (CommandLine, NetworkSetup) {
    let step = set_up_network(
        Platform::Linux,
        "fc1",
        &Ipv4Addr::new(172, 16, 0, 5),
        &Ipv4Addr::new(172, 16, 0, 6),
        "eth0",
    );
    match step {
        NetworkStep::Run(line, setup) => (line, setup),
        NetworkStep::Done(_) => panic!("must begin"),
    }
}

fn shown(line: &CommandLine) -> String {
    format!("{} {}", line.program, line.args.join(" "))
}

#[test]
fn parse_nft_handle_from_output() {
    let output = "add rule firecracker postrouting ip saddr 172.16.0.2 oifname eth0 counter masquerade # handle 42\n";
    assert_eq!(parse_nft_handle(output).unwrap(), 42);
}

#[test]
fn parse_nft_handle_multiline() {
    let output = "table firecracker {\n  chain postrouting {\n    # handle 7\n  }\n}\nadd rule ... # handle 99\n";
    // Should find the last "# handle" — but our impl finds the first
    assert_eq!(parse_nft_handle(output).unwrap(), 7);
}

#[test]
fn parse_nft_handle_missing() {
    let output = "some random output without a handle\n";
    assert!(parse_nft_handle(output).is_err());
}

#[test]
fn parse_nft_handle_messages() {
    assert_eq!(
        parse_nft_handle("x # handle abc\n# handle 3\n").unwrap_err(),
        "Failed to parse nft handle from: abc"
    );
    assert_eq!(
        parse_nft_handle("  nothing here \n").unwrap_err(),
        "No handle found in nft output: nothing here"
    );
    assert_eq!(parse_nft_handle("# handle +18446744073709551615").unwrap(), u64::MAX);
    assert!(parse_nft_handle("# handle 18446744073709551616").is_err());
    assert!(parse_nft_handle("# handle ").is_err());
}

#[test]
fn tap_is_added_addressed_and_raised() {
    let (line, tap) = tap_on_linux("fc0", &Ipv4Addr::new(172, 16, 0, 1));
    assert_eq!(shown(&line), "ip tuntap add fc0 mode tap");
    let TapStep::Run(line, tap) = tap.next(&ok("")) else {
        panic!("the address must follow");
    };
    assert_eq!(shown(&line), "ip addr add 172.16.0.1/30 dev fc0");
    let TapStep::Run(line, tap) = tap.next(&ok("")) else {
        panic!("bringing up must follow");
    };
    assert_eq!(shown(&line), "ip link set fc0 up");
    assert!(matches!(tap.next(&ok("")), TapStep::Done(Ok(()))));
}

#[test]
fn tap_that_cannot_be_added_is_reported() {
    let (_, tap) = tap_on_linux("fc0", &Ipv4Addr::new(172, 16, 0, 1));
    let TapStep::Done(Err(f)) = tap.next(&failed(" busy \n")) else {
        panic!("must fail");
    };
    assert_eq!(f.context, "Failed to create tap device 'fc0'");
    assert_eq!(f.cause, "ip tuntap add fc0 mode tap failed: busy");
}

#[test]
fn tap_that_cannot_be_addressed_is_deleted() {
    let (_, tap) = tap_on_linux("fc0", &Ipv4Addr::new(172, 16, 0, 1));
    let TapStep::Run(_, tap) = tap.next(&ok("")) else {
        panic!("the address must follow");
    };
    let TapStep::Run(line, tap) = tap.next(&CommandOutcome::NotStarted) else {
        panic!("must roll back");
    };
    assert_eq!(shown(&line), "ip link del fc0");
    let TapStep::Done(Err(f)) = tap.next(&failed("no such device")) else {
        panic!("must fail");
    };
    assert_eq!(f.context, "Failed to assign IP to tap 'fc0'");
    assert_eq!(f.cause, "Failed to execute 'ip'");
}

#[test]
fn tap_that_cannot_be_raised_is_deleted() {
    let (_, tap) = tap_on_linux("fc7", &Ipv4Addr::new(172, 16, 0, 29));
    let TapStep::Run(_, tap) = tap.next(&ok("")) else {
        panic!("the address must follow");
    };
    let TapStep::Run(_, tap) = tap.next(&ok("")) else {
        panic!("bringing up must follow");
    };
    let TapStep::Run(line, tap) = tap.next(&failed("down")) else {
        panic!("must roll back");
    };
    assert_eq!(shown(&line), "ip link del fc7");
    let TapStep::Done(Err(f)) = tap.next(&ok("")) else {
        panic!("must fail");
    };
    assert_eq!(f.context, "Failed to bring up tap 'fc7'");
}

#[test]
fn nat_rules_are_added_in_turn() {
    let (line, rules) = rules_on_linux();
    assert_eq!(line.program, "nft");
    assert_eq!(
        line.args,
        vec![
            "-ae",
            "add rule firecracker postrouting ip saddr 172.16.0.2 oifname eth0 counter masquerade"
        ]
    );
    let NatStep::Run(line, rules) = rules.next(&ok("add rule x # handle 3\n")) else {
        panic!("the filter rule must follow");
    };
    assert_eq!(
        line.args,
        vec!["-ae", "add rule firecracker filter iifname fc0 oifname eth0 accept"]
    );
    let NatStep::Done(Ok(handles)) = rules.next(&ok("add rule y # handle 5\n")) else {
        panic!("must succeed");
    };
    assert_eq!(handles, NatHandles { postrouting: 3, filter: 5 });
}

#[test]
fn postrouting_rule_is_deleted_if_the_filter_rule_fails() {
    let (_, rules) = rules_on_linux();
    let NatStep::Run(_, rules) = rules.next(&ok("# handle 3")) else {
        panic!("the filter rule must follow");
    };
    let NatStep::Run(line, rules) = rules.next(&failed("table full")) else {
        panic!("must roll back");
    };
    assert_eq!(shown(&line), "nft delete rule firecracker postrouting handle 3");
    let NatStep::Done(Err(f)) = rules.next(&ok("")) else {
        panic!("must fail");
    };
    assert_eq!(f.context, "Failed to add filter forwarding rule");
}

#[test]
fn unreadable_handles_are_reported() {
    let (_, rules) = rules_on_linux();
    let NatStep::Done(Err(f)) = rules.next(&ok("nothing")) else {
        panic!("must fail");
    };
    assert_eq!(f.context, "Failed to parse postrouting rule handle");
    assert_eq!(f.cause, "No handle found in nft output: nothing");

    let (_, rules) = rules_on_linux();
    let NatStep::Run(_, rules) = rules.next(&ok("# handle 3")) else {
        panic!("the filter rule must follow");
    };
    let NatStep::Done(Err(f)) = rules.next(&ok("# handle x")) else {
        panic!("must fail");
    };
    assert_eq!(f.context, "Failed to parse filter rule handle");
    assert_eq!(f.cause, "Failed to parse nft handle from: x");
}

#[test]
fn postrouting_rule_that_fails_is_reported() {
    let (_, rules) = rules_on_linux();
    let NatStep::Done(Err(f)) = rules.next(&CommandOutcome::NotStarted) else {
        panic!("must fail");
    };
    assert_eq!(f.context, "Failed to add postrouting NAT rule");
    assert_eq!(f.cause, "Failed to execute 'nft'");
}

#[test]
fn nat_rules_are_removed_by_handle() {
    let handles = NatHandles { postrouting: 12, filter: 34 };
    let (first, second) = remove_nat_rules(Platform::Linux, &handles).unwrap();
    assert_eq!(shown(&first), "nft delete rule firecracker postrouting handle 12");
    assert_eq!(shown(&second), "nft delete rule firecracker filter handle 34");
}

#[test]
fn network_setup_deletes_the_tap_if_the_rules_fail() {
    let (line, setup) = network_on_linux();
    assert_eq!(shown(&line), "ip tuntap add fc1 mode tap");
    let mut setup = setup;
    let mut lines = vec![];
    for outcome in [ok(""), ok(""), ok(""), failed("no table")] {
        match setup.next(&outcome) {
            NetworkStep::Run(line, next) => {
                lines.push(shown(&line));
                setup = next;
            }
            NetworkStep::Done(_) => panic!("not done yet"),
        }
    }
    assert_eq!(lines[0], "ip addr add 172.16.0.5/30 dev fc1");
    assert_eq!(lines[1], "ip link set fc1 up");
    assert_eq!(
        lines[2],
        "nft -ae add rule firecracker postrouting ip saddr 172.16.0.6 oifname eth0 counter masquerade"
    );
    assert_eq!(lines[3], shown(&delete_tap(Platform::Linux, "fc1").unwrap()));
    let NetworkStep::Done(Err(f)) = setup.next(&ok("")) else {
        panic!("must fail");
    };
    assert_eq!(f.context, "Failed to add postrouting NAT rule");
}

#[test]
fn network_setup_yields_the_handles() {
    let (_, mut setup) = network_on_linux();
    for outcome in [ok(""), ok(""), ok(""), ok("# handle 8")] {
        match setup.next(&outcome) {
            NetworkStep::Run(_, next) => setup = next,
            NetworkStep::Done(_) => panic!("not done yet"),
        }
    }
    let NetworkStep::Done(Ok(handles)) = setup.next(&ok("# handle 9")) else {
        panic!("must succeed");
    };
    assert_eq!(handles, NatHandles { postrouting: 8, filter: 9 });
}

#[test]
fn host_interface_is_the_device_of_the_default_route() {
    let route = ok("default via 10.0.0.1 dev eth0 proto dhcp metric 100\n");
    assert_eq!(detect_host_interface(Platform::Linux, &route).unwrap(), "eth0");
    assert_eq!(
        detect_host_interface(Platform::Linux, &ok("default via 10.0.0.1 dev\n")).unwrap_err().context,
        "Could not determine host network interface from default route"
    );
    assert_eq!(
        detect_host_interface(Platform::Linux, &ok("")).unwrap_err().context,
        "Could not determine host network interface from default route"
    );
    let f = detect_host_interface(Platform::Linux, &failed("denied")).unwrap_err();
    assert_eq!(f.context, "Failed to query default route");
    assert_eq!(f.cause, "ip route show default failed: denied");
}

#[test]
fn elsewhere_there_is_no_network_to_set_up() {
    let ip = Ipv4Addr::new(172, 16, 0, 1);
    let zero = NatHandles { postrouting: 0, filter: 0 };
    for platform in [Platform::OtherUnix, Platform::NotUnix] {
        assert!(matches!(create_tap(platform, "fc0", &ip), TapStep::Done(Ok(()))));
        assert!(delete_tap(platform, "fc0").is_none());
        assert!(matches!(
            add_nat_rules(platform, &ip, "fc0", "eth0"),
            NatStep::Done(Ok(handles)) if handles == zero
        ));
        assert!(remove_nat_rules(platform, &zero).is_none());
        assert!(matches!(
            set_up_network(platform, "fc0", &ip, &ip, "eth0"),
            NetworkStep::Done(Ok(handles)) if handles == zero
        ));
        assert_eq!(detect_host_interface(platform, &failed("x")).unwrap(), "eth0");
        assert_eq!(
            detect_host_interface(platform, &CommandOutcome::NotStarted).unwrap(),
            "eth0"
        );
    }
}
