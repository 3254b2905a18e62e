//! Tap devices and NAT rules.
//!
//! Each operation that runs more than one command is a machine: it names the command to
//! run, takes the outcome, and names the next, until it is done. On systems other than Linux
//! there are no such devices and rules, and nothing is run.
use crate::command::{
    command, failure, run_cmd, run_cmd_output, CommandLine, CommandOutcome, Failure,
};
use crate::decimal::{decimal_text, parse_u64};
use crate::platform::Platform;
use crate::text::{chars_of, find_after, is_text, split_lines, split_words, string_of, trim, trim_text};
use crate::vm::network::Ipv4Addr;
use vstd::prelude::*;

verus! {

/// Handles of the two nftables rules of a VM.
#[derive(Debug, Clone, Copy, PartialEq, Eq, Structural)]
pub struct NatHandles {
    pub postrouting: u64,
    pub filter: u64,
}

/// Creates the tap device.
pub open spec fn tap_add_line(name: Seq<char>) -> (Seq<char>, Seq<Seq<char>>) {
    ("ip"@, seq!["tuntap"@, "add"@, name, "mode"@, "tap"@])
}

/// Creates the tap device.
pub fn tap_add(name: &str) -> (r: CommandLine)
    ensures
        r@ == tap_add_line(name@),
{
    let args = vec!["tuntap", "add", name, "mode", "tap"];
    proof {
        assert(crate::text::slices(args@) =~= tap_add_line(name@).1);
    }
    command("ip", args)
}

/// Gives the tap device its address in a `/30`.
pub open spec fn tap_address_line(name: Seq<char>, tap_ip: Ipv4Addr) -> (Seq<char>, Seq<Seq<char>>) {
    ("ip"@, seq!["addr"@, "add"@, tap_ip.text() + "/30"@, "dev"@, name])
}

/// Gives the tap device its address in a `/30`.
pub fn tap_address(name: &str, tap_ip: Ipv4Addr) -> (r: CommandLine)
    ensures
        r@ == tap_address_line(name@, tap_ip),
{
    let mut addr = tap_ip.to_text();
    addr.append("/30");
    let args = vec!["addr", "add", addr.as_str(), "dev", name];
    proof {
        assert(crate::text::slices(args@) =~= tap_address_line(name@, tap_ip).1);
    }
    command("ip", args)
}

/// Brings the tap device up.
pub open spec fn tap_up_line(name: Seq<char>) -> (Seq<char>, Seq<Seq<char>>) {
    ("ip"@, seq!["link"@, "set"@, name, "up"@])
}

/// Brings the tap device up.
pub fn tap_up(name: &str) -> (r: CommandLine)
    ensures
        r@ == tap_up_line(name@),
{
    let args = vec!["link", "set", name, "up"];
    proof {
        assert(crate::text::slices(args@) =~= tap_up_line(name@).1);
    }
    command("ip", args)
}

/// Deletes the tap device.
pub open spec fn tap_delete_line(name: Seq<char>) -> (Seq<char>, Seq<Seq<char>>) {
    ("ip"@, seq!["link"@, "del"@, name])
}

/// Deletes the tap device.
pub fn tap_delete(name: &str) -> (r: CommandLine)
    ensures
        r@ == tap_delete_line(name@),
{
    let args = vec!["link", "del", name];
    proof {
        assert(crate::text::slices(args@) =~= tap_delete_line(name@).1);
    }
    command("ip", args)
}

/// The rule that masquerades what the guest sends out of the host interface.
pub open spec fn postrouting_rule(guest_ip: Ipv4Addr, host_iface: Seq<char>) -> Seq<char> {
    "add rule firecracker postrouting ip saddr "@ + guest_ip.text() + " oifname "@ + host_iface
        + " counter masquerade"@
}

/// The rule that lets the tap device forward to the host interface.
pub open spec fn filter_rule(tap_name: Seq<char>, host_iface: Seq<char>) -> Seq<char> {
    "add rule firecracker filter iifname "@ + tap_name + " oifname "@ + host_iface + " accept"@
}

/// Adds the masquerading rule and echoes it with its handle.
pub open spec fn add_postrouting_line(guest_ip: Ipv4Addr, host_iface: Seq<char>) -> (Seq<char>, Seq<Seq<char>>) {
    ("nft"@, seq!["-ae"@, postrouting_rule(guest_ip, host_iface)])
}

/// Adds the masquerading rule and echoes it with its handle.
pub fn add_postrouting(guest_ip: Ipv4Addr, host_iface: &str) -> (r: CommandLine)
    ensures
        r@ == add_postrouting_line(guest_ip, host_iface@),
{
    let mut rule = "add rule firecracker postrouting ip saddr ".to_string();
    rule.append(guest_ip.to_text().as_str());
    rule.append(" oifname ");
    rule.append(host_iface);
    rule.append(" counter masquerade");
    let args = vec!["-ae", rule.as_str()];
    proof {
        assert(crate::text::slices(args@) =~= add_postrouting_line(guest_ip, host_iface@).1);
    }
    command("nft", args)
}

/// Adds the forwarding rule and echoes it with its handle.
pub open spec fn add_filter_line(tap_name: Seq<char>, host_iface: Seq<char>) -> (Seq<char>, Seq<Seq<char>>) {
    ("nft"@, seq!["-ae"@, filter_rule(tap_name, host_iface)])
}

/// Adds the forwarding rule and echoes it with its handle.
pub fn add_filter(tap_name: &str, host_iface: &str) -> (r: CommandLine)
    ensures
        r@ == add_filter_line(tap_name@, host_iface@),
{
    let mut rule = "add rule firecracker filter iifname ".to_string();
    rule.append(tap_name);
    rule.append(" oifname ");
    rule.append(host_iface);
    rule.append(" accept");
    let args = vec!["-ae", rule.as_str()];
    proof {
        assert(crate::text::slices(args@) =~= add_filter_line(tap_name@, host_iface@).1);
    }
    command("nft", args)
}

/// Deletes a rule of a chain by its handle.
pub open spec fn delete_rule_line(chain: Seq<char>, handle: u64) -> (Seq<char>, Seq<Seq<char>>) {
    ("nft"@, seq!["delete"@, "rule"@, "firecracker"@, chain, "handle"@, crate::decimal::decimal(handle as nat)])
}

/// Deletes a rule of a chain by its handle.
pub fn delete_rule(chain: &str, handle: u64) -> (r: CommandLine)
    ensures
        r@ == delete_rule_line(chain@, handle),
{
    let number = decimal_text(handle);
    let args = vec!["delete", "rule", "firecracker", chain, "handle", number.as_str()];
    proof {
        assert(crate::text::slices(args@) =~= delete_rule_line(chain@, handle).1);
    }
    command("nft", args)
}

/// How far the creation of a tap device has come: the command that is running.
#[derive(Debug)]
pub enum TapStage {
    Adding,
    Addressing,
    Raising,
    /// The device is being deleted because of this failure.
    RollingBack(Failure),
}

/// A tap device that is being created.
#[derive(Debug)]
pub struct TapCreation {
    pub name: String,
    pub tap_ip: Ipv4Addr,
    pub stage: TapStage,
}

/// What the creation of a tap device asks for.
#[derive(Debug)]
pub enum TapStep {
    Run(CommandLine, TapCreation),
    Done(Result<(), Failure>),
}

impl TapStep {
    /// Whether this ends with a failure that says this.
    pub open spec fn fails(self, context: Seq<char>, cause: Seq<char>) -> bool {
        self matches TapStep::Done(Err(f)) && f.says(context, cause)
    }

    /// Whether this deletes the device of `t` because of a failure that says this.
    pub open spec fn rolls_back(
        self,
        t: TapCreation,
        context: Seq<char>,
        cause: Seq<char>,
    ) -> bool {
        &&& self matches TapStep::Run(c, next)
        &&& c@ == tap_delete_line(t.name@)
        &&& next.name@ == t.name@
        &&& next.tap_ip == t.tap_ip
        &&& next.stage matches TapStage::RollingBack(f)
        &&& f.says(context, cause)
    }
}

/// What follows the outcome of the running command in the creation of a tap device.
///
/// The device is added, given its address and brought up. If one of the last two
/// fails, the device is deleted before the failure is reported.
pub open spec fn tap_step(t: TapCreation, outcome: CommandOutcome, r: TapStep) -> bool {
    let name = t.name@;
    match t.stage {
        TapStage::Adding => if outcome.ok() {
            &&& r matches TapStep::Run(c, next)
            &&& c@ == tap_address_line(name, t.tap_ip)
            &&& next.name@ == name
            &&& next.tap_ip == t.tap_ip
            &&& next.stage is Addressing
        } else {
            r.fails(
                "Failed to create tap device '"@ + name + "'"@,
                crate::command::command_failure(tap_add_line(name), outcome),
            )
        },
        TapStage::Addressing => if outcome.ok() {
            &&& r matches TapStep::Run(c, next)
            &&& c@ == tap_up_line(name)
            &&& next.name@ == name
            &&& next.tap_ip == t.tap_ip
            &&& next.stage is Raising
        } else {
            r.rolls_back(
                t,
                "Failed to assign IP to tap '"@ + name + "'"@,
                crate::command::command_failure(tap_address_line(name, t.tap_ip), outcome),
            )
        },
        TapStage::Raising => if outcome.ok() {
            r matches TapStep::Done(Ok(()))
        } else {
            r.rolls_back(
                t,
                "Failed to bring up tap '"@ + name + "'"@,
                crate::command::command_failure(tap_up_line(name), outcome),
            )
        },
        TapStage::RollingBack(f) => r.fails(f.context@, f.cause@),
    }
}

/// The text `before`, the name, and a closing quote.
fn quoted(before: &str, name: &str) -> (r: String)
    ensures
        r@ == before@ + name@ + "'"@,
{
    let mut s = before.to_string();
    s.append(name);
    s.append("'");
    s
}

/// Begins the creation of a tap device with the given address: it is added first.
fn begin_tap(name: &str, tap_ip: &Ipv4Addr) -> (r: (CommandLine, TapCreation))
    ensures
        r.0@ == tap_add_line(name@),
        r.1.name@ == name@,
        r.1.tap_ip == *tap_ip,
        r.1.stage is Adding,
{
    (
        tap_add(name),
        TapCreation { name: name.to_string(), tap_ip: *tap_ip, stage: TapStage::Adding },
    )
}

/// Begins the creation of a tap device with the given address. On systems other than Linux
/// there is nothing to do.
pub fn create_tap(platform: Platform, name: &str, tap_ip: &Ipv4Addr) -> (r: TapStep)
    ensures
        if platform is Linux {
            &&& r matches TapStep::Run(line, t)
            &&& line@ == tap_add_line(name@)
            &&& t.name@ == name@
            &&& t.tap_ip == *tap_ip
            &&& t.stage is Adding
        } else {
            r matches TapStep::Done(Ok(()))
        },
{
    if platform.is_linux() {
        let (line, t) = begin_tap(name, tap_ip);
        TapStep::Run(line, t)
    } else {
        TapStep::Done(Ok(()))
    }
}

impl TapCreation {
    /// Goes on with the creation of the tap device.
    pub fn next(self, outcome: &CommandOutcome) -> (r: TapStep)
        ensures
            tap_step(self, *outcome, r),
    {
        let TapCreation { name, tap_ip, stage } = self;
        match stage {
            TapStage::Adding => match run_cmd(&tap_add(name.as_str()), outcome) {
                Ok(()) => {
                    let line = tap_address(name.as_str(), tap_ip);
                    TapStep::Run(line, TapCreation { name, tap_ip, stage: TapStage::Addressing })
                },
                Err(cause) => {
                    let context = quoted("Failed to create tap device '", name.as_str());
                    TapStep::Done(Err(Failure { context, cause }))
                },
            },
            TapStage::Addressing => match run_cmd(&tap_address(name.as_str(), tap_ip), outcome) {
                Ok(()) => {
                    let line = tap_up(name.as_str());
                    TapStep::Run(line, TapCreation { name, tap_ip, stage: TapStage::Raising })
                },
                Err(cause) => {
                    let context = quoted("Failed to assign IP to tap '", name.as_str());
                    let stage = TapStage::RollingBack(Failure { context, cause });
                    let line = tap_delete(name.as_str());
                    TapStep::Run(line, TapCreation { name, tap_ip, stage })
                },
            },
            TapStage::Raising => match run_cmd(&tap_up(name.as_str()), outcome) {
                Ok(()) => TapStep::Done(Ok(())),
                Err(cause) => {
                    let context = quoted("Failed to bring up tap '", name.as_str());
                    let stage = TapStage::RollingBack(Failure { context, cause });
                    let line = tap_delete(name.as_str());
                    TapStep::Run(line, TapCreation { name, tap_ip, stage })
                },
            },
            TapStage::RollingBack(f) => TapStep::Done(Err(f)),
        }
    }
}

/// The command that deletes a tap device. What comes of it changes nothing. On systems other
/// than Linux there is none.
pub fn delete_tap(platform: Platform, name: &str) -> (r: Option<CommandLine>)
    ensures
        match r {
            Some(line) => platform is Linux && line@ == tap_delete_line(name@),
            None => !(platform is Linux),
        },
{
    if platform.is_linux() {
        Some(tap_delete(name))
    } else {
        None
    }
}

/// What stands behind `# handle ` on the first of the lines that holds it, trimmed.
pub open spec fn handle_field(lines: Seq<Seq<char>>) -> Option<Seq<char>>
    decreases lines.len(),
{
    if lines.len() == 0 {
        None
    } else {
        match crate::text::after_first(lines[0], "# handle "@) {
            Some(rest) => Some(crate::text::trimmed(rest)),
            None => handle_field(lines.skip(1)),
        }
    }
}

/// The handle that nft echoed, or why there is none.
pub open spec fn nft_handle(output: Seq<char>) -> Result<u64, Seq<char>> {
    match handle_field(crate::text::lines(output)) {
        Some(field) => match crate::decimal::parsed_u64(field) {
            Some(handle) => Ok(handle),
            None => Err("Failed to parse nft handle from: "@ + field),
        },
        None => Err("No handle found in nft output: "@ + crate::text::trimmed(output)),
    }
}

/// Extracts the rule handle from nft's output: the number behind the first `# handle `.
pub fn parse_nft_handle(output: &str) -> (r: Result<u64, String>)
    ensures
        match r {
            Ok(handle) => nft_handle(output@) == Ok::<u64, Seq<char>>(handle),
            Err(msg) => nft_handle(output@) == Err::<u64, Seq<char>>(msg@),
        },
{
    let chars = chars_of(output);
    let lines = split_lines(&chars);
    let ghost all = crate::text::views(lines@);
    let mut i: usize = 0;
    proof {
        assert(all.skip(0) =~= all);
    }
    while i < lines.len()
        invariant
            i <= lines@.len(),
            all == crate::text::views(lines@),
            all == crate::text::lines(output@),
            handle_field(all.skip(i as int)) == handle_field(all),
        decreases lines@.len() - i,
    {
        proof {
            assert(all.skip(i as int)[0] == lines@[i as int]@);
            assert(all.skip(i as int).skip(1) =~= all.skip(i + 1));
        }
        match find_after(&lines[i], "# handle ") {
            Some(rest) => {
                let field = trim(&rest);
                return match parse_u64(&field) {
                    Some(handle) => Ok(handle),
                    None => {
                        let mut msg = "Failed to parse nft handle from: ".to_string();
                        msg.append(string_of(&field).as_str());
                        Err(msg)
                    },
                };
            },
            None => {},
        }
        i += 1;
    }
    let mut msg = "No handle found in nft output: ".to_string();
    msg.append(trim_text(output).as_str());
    Err(msg)
}

/// How far the addition of the NAT rules has come: the command that is running.
#[derive(Debug)]
pub enum NatStage {
    AddingPostrouting,
    AddingFilter { postrouting: u64 },
    /// The postrouting rule is being deleted because of this failure.
    RollingBack(Failure),
}

/// NAT rules that are being added for one VM.
#[derive(Debug)]
pub struct NatAddition {
    pub guest_ip: Ipv4Addr,
    pub tap_name: String,
    pub host_iface: String,
    pub stage: NatStage,
}

/// What the addition of the NAT rules asks for.
#[derive(Debug)]
pub enum NatStep {
    Run(CommandLine, NatAddition),
    Done(Result<NatHandles, Failure>),
}

impl NatAddition {
    /// Whether `other` adds rules for the same VM.
    pub open spec fn same_vm(self, other: NatAddition) -> bool {
        &&& self.guest_ip == other.guest_ip
        &&& self.tap_name@ == other.tap_name@
        &&& self.host_iface@ == other.host_iface@
    }
}

impl NatStep {
    /// Whether this ends with a failure that says this.
    pub open spec fn fails(self, context: Seq<char>, cause: Seq<char>) -> bool {
        self matches NatStep::Done(Err(f)) && f.says(context, cause)
    }
}

/// What follows the outcome of the running command in the addition of the NAT rules.
///
/// The postrouting rule is added first, then the filter rule. If the filter rule cannot
/// be added, the postrouting rule is deleted before the failure is reported.
pub open spec fn nat_step(n: NatAddition, outcome: CommandOutcome, r: NatStep) -> bool {
    match n.stage {
        NatStage::AddingPostrouting => if !outcome.ok() {
            r.fails(
                "Failed to add postrouting NAT rule"@,
                crate::command::command_failure(
                    add_postrouting_line(n.guest_ip, n.host_iface@),
                    outcome,
                ),
            )
        } else {
            match nft_handle(outcome.out()) {
                Ok(handle) => {
                    &&& r matches NatStep::Run(c, next)
                    &&& c@ == add_filter_line(n.tap_name@, n.host_iface@)
                    &&& next.same_vm(n)
                    &&& next.stage == NatStage::AddingFilter { postrouting: handle }
                },
                Err(cause) => r.fails("Failed to parse postrouting rule handle"@, cause),
            }
        },
        NatStage::AddingFilter { postrouting } => if !outcome.ok() {
            &&& r matches NatStep::Run(c, next)
            &&& c@ == delete_rule_line("postrouting"@, postrouting)
            &&& next.same_vm(n)
            &&& next.stage matches NatStage::RollingBack(f)
            &&& f.says(
                "Failed to add filter forwarding rule"@,
                crate::command::command_failure(
                    add_filter_line(n.tap_name@, n.host_iface@),
                    outcome,
                ),
            )
        } else {
            match nft_handle(outcome.out()) {
                Ok(filter) => r == NatStep::Done(Ok(NatHandles { postrouting, filter })),
                Err(cause) => r.fails("Failed to parse filter rule handle"@, cause),
            }
        },
        NatStage::RollingBack(f) => r.fails(f.context@, f.cause@),
    }
}

/// Begins the addition of the NAT rules for one VM: the postrouting rule comes first.
fn begin_rules(guest_ip: &Ipv4Addr, tap_name: &str, host_iface: &str) -> (r: (
    CommandLine,
    NatAddition,
))
    ensures
        r.0@ == add_postrouting_line(*guest_ip, host_iface@),
        r.1.guest_ip == *guest_ip,
        r.1.tap_name@ == tap_name@,
        r.1.host_iface@ == host_iface@,
        r.1.stage is AddingPostrouting,
{
    (
        add_postrouting(*guest_ip, host_iface),
        NatAddition {
            guest_ip: *guest_ip,
            tap_name: tap_name.to_string(),
            host_iface: host_iface.to_string(),
            stage: NatStage::AddingPostrouting,
        },
    )
}

/// Begins the addition of the NAT rules for one VM. On systems other than Linux there is
/// nothing to do, and both handles are zero.
pub fn add_nat_rules(
    platform: Platform,
    guest_ip: &Ipv4Addr,
    tap_name: &str,
    host_iface: &str,
) -> (r: NatStep)
    ensures
        if platform is Linux {
            &&& r matches NatStep::Run(line, n)
            &&& line@ == add_postrouting_line(*guest_ip, host_iface@)
            &&& n.guest_ip == *guest_ip
            &&& n.tap_name@ == tap_name@
            &&& n.host_iface@ == host_iface@
            &&& n.stage is AddingPostrouting
        } else {
            r == NatStep::Done(Ok(NatHandles { postrouting: 0, filter: 0 }))
        },
{
    if platform.is_linux() {
        let (line, n) = begin_rules(guest_ip, tap_name, host_iface);
        NatStep::Run(line, n)
    } else {
        NatStep::Done(Ok(NatHandles { postrouting: 0, filter: 0 }))
    }
}

impl NatAddition {
    /// Goes on with the addition of the NAT rules.
    pub fn next(self, outcome: &CommandOutcome) -> (r: NatStep)
        ensures
            nat_step(self, *outcome, r),
    {
        let NatAddition { guest_ip, tap_name, host_iface, stage } = self;
        match stage {
            NatStage::AddingPostrouting => {
                let line = add_postrouting(guest_ip, host_iface.as_str());
                match run_cmd_output(&line, outcome) {
                    Err(cause) => NatStep::Done(
                        Err(failure("Failed to add postrouting NAT rule", cause)),
                    ),
                    Ok(output) => match parse_nft_handle(output.as_str()) {
                        Ok(postrouting) => {
                            let line = add_filter(tap_name.as_str(), host_iface.as_str());
                            let stage = NatStage::AddingFilter { postrouting };
                            NatStep::Run(
                                line,
                                NatAddition { guest_ip, tap_name, host_iface, stage },
                            )
                        },
                        Err(cause) => NatStep::Done(
                            Err(failure("Failed to parse postrouting rule handle", cause)),
                        ),
                    },
                }
            },
            NatStage::AddingFilter { postrouting } => {
                let line = add_filter(tap_name.as_str(), host_iface.as_str());
                match run_cmd_output(&line, outcome) {
                    Err(cause) => {
                        let undo = delete_rule("postrouting", postrouting);
                        let stage = NatStage::RollingBack(
                            failure("Failed to add filter forwarding rule", cause),
                        );
                        NatStep::Run(undo, NatAddition { guest_ip, tap_name, host_iface, stage })
                    },
                    Ok(output) => match parse_nft_handle(output.as_str()) {
                        Ok(filter) => NatStep::Done(Ok(NatHandles { postrouting, filter })),
                        Err(cause) => NatStep::Done(
                            Err(failure("Failed to parse filter rule handle", cause)),
                        ),
                    },
                }
            },
            NatStage::RollingBack(f) => NatStep::Done(Err(f)),
        }
    }
}

/// How far the setup of a VM's network has come.
#[derive(Debug)]
pub enum NetworkStage {
    CreatingTap(TapCreation),
    AddingRules(NatAddition),
    /// The tap device is being deleted because of this failure.
    DeletingTap(Failure),
}

/// A VM's network that is being set up: the tap device, then the NAT rules.
#[derive(Debug)]
pub struct NetworkSetup {
    pub tap_name: String,
    pub guest_ip: Ipv4Addr,
    pub host_iface: String,
    pub stage: NetworkStage,
}

/// What the setup of a VM's network asks for.
#[derive(Debug)]
pub enum NetworkStep {
    Run(CommandLine, NetworkSetup),
    Done(Result<NatHandles, Failure>),
}

impl NetworkSetup {
    /// Whether `other` sets up the network of the same VM.
    pub open spec fn same_vm(self, other: NetworkSetup) -> bool {
        &&& self.tap_name@ == other.tap_name@
        &&& self.guest_ip == other.guest_ip
        &&& self.host_iface@ == other.host_iface@
    }

    /// Whether the tap device stands, as far as the commands did what they reported.
    pub open spec fn has_tap(self) -> bool {
        match self.stage {
            NetworkStage::CreatingTap(t) => t.stage is Addressing || t.stage is Raising,
            NetworkStage::AddingRules(_) => true,
            NetworkStage::DeletingTap(_) => false,
        }
    }

    /// Whether the running command deletes the tap device.
    pub open spec fn deletes_tap(self) -> bool {
        match self.stage {
            NetworkStage::CreatingTap(t) => t.stage is RollingBack,
            NetworkStage::AddingRules(_) => false,
            NetworkStage::DeletingTap(_) => true,
        }
    }

    /// The parts of the setup speak of one tap device.
    pub open spec fn wf(self) -> bool {
        match self.stage {
            NetworkStage::CreatingTap(t) => t.name@ == self.tap_name@,
            NetworkStage::AddingRules(n) => {
                &&& n.tap_name@ == self.tap_name@
                &&& n.guest_ip == self.guest_ip
                &&& n.host_iface@ == self.host_iface@
            },
            NetworkStage::DeletingTap(_) => true,
        }
    }
}

/// What follows the outcome of the running command in the setup of a VM's network.
///
/// The tap device is created and then the NAT rules are added. If the rules cannot be
/// added, the tap device is deleted before the failure is reported.
pub open spec fn network_step(n: NetworkSetup, outcome: CommandOutcome, r: NetworkStep) -> bool {
    match n.stage {
        NetworkStage::CreatingTap(t) => match r {
            NetworkStep::Run(c, next) => next.same_vm(n) && match next.stage {
                NetworkStage::CreatingTap(t2) => tap_step(t, outcome, TapStep::Run(c, t2)),
                NetworkStage::AddingRules(a) => {
                    &&& tap_step(t, outcome, TapStep::Done(Ok(())))
                    &&& c@ == add_postrouting_line(n.guest_ip, n.host_iface@)
                    &&& a.guest_ip == n.guest_ip
                    &&& a.tap_name@ == n.tap_name@
                    &&& a.host_iface@ == n.host_iface@
                    &&& a.stage is AddingPostrouting
                },
                NetworkStage::DeletingTap(_) => false,
            },
            NetworkStep::Done(Ok(_)) => false,
            NetworkStep::Done(Err(f)) => tap_step(t, outcome, TapStep::Done(Err(f))),
        },
        NetworkStage::AddingRules(a) => match r {
            NetworkStep::Run(c, next) => next.same_vm(n) && match next.stage {
                NetworkStage::CreatingTap(_) => false,
                NetworkStage::AddingRules(a2) => nat_step(a, outcome, NatStep::Run(c, a2)),
                NetworkStage::DeletingTap(f) => {
                    &&& nat_step(a, outcome, NatStep::Done(Err(f)))
                    &&& c@ == tap_delete_line(n.tap_name@)
                },
            },
            NetworkStep::Done(Ok(handles)) => nat_step(a, outcome, NatStep::Done(Ok(handles))),
            NetworkStep::Done(Err(_)) => false,
        },
        NetworkStage::DeletingTap(f) => r == NetworkStep::Done(Err(f)),
    }
}

/// Begins the setup of a VM's network. On systems other than Linux there is nothing to do, and
/// the handles of both rules are zero.
pub fn set_up_network(
    platform: Platform,
    tap_name: &str,
    tap_ip: &Ipv4Addr,
    guest_ip: &Ipv4Addr,
    host_iface: &str,
) -> (r: NetworkStep)
    ensures
        if platform is Linux {
            &&& r matches NetworkStep::Run(line, n)
            &&& line@ == tap_add_line(tap_name@)
            &&& n.wf()
            &&& n.tap_name@ == tap_name@
            &&& n.guest_ip == *guest_ip
            &&& n.host_iface@ == host_iface@
            &&& n.stage matches NetworkStage::CreatingTap(t)
            &&& t.tap_ip == *tap_ip
            &&& t.stage is Adding
        } else {
            r == NetworkStep::Done(Ok(NatHandles { postrouting: 0, filter: 0 }))
        },
{
    if !platform.is_linux() {
        return NetworkStep::Done(Ok(NatHandles { postrouting: 0, filter: 0 }));
    }
    let (line, t) = begin_tap(tap_name, tap_ip);
    NetworkStep::Run(
        line,
        NetworkSetup {
            tap_name: tap_name.to_string(),
            guest_ip: *guest_ip,
            host_iface: host_iface.to_string(),
            stage: NetworkStage::CreatingTap(t),
        },
    )
}

impl NetworkSetup {
    /// Goes on with the setup of the network.
    pub fn next(self, outcome: &CommandOutcome) -> (r: NetworkStep)
        ensures
            network_step(self, *outcome, r),
    {
        let NetworkSetup { tap_name, guest_ip, host_iface, stage } = self;
        match stage {
            NetworkStage::CreatingTap(t) => match t.next(outcome) {
                TapStep::Run(line, t2) => NetworkStep::Run(
                    line,
                    NetworkSetup {
                        tap_name,
                        guest_ip,
                        host_iface,
                        stage: NetworkStage::CreatingTap(t2),
                    },
                ),
                TapStep::Done(Err(f)) => NetworkStep::Done(Err(f)),
                TapStep::Done(Ok(())) => {
                    let (line, a) = begin_rules(
                        &guest_ip,
                        tap_name.as_str(),
                        host_iface.as_str(),
                    );
                    NetworkStep::Run(
                        line,
                        NetworkSetup {
                            tap_name,
                            guest_ip,
                            host_iface,
                            stage: NetworkStage::AddingRules(a),
                        },
                    )
                },
            },
            NetworkStage::AddingRules(a) => match a.next(outcome) {
                NatStep::Run(line, a2) => NetworkStep::Run(
                    line,
                    NetworkSetup {
                        tap_name,
                        guest_ip,
                        host_iface,
                        stage: NetworkStage::AddingRules(a2),
                    },
                ),
                NatStep::Done(Ok(handles)) => NetworkStep::Done(Ok(handles)),
                NatStep::Done(Err(f)) => {
                    let line = tap_delete(tap_name.as_str());
                    NetworkStep::Run(
                        line,
                        NetworkSetup {
                            tap_name,
                            guest_ip,
                            host_iface,
                            stage: NetworkStage::DeletingTap(f),
                        },
                    )
                },
            },
            NetworkStage::DeletingTap(f) => NetworkStep::Done(Err(f)),
        }
    }
}

/// A setup that fails while its tap device stands asks for the device to be deleted
/// before it reports the failure, and reports success only while the device stands.
pub proof fn failed_setup_deletes_tap(
    n: NetworkSetup,
    outcome: CommandOutcome,
    r: NetworkStep,
)
    requires
        n.wf(),
        network_step(n, outcome, r),
    ensures
        r matches NetworkStep::Run(_, next) ==> next.wf() && next.same_vm(n),
        n.has_tap() ==> {
            ||| r matches NetworkStep::Run(_, next) && next.has_tap()
            ||| r matches NetworkStep::Run(c, next) && next.deletes_tap() && c@ == tap_delete_line(
                n.tap_name@,
            )
            ||| r matches NetworkStep::Done(Ok(_))
        },
        r matches NetworkStep::Done(Ok(_)) ==> n.has_tap(),
        n.deletes_tap() ==> r matches NetworkStep::Done(Err(_)),
{
}

/// A postrouting rule that was added is deleted again if the filter rule cannot be added.
pub proof fn failed_rules_are_rolled_back(n: NatAddition, outcome: CommandOutcome, r: NatStep)
    requires
        nat_step(n, outcome, r),
        n.stage is AddingFilter,
        !outcome.ok(),
    ensures
        r matches NatStep::Run(c, next) && next.stage is RollingBack && c@ == delete_rule_line(
            "postrouting"@,
            n.stage->AddingFilter_postrouting,
        ),
{
}

/// The commands that remove both NAT rules of a VM, in order. Both are run, whatever
/// comes of the first. On systems other than Linux there are none.
pub fn remove_nat_rules(platform: Platform, handles: &NatHandles) -> (r: Option<
    (CommandLine, CommandLine),
>)
    ensures
        match r {
            Some((first, second)) => {
                &&& platform is Linux
                &&& first@ == delete_rule_line("postrouting"@, handles.postrouting)
                &&& second@ == delete_rule_line("filter"@, handles.filter)
            },
            None => !(platform is Linux),
        },
{
    if platform.is_linux() {
        Some((delete_rule("postrouting", handles.postrouting), delete_rule("filter", handles.filter)))
    } else {
        None
    }
}

/// Shows the default route.
pub open spec fn default_route_line() -> (Seq<char>, Seq<Seq<char>>) {
    ("ip"@, seq!["route"@, "show"@, "default"@])
}

/// Shows the default route.
pub fn default_route() -> (r: CommandLine)
    ensures
        r@ == default_route_line(),
{
    let args = vec!["route", "show", "default"];
    proof {
        assert(crate::text::slices(args@) =~= default_route_line().1);
    }
    command("ip", args)
}

/// The word behind the first word `dev`.
pub open spec fn device_of_route(words: Seq<Seq<char>>) -> Option<Seq<char>>
    decreases words.len(),
{
    if words.len() < 2 {
        None
    } else if words[0] == "dev"@ {
        Some(words[1])
    } else {
        device_of_route(words.skip(1))
    }
}

/// Determines the host's outward-facing interface from what came of showing the default
/// route, such as `default via 10.0.0.1 dev eth0 proto ...`. On systems other than Linux it is
/// taken to be `eth0`.
pub fn detect_host_interface(platform: Platform, outcome: &CommandOutcome) -> (r: Result<
    String,
    Failure,
>)
    ensures
        !(platform is Linux) ==> (r matches Ok(name) && name@ == "eth0"@),
        platform is Linux ==> match r {
            Ok(name) => outcome.ok() && device_of_route(crate::text::words(outcome.out())) == Some(
                name@,
            ),
            Err(f) => if outcome.ok() {
                device_of_route(crate::text::words(outcome.out())) is None && f.says(
                    "Could not determine host network interface from default route"@,
                    ""@,
                )
            } else {
                f.says(
                    "Failed to query default route"@,
                    crate::command::command_failure(default_route_line(), *outcome),
                )
            },
        },
{
    if !platform.is_linux() {
        return Ok("eth0".to_string());
    }
    let output = match run_cmd_output(&default_route(), outcome) {
        Ok(output) => output,
        Err(cause) => return Err(failure("Failed to query default route", cause)),
    };
    let chars = chars_of(output.as_str());
    let words = split_words(&chars);
    let ghost all = crate::text::views(words@);
    let mut i: usize = 0;
    proof {
        assert(all.skip(0) =~= all);
    }
    let count: usize = words.len();
    while count >= 2 && i < count - 1
        invariant
            i <= count == words@.len(),
            all == crate::text::views(words@),
            all == crate::text::words(output@),
            platform is Linux,
            outcome.ok(),
            output@ == outcome.out(),
            device_of_route(all.skip(i as int)) == device_of_route(all),
        decreases words@.len() - i,
    {
        proof {
            assert(all.skip(i as int)[0] == words@[i as int]@);
            assert(all.skip(i as int)[1] == words@[i + 1]@);
            assert(all.skip(i as int).skip(1) =~= all.skip(i + 1));
        }
        if is_text(&words[i], "dev") {
            return Ok(string_of(&words[i + 1]));
        }
        i += 1;
    }
    Err(
        failure(
            "Could not determine host network interface from default route",
            "".to_string(),
        ),
    )
}

/// The handle that nft echoes behind a rule is read as that handle.
pub proof fn echoed_handle_is_read(rule: Seq<char>, handle: u64)
    requires
        !rule.contains('\n'),
        !rule.contains('#'),
    ensures
        nft_handle(rule + "# handle "@ + crate::decimal::decimal(handle as nat) + "\n"@) == Ok::<
            u64,
            Seq<char>,
        >(handle),
{
    reveal_strlit("# handle ");
    let mark = "# handle "@;
    let number = crate::decimal::decimal(handle as nat);
    let line = rule + mark + number;
    crate::decimal::decimal_digits(handle as nat);
    crate::decimal::parsed_decimal(handle);
    assert(crate::decimal::is_digit(number[0]));
    assert(crate::decimal::is_digit(number[number.len() - 1]));
    assert(line.last() == number[number.len() - 1]);
    assert(!line.contains('\n')) by {
        assert forall|i: int| 0 <= i < line.len() implies line[i] != '\n' by {
            if i < rule.len() {
                assert(rule.contains(rule[i]));
            } else if i >= rule.len() + mark.len() {
                assert(crate::decimal::is_digit(number[i - rule.len() - mark.len()]));
            }
        }
    }
    crate::text::one_line(line);
    assert(line =~= rule + (mark + number));
    crate::text::after_first_skips(rule, mark + number, mark);
    assert(mark =~= (mark + number).subrange(0, 9));
    assert((mark + number).skip(9) =~= number);
    assert(crate::text::trimmed_start(number) == number);
    assert(crate::text::trimmed(number) == number);
    assert(crate::text::lines(line + "\n"@)[0] == line);
}

/// A tap device that could be added is reported as created exactly if it could also be given
/// its address and brought up; otherwise it is deleted, and the failure is reported after that.
pub proof fn tap_created_or_deleted(
    start: TapCreation,
    added: CommandOutcome,
    line: CommandLine,
    second: TapCreation,
    addressed: CommandOutcome,
    r: TapStep,
)
    requires
        start.stage is Adding,
        tap_step(start, added, TapStep::Run(line, second)),
        tap_step(second, addressed, r),
    ensures
        added.ok(),
        second.stage is Addressing,
        r matches TapStep::Run(c, third) && third.name@ == start.name@ && if addressed.ok() {
            &&& third.stage is Raising
            &&& forall|raised: CommandOutcome, end: TapStep| #[trigger]
                tap_step(third, raised, end) ==> if raised.ok() {
                    end matches TapStep::Done(Ok(()))
                } else {
                    end matches TapStep::Run(undo, last) && undo@ == tap_delete_line(start.name@)
                        && last.stage is RollingBack
                }
        } else {
            &&& third.stage is RollingBack
            &&& c@ == tap_delete_line(start.name@)
            &&& forall|undone: CommandOutcome, end: TapStep| #[trigger]
                tap_step(third, undone, end) ==> end matches TapStep::Done(Err(_))
        },
{
}

/// On Linux a tap device is added under its name, given its address in a block of four, and
/// brought up. If one of the last two fails, the device of that name is deleted, and the
/// failure reported.
pub proof fn tap_commands(
    name: &str,
    tap_ip: Ipv4Addr,
    begun: TapStep,
    added: CommandOutcome,
    second: TapStep,
    addressed: CommandOutcome,
    third: TapStep,
    raised: CommandOutcome,
    fourth: TapStep,
)
    requires
        call_ensures(create_tap, (Platform::Linux, name, &tap_ip), begun),
        call_ensures(TapCreation::next, (begun->Run_1, &added), second),
        call_ensures(TapCreation::next, (second->Run_1, &addressed), third),
        call_ensures(TapCreation::next, (third->Run_1, &raised), fourth),
    ensures
        begun matches TapStep::Run(line, _) && line@ == (
            "ip"@,
            seq!["tuntap"@, "add"@, name@, "mode"@, "tap"@],
        ),
        !added.ok() ==> (second matches TapStep::Done(Err(f)) && f.context@
            == "Failed to create tap device '"@ + name@ + "'"@),
        added.ok() ==> (second matches TapStep::Run(line, _) && line@ == (
            "ip"@,
            seq!["addr"@, "add"@, tap_ip.text() + "/30"@, "dev"@, name@],
        )),
        added.ok() && addressed.ok() ==> (third matches TapStep::Run(line, _) && line@ == (
            "ip"@,
            seq!["link"@, "set"@, name@, "up"@],
        )),
        added.ok() && !addressed.ok() ==> {
            &&& third matches TapStep::Run(line, _)
            &&& line@ == ("ip"@, seq!["link"@, "del"@, name@])
            &&& fourth matches TapStep::Done(Err(f))
            &&& f.context@ == "Failed to assign IP to tap '"@ + name@ + "'"@
        },
        added.ok() && addressed.ok() && raised.ok() ==> fourth matches TapStep::Done(Ok(())),
        added.ok() && addressed.ok() && !raised.ok() ==> {
            &&& fourth matches TapStep::Run(line, last)
            &&& line@ == ("ip"@, seq!["link"@, "del"@, name@])
            &&& last.stage matches TapStage::RollingBack(f)
            &&& f.context@ == "Failed to bring up tap '"@ + name@ + "'"@
        },
{
}

/// On Linux the traffic of the guest's address out of the host interface is masqueraded, then
/// the tap device may forward to the host interface. The handles are those that nft echoed. If
/// the second rule cannot be added, the first is deleted by its handle.
pub proof fn rule_commands(
    guest_ip: Ipv4Addr,
    tap_name: &str,
    host_iface: &str,
    begun: NatStep,
    first: CommandOutcome,
    second: NatStep,
    filtered: CommandOutcome,
    third: NatStep,
    postrouting: u64,
)
    requires
        call_ensures(add_nat_rules, (Platform::Linux, &guest_ip, tap_name, host_iface), begun),
        call_ensures(NatAddition::next, (begun->Run_1, &first), second),
        call_ensures(NatAddition::next, (second->Run_1, &filtered), third),
        nft_handle(first.out()) == Ok::<u64, Seq<char>>(postrouting),
    ensures
        begun matches NatStep::Run(line, _) && line@ == (
            "nft"@,
            seq![
                "-ae"@,
                "add rule firecracker postrouting ip saddr "@ + guest_ip.text() + " oifname "@
                    + host_iface@ + " counter masquerade"@,
            ],
        ),
        !first.ok() ==> second matches NatStep::Done(Err(_)),
        first.ok() ==> (second matches NatStep::Run(line, _) && line@ == (
            "nft"@,
            seq![
                "-ae"@,
                "add rule firecracker filter iifname "@ + tap_name@ + " oifname "@ + host_iface@
                    + " accept"@,
            ],
        )),
        first.ok() && !filtered.ok() ==> (third matches NatStep::Run(line, last) && line@ == (
            "nft"@,
            seq![
                "delete"@,
                "rule"@,
                "firecracker"@,
                "postrouting"@,
                "handle"@,
                crate::decimal::decimal(postrouting as nat),
            ],
        ) && last.stage is RollingBack),
        first.ok() && filtered.ok() ==> match nft_handle(filtered.out()) {
            Ok(filter) => third == NatStep::Done(Ok(NatHandles { postrouting, filter })),
            Err(_) => third matches NatStep::Done(Err(_)),
        },
{
}

/// The rules of a VM are removed by the handles under which they were added, each from its own
/// chain, and its tap device by its name.
pub proof fn removal_names_what_was_added(
    name: &str,
    handles: NatHandles,
    tap: Option<CommandLine>,
    rules: Option<(CommandLine, CommandLine)>,
)
    requires
        call_ensures(delete_tap, (Platform::Linux, name), tap),
        call_ensures(remove_nat_rules, (Platform::Linux, &handles), rules),
    ensures
        tap matches Some(line) && line@ == ("ip"@, seq!["link"@, "del"@, name@]),
        rules matches Some((first, second)) && first@ == (
            "nft"@,
            seq![
                "delete"@,
                "rule"@,
                "firecracker"@,
                "postrouting"@,
                "handle"@,
                crate::decimal::decimal(handles.postrouting as nat),
            ],
        ) && second@ == (
            "nft"@,
            seq![
                "delete"@,
                "rule"@,
                "firecracker"@,
                "filter"@,
                "handle"@,
                crate::decimal::decimal(handles.filter as nat),
            ],
        ),
{
}

/// The handle behind the first `# handle ` of the output is read, on whatever line it stands
/// and whatever follows the line.
pub proof fn first_handle_is_read(
    before: Seq<char>,
    rule: Seq<char>,
    handle: u64,
    after: Seq<char>,
    output: &str,
    r: Result<u64, String>,
)
    requires
        before.len() == 0 || before.last() == '\n',
        !before.contains('#'),
        !rule.contains('\n'),
        !rule.contains('#'),
        output@ == before + (rule + "# handle "@ + crate::decimal::decimal(handle as nat)) + seq![
            '\n',
        ] + after,
        call_ensures(parse_nft_handle, (output,), r),
    ensures
        r == Ok::<u64, String>(handle),
{
    reveal_strlit("# handle ");
    reveal_strlit("\n");
    let mark = "# handle "@;
    let number = crate::decimal::decimal(handle as nat);
    let line = rule + mark + number;
    crate::decimal::decimal_digits(handle as nat);
    assert(crate::decimal::is_digit(number[number.len() - 1]));
    assert(!line.contains('\n')) by {
        assert forall|i: int| 0 <= i < line.len() implies line[i] != '\n' by {
            if i < rule.len() {
                assert(rule.contains(rule[i]));
            } else if i >= rule.len() + mark.len() {
                assert(crate::decimal::is_digit(number[i - rule.len() - mark.len()]));
            }
        }
    }
    assert(line.last() == number.last());
    crate::text::line_among_others(before, line, after);
    let front = crate::text::lines(before);
    let behind = seq![line] + crate::text::lines(after);
    assert(front + seq![line] + crate::text::lines(after) =~= front + behind);
    crate::text::lines_are_parts(before, '#');
    handle_field_skips(front, behind);
    echoed_handle_is_read(rule, handle);
    let alone = rule + mark + number + "\n"@;
    assert("\n"@ =~= seq!['\n']);
    let none = Seq::<char>::empty();
    assert(alone =~= none + line + seq!['\n'] + none);
    crate::text::line_among_others(none, line, none);
    crate::text::last_line(none);
    assert(crate::text::lines(alone) =~= seq![line]);
    assert(handle_field(seq![line]) == handle_field(behind)) by {
        assert(seq![line][0] == line && behind[0] == line);
        assert(crate::text::after_first(line, mark) is Some) by {
            crate::text::after_first_skips(rule, mark + number, mark);
            assert(line =~= rule + (mark + number));
            assert(mark =~= (mark + number).subrange(0, 9));
        }
    }
}

/// Lines without the mark hold no handle.
proof fn handle_field_skips(front: Seq<Seq<char>>, behind: Seq<Seq<char>>)
    requires
        forall|i: int| 0 <= i < front.len() ==> !(#[trigger] front[i]).contains('#'),
    ensures
        handle_field(front + behind) == handle_field(behind),
    decreases front.len(),
{
    reveal_strlit("# handle ");
    if front.len() == 0 {
        assert(front + behind =~= behind);
    } else {
        let line = front[0];
        assert((front + behind)[0] == line);
        assert(!line.contains('#'));
        crate::text::after_first_skips(line, Seq::empty(), "# handle "@);
        assert(line + Seq::<char>::empty() =~= line);
        assert((front + behind).skip(1) =~= front.skip(1) + behind);
        assert forall|i: int| 0 <= i < front.skip(1).len() implies !(
        #[trigger] front.skip(1)[i]).contains('#') by {
            assert(!front[i + 1].contains('#'));
        }
        handle_field_skips(front.skip(1), behind);
    }
}

/// The host interface is the word behind the first `dev` of the default route, wherever it
/// stands.
pub proof fn interface_follows_dev(
    front: Seq<Seq<char>>,
    name: Seq<char>,
    rest: Seq<Seq<char>>,
    outcome: CommandOutcome,
    r: Result<String, Failure>,
)
    requires
        !front.contains("dev"@),
        crate::text::words(outcome.out()) == front + seq!["dev"@, name] + rest,
        outcome.ok(),
        call_ensures(detect_host_interface, (Platform::Linux, &outcome), r),
    ensures
        r matches Ok(found) && found@ == name,
{
    device_behind_front(front, name, rest);
}

/// Words before the first `dev` do not matter.
proof fn device_behind_front(front: Seq<Seq<char>>, name: Seq<char>, rest: Seq<Seq<char>>)
    requires
        !front.contains("dev"@),
    ensures
        device_of_route(front + seq!["dev"@, name] + rest) == Some(name),
    decreases front.len(),
{
    let all = front + seq!["dev"@, name] + rest;
    if front.len() == 0 {
        assert(all[0] == "dev"@ && all[1] == name);
    } else {
        assert(front.contains(front[0]));
        assert(all[0] == front[0]);
        assert(all.skip(1) =~= front.skip(1) + seq!["dev"@, name] + rest);
        assert(!front.skip(1).contains("dev"@)) by {
            if front.skip(1).contains("dev"@) {
                let i = choose|i: int|
                    0 <= i < front.skip(1).len() && front.skip(1)[i] == "dev"@;
                assert(front[i + 1] == "dev"@);
            }
        }
        device_behind_front(front.skip(1), name, rest);
    }
}

/// A route that names no device, and one that could not be had, yield no interface.
pub proof fn no_interface_without_dev(
    words: Seq<Seq<char>>,
    outcome: CommandOutcome,
    r: Result<String, Failure>,
)
    requires
        call_ensures(detect_host_interface, (Platform::Linux, &outcome), r),
        !outcome.ok() || (crate::text::words(outcome.out()) == words && !words.contains("dev"@)),
    ensures
        r is Err,
{
    if outcome.ok() {
        no_device(words);
    }
}

/// Words without `dev` name no device.
proof fn no_device(words: Seq<Seq<char>>)
    requires
        !words.contains("dev"@),
    ensures
        device_of_route(words) is None,
    decreases words.len(),
{
    if words.len() >= 2 {
        assert(words.contains(words[0]));
        assert(!words.skip(1).contains("dev"@)) by {
            if words.skip(1).contains("dev"@) {
                let i = choose|i: int| 0 <= i < words.skip(1).len() && words.skip(1)[i] == "dev"@;
                assert(words[i + 1] == "dev"@);
            }
        }
        no_device(words.skip(1));
    }
}

/// The setup of a network creates the tap device with the subnet's tap address; when the device
/// is up, it masquerades the guest's address and lets this tap device forward; and it reports
/// the handles of these rules.
pub proof fn network_is_set_up_in_turn(
    tap_name: &str,
    tap_ip: Ipv4Addr,
    guest_ip: Ipv4Addr,
    host_iface: &str,
    begun: NetworkStep,
    o: Seq<CommandOutcome>,
    s: Seq<NetworkStep>,
    postrouting: u64,
    filter: u64,
)
    requires
        call_ensures(
            set_up_network,
            (Platform::Linux, tap_name, &tap_ip, &guest_ip, host_iface),
            begun,
        ),
        o.len() == 5,
        s.len() == 5,
        forall|i: int| 0 <= i < 5 ==> (#[trigger] o[i]).ok(),
        nft_handle(o[3].out()) == Ok::<u64, Seq<char>>(postrouting),
        nft_handle(o[4].out()) == Ok::<u64, Seq<char>>(filter),
        call_ensures(NetworkSetup::next, (begun->Run_1, &o[0]), s[0]),
        call_ensures(NetworkSetup::next, (s[0]->Run_1, &o[1]), s[1]),
        call_ensures(NetworkSetup::next, (s[1]->Run_1, &o[2]), s[2]),
        call_ensures(NetworkSetup::next, (s[2]->Run_1, &o[3]), s[3]),
        call_ensures(NetworkSetup::next, (s[3]->Run_1, &o[4]), s[4]),
    ensures
        begun matches NetworkStep::Run(line, _) && line@ == (
            "ip"@,
            seq!["tuntap"@, "add"@, tap_name@, "mode"@, "tap"@],
        ),
        s[0] matches NetworkStep::Run(line, _) && line@ == (
            "ip"@,
            seq!["addr"@, "add"@, tap_ip.text() + "/30"@, "dev"@, tap_name@],
        ),
        s[1] matches NetworkStep::Run(line, _) && line@ == (
            "ip"@,
            seq!["link"@, "set"@, tap_name@, "up"@],
        ),
        s[2] matches NetworkStep::Run(line, _) && line@ == (
            "nft"@,
            seq![
                "-ae"@,
                "add rule firecracker postrouting ip saddr "@ + guest_ip.text() + " oifname "@
                    + host_iface@ + " counter masquerade"@,
            ],
        ),
        s[3] matches NetworkStep::Run(line, _) && line@ == (
            "nft"@,
            seq![
                "-ae"@,
                "add rule firecracker filter iifname "@ + tap_name@ + " oifname "@ + host_iface@
                    + " accept"@,
            ],
        ),
        s[4] == NetworkStep::Done(Ok(NatHandles { postrouting, filter })),
{
    assert(o[0].ok());
    assert(o[1].ok());
    assert(o[2].ok());
    assert(o[3].ok());
    assert(o[4].ok());
}

/// If the rules of a VM whose tap device is up cannot be added, the tap device of that VM is
/// deleted, and the failure is reported when that is done, whatever came of it.
pub proof fn failed_rules_delete_the_tap(
    n: NetworkSetup,
    failed: CommandOutcome,
    first: NetworkStep,
    deleted: CommandOutcome,
    second: NetworkStep,
)
    requires
        n.wf(),
        n.stage matches NetworkStage::AddingRules(a) && a.stage is AddingPostrouting,
        !failed.ok(),
        call_ensures(NetworkSetup::next, (n, &failed), first),
        call_ensures(NetworkSetup::next, (first->Run_1, &deleted), second),
    ensures
        first matches NetworkStep::Run(line, _) && line@ == (
            "ip"@,
            seq!["link"@, "del"@, n.tap_name@],
        ),
        second matches NetworkStep::Done(Err(f)) && f.context@
            == "Failed to add postrouting NAT rule"@,
{
}

/// On systems other than Linux no command is asked for, and every step is done.
pub proof fn no_network_elsewhere(
    platform: Platform,
    name: &str,
    ip: Ipv4Addr,
    guest: Ipv4Addr,
    iface: &str,
    handles: NatHandles,
    route: CommandOutcome,
    tap: TapStep,
    rules: NatStep,
    setup: NetworkStep,
    deletion: Option<CommandLine>,
    removal: Option<(CommandLine, CommandLine)>,
    found: Result<String, Failure>,
)
    requires
        platform != Platform::Linux,
        call_ensures(create_tap, (platform, name, &ip), tap),
        call_ensures(add_nat_rules, (platform, &guest, name, iface), rules),
        call_ensures(set_up_network, (platform, name, &ip, &guest, iface), setup),
        call_ensures(delete_tap, (platform, name), deletion),
        call_ensures(remove_nat_rules, (platform, &handles), removal),
        call_ensures(detect_host_interface, (platform, &route), found),
    ensures
        tap matches TapStep::Done(Ok(())),
        rules == NatStep::Done(Ok(NatHandles { postrouting: 0, filter: 0 })),
        setup == NetworkStep::Done(Ok(NatHandles { postrouting: 0, filter: 0 })),
        deletion is None,
        removal is None,
        found matches Ok(interface) && interface@ == "eth0"@,
{
}

/// The default route is asked for.
pub proof fn route_is_asked_for(r: CommandLine)
    requires
        call_ensures(default_route, (), r),
    ensures
        r@ == ("ip"@, seq!["route"@, "show"@, "default"@]),
{
}

/// An output without a `#` holds no handle, and is quoted.
pub proof fn no_handle_is_reported(output: &str, r: Result<u64, String>)
    requires
        !output@.contains('#'),
        call_ensures(parse_nft_handle, (output,), r),
    ensures
        r matches Err(msg) && msg@ == "No handle found in nft output: "@ + crate::text::trimmed(
            output@,
        ),
{
    crate::text::lines_are_parts(output@, '#');
    let lines = crate::text::lines(output@);
    handle_field_skips(lines, Seq::empty());
    assert(lines + Seq::<Seq<char>>::empty() =~= lines);
}

/// A rule whose handle cannot be read is a failure; a failure that is being rolled back is
/// reported when that is done, whatever came of it.
pub proof fn unread_handles_are_failures(
    n: NatAddition,
    outcome: CommandOutcome,
    r: NatStep,
    handle: Result<u64, String>,
    output: &str,
)
    requires
        output@ == outcome.out(),
        call_ensures(parse_nft_handle, (output,), handle),
        call_ensures(NatAddition::next, (n, &outcome), r),
    ensures
        n.stage is AddingPostrouting && !outcome.ok() ==> (r matches NatStep::Done(Err(f))
            && f.context@ == "Failed to add postrouting NAT rule"@),
        n.stage is AddingPostrouting && outcome.ok() && handle is Err ==> (r matches NatStep::Done(
            Err(f),
        ) && f.context@ == "Failed to parse postrouting rule handle"@ && f.cause@
            == handle->Err_0@),
        n.stage is AddingFilter && outcome.ok() && handle is Err ==> (r matches NatStep::Done(
            Err(f),
        ) && f.context@ == "Failed to parse filter rule handle"@ && f.cause@ == handle->Err_0@),
        n.stage is AddingFilter && outcome.ok() && handle is Ok ==> r == NatStep::Done(
            Ok(
                NatHandles {
                    postrouting: n.stage->AddingFilter_postrouting,
                    filter: handle->Ok_0,
                },
            ),
        ),
        n.stage matches NatStage::RollingBack(f) ==> (r matches NatStep::Done(Err(g)) && g.context@
            == f.context@ && g.cause@ == f.cause@),
{
}

/// A tap device that is being rolled back fails with its reason.
pub proof fn rolled_back_tap_fails(t: TapCreation, outcome: CommandOutcome, r: TapStep)
    requires
        call_ensures(TapCreation::next, (t, &outcome), r),
    ensures
        t.stage matches TapStage::RollingBack(f) ==> (r matches TapStep::Done(Err(g)) && g.context@
            == f.context@ && g.cause@ == f.cause@),
{
}

/// A network whose tap device cannot be created fails with the tap device's failure, and
/// nothing is added.
pub proof fn failed_tap_fails_the_network(
    n: NetworkSetup,
    t: TapCreation,
    outcome: CommandOutcome,
    tap: TapStep,
    r: NetworkStep,
)
    requires
        n.stage == NetworkStage::CreatingTap(t),
        call_ensures(TapCreation::next, (t, &outcome), tap),
        call_ensures(NetworkSetup::next, (n, &outcome), r),
    ensures
        tap matches TapStep::Done(Err(f)) ==> (r matches NetworkStep::Done(Err(g)) && g.context@
            == f.context@ && g.cause@ == f.cause@),
        tap matches TapStep::Run(line, next) ==> (r matches NetworkStep::Run(other, m) && other@
            == line@ && m.same_vm(n)),
{
}

/// The text behind the first `# handle ` of the output is read as a number, on whatever line it
/// stands, whatever precedes it, and whatever white space stands around it. One that is no
/// number is quoted.
pub proof fn first_mark_counts(
    output: &str,
    i: int,
    at: int,
    lead: Seq<char>,
    field: Seq<char>,
    tail: Seq<char>,
    r: Result<u64, String>,
)
    requires
        call_ensures(parse_nft_handle, (output,), r),
        0 <= i < crate::text::lines(output@).len(),
        0 <= at <= crate::text::lines(output@)[i].len(),
        forall|j: int, k: int|
            0 <= j < i && 0 <= k <= crate::text::lines(output@)[j].len() ==> !"# handle "@.is_prefix_of(
                #[trigger] crate::text::lines(output@)[j].skip(k),
            ),
        forall|k: int|
            0 <= k < at ==> !"# handle "@.is_prefix_of(
                #[trigger] crate::text::lines(output@)[i].skip(k),
            ),
        crate::text::lines(output@)[i].skip(at) == "# handle "@ + (lead + field + tail),
        crate::text::blank(lead),
        crate::text::blank(tail),
        field.len() == 0 || (!crate::text::white(field.first()) && !crate::text::white(
            field.last(),
        )),
    ensures
        match crate::decimal::parsed_u64(field) {
            Some(handle) => r == Ok::<u64, String>(handle),
            None => r matches Err(msg) && msg@ == "Failed to parse nft handle from: "@ + field,
        },
{
    reveal_strlit("# handle ");
    let mark = "# handle "@;
    let lines = crate::text::lines(output@);
    let rest = lines[i].skip(at);
    crate::text::trimmed_takes_ends(lead, field, tail);
    assert(mark =~= rest.subrange(0, 9));
    assert(rest.skip(9) =~= lead + field + tail);
    after_mark_at(lines[i], at);
    handle_field_from(lines, i);
    assert(lines.skip(i)[0] == lines[i]);
}

/// What follows the first mark of a line.
proof fn after_mark_at(line: Seq<char>, at: int)
    requires
        0 <= at <= line.len(),
        "# handle "@.is_prefix_of(line.skip(at)),
        forall|k: int| 0 <= k < at ==> !"# handle "@.is_prefix_of(#[trigger] line.skip(k)),
    ensures
        crate::text::after_first(line, "# handle "@) == Some(line.skip(at).skip(9)),
{
    reveal_strlit("# handle ");
    let mark = "# handle "@;
    crate::text::after_first_is_first(line, mark);
    match crate::text::after_first(line, mark) {
        Some(rest) => {
            let other = choose|other: int|
                {
                    &&& 0 <= other <= line.len()
                    &&& mark.is_prefix_of(#[trigger] line.skip(other))
                    &&& rest == line.skip(other).skip(mark.len() as int)
                    &&& forall|k: int| 0 <= k < other ==> !mark.is_prefix_of(#[trigger] line.skip(k))
                };
            assert(mark.is_prefix_of(line.skip(at)));
            assert(mark.is_prefix_of(line.skip(other)));
            assert(other == at);
        },
        None => {
            assert(mark.is_prefix_of(line.skip(at)));
        },
    }
}

/// Lines in which the mark stands nowhere are passed over.
proof fn handle_field_from(lines: Seq<Seq<char>>, i: int)
    requires
        0 <= i <= lines.len(),
        forall|j: int, k: int|
            0 <= j < i && 0 <= k <= lines[j].len() ==> !"# handle "@.is_prefix_of(
                #[trigger] lines[j].skip(k),
            ),
    ensures
        handle_field(lines) == handle_field(lines.skip(i)),
    decreases i,
{
    assert(lines.skip(0) =~= lines);
    if i > 0 {
        let rest = lines.skip(1);
        crate::text::after_first_is_first(lines[0], "# handle "@);
        assert(crate::text::after_first(lines[0], "# handle "@) is None) by {
            if let Some(r) = crate::text::after_first(lines[0], "# handle "@) {
                let at = choose|at: int|
                    {
                        &&& 0 <= at <= lines[0].len()
                        &&& "# handle "@.is_prefix_of(#[trigger] lines[0].skip(at))
                        &&& r == lines[0].skip(at).skip("# handle "@.len() as int)
                        &&& forall|k: int|
                            0 <= k < at ==> !"# handle "@.is_prefix_of(#[trigger] lines[0].skip(k))
                    };
                assert("# handle "@.is_prefix_of(lines[0].skip(at)));
            }
        }
        assert forall|j: int, k: int| 0 <= j < i - 1 && 0 <= k <= rest[j].len() implies !"# handle "@.is_prefix_of(
            #[trigger] rest[j].skip(k),
        ) by {
            assert(rest[j] == lines[j + 1]);
            assert(!"# handle "@.is_prefix_of(lines[j + 1].skip(k)));
        }
        handle_field_from(rest, i - 1);
        assert(rest.skip(i - 1) =~= lines.skip(i));
    }
}

/// An output in which the mark stands nowhere holds no handle, and is quoted.
pub proof fn unmarked_output_is_quoted(output: &str, r: Result<u64, String>)
    requires
        call_ensures(parse_nft_handle, (output,), r),
        forall|j: int, k: int|
            0 <= j < crate::text::lines(output@).len() && 0 <= k
                <= crate::text::lines(output@)[j].len() ==> !"# handle "@.is_prefix_of(
                #[trigger] crate::text::lines(output@)[j].skip(k),
            ),
    ensures
        r matches Err(msg) && msg@ == "No handle found in nft output: "@ + crate::text::trimmed(
            output@,
        ),
{
    let lines = crate::text::lines(output@);
    handle_field_from(lines, lines.len() as int);
    assert(lines.skip(lines.len() as int) =~= Seq::empty());
}

/// A route whose last word is its first `dev` yields no interface; what is reported tells
/// whether the route could be had.
pub proof fn missing_interface_is_told(
    front: Seq<Seq<char>>,
    outcome: CommandOutcome,
    line: CommandLine,
    told: Result<String, String>,
    r: Result<String, Failure>,
)
    requires
        call_ensures(detect_host_interface, (Platform::Linux, &outcome), r),
        call_ensures(default_route, (), line),
        call_ensures(run_cmd_output, (&line, &outcome), told),
    ensures
        outcome.ok() && !front.contains("dev"@) && crate::text::words(outcome.out()) == front
            + seq!["dev"@] ==> r is Err,
        outcome.ok() && r is Err ==> r->Err_0.context@
            == "Could not determine host network interface from default route"@
            && r->Err_0.cause@ == ""@,
        !outcome.ok() ==> (r matches Err(f) && f.context@ == "Failed to query default route"@
            && f.cause@ == told->Err_0@),
{
    if outcome.ok() && !front.contains("dev"@) && crate::text::words(outcome.out()) == front
        + seq!["dev"@] {
        no_device_behind(front);
    }
}

/// A last word names no device.
proof fn no_device_behind(front: Seq<Seq<char>>)
    requires
        !front.contains("dev"@),
    ensures
        device_of_route(front + seq!["dev"@]) is None,
    decreases front.len(),
{
    let all = front + seq!["dev"@];
    if front.len() > 0 {
        assert(front.contains(front[0]));
        assert(all[0] == front[0]);
        assert(all.skip(1) =~= front.skip(1) + seq!["dev"@]);
        assert(!front.skip(1).contains("dev"@)) by {
            if front.skip(1).contains("dev"@) {
                let i = choose|i: int|
                    0 <= i < front.skip(1).len() && front.skip(1)[i] == "dev"@;
                assert(front[i + 1] == "dev"@);
            }
        }
        no_device_behind(front.skip(1));
    }
}

/// A tap device or a rule that failed is reported with the reason for which its command failed.
pub proof fn failures_carry_their_cause(
    t: TapCreation,
    n: NatAddition,
    outcome: CommandOutcome,
    tap: TapStep,
    rule: NatStep,
    line: CommandLine,
    told: Result<(), String>,
)
    requires
        call_ensures(TapCreation::next, (t, &outcome), tap),
        call_ensures(NatAddition::next, (n, &outcome), rule),
        call_ensures(run_cmd, (&line, &outcome), told),
        !outcome.ok(),
    ensures
        t.stage is Adding && line@ == ("ip"@, seq!["tuntap"@, "add"@, t.name@, "mode"@, "tap"@])
            ==> (tap matches TapStep::Done(Err(f)) && f.cause@ == told->Err_0@),
        t.stage is Addressing && line@ == (
            "ip"@,
            seq!["addr"@, "add"@, t.tap_ip.text() + "/30"@, "dev"@, t.name@],
        ) ==> (tap matches TapStep::Run(_, next) && next.stage->RollingBack_0.cause@
            == told->Err_0@),
        t.stage is Raising && line@ == ("ip"@, seq!["link"@, "set"@, t.name@, "up"@]) ==> (
        tap matches TapStep::Run(_, next) && next.stage->RollingBack_0.cause@ == told->Err_0@),
        n.stage is AddingPostrouting && line@ == (
            "nft"@,
            seq![
                "-ae"@,
                "add rule firecracker postrouting ip saddr "@ + n.guest_ip.text() + " oifname "@
                    + n.host_iface@ + " counter masquerade"@,
            ],
        ) ==> (rule matches NatStep::Done(Err(f)) && f.cause@ == told->Err_0@),
        n.stage is AddingFilter && line@ == (
            "nft"@,
            seq![
                "-ae"@,
                "add rule firecracker filter iifname "@ + n.tap_name@ + " oifname "@
                    + n.host_iface@ + " accept"@,
            ],
        ) ==> (rule matches NatStep::Run(_, next) && next.stage is RollingBack
            && next.stage->RollingBack_0.context@ == "Failed to add filter forwarding rule"@
            && next.stage->RollingBack_0.cause@ == told->Err_0@),
{
}

/// The setup of a network does in turn what the creation of its tap device and the addition of
/// its rules ask for. When the device is up the rules are begun; when the rules fail, for
/// whatever reason, the device is deleted and the failure reported after that.
pub proof fn setup_follows_its_parts(
    n: NetworkSetup,
    outcome: CommandOutcome,
    r: NetworkStep,
    t: TapCreation,
    tap: TapStep,
    a: NatAddition,
    rule: NatStep,
)
    requires
        call_ensures(NetworkSetup::next, (n, &outcome), r),
        call_ensures(TapCreation::next, (t, &outcome), tap),
        call_ensures(NatAddition::next, (a, &outcome), rule),
    ensures
        n.stage == NetworkStage::CreatingTap(t) ==> {
            &&& tap matches TapStep::Done(Ok(())) ==> (r matches NetworkStep::Run(line, next)
                && line@ == (
                "nft"@,
                seq![
                    "-ae"@,
                    "add rule firecracker postrouting ip saddr "@ + n.guest_ip.text()
                        + " oifname "@ + n.host_iface@ + " counter masquerade"@,
                ],
            ) && next.stage is AddingRules && next.stage->AddingRules_0.stage is AddingPostrouting
                && next.stage->AddingRules_0.tap_name@ == n.tap_name@
                && next.stage->AddingRules_0.guest_ip == n.guest_ip
                && next.stage->AddingRules_0.host_iface@ == n.host_iface@)
            &&& tap matches TapStep::Run(line, next) ==> (r matches NetworkStep::Run(other, m)
                && other@ == line@ && m.tap_name@ == n.tap_name@ && m.guest_ip == n.guest_ip
                && m.host_iface@ == n.host_iface@ && m.stage is CreatingTap
                && m.stage->CreatingTap_0.name@ == next.name@ && m.stage->CreatingTap_0.tap_ip
                == next.tap_ip)
        },
        n.stage == NetworkStage::AddingRules(a) ==> {
            &&& rule matches NatStep::Done(Ok(handles)) ==> r == NetworkStep::Done(Ok(handles))
            &&& rule matches NatStep::Done(Err(f)) ==> (r matches NetworkStep::Run(line, m) && line@
                == ("ip"@, seq!["link"@, "del"@, n.tap_name@]) && m.stage is DeletingTap
                && m.stage->DeletingTap_0.context@ == f.context@ && m.stage->DeletingTap_0.cause@
                == f.cause@)
            &&& rule matches NatStep::Run(line, next) ==> (r matches NetworkStep::Run(other, m)
                && other@ == line@ && m.tap_name@ == n.tap_name@ && m.stage is AddingRules
                && m.stage->AddingRules_0.tap_name@ == next.tap_name@
                && m.stage->AddingRules_0.guest_ip == next.guest_ip
                && m.stage->AddingRules_0.host_iface@ == next.host_iface@)
        },
        n.stage matches NetworkStage::DeletingTap(f) ==> r == NetworkStep::Done(
            Err::<NatHandles, Failure>(f),
        ),
{
}

} // verus!
