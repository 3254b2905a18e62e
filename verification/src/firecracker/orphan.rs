//! Orphan detection and cleanup for stale resources from a previous instance.
//!
//! When Warlock crashes (SIGKILL, OOM, host reboot), the graceful shutdown
//! handler never runs. This leaves behind orphaned Firecracker processes,
//! stale jailer workspaces, rootfs copies, tap devices, and nftables rules.
//!
//! This module decides a **clean sweep** on startup: all orphaned resources
//! are destroyed. It runs after the checks at startup and before the server
//! accepts requests. On systems other than Linux there is nothing to sweep up.
use crate::command::{command, CommandLine, CommandOutcome};
use crate::decimal::{all_digits_from, decimal_text};
use crate::firecracker::network::tap_delete;
use crate::firecracker::JAILER_UID;
use crate::platform::Platform;
use crate::text::{
    chars_of, ends_with, is_text, split_lines, split_words, starts_with, string_of, strip_trailing,
    trim,
};
use vstd::prelude::*;

verus! {

/// Directory of the jailer's workspaces.
pub const JAILER_WORKSPACES: &'static str = "/srv/jailer/firecracker";

/// Directory of the jailer's log files.
pub const JAILER_LOGS: &'static str = "/tmp";

/// A stage of the sweep.
#[derive(Debug, Clone, Copy, PartialEq, Eq, Structural)]
pub enum SweepStage {
    Processes,
    Workspaces,
    RootfsCopies,
    TapDevices,
    Nftables,
    JailerLogs,
}

/// A sweep under way: the stage that runs, and whether an earlier one found anything.
#[derive(Debug, Clone, Copy, PartialEq, Eq, Structural)]
pub struct Sweep {
    pub stage: SweepStage,
    pub found_anything: bool,
}

/// What a sweep asks for: another stage, or nothing more. At the end it says whether any
/// stage found anything.
#[derive(Debug, Clone, Copy, PartialEq, Eq, Structural)]
pub enum SweepStep {
    Run(Sweep),
    Done { found_anything: bool },
}

/// The stage behind a stage.
pub open spec fn stage_after(stage: SweepStage) -> Option<SweepStage> {
    match stage {
        SweepStage::Processes => Some(SweepStage::Workspaces),
        SweepStage::Workspaces => Some(SweepStage::RootfsCopies),
        SweepStage::RootfsCopies => Some(SweepStage::TapDevices),
        SweepStage::TapDevices => Some(SweepStage::Nftables),
        SweepStage::Nftables => Some(SweepStage::JailerLogs),
        SweepStage::JailerLogs => None,
    }
}

/// Begins a sweep: processes come first.
pub fn cleanup_orphans() -> (r: Sweep)
    ensures
        r == (Sweep { stage: SweepStage::Processes, found_anything: false }),
{
    Sweep { stage: SweepStage::Processes, found_anything: false }
}

impl Sweep {
    /// What follows when the running stage found something, or not.
    pub open spec fn step(self, found: bool) -> SweepStep {
        match stage_after(self.stage) {
            Some(stage) => SweepStep::Run(
                Sweep { stage, found_anything: self.found_anything || found },
            ),
            None => SweepStep::Done { found_anything: self.found_anything || found },
        }
    }

    /// Goes on when the running stage found something, or not.
    pub fn next(self, found: bool) -> (r: SweepStep)
        ensures
            r == self.step(found),
    {
        let found_anything = self.found_anything || found;
        let stage = match self.stage {
            SweepStage::Processes => SweepStage::Workspaces,
            SweepStage::Workspaces => SweepStage::RootfsCopies,
            SweepStage::RootfsCopies => SweepStage::TapDevices,
            SweepStage::TapDevices => SweepStage::Nftables,
            SweepStage::Nftables => SweepStage::JailerLogs,
            SweepStage::JailerLogs => return SweepStep::Done { found_anything },
        };
        SweepStep::Run(Sweep { stage, found_anything })
    }
}

/// The end of a sweep from a step on, given what the stages still to run will find.
pub open spec fn sweep_end(step: SweepStep, found: Seq<bool>) -> Option<bool>
    decreases found.len(),
{
    match step {
        SweepStep::Done { found_anything } => if found.len() == 0 {
            Some(found_anything)
        } else {
            None
        },
        SweepStep::Run(sweep) => if found.len() == 0 {
            None
        } else {
            sweep_end(sweep.step(found[0]), found.skip(1))
        },
    }
}

/// A sweep runs all six stages, whatever they find, and says that it found something exactly
/// if one of them did.
pub proof fn sweep_runs_all_stages(found: Seq<bool>)
    ensures
        sweep_end(
            SweepStep::Run(Sweep { stage: SweepStage::Processes, found_anything: false }),
            found,
        ) == if found.len() == 6 {
            Some(found[0] || found[1] || found[2] || found[3] || found[4] || found[5])
        } else {
            None::<bool>
        },
{
    reveal_with_fuel(sweep_end, 8);
    if found.len() > 6 {
        let rest = found.skip(1).skip(1).skip(1).skip(1).skip(1).skip(1);
        assert(rest.len() > 0);
    }
}

/// Signals the Firecracker processes of the jailed user.
pub open spec fn pkill_line(signal: Seq<char>) -> (Seq<char>, Seq<Seq<char>>) {
    ("pkill"@, seq![signal, "-u"@, crate::decimal::decimal(JAILER_UID as nat), "firecracker"@])
}

/// Signals the Firecracker processes of the jailed user.
pub fn pkill(signal: &str) -> (r: CommandLine)
    ensures
        r@ == pkill_line(signal@),
{
    let uid = decimal_text(JAILER_UID as u64);
    let args = vec![signal, "-u", uid.as_str(), "firecracker"];
    proof {
        assert(crate::text::slices(args@) =~= pkill_line(signal@).1);
    }
    command("pkill", args)
}

/// How far the end of orphaned processes has come: the command that is running.
#[derive(Debug, Clone, Copy, PartialEq, Eq, Structural)]
pub enum KillStage {
    /// They are asked to end.
    Terminating,
    /// What is left of them is killed.
    Killing,
}

/// What the end of orphaned processes asks for.
#[derive(Debug)]
pub enum KillStep {
    /// Wait, then run the command.
    Run { wait_seconds: u64, line: CommandLine, stage: KillStage },
    /// Whether there were any.
    Done(bool),
}

/// Begins to end orphaned processes: SIGTERM first. On systems other than Linux there are none.
pub fn kill_orphaned_processes(platform: Platform) -> (r: KillStep)
    ensures
        if platform is Linux {
            r matches KillStep::Run { wait_seconds, line, stage } && wait_seconds == 0 && line@
                == pkill_line("-15"@) && stage is Terminating
        } else {
            r == KillStep::Done(false)
        },
{
    if platform.is_linux() {
        KillStep::Run { wait_seconds: 0, line: pkill("-15"), stage: KillStage::Terminating }
    } else {
        KillStep::Done(false)
    }
}

/// Goes on to end orphaned processes. If SIGTERM reached any, SIGKILL follows two seconds
/// later for those that are left.
pub fn kill_orphaned_processes_next(stage: KillStage, outcome: &CommandOutcome) -> (r: KillStep)
    ensures
        match stage {
            KillStage::Terminating => if outcome.ok() {
                r matches KillStep::Run { wait_seconds, line, stage: next } && wait_seconds == 2
                    && line@ == pkill_line("-9"@) && next is Killing
            } else {
                r == KillStep::Done(false)
            },
            KillStage::Killing => r == KillStep::Done(true),
        },
{
    match stage {
        KillStage::Terminating => if outcome.succeeded() {
            KillStep::Run { wait_seconds: 2, line: pkill("-9"), stage: KillStage::Killing }
        } else {
            KillStep::Done(false)
        },
        KillStage::Killing => KillStep::Done(true),
    }
}

/// An entry of a directory.
#[derive(Debug)]
pub struct DirEntry {
    pub name: String,
    pub is_dir: bool,
}

/// Whether a name has the extension `ext4`: it ends in `.ext4`, with something before it.
pub open spec fn is_ext4(name: Seq<char>) -> bool {
    ".ext4"@.is_suffix_of(name) && name.len() > 5
}

/// Whether a name is that of a jailer log.
pub open spec fn is_jailer_log(name: Seq<char>) -> bool {
    "warlock-jailer-"@.is_prefix_of(name) && ".log"@.is_suffix_of(name)
}

/// What a VM leaves behind in a directory.
#[derive(Debug, Clone, Copy, PartialEq, Eq, Structural)]
pub enum Leftover {
    Workspace,
    RootfsCopy,
    JailerLog,
}

impl Leftover {
    /// Whether the entry is such a leftover.
    pub open spec fn is_entry(self, e: DirEntry) -> bool {
        match self {
            Leftover::Workspace => e.is_dir,
            Leftover::RootfsCopy => is_ext4(e.name@),
            Leftover::JailerLog => is_jailer_log(e.name@),
        }
    }

    /// Whether the entry is such a leftover.
    fn matches_entry(self, e: &DirEntry) -> (r: bool)
        ensures
            r == self.is_entry(*e),
    {
        match self {
            Leftover::Workspace => e.is_dir,
            Leftover::RootfsCopy => has_ext4_extension(e.name.as_str()),
            Leftover::JailerLog => names_jailer_log(e.name.as_str()),
        }
    }
}

/// The positions, in order, of those entries that could be read and are such leftovers.
pub open spec fn stale_positions(
    entries: Seq<Option<DirEntry>>,
    leftover: Leftover,
) -> Seq<usize>
    decreases entries.len(),
{
    if entries.len() == 0 {
        Seq::empty()
    } else {
        let before = stale_positions(entries.drop_last(), leftover);
        match entries.last() {
            Some(e) => if leftover.is_entry(e) {
                before.push((entries.len() - 1) as usize)
            } else {
                before
            },
            None => before,
        }
    }
}

/// The positions of the entries to remove. There are none if the directory could not be listed,
/// and on systems other than Linux.
pub open spec fn sweep_positions(
    platform: Platform,
    listing: Option<Vec<Option<DirEntry>>>,
    leftover: Leftover,
) -> Seq<usize> {
    match listing {
        Some(entries) => if platform is Linux {
            stale_positions(entries@, leftover)
        } else {
            Seq::empty()
        },
        None => Seq::empty(),
    }
}

/// The positions of the entries to remove.
fn find_stale(
    platform: Platform,
    listing: &Option<Vec<Option<DirEntry>>>,
    leftover: Leftover,
) -> (r: Vec<usize>)
    ensures
        r@ == sweep_positions(platform, *listing, leftover),
{
    let mut out: Vec<usize> = Vec::new();
    if !platform.is_linux() {
        return out;
    }
    let entries = match listing {
        Some(entries) => entries,
        None => return out,
    };
    let mut i: usize = 0;
    while i < entries.len()
        invariant
            i <= entries@.len(),
            out@ == stale_positions(entries@.take(i as int), leftover),
        decreases entries@.len() - i,
    {
        proof {
            assert(entries@.take(i + 1).drop_last() =~= entries@.take(i as int));
        }
        match &entries[i] {
            Some(e) => if leftover.matches_entry(e) {
                out.push(i);
            },
            None => {},
        }
        i += 1;
    }
    proof {
        assert(entries@.take(i as int) =~= entries@);
    }
    out
}

/// The jailer workspaces to remove: the positions of all directories among the entries.
pub fn remove_stale_jailer_workspaces(
    platform: Platform,
    listing: &Option<Vec<Option<DirEntry>>>,
) -> (r: Vec<usize>)
    ensures
        r@ == sweep_positions(platform, *listing, Leftover::Workspace),
{
    find_stale(platform, listing, Leftover::Workspace)
}

/// The rootfs copies to remove: the positions of all entries with the extension `ext4`.
pub fn remove_stale_rootfs_copies(
    platform: Platform,
    listing: &Option<Vec<Option<DirEntry>>>,
) -> (r: Vec<usize>)
    ensures
        r@ == sweep_positions(platform, *listing, Leftover::RootfsCopy),
{
    find_stale(platform, listing, Leftover::RootfsCopy)
}

/// The jailer logs to remove: the positions of all entries named like one.
pub fn remove_stale_jailer_logs(
    platform: Platform,
    listing: &Option<Vec<Option<DirEntry>>>,
) -> (r: Vec<usize>)
    ensures
        r@ == sweep_positions(platform, *listing, Leftover::JailerLog),
{
    find_stale(platform, listing, Leftover::JailerLog)
}

/// A position is swept exactly if it is that of an entry that could be read and is such a
/// leftover, and no position is swept twice.
pub proof fn sweep_takes_leftovers_only(entries: Seq<Option<DirEntry>>, leftover: Leftover)
    requires
        entries.len() <= usize::MAX,
    ensures
        forall|i: usize|
            #[trigger] stale_positions(entries, leftover).contains(i) <==> (i < entries.len() && (
            entries[i as int] matches Some(e) && leftover.is_entry(e))),
        stale_positions(entries, leftover).no_duplicates(),
    decreases entries.len(),
{
    if entries.len() > 0 {
        let n = (entries.len() - 1) as usize;
        let front = entries.drop_last();
        let before = stale_positions(front, leftover);
        sweep_takes_leftovers_only(front, leftover);
        let all = stale_positions(entries, leftover);
        assert(!before.contains(n));
        assert forall|i: usize| #[trigger] all.contains(i) <==> (i < entries.len() && (
        entries[i as int] matches Some(e) && leftover.is_entry(e))) by {
            assert(all.len() > before.len() ==> all == before.push(n));
            if all.len() > before.len() {
                assert(all[all.len() - 1] == n);
                if before.contains(i) {
                    let k = choose|k: int| 0 <= k < before.len() && before[k] == i;
                    assert(all[k] == i);
                }
                if all.contains(i) && i != n {
                    let k = choose|k: int| 0 <= k < all.len() && all[k] == i;
                    assert(before[k] == i);
                }
            }
            if i < n {
                assert(front[i as int] == entries[i as int]);
            }
        }
    }
}

/// Whether a name has the extension `ext4`.
fn has_ext4_extension(name: &str) -> (r: bool)
    ensures
        r == is_ext4(name@),
{
    let chars = chars_of(name);
    ends_with(&chars, ".ext4") && chars.len() > 5
}

/// Whether a name is that of a jailer log.
fn names_jailer_log(name: &str) -> (r: bool)
    ensures
        r == is_jailer_log(name@),
{
    let chars = chars_of(name);
    starts_with(&chars, "warlock-jailer-") && ends_with(&chars, ".log")
}

/// Whether any of the removals succeeded.
pub fn removed_any(removals: &Vec<bool>) -> (r: bool)
    ensures
        r == exists|i: int| 0 <= i < removals@.len() && #[trigger] removals@[i],
        r == removals@.contains(true),
{
    let mut i: usize = 0;
    while i < removals.len()
        invariant
            i <= removals@.len(),
            forall|k: int| 0 <= k < i ==> !#[trigger] removals@[k],
        decreases removals@.len() - i,
    {
        if removals[i] {
            assert(removals@.contains(removals@[i as int]));
            return true;
        }
        i += 1;
    }
    false
}

/// Lists the network interfaces, one to a line.
pub open spec fn list_links_line() -> (Seq<char>, Seq<Seq<char>>) {
    ("ip"@, seq!["-o"@, "link"@, "show"@])
}

/// Lists the network interfaces, one to a line.
pub fn list_links() -> (r: CommandLine)
    ensures
        r@ == list_links_line(),
{
    let args = vec!["-o", "link", "show"];
    proof {
        assert(crate::text::slices(args@) =~= list_links_line().1);
    }
    command("ip", args)
}

/// Whether a name is one of a tap device of a VM: `fc` and digits.
pub open spec fn is_fc_tap(name: Seq<char>) -> bool {
    "fc"@.is_prefix_of(name) && crate::decimal::all_digits(name.skip(2))
}

/// The interface that a line of the list names: its second word, without the colon.
pub open spec fn interface_of(line: Seq<char>) -> Option<Seq<char>> {
    let words = crate::text::words(line);
    if words.len() < 2 {
        None
    } else {
        Some(crate::text::without_trailing(words[1], ':'))
    }
}

/// The tap devices of VMs that the lines name, in order.
pub open spec fn tap_devices(lines: Seq<Seq<char>>) -> Seq<Seq<char>>
    decreases lines.len(),
{
    if lines.len() == 0 {
        Seq::empty()
    } else {
        let before = tap_devices(lines.drop_last());
        match interface_of(lines.last()) {
            Some(name) => if is_fc_tap(name) {
                before.push(name)
            } else {
                before
            },
            None => before,
        }
    }
}

/// Parses tap device names of VMs from the list of network interfaces.
pub fn parse_fc_tap_devices(output: &str) -> (r: Vec<String>)
    ensures
        crate::text::texts(r@) == tap_devices(crate::text::lines(output@)),
{
    let chars = chars_of(output);
    let lines = split_lines(&chars);
    let ghost all = crate::text::views(lines@);
    let mut out: Vec<String> = Vec::new();
    let mut i: usize = 0;
    proof {
        reveal_strlit("fc");
        assert(all.take(0) =~= Seq::empty());
        assert(crate::text::texts(out@) =~= Seq::empty());
    }
    while i < lines.len()
        invariant
            i <= lines@.len(),
            "fc"@.len() == 2,
            all == crate::text::views(lines@),
            crate::text::texts(out@) == tap_devices(all.take(i as int)),
        decreases lines@.len() - i,
    {
        let ghost before = out@;
        let words = split_words(&lines[i]);
        proof {
            assert(all.take(i + 1).drop_last() =~= all.take(i as int));
            assert(all.take(i + 1).last() == lines@[i as int]@);
            assert(crate::text::views(words@).len() == words@.len());
            if words@.len() >= 2 {
                assert(crate::text::views(words@)[1] == words@[1]@);
            }
        }
        if words.len() >= 2 {
            let name = strip_trailing(&words[1], ':');
            if starts_with(&name, "fc") && all_digits_from(&name, 2) {
                out.push(string_of(&name));
                proof {
                    assert(crate::text::texts(out@) =~= crate::text::texts(before).push(name@));
                }
            }
        }
        i += 1;
    }
    proof {
        assert(all.take(i as int) =~= all);
    }
    out
}

/// The commands that delete the tap devices of VMs that the list of interfaces names, one
/// for each. There are none if the list could not be had, and on systems other than Linux.
pub fn remove_stale_tap_devices(platform: Platform, listing: &CommandOutcome) -> (r: Vec<
    CommandLine,
>)
    ensures
        !(platform is Linux) ==> r@.len() == 0,
        platform is Linux ==> r@.len() == tap_devices(crate::text::lines(listing.out())).len(),
        forall|i: int|
            0 <= i < r@.len() ==> (#[trigger] r@[i])@
                == crate::firecracker::network::tap_delete_line(
                tap_devices(crate::text::lines(listing.out()))[i],
            ),
{
    if !platform.is_linux() {
        return Vec::new();
    }
    let names = match listing {
        CommandOutcome::NotStarted => {
            let none: Vec<String> = Vec::new();
            proof {
                assert(listing.out() =~= Seq::empty());
                assert(crate::text::texts(none@) =~= Seq::empty());
            }
            none
        },
        CommandOutcome::Finished { stdout, .. } => parse_fc_tap_devices(stdout.as_str()),
    };
    let ghost all = tap_devices(crate::text::lines(listing.out()));
    let mut out: Vec<CommandLine> = Vec::new();
    let mut i: usize = 0;
    while i < names.len()
        invariant
            i <= names@.len(),
            all == crate::text::texts(names@),
            out@.len() == i,
            forall|k: int|
                0 <= k < i ==> (#[trigger] out@[k])@
                    == crate::firecracker::network::tap_delete_line(all[k]),
        decreases names@.len() - i,
    {
        out.push(tap_delete(names[i].as_str()));
        proof {
            assert(all[i as int] == names@[i as int]@);
        }
        i += 1;
    }
    out
}

/// Lists the nftables table of the VMs.
pub open spec fn list_table_line() -> (Seq<char>, Seq<Seq<char>>) {
    ("nft"@, seq!["list"@, "table"@, "firecracker"@])
}

/// Lists the nftables table of the VMs.
pub fn list_table() -> (r: CommandLine)
    ensures
        r@ == list_table_line(),
{
    let args = vec!["list", "table", "firecracker"];
    proof {
        assert(crate::text::slices(args@) =~= list_table_line().1);
    }
    command("nft", args)
}

/// Flushes the nftables table of the VMs.
pub open spec fn flush_table_line() -> (Seq<char>, Seq<Seq<char>>) {
    ("nft"@, seq!["flush"@, "table"@, "firecracker"@])
}

/// Flushes the nftables table of the VMs.
pub fn flush_table() -> (r: CommandLine)
    ensures
        r@ == flush_table_line(),
{
    let args = vec!["flush", "table", "firecracker"];
    proof {
        assert(crate::text::slices(args@) =~= flush_table_line().1);
    }
    command("nft", args)
}

/// Whether a line of a listed table is part of its structure and not a rule.
pub open spec fn structural(line: Seq<char>) -> bool {
    let t = crate::text::trimmed(line);
    ||| t.len() == 0
    ||| "table "@.is_prefix_of(t)
    ||| "chain "@.is_prefix_of(t)
    ||| "type "@.is_prefix_of(t)
    ||| t == "}"@
    ||| t == "{"@
}

/// Whether a listed table holds a rule.
pub open spec fn holds_rules(output: Seq<char>) -> bool {
    exists|i: int|
        0 <= i < crate::text::lines(output).len() && !structural(
            #[trigger] crate::text::lines(output)[i],
        )
}

/// Checks whether a listed table contains actual rules, beyond its structure.
pub fn has_nftables_rules(output: &str) -> (r: bool)
    ensures
        r == holds_rules(output@),
{
    let chars = chars_of(output);
    let lines = split_lines(&chars);
    let ghost all = crate::text::lines(output@);
    let mut i: usize = 0;
    while i < lines.len()
        invariant
            i <= lines@.len(),
            all == crate::text::views(lines@),
            all == crate::text::lines(output@),
            forall|k: int| 0 <= k < i ==> structural(#[trigger] all[k]),
        decreases lines@.len() - i,
    {
        let trimmed = trim(&lines[i]);
        proof {
            assert(all[i as int] == lines@[i as int]@);
        }
        if !(trimmed.len() == 0 || starts_with(&trimmed, "table ") || starts_with(
            &trimmed,
            "chain ",
        ) || starts_with(&trimmed, "type ") || is_text(&trimmed, "}") || is_text(&trimmed, "{")) {
            return true;
        }
        i += 1;
    }
    false
}

/// How far the flushing of nftables rules has come: the command that is running.
#[derive(Debug, Clone, Copy, PartialEq, Eq, Structural)]
pub enum FlushStage {
    Listing,
    Flushing,
}

/// What the flushing of nftables rules asks for.
#[derive(Debug)]
pub enum FlushStep {
    Run(CommandLine, FlushStage),
    /// Whether rules were flushed.
    Done(bool),
}

/// Begins to flush stale nftables rules: the table is listed first. On systems other than Linux
/// there are none.
pub fn flush_nftables_rules(platform: Platform) -> (r: FlushStep)
    ensures
        if platform is Linux {
            r matches FlushStep::Run(line, stage) && line@ == list_table_line() && stage is Listing
        } else {
            r == FlushStep::Done(false)
        },
{
    if platform.is_linux() {
        FlushStep::Run(list_table(), FlushStage::Listing)
    } else {
        FlushStep::Done(false)
    }
}

/// Goes on to flush stale nftables rules. The table is flushed if it could be listed and
/// holds rules.
pub fn flush_nftables_rules_next(stage: FlushStage, outcome: &CommandOutcome) -> (r: FlushStep)
    ensures
        match stage {
            FlushStage::Listing => if outcome.ok() && holds_rules(outcome.out()) {
                r matches FlushStep::Run(line, next) && line@ == flush_table_line()
                    && next is Flushing
            } else {
                r == FlushStep::Done(false)
            },
            FlushStage::Flushing => r == FlushStep::Done(outcome.ok()),
        },
{
    match stage {
        FlushStage::Listing => match outcome {
            CommandOutcome::Finished { success, stdout, .. } => if *success
                && has_nftables_rules(stdout.as_str()) {
                FlushStep::Run(flush_table(), FlushStage::Flushing)
            } else {
                FlushStep::Done(false)
            },
            CommandOutcome::NotStarted => FlushStep::Done(false),
        },
        FlushStage::Flushing => FlushStep::Done(outcome.succeeded()),
    }
}

/// The sweep finds the tap device of every subnet, as the list of interfaces shows it.
pub proof fn sweep_finds_tap_devices(index: u16)
    ensures
        is_fc_tap(crate::vm::network::tap_device(index)),
        crate::text::without_trailing(crate::vm::network::tap_device(index) + ":"@, ':')
            == crate::vm::network::tap_device(index),
{
    reveal_strlit("fc");
    reveal_strlit(":");
    let number = crate::decimal::decimal(index as nat);
    let name = crate::vm::network::tap_device(index);
    crate::decimal::decimal_digits(index as nat);
    assert(name.skip(2) =~= number);
    assert("fc"@ =~= name.subrange(0, 2));
    assert((name + ":"@).drop_last() =~= name);
    assert(crate::decimal::is_digit(number[number.len() - 1]));
    assert(name.last() == number[number.len() - 1]);
    reveal_with_fuel(crate::text::without_trailing, 2);
}

/// The sweep finds the rootfs copy of every VM.
pub proof fn sweep_finds_rootfs_copies(id: u128)
    ensures
        is_ext4(crate::ids::hyphenated(id) + ".ext4"@),
{
    reveal_strlit(".ext4");
    let name = crate::ids::hyphenated(id) + ".ext4"@;
    assert(".ext4"@ =~= name.subrange(name.len() - 5, name.len() as int));
}

/// The sweep finds the jailer log of every VM, in the directory that it lists.
pub proof fn sweep_finds_jailer_logs(id: u128)
    ensures
        is_jailer_log("warlock-jailer-"@ + crate::ids::hyphenated(id) + ".log"@),
        crate::handlers::vm::jailer_log(id) == crate::text::path_in(
            JAILER_LOGS@,
            "warlock-jailer-"@ + crate::ids::hyphenated(id) + ".log"@,
        ),
{
    reveal_strlit("/tmp");
    reveal_strlit("/");
    reveal_strlit("warlock-jailer-");
    reveal_strlit("/tmp/warlock-jailer-");
    reveal_strlit(".log");
    let name = "warlock-jailer-"@ + crate::ids::hyphenated(id) + ".log"@;
    assert("warlock-jailer-"@ =~= name.subrange(0, 15));
    assert(".log"@ =~= name.subrange(name.len() - 4, name.len() as int));
    assert(crate::handlers::vm::jailer_log(id) =~= crate::text::path_in(JAILER_LOGS@, name));
}

/// A line of the list names the interface that stands as its second word, without the colons
/// behind it, whatever its first word and whatever follows.
pub proof fn second_word_is_the_interface(
    number: Seq<char>,
    gap: Seq<char>,
    name: Seq<char>,
    colons: Seq<char>,
    rest: Seq<char>,
)
    requires
        crate::text::solid(number),
        number.len() > 0,
        crate::text::blank(gap),
        gap.len() > 0,
        crate::text::solid(name),
        name.len() > 0,
        name.last() != ':',
        forall|i: int| 0 <= i < colons.len() ==> #[trigger] colons[i] == ':',
        rest.len() == 0 || crate::text::white(rest[0]),
    ensures
        interface_of(number + gap + (name + colons) + rest) == Some(name),
{
    let none = Seq::<char>::empty();
    let second = name + colons;
    assert(crate::text::solid(second)) by {
        assert forall|i: int| 0 <= i < second.len() implies !crate::text::white(
            #[trigger] second[i],
        ) by {
            if i < name.len() {
                assert(!crate::text::white(name[i]));
            } else {
                assert(second[i] == colons[i - name.len()]);
            }
        }
    }
    crate::text::first_two_words(none, number, gap, second, rest);
    assert(none + number + gap + second + rest =~= number + gap + second + rest);
    crate::text::without_trailing_takes_all(name, colons, ':');
}

/// The tap devices that are found are exactly the interfaces of the lines that are named `fc`
/// and digits.
pub proof fn tap_devices_of_lines(lines: Seq<Seq<char>>, name: Seq<char>)
    ensures
        tap_devices(lines).contains(name) <==> (is_fc_tap(name) && exists|i: int|
            0 <= i < lines.len() && #[trigger] interface_of(lines[i]) == Some(name)),
    decreases lines.len(),
{
    if lines.len() > 0 {
        let front = lines.drop_last();
        tap_devices_of_lines(front, name);
        let before = tap_devices(front);
        let all = tap_devices(lines);
        let n = lines.len() - 1;
        if all.contains(name) {
            let k = choose|k: int| 0 <= k < all.len() && all[k] == name;
            if k < before.len() {
                assert(before[k] == name);
                let i = choose|i: int|
                    0 <= i < front.len() && #[trigger] interface_of(front[i]) == Some(name);
                assert(interface_of(lines[i]) == Some(name));
            } else {
                assert(interface_of(lines[n]) == Some(name));
            }
        }
        if is_fc_tap(name) && exists|i: int|
            0 <= i < lines.len() && #[trigger] interface_of(lines[i]) == Some(name) {
            let i = choose|i: int|
                0 <= i < lines.len() && #[trigger] interface_of(lines[i]) == Some(name);
            if i < n {
                assert(interface_of(front[i]) == Some(name));
                let k = choose|k: int| 0 <= k < before.len() && before[k] == name;
                assert(all[k] == name);
            } else {
                assert(all[all.len() - 1] == name);
            }
        }
    }
}

/// The name of a tap device begins with `fc`, and digits follow.
pub proof fn tap_names_are_fc_and_digits(name: Seq<char>)
    ensures
        is_fc_tap(name) <==> {
            &&& name.len() >= 2
            &&& name[0] == 'f'
            &&& name[1] == 'c'
            &&& forall|i: int| 2 <= i < name.len() ==> 48 <= (#[trigger] name[i]) as int <= 57
        },
{
    reveal_strlit("fc");
    if name.len() >= 2 {
        let front = name.subrange(0, 2);
        let rest = name.skip(2);
        assert(front[0] == name[0] && front[1] == name[1]);
        if name[0] == 'f' && name[1] == 'c' {
            assert("fc"@ =~= front);
        }
        if crate::decimal::all_digits(rest) {
            assert forall|i: int| 2 <= i < name.len() implies 48 <= (#[trigger] name[i]) as int
                <= 57 by {
                assert(crate::decimal::is_digit(rest[i - 2]));
            }
        }
        if forall|i: int| 2 <= i < name.len() ==> 48 <= (#[trigger] name[i]) as int <= 57 {
            assert forall|i: int| 0 <= i < rest.len() implies crate::decimal::is_digit(
                #[trigger] rest[i],
            ) by {
                assert(48 <= name[i + 2] as int <= 57);
            }
        }
    }
}

/// The line under which the tap device of a subnet is listed names it, whatever the number of
/// the interface and whatever follows.
pub proof fn listed_tap_is_named(number: nat, index: u16, rest: Seq<char>)
    ensures
        interface_of(
            crate::decimal::decimal(number) + seq![':', ' '] + crate::vm::network::tap_device(index)
                + seq![':', ' '] + rest,
        ) == Some(crate::vm::network::tap_device(index)),
{
    reveal_strlit("fc");
    let name = crate::vm::network::tap_device(index);
    let first = crate::decimal::decimal(number) + seq![':'];
    crate::decimal::decimal_digits(number);
    crate::decimal::decimal_digits(index as nat);
    assert(crate::text::solid(first)) by {
        assert forall|i: int| 0 <= i < first.len() implies !crate::text::white(
            #[trigger] first[i],
        ) by {
            if i < crate::decimal::decimal(number).len() {
                assert(crate::decimal::is_digit(crate::decimal::decimal(number)[i]));
            }
        }
    }
    assert(crate::text::solid(name) && name.last() != ':') by {
        let digits = crate::decimal::decimal(index as nat);
        assert forall|i: int| 0 <= i < name.len() implies !crate::text::white(
            #[trigger] name[i],
        ) && name[i] != ':' by {
            if i >= 2 {
                assert(name[i] == digits[i - 2]);
                assert(crate::decimal::is_digit(digits[i - 2]));
            }
        }
        assert(name[name.len() - 1] != ':');
    }
    second_word_is_the_interface(first, seq![' '], name, seq![':'], seq![' '] + rest);
    assert(first + seq![' '] + (name + seq![':']) + (seq![' '] + rest)
        =~= crate::decimal::decimal(number) + seq![':', ' '] + name + seq![':', ' '] + rest);
}

/// A tap device of a subnet that is listed anywhere is deleted, whatever the number of the
/// interface, what follows it on its line, and the other lines.
pub proof fn listed_tap_is_swept(
    before: Seq<char>,
    number: nat,
    index: u16,
    rest: Seq<char>,
    after: Seq<char>,
    listing: CommandOutcome,
    r: Vec<CommandLine>,
)
    requires
        before.len() == 0 || before.last() == '\n',
        !rest.contains('\n'),
        rest.len() == 0 || rest.last() != '\r',
        listing.out() == before + (crate::decimal::decimal(number) + seq![':', ' ']
            + crate::vm::network::tap_device(index) + seq![':', ' '] + rest) + seq!['\n'] + after,
        call_ensures(remove_stale_tap_devices, (Platform::Linux, &listing), r),
    ensures
        exists|k: int|
            0 <= k < r@.len() && (#[trigger] r@[k])@ == (
                "ip"@,
                seq!["link"@, "del"@, crate::vm::network::tap_device(index)],
            ),
        forall|output: &str, names: Vec<String>|
            output@ == listing.out() && #[trigger] call_ensures(
                parse_fc_tap_devices,
                (output,),
                names,
            ) ==> crate::text::texts(names@).contains(crate::vm::network::tap_device(index)),
{
    let name = crate::vm::network::tap_device(index);
    let line = crate::decimal::decimal(number) + seq![':', ' '] + name + seq![':', ' '] + rest;
    assert(!line.contains('\n')) by {
        reveal_strlit("fc");
        let head = crate::decimal::decimal(number);
        let digits = crate::decimal::decimal(index as nat);
        crate::decimal::decimal_digits(number);
        crate::decimal::decimal_digits(index as nat);
        assert forall|i: int| 0 <= i < line.len() implies line[i] != '\n' by {
            if i < head.len() {
                assert(crate::decimal::is_digit(head[i]));
            } else if i >= head.len() + 4 && i < head.len() + 2 + name.len() {
                assert(line[i] == digits[i - head.len() - 4]);
                assert(crate::decimal::is_digit(digits[i - head.len() - 4]));
            } else if i >= head.len() + 4 + name.len() {
                assert(line[i] == rest[i - head.len() - 4 - name.len()]);
                assert(rest.contains(line[i]));
            }
        }
    }
    if rest.len() > 0 {
        assert(line.last() == rest.last());
    }
    crate::text::line_among_others(before, line, after);
    listed_tap_is_named(number, index, rest);
    sweep_finds_tap_devices(index);
    let lines = crate::text::lines(listing.out());
    let all = tap_devices(lines);
    let i = choose|i: int| 0 <= i < lines.len() && lines[i] == line;
    assert(interface_of(lines[i]) == Some(name));
    tap_devices_of_lines(lines, name);
    let k = choose|k: int| 0 <= k < all.len() && all[k] == name;
    assert(r@[k]@ == crate::firecracker::network::tap_delete_line(name));
    assert(r@[k]@ == ("ip"@, seq!["link"@, "del"@, name]));
}

/// Only interfaces that are listed, and are named `fc` and digits, are deleted.
pub proof fn only_listed_taps_are_swept(listing: CommandOutcome, r: Vec<CommandLine>, k: int)
    requires
        call_ensures(remove_stale_tap_devices, (Platform::Linux, &listing), r),
        0 <= k < r@.len(),
    ensures
        exists|i: int|
            {
                &&& 0 <= i < crate::text::lines(listing.out()).len()
                &&& interface_of(#[trigger] crate::text::lines(listing.out())[i]) matches Some(name)
                &&& is_fc_tap(name)
                &&& r@[k]@ == ("ip"@, seq!["link"@, "del"@, name])
            },
{
    let lines = crate::text::lines(listing.out());
    let all = tap_devices(lines);
    let name = all[k];
    assert(all.contains(name));
    tap_devices_of_lines(lines, name);
    let i = choose|i: int| 0 <= i < lines.len() && #[trigger] interface_of(lines[i]) == Some(name);
    assert(r@[k]@ == ("ip"@, seq!["link"@, "del"@, name]));
}

/// A listed line that does not begin like the structure of a table is a rule, however it is
/// indented and whatever the other lines are.
pub proof fn rule_is_found(
    before: Seq<char>,
    lead: Seq<char>,
    rule: Seq<char>,
    after: Seq<char>,
    output: &str,
    r: bool,
)
    requires
        before.len() == 0 || before.last() == '\n',
        crate::text::blank(lead),
        rule.len() > 0,
        !crate::text::white(rule.first()),
        !crate::text::white(rule.last()),
        !(lead + rule).contains('\n'),
        rule[0] != 't' && rule[0] != 'c' && rule[0] != '{' && rule[0] != '}',
        output@ == before + (lead + rule) + seq!['\n'] + after,
        call_ensures(has_nftables_rules, (output,), r),
    ensures
        r,
{
    reveal_strlit("table ");
    reveal_strlit("chain ");
    reveal_strlit("type ");
    reveal_strlit("}");
    reveal_strlit("{");
    let line = lead + rule;
    let none = Seq::<char>::empty();
    assert(line.last() == rule.last());
    assert(lead + rule + none =~= line);
    crate::text::trimmed_takes_ends(lead, rule, none);
    crate::text::line_among_others(before, line, after);
    let lines = crate::text::lines(output@);
    let i = choose|i: int| 0 <= i < lines.len() && lines[i] == line;
    assert(!structural(lines[i])) by {
        let t = crate::text::trimmed(line);
        assert(t == rule);
        assert("table "@[0] == 't' && "chain "@[0] == 'c' && "type "@[0] == 't');
        if "table "@.is_prefix_of(t) {
            assert("table "@[0] == t.subrange(0, 6)[0]);
        }
        if "chain "@.is_prefix_of(t) {
            assert("chain "@[0] == t.subrange(0, 6)[0]);
        }
        if "type "@.is_prefix_of(t) {
            assert("type "@[0] == t.subrange(0, 5)[0]);
        }
    }
}

/// What opens a table or a chain, what declares its type, a brace and an empty line are no
/// rules, however they are indented.
pub proof fn structure_is_no_rule(lead: Seq<char>, s: Seq<char>, tail: Seq<char>)
    requires
        crate::text::blank(lead),
        crate::text::blank(tail),
        s.len() > 0,
        !crate::text::white(s.last()),
    ensures
        structural(lead),
        structural(lead + ("table "@ + s) + tail),
        structural(lead + ("chain "@ + s) + tail),
        structural(lead + ("type "@ + s) + tail),
        structural(lead + seq!['{'] + tail),
        structural(lead + seq!['}'] + tail),
{
    reveal_strlit("table ");
    reveal_strlit("chain ");
    reveal_strlit("type ");
    reveal_strlit("}");
    reveal_strlit("{");
    let none = Seq::<char>::empty();
    assert(lead + none + none =~= lead);
    crate::text::trimmed_takes_ends(lead, none, none);
    let (a, b, c) = ("table "@ + s, "chain "@ + s, "type "@ + s);
    assert(a.last() == s.last() && b.last() == s.last() && c.last() == s.last());
    crate::text::trimmed_takes_ends(lead, a, tail);
    crate::text::trimmed_takes_ends(lead, b, tail);
    crate::text::trimmed_takes_ends(lead, c, tail);
    crate::text::trimmed_takes_ends(lead, seq!['{'], tail);
    crate::text::trimmed_takes_ends(lead, seq!['}'], tail);
    assert("table "@ =~= a.subrange(0, 6));
    assert("chain "@ =~= b.subrange(0, 6));
    assert("type "@ =~= c.subrange(0, 5));
    assert("{"@ =~= seq!['{']);
    assert("}"@ =~= seq!['}']);
}

/// A name has the extension exactly if `.ext4` stands behind something, and is that of a log
/// exactly if it begins and ends like one.
pub proof fn names_of_leftovers(stem: Seq<char>, name: Seq<char>)
    ensures
        stem.len() > 0 ==> is_ext4(stem + ".ext4"@),
        is_ext4(name) ==> name.len() > 5 && name.subrange(name.len() - 5, name.len() as int)
            == ".ext4"@,
        is_jailer_log("warlock-jailer-"@ + stem + ".log"@),
        is_jailer_log(name) ==> name.len() >= 15 && name.subrange(0, 15) == "warlock-jailer-"@
            && name.subrange(name.len() - 4, name.len() as int) == ".log"@,
{
    reveal_strlit(".ext4");
    reveal_strlit("warlock-jailer-");
    reveal_strlit(".log");
    let a = stem + ".ext4"@;
    assert(".ext4"@ =~= a.subrange(a.len() - 5, a.len() as int));
    let b = "warlock-jailer-"@ + stem + ".log"@;
    assert("warlock-jailer-"@ =~= b.subrange(0, 15));
    assert(".log"@ =~= b.subrange(b.len() - 4, b.len() as int));
}

/// On Linux every directory among the workspaces, every file with the extension `ext4` and
/// every jailer log is taken, and nothing else; an entry that could not be read is left.
pub proof fn leftovers_are_taken(
    entries: Vec<Option<DirEntry>>,
    workspaces: Vec<usize>,
    copies: Vec<usize>,
    logs: Vec<usize>,
    i: usize,
)
    requires
        entries@.len() <= usize::MAX,
        call_ensures(
            remove_stale_jailer_workspaces,
            (Platform::Linux, &Some(entries)),
            workspaces,
        ),
        call_ensures(remove_stale_rootfs_copies, (Platform::Linux, &Some(entries)), copies),
        call_ensures(remove_stale_jailer_logs, (Platform::Linux, &Some(entries)), logs),
    ensures
        workspaces@.contains(i) <==> (i < entries@.len() && (entries@[i as int] matches Some(e)
            && e.is_dir)),
        copies@.contains(i) <==> (i < entries@.len() && (entries@[i as int] matches Some(e)
            && is_ext4(e.name@))),
        logs@.contains(i) <==> (i < entries@.len() && (entries@[i as int] matches Some(e)
            && is_jailer_log(e.name@))),
        workspaces@.no_duplicates() && copies@.no_duplicates() && logs@.no_duplicates(),
{
    sweep_takes_leftovers_only(entries@, Leftover::Workspace);
    sweep_takes_leftovers_only(entries@, Leftover::RootfsCopy);
    sweep_takes_leftovers_only(entries@, Leftover::JailerLog);
}

/// On systems other than Linux the sweep asks for nothing.
pub proof fn nothing_is_swept_elsewhere(
    platform: Platform,
    listing: Option<Vec<Option<DirEntry>>>,
    links: CommandOutcome,
    kill: KillStep,
    workspaces: Vec<usize>,
    copies: Vec<usize>,
    taps: Vec<CommandLine>,
    flush: FlushStep,
    logs: Vec<usize>,
)
    requires
        platform != Platform::Linux,
        call_ensures(kill_orphaned_processes, (platform,), kill),
        call_ensures(remove_stale_jailer_workspaces, (platform, &listing), workspaces),
        call_ensures(remove_stale_rootfs_copies, (platform, &listing), copies),
        call_ensures(remove_stale_tap_devices, (platform, &links), taps),
        call_ensures(flush_nftables_rules, (platform,), flush),
        call_ensures(remove_stale_jailer_logs, (platform, &listing), logs),
    ensures
        kill == KillStep::Done(false),
        flush == FlushStep::Done(false),
        workspaces@.len() == 0 && copies@.len() == 0 && taps@.len() == 0 && logs@.len() == 0,
{
}

/// On Linux the Firecracker processes of the jailed user are sent SIGTERM and, if there were
/// any, two seconds later SIGKILL. There were some exactly if SIGTERM reached any.
pub proof fn orphans_are_terminated_then_killed(
    first: KillStep,
    termed: CommandOutcome,
    second: KillStep,
    killed: CommandOutcome,
    third: KillStep,
)
    requires
        call_ensures(kill_orphaned_processes, (Platform::Linux,), first),
        call_ensures(kill_orphaned_processes_next, (first->stage, &termed), second),
        call_ensures(kill_orphaned_processes_next, (KillStage::Killing, &killed), third),
    ensures
        first matches KillStep::Run { wait_seconds, line, .. } && wait_seconds == 0 && line@ == (
            "pkill"@,
            seq!["-15"@, "-u"@, crate::decimal::decimal(1100), "firecracker"@],
        ),
        termed.ok() ==> (second matches KillStep::Run { wait_seconds, line, stage } && wait_seconds
            == 2 && line@ == (
            "pkill"@,
            seq!["-9"@, "-u"@, crate::decimal::decimal(1100), "firecracker"@],
        ) && stage is Killing),
        !termed.ok() ==> second == KillStep::Done(false),
        third == KillStep::Done(true),
{
}

/// On Linux the table of the VMs is listed, and flushed exactly if it could be listed and holds
/// rules; rules were flushed exactly if that succeeded.
pub proof fn rules_are_flushed(
    first: FlushStep,
    listed: CommandOutcome,
    second: FlushStep,
    flushed: CommandOutcome,
    third: FlushStep,
)
    requires
        call_ensures(flush_nftables_rules, (Platform::Linux,), first),
        call_ensures(flush_nftables_rules_next, (first->Run_1, &listed), second),
        call_ensures(flush_nftables_rules_next, (FlushStage::Flushing, &flushed), third),
    ensures
        first matches FlushStep::Run(line, _) && line@ == (
            "nft"@,
            seq!["list"@, "table"@, "firecracker"@],
        ),
        listed.ok() && holds_rules(listed.out()) ==> (second matches FlushStep::Run(line, stage)
            && line@ == ("nft"@, seq!["flush"@, "table"@, "firecracker"@]) && stage is Flushing),
        !(listed.ok() && holds_rules(listed.out())) ==> second == FlushStep::Done(false),
        third == FlushStep::Done(flushed.ok()),
{
}

/// The sweep takes its stages in one order: processes, workspaces, rootfs copies, tap devices,
/// rules, logs; and it remembers whether anything was found.
pub proof fn sweep_order(start: Sweep, f: Seq<bool>, steps: Seq<SweepStep>)
    requires
        f.len() == 6,
        steps.len() == 6,
        call_ensures(cleanup_orphans, (), start),
        call_ensures(Sweep::next, (start, f[0]), steps[0]),
        call_ensures(Sweep::next, (steps[0]->Run_0, f[1]), steps[1]),
        call_ensures(Sweep::next, (steps[1]->Run_0, f[2]), steps[2]),
        call_ensures(Sweep::next, (steps[2]->Run_0, f[3]), steps[3]),
        call_ensures(Sweep::next, (steps[3]->Run_0, f[4]), steps[4]),
        call_ensures(Sweep::next, (steps[4]->Run_0, f[5]), steps[5]),
    ensures
        start.stage is Processes,
        steps[0] matches SweepStep::Run(s) && s.stage is Workspaces,
        steps[1] matches SweepStep::Run(s) && s.stage is RootfsCopies,
        steps[2] matches SweepStep::Run(s) && s.stage is TapDevices,
        steps[3] matches SweepStep::Run(s) && s.stage is Nftables,
        steps[4] matches SweepStep::Run(s) && s.stage is JailerLogs,
        steps[5] == (SweepStep::Done {
            found_anything: f[0] || f[1] || f[2] || f[3] || f[4] || f[5],
        }),
{
}

/// Something was removed exactly if one of the removals succeeded.
pub proof fn one_removal_counts(removals: Vec<bool>, r: bool)
    requires
        call_ensures(removed_any, (&removals,), r),
    ensures
        r <==> removals@.contains(true),
{
}

/// The interfaces are listed one to a line.
pub proof fn interfaces_are_listed(r: CommandLine)
    requires
        call_ensures(list_links, (), r),
    ensures
        r@ == ("ip"@, seq!["-o"@, "link"@, "show"@]),
{
}

/// What a VM leaves behind lies where the sweep looks: its console socket in a workspace, its
/// log among the logs.
pub proof fn leftovers_lie_where_the_sweep_looks(id: u128)
    ensures
        (JAILER_WORKSPACES@ + seq!['/'] + crate::ids::hyphenated(id) + seq!['/']).is_prefix_of(
            crate::handlers::vm::vsock_socket(id),
        ),
        (JAILER_LOGS@ + seq!['/']).is_prefix_of(crate::handlers::vm::jailer_log(id)),
{
    reveal_strlit("/srv/jailer/firecracker");
    reveal_strlit("/srv/jailer/firecracker/");
    reveal_strlit("/root/");
    reveal_strlit("/tmp");
    reveal_strlit("/tmp/warlock-jailer-");
    let a = JAILER_WORKSPACES@ + seq!['/'] + crate::ids::hyphenated(id) + seq!['/'];
    let s = crate::handlers::vm::vsock_socket(id);
    assert(a =~= s.subrange(0, a.len() as int));
    let b = JAILER_LOGS@ + seq!['/'];
    let l = crate::handlers::vm::jailer_log(id);
    assert(b =~= l.subrange(0, b.len() as int));
}

/// A table holds rules exactly if some line of it, without the white space around it, is not
/// empty, is no brace, and does not begin with `table`, `chain` or `type` and a space.
pub proof fn rules_are_all_but_structure(output: &str, r: bool)
    requires
        call_ensures(has_nftables_rules, (output,), r),
    ensures
        r <==> exists|i: int|
            {
                let t = crate::text::trimmed(#[trigger] crate::text::lines(output@)[i]);
                &&& 0 <= i < crate::text::lines(output@).len()
                &&& t.len() > 0
                &&& t != seq!['{']
                &&& t != seq!['}']
                &&& !seq!['t', 'a', 'b', 'l', 'e', ' '].is_prefix_of(t)
                &&& !seq!['c', 'h', 'a', 'i', 'n', ' '].is_prefix_of(t)
                &&& !seq!['t', 'y', 'p', 'e', ' '].is_prefix_of(t)
            },
{
    reveal_strlit("table ");
    reveal_strlit("chain ");
    reveal_strlit("type ");
    reveal_strlit("}");
    reveal_strlit("{");
    assert("table "@ =~= seq!['t', 'a', 'b', 'l', 'e', ' ']);
    assert("chain "@ =~= seq!['c', 'h', 'a', 'i', 'n', ' ']);
    assert("type "@ =~= seq!['t', 'y', 'p', 'e', ' ']);
    assert("{"@ =~= seq!['{']);
    assert("}"@ =~= seq!['}']);
    let lines = crate::text::lines(output@);
    if r {
        let i = choose|i: int| 0 <= i < lines.len() && !structural(#[trigger] lines[i]);
        assert(crate::text::trimmed(lines[i]).len() > 0);
    }
}

/// A line of fewer than two words names no interface.
pub proof fn short_lines_name_nothing(lead: Seq<char>, word: Seq<char>, tail: Seq<char>)
    requires
        crate::text::blank(lead),
        crate::text::blank(tail),
        crate::text::solid(word),
        word.len() > 0,
    ensures
        interface_of(lead) is None,
        interface_of(lead + word + tail) is None,
{
    crate::text::blank_has_no_words(lead);
    crate::text::blank_has_no_words(tail);
    if tail.len() > 0 {
        assert(crate::text::white(tail[0]));
    }
    crate::text::first_word(lead, word, tail);
}

/// The tap devices of two lists, one behind the other, are those of the first and then those of
/// the second.
pub proof fn tap_devices_in_order(a: Seq<Seq<char>>, b: Seq<Seq<char>>)
    ensures
        tap_devices(a + b) == tap_devices(a) + tap_devices(b),
    decreases b.len(),
{
    if b.len() == 0 {
        assert(a + b =~= a);
        assert(tap_devices(a) + tap_devices(b) =~= tap_devices(a));
    } else {
        tap_devices_in_order(a, b.drop_last());
        assert((a + b).drop_last() =~= a + b.drop_last());
        assert((a + b).last() == b.last());
        assert(tap_devices(a + b) =~= tap_devices(a) + tap_devices(b));
    }
}

/// The devices that are parsed are those that are deleted, in the same order, one command each.
pub proof fn parsed_taps_are_deleted(
    listing: CommandOutcome,
    output: &str,
    names: Vec<String>,
    r: Vec<CommandLine>,
)
    requires
        output@ == listing.out(),
        call_ensures(parse_fc_tap_devices, (output,), names),
        call_ensures(remove_stale_tap_devices, (Platform::Linux, &listing), r),
    ensures
        r@.len() == names@.len(),
        forall|i: int|
            0 <= i < r@.len() ==> (#[trigger] r@[i])@ == (
                "ip"@,
                seq!["link"@, "del"@, names@[i]@],
            ),
{
    let all = tap_devices(crate::text::lines(listing.out()));
    assert(crate::text::texts(names@).len() == names@.len());
    assert forall|i: int| 0 <= i < r@.len() implies (#[trigger] r@[i])@ == (
        "ip"@,
        seq!["link"@, "del"@, names@[i]@],
    ) by {
        assert(crate::text::texts(names@)[i] == names@[i]@);
        assert(r@[i]@ == crate::firecracker::network::tap_delete_line(all[i]));
    }
}

/// Leftovers are taken in the order in which they are listed.
pub proof fn leftovers_are_taken_in_order(entries: Seq<Option<DirEntry>>, leftover: Leftover)
    requires
        entries.len() <= usize::MAX,
    ensures
        forall|a: int, b: int|
            0 <= a < b < stale_positions(entries, leftover).len() ==> #[trigger] stale_positions(
                entries,
                leftover,
            )[a] < #[trigger] stale_positions(entries, leftover)[b],
    decreases entries.len(),
{
    if entries.len() > 0 {
        let front = entries.drop_last();
        leftovers_are_taken_in_order(front, leftover);
        sweep_takes_leftovers_only(front, leftover);
        let before = stale_positions(front, leftover);
        assert forall|a: int| 0 <= a < before.len() implies #[trigger] before[a] < front.len() by {
            assert(before.contains(before[a]));
        }
    }
}

} // verus!
