//! Per-VM copies of the root filesystem image.
use crate::command::{command, CommandLine, CommandOutcome};
use crate::decimal::decimal_text;
use crate::text::trim_text;
use vstd::prelude::*;

verus! {

/// Strategy for creating per-VM rootfs copies.
#[derive(Debug, Clone, Copy, PartialEq, Eq, Structural)]
pub enum CopyStrategy {
    /// Filesystem supports reflinks (btrfs, XFS). Instant copy-on-write.
    Reflink,
    /// Fallback: sparse copy. Reads source but skips zero blocks.
    Sparse,
}

/// How far a rootfs copy has come: the command that is running.
#[derive(Debug, Clone, Copy, PartialEq, Eq, Structural)]
pub enum CopyStage {
    Copying,
    Chowning,
}

/// A rootfs copy that is being made.
#[derive(Debug)]
pub struct RootfsCopy {
    pub dest: String,
    pub uid: usize,
    pub gid: usize,
    pub stage: CopyStage,
}

/// What the making of a rootfs copy asks for.
#[derive(Debug)]
pub enum CopyStep {
    Run(CommandLine, RootfsCopy),
    Done(Result<(), String>),
}

/// Copies the image in the given way.
pub open spec fn copy_line(strategy: CopyStrategy, source: Seq<char>, dest: Seq<char>) -> (
    Seq<char>,
    Seq<Seq<char>>,
) {
    (
        "cp"@,
        seq![
            match strategy {
                CopyStrategy::Reflink => "--reflink=always"@,
                CopyStrategy::Sparse => "--sparse=always"@,
            },
            source,
            dest,
        ],
    )
}

/// Gives the copy to the user and group.
pub open spec fn chown_line(uid: usize, gid: usize, dest: Seq<char>) -> (
    Seq<char>,
    Seq<Seq<char>>,
) {
    (
        "chown"@,
        seq![
            crate::decimal::decimal(uid as nat) + ":"@ + crate::decimal::decimal(gid as nat),
            dest,
        ],
    )
}

/// Begins a per-VM copy of the rootfs image using the best available strategy.
///
/// On reflink-capable filesystems (btrfs, XFS) this is an instant CoW clone.
/// Otherwise falls back to a sparse copy. The copy is chowned to the given
/// uid:gid so Firecracker can read/write it.
pub fn copy_rootfs(
    strategy: &CopyStrategy,
    source: &str,
    dest: &str,
    uid: usize,
    gid: usize,
) -> (r: (CommandLine, RootfsCopy))
    ensures
        r.0@ == copy_line(*strategy, source@, dest@),
        r.1.dest@ == dest@,
        r.1.uid == uid,
        r.1.gid == gid,
        r.1.stage is Copying,
{
    let option = match strategy {
        CopyStrategy::Reflink => "--reflink=always",
        CopyStrategy::Sparse => "--sparse=always",
    };
    let args = vec![option, source, dest];
    proof {
        assert(crate::text::slices(args@) =~= copy_line(*strategy, source@, dest@).1);
    }
    (
        command("cp", args),
        RootfsCopy { dest: dest.to_string(), uid, gid, stage: CopyStage::Copying },
    )
}

/// What follows the outcome of the running command.
///
/// The image is copied, then the copy is given to the jailed user. Whichever fails first
/// is reported.
pub open spec fn copy_step(c: RootfsCopy, outcome: CommandOutcome, r: CopyStep) -> bool {
    match c.stage {
        CopyStage::Copying => match r {
            CopyStep::Run(line, next) => {
                &&& outcome.ok()
                &&& line@ == chown_line(c.uid, c.gid, c.dest@)
                &&& next.dest@ == c.dest@
                &&& next.uid == c.uid
                &&& next.gid == c.gid
                &&& next.stage is Chowning
            },
            CopyStep::Done(Ok(())) => false,
            CopyStep::Done(Err(msg)) => !outcome.ok() && msg@ == failed_command(
                outcome,
                "Failed to execute cp"@,
                "Failed to copy rootfs: "@,
            ),
        },
        CopyStage::Chowning => match r {
            CopyStep::Run(_, _) => false,
            CopyStep::Done(Ok(())) => outcome.ok(),
            CopyStep::Done(Err(msg)) => !outcome.ok() && msg@ == failed_command(
                outcome,
                "Failed to execute chown"@,
                "Failed to chown rootfs copy: "@,
            ),
        },
    }
}

/// What is reported of a command that did not succeed.
pub open spec fn failed_command(
    outcome: CommandOutcome,
    not_started: Seq<char>,
    failed: Seq<char>,
) -> Seq<char> {
    if outcome is NotStarted {
        not_started
    } else {
        failed + crate::text::trimmed(outcome.err())
    }
}

/// Judges the outcome of a command.
fn judge(outcome: &CommandOutcome, not_started: &str, failed: &str) -> (r: Result<(), String>)
    ensures
        match r {
            Ok(()) => outcome.ok(),
            Err(msg) => !outcome.ok() && msg@ == failed_command(*outcome, not_started@, failed@),
        },
{
    match outcome {
        CommandOutcome::NotStarted => Err(not_started.to_string()),
        CommandOutcome::Finished { success, stderr, .. } => {
            if *success {
                Ok(())
            } else {
                let mut msg = failed.to_string();
                msg.append(trim_text(stderr.as_str()).as_str());
                Err(msg)
            }
        },
    }
}

impl RootfsCopy {
    /// Goes on with the copy.
    pub fn next(self, outcome: &CommandOutcome) -> (r: CopyStep)
        ensures
            copy_step(self, *outcome, r),
    {
        match self.stage {
            CopyStage::Copying => match judge(
                outcome,
                "Failed to execute cp",
                "Failed to copy rootfs: ",
            ) {
                Err(msg) => CopyStep::Done(Err(msg)),
                Ok(()) => {
                    let mut owner = decimal_text(self.uid as u64);
                    owner.append(":");
                    owner.append(decimal_text(self.gid as u64).as_str());
                    let args = vec![owner.as_str(), self.dest.as_str()];
                    proof {
                        assert(crate::text::slices(args@) =~= chown_line(
                            self.uid,
                            self.gid,
                            self.dest@,
                        ).1);
                    }
                    let line = command("chown", args);
                    CopyStep::Run(
                        line,
                        RootfsCopy {
                            dest: self.dest,
                            uid: self.uid,
                            gid: self.gid,
                            stage: CopyStage::Chowning,
                        },
                    )
                },
            },
            CopyStage::Chowning => CopyStep::Done(
                judge(outcome, "Failed to execute chown", "Failed to chown rootfs copy: "),
            ),
        }
    }
}

/// A copy is reported as made exactly if both commands succeeded.
pub proof fn copy_made_iff_both_succeed(
    start: RootfsCopy,
    copied: CommandOutcome,
    line: CommandLine,
    next: RootfsCopy,
    chowned: CommandOutcome,
    end: CopyStep,
)
    requires
        start.stage is Copying,
        copy_step(start, copied, CopyStep::Run(line, next)),
        copy_step(next, chowned, end),
    ensures
        copied.ok(),
        end matches CopyStep::Done(r) && (r is Ok <==> chowned.ok()),
{
}

/// The image is copied from its source to its destination, by reflink or as a sparse file, and
/// then the copy, and nothing else, is given to the user and group.
pub proof fn copy_is_made_and_handed_over(
    strategy: CopyStrategy,
    source: &str,
    dest: &str,
    uid: usize,
    gid: usize,
    start: (CommandLine, RootfsCopy),
    copied: CommandOutcome,
    second: CopyStep,
)
    requires
        call_ensures(copy_rootfs, (&strategy, source, dest, uid, gid), start),
        call_ensures(RootfsCopy::next, (start.1, &copied), second),
    ensures
        start.0@.0 == "cp"@,
        start.0@.1.len() == 3,
        start.0@.1[0] == if strategy is Reflink {
            "--reflink=always"@
        } else {
            "--sparse=always"@
        },
        start.0@.1[1] == source@,
        start.0@.1[2] == dest@,
        copied.ok() <==> second is Run,
        second matches CopyStep::Run(line, _) ==> line@ == (
            "chown"@,
            seq![
                crate::decimal::decimal(uid as nat) + ":"@ + crate::decimal::decimal(gid as nat),
                dest@,
            ],
        ),
        second matches CopyStep::Run(_, next) ==> forall|chowned: CommandOutcome, end: CopyStep|
            #[trigger] call_ensures(RootfsCopy::next, (next, &chowned), end) ==> if chowned.ok() {
                end matches CopyStep::Done(Ok(_))
            } else {
                end matches CopyStep::Done(Err(_))
            },
        !copied.ok() ==> second matches CopyStep::Done(Err(_)),
{
}

/// What a failed copy is reported as: that a program did not start, or what it wrote to its
/// standard error.
pub proof fn failed_copy_is_reported(copy: RootfsCopy, outcome: CommandOutcome, r: CopyStep)
    requires
        call_ensures(RootfsCopy::next, (copy, &outcome), r),
        !outcome.ok(),
    ensures
        r matches CopyStep::Done(Err(msg)) && msg@ == match (copy.stage, outcome is NotStarted) {
            (CopyStage::Copying, true) => "Failed to execute cp"@,
            (CopyStage::Copying, false) => "Failed to copy rootfs: "@ + crate::text::trimmed(
                outcome.err(),
            ),
            (CopyStage::Chowning, true) => "Failed to execute chown"@,
            (CopyStage::Chowning, false) => "Failed to chown rootfs copy: "@
                + crate::text::trimmed(outcome.err()),
        },
{
}

} // verus!
