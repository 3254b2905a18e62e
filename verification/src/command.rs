//! Commands that the host runs, and what came of them.
use crate::text::{join, own, trim_text};
use vstd::prelude::*;

verus! {

/// A program and its arguments.
#[derive(Debug)]
pub struct CommandLine {
    pub program: String,
    pub args: Vec<String>,
}

/// What came of a command.
#[derive(Debug)]
pub enum CommandOutcome {
    /// The program could not be started.
    NotStarted,
    /// The program ended, with exit status zero or not.
    Finished { success: bool, stdout: String, stderr: String },
}

/// An operation that failed: what was attempted, and why it failed.
#[derive(Debug)]
pub struct Failure {
    pub context: String,
    pub cause: String,
}

impl View for CommandLine {
    type V = (Seq<char>, Seq<Seq<char>>);

    open spec fn view(&self) -> (Seq<char>, Seq<Seq<char>>) {
        (self.program@, crate::text::texts(self.args@))
    }
}

impl CommandOutcome {
    /// Whether the program ran and reported success.
    pub open spec fn ok(self) -> bool {
        self matches CommandOutcome::Finished { success, .. } && success
    }

    /// What the program wrote to its standard output.
    pub open spec fn out(self) -> Seq<char> {
        match self {
            CommandOutcome::NotStarted => Seq::empty(),
            CommandOutcome::Finished { stdout, .. } => stdout@,
        }
    }

    /// What the program wrote to its standard error.
    pub open spec fn err(self) -> Seq<char> {
        match self {
            CommandOutcome::NotStarted => Seq::empty(),
            CommandOutcome::Finished { stderr, .. } => stderr@,
        }
    }

    /// Whether the program ran and reported success.
    pub fn succeeded(&self) -> (r: bool)
        ensures
            r == self.ok(),
    {
        match self {
            CommandOutcome::NotStarted => false,
            CommandOutcome::Finished { success, .. } => *success,
        }
    }
}

impl Failure {
    /// Whether the failure says this.
    pub open spec fn says(self, context: Seq<char>, cause: Seq<char>) -> bool {
        self.context@ == context && self.cause@ == cause
    }
}

/// The failure of `context` for the reason `cause`.
pub fn failure(context: &str, cause: String) -> (r: Failure)
    ensures
        r.says(context@, cause@),
{
    Failure { context: context.to_string(), cause }
}

/// The command that runs `program` with `args`.
pub fn command(program: &str, args: Vec<&str>) -> (r: CommandLine)
    ensures
        r@ == (program@, crate::text::slices(args@)),
{
    CommandLine { program: program.to_string(), args: own(&args) }
}

/// What a command that did not succeed is reported as: that it could not be executed,
/// or the command line and what it wrote to its standard error.
pub open spec fn command_failure(
    line: (Seq<char>, Seq<Seq<char>>),
    outcome: CommandOutcome,
) -> Seq<char> {
    if outcome is NotStarted {
        "Failed to execute '"@ + line.0 + "'"@
    } else {
        line.0 + " "@ + crate::text::joined(line.1, " "@) + " failed: "@ + crate::text::trimmed(
            outcome.err(),
        )
    }
}

/// Judges the outcome of a command.
pub fn run_cmd(line: &CommandLine, outcome: &CommandOutcome) -> (r: Result<(), String>)
    ensures
        match r {
            Ok(()) => outcome.ok(),
            Err(cause) => !outcome.ok() && cause@ == command_failure(line@, *outcome),
        },
{
    match outcome {
        CommandOutcome::NotStarted => {
            let mut msg = "Failed to execute '".to_string();
            msg.append(line.program.as_str());
            msg.append("'");
            Err(msg)
        },
        CommandOutcome::Finished { success, stderr, .. } => {
            if *success {
                Ok(())
            } else {
                let mut msg = line.program.clone();
                msg.append(" ");
                msg.append(join(&line.args, " ").as_str());
                msg.append(" failed: ");
                msg.append(trim_text(stderr.as_str()).as_str());
                Err(msg)
            }
        },
    }
}

/// Judges the outcome of a command that is run for its output.
pub fn run_cmd_output(line: &CommandLine, outcome: &CommandOutcome) -> (r: Result<String, String>)
    ensures
        match r {
            Ok(output) => outcome.ok() && output@ == outcome.out(),
            Err(cause) => !outcome.ok() && cause@ == command_failure(line@, *outcome),
        },
{
    match run_cmd(line, outcome) {
        Err(cause) => Err(cause),
        Ok(()) => match outcome {
            CommandOutcome::NotStarted => Ok(String::new()),
            CommandOutcome::Finished { stdout, .. } => Ok(stdout.clone()),
        },
    }
}

/// A command that ran and reported success succeeded, and no other. What it wrote is what it
/// wrote; one that did not start wrote nothing.
pub proof fn outcomes_tell_what_came(success: bool, stdout: String, stderr: String)
    ensures
        (CommandOutcome::Finished { success, stdout, stderr }).ok() == success,
        (CommandOutcome::Finished { success, stdout, stderr }).out() == stdout@,
        (CommandOutcome::Finished { success, stdout, stderr }).err() == stderr@,
        !CommandOutcome::NotStarted.ok(),
        CommandOutcome::NotStarted.out().len() == 0,
        CommandOutcome::NotStarted.err().len() == 0,
        forall|r: bool|
            call_ensures(
                CommandOutcome::succeeded,
                (&(CommandOutcome::Finished { success, stdout, stderr }),),
                r,
            ) ==> r == success,
        forall|r: bool|
            call_ensures(CommandOutcome::succeeded, (&CommandOutcome::NotStarted,), r) ==> !r,
{
}

/// A command line is its program and its arguments, in order, each as it was given.
pub proof fn command_lines_hold_their_parts(program: &str, args: Vec<&str>, r: CommandLine)
    requires
        call_ensures(command, (program, args), r),
    ensures
        r.program@ == program@,
        r.args@.len() == args@.len(),
        forall|i: int| 0 <= i < args@.len() ==> (#[trigger] r.args@[i])@ == args@[i]@,
        r@.0 == r.program@,
        r@.1.len() == r.args@.len(),
        forall|i: int| 0 <= i < r.args@.len() ==> #[trigger] r@.1[i] == r.args@[i]@,
{
    assert(crate::text::texts(r.args@).len() == r.args@.len());
    assert(crate::text::slices(args@).len() == args@.len());
    assert forall|i: int| 0 <= i < args@.len() implies (#[trigger] r.args@[i])@ == args@[i]@ by {
        assert(crate::text::texts(r.args@)[i] == r.args@[i]@);
        assert(crate::text::slices(args@)[i] == args@[i]@);
    }
}

/// What a command line shows is its program and its arguments.
pub proof fn command_line_shows_all(line: CommandLine)
    ensures
        line@.0 == line.program@,
        line@.1.len() == line.args@.len(),
        forall|i: int| 0 <= i < line.args@.len() ==> #[trigger] line@.1[i] == line.args@[i]@,
{
}

/// A command is reported to have failed exactly if it did not run with success; the report
/// names the program and ends with what the command wrote to its standard error.
pub proof fn failed_commands_are_reported(
    line: CommandLine,
    outcome: CommandOutcome,
    r: Result<(), String>,
    s: Result<String, String>,
)
    requires
        call_ensures(run_cmd, (&line, &outcome), r),
        call_ensures(run_cmd_output, (&line, &outcome), s),
    ensures
        r is Ok <==> outcome.ok(),
        s is Ok <==> outcome.ok(),
        s matches Ok(text) ==> text@ == outcome.out(),
        outcome is NotStarted ==> (r matches Err(msg) && msg@ == "Failed to execute '"@
            + line.program@ + "'"@),
        !(outcome is NotStarted) && !outcome.ok() ==> {
            &&& r matches Err(msg)
            &&& line.program@.is_prefix_of(msg@)
            &&& crate::text::trimmed(outcome.err()).is_suffix_of(msg@)
        },
        r matches Err(msg) ==> (s matches Err(other) && other@ == msg@),
{
    if !(outcome is NotStarted) && !outcome.ok() {
        let msg = r->Err_0@;
        let tail = crate::text::trimmed(outcome.err());
        assert(line.program@ =~= msg.subrange(0, line.program@.len() as int));
        assert(tail =~= msg.subrange(msg.len() - tail.len(), msg.len() as int));
    }
}

/// A failure says what was attempted and why it failed.
pub proof fn failures_say_both(context: &str, cause: String, f: Failure, g: Failure, c: Seq<char>, d: Seq<char>)
    requires
        call_ensures(failure, (context, cause), f),
    ensures
        f.context@ == context@,
        f.cause@ == cause@,
        g.says(c, d) <==> g.context@ == c && g.cause@ == d,
{
}

/// A command that failed is reported with its whole line.
pub proof fn failed_line_is_quoted(
    line: CommandLine,
    outcome: CommandOutcome,
    r: Result<(), String>,
)
    requires
        call_ensures(run_cmd, (&line, &outcome), r),
        outcome is Finished,
        !outcome.ok(),
    ensures
        r matches Err(msg) && forall|args: String, sep: &str|
            sep@ == " "@ && #[trigger] call_ensures(crate::text::join, (&line.args, sep), args)
                ==> msg@ == line.program@ + " "@ + args@ + " failed: "@ + crate::text::trimmed(
                outcome.err(),
            ),
{
}

} // verus!
