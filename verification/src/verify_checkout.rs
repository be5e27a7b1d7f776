//! The commands a verifier runs in a throwaway copy of a worktree: what is
//! copied, how long a command may take, and what is recorded of it.

use crate::digest::{self, sha256_hex};
use crate::text::{self, cat2, same, take_chars};
use vstd::prelude::*;

verus! {

/// How many characters of a command's output the model is shown.
pub const OUTPUT_EXCERPT_CAP: usize = 4000;

/// How long a command may run, in seconds.
pub const COMMAND_TIMEOUT_SECS: u64 = 120;

/// What is recorded of a command.
#[derive(Debug)]
pub struct CommandRecord {
    pub cmd: String,
    /// Its exit code; -1 where it has none.
    pub exit: i64,
    /// The digest of all it wrote.
    pub output_digest: String,
    /// The beginning of what it wrote.
    pub output_excerpt: String,
}

/// What a [`CommandRecord`] says.
#[verifier::ext_equal]
pub struct CommandRecordView {
    pub cmd: Seq<char>,
    pub exit: int,
    pub output_digest: Seq<char>,
    pub output_excerpt: Seq<char>,
}

impl DeepView for CommandRecord {
    type V = CommandRecordView;

    open spec fn deep_view(&self) -> CommandRecordView {
        CommandRecordView {
            cmd: self.cmd@,
            exit: self.exit as int,
            output_digest: self.output_digest@,
            output_excerpt: self.output_excerpt@,
        }
    }
}

/// The first `cap` characters of a text, or all where there are fewer.
pub open spec fn truncated(s: Seq<char>, cap: nat) -> Seq<char> {
    if s.len() <= cap {
        s
    } else {
        s.take(cap as int)
    }
}

/// The first `cap` characters of a text; a character is never split.
pub fn truncate_chars(s: &str, cap: usize) -> (r: String)
    ensures
        r@ == truncated(s@, cap as nat),
{
    assert(s@.take(s@.len() as int) =~= s@);
    take_chars(s, cap)
}

/// What came of a command.
#[derive(Debug)]
pub enum RunOutcome {
    /// There is no copy to run it in.
    NoCheckout(String),
    /// It could not be contained.
    NotWrapped(String),
    /// It could not be started.
    NotSpawned {
        program: String,
        error: String,
    },
    /// It could not be waited for.
    NotWaited(String),
    /// It ended, with a code unless a signal ended it.
    Ended {
        code: Option<i32>,
        output: String,
    },
    /// It took too long and was killed.
    TimedOut {
        output: String,
    },
}

/// The record of a command that could not run: its trouble, digested.
pub open spec fn trouble_record(cmd: Seq<char>, words: Seq<char>) -> CommandRecordView {
    CommandRecordView {
        cmd,
        exit: -1,
        output_digest: digest::sha256_of(words),
        output_excerpt: words,
    }
}

/// The record of a command that ran.
pub open spec fn run_record(cmd: Seq<char>, exit: int, output: Seq<char>) -> CommandRecordView {
    CommandRecordView {
        cmd,
        exit,
        output_digest: digest::sha256_of(output),
        output_excerpt: truncated(output, OUTPUT_EXCERPT_CAP as nat),
    }
}

/// The output of a command that was killed, with a note behind it.
pub open spec fn killed_output(output: Seq<char>) -> Seq<char> {
    output + "\n[maestro] command killed after 120s wall-clock timeout"@
}

/// What is recorded of a command.
pub open spec fn recorded(cmd: Seq<char>, outcome: RunOutcome) -> CommandRecordView {
    match outcome {
        RunOutcome::NoCheckout(e) => trouble_record(
            cmd,
            "throwaway checkout unavailable: "@ + e@,
        ),
        RunOutcome::NotWrapped(e) => trouble_record(cmd, "containment wrap failed: "@ + e@),
        RunOutcome::NotSpawned { program, error } => trouble_record(
            cmd,
            "spawning `"@ + program@ + "`: "@ + error@,
        ),
        RunOutcome::NotWaited(e) => trouble_record(cmd, "waiting on child: "@ + e@),
        RunOutcome::Ended { code, output } => run_record(
            cmd,
            match code {
                Some(c) => c as int,
                None => -1int,
            },
            output@,
        ),
        RunOutcome::TimedOut { output } => run_record(cmd, -1, killed_output(output@)),
    }
}

fn error_record(cmd: &str, excerpt: String) -> (r: CommandRecord)
    ensures
        r.deep_view() == trouble_record(cmd@, excerpt@),
{
    CommandRecord {
        cmd: cmd.to_owned(),
        exit: -1,
        output_digest: sha256_hex(&excerpt),
        output_excerpt: excerpt,
    }
}

fn success_record(cmd: &str, exit: i64, output: &str) -> (r: CommandRecord)
    ensures
        r.deep_view() == run_record(cmd@, exit as int, output@),
{
    CommandRecord {
        cmd: cmd.to_owned(),
        exit,
        output_digest: sha256_hex(output),
        output_excerpt: truncate_chars(output, OUTPUT_EXCERPT_CAP),
    }
}

/// Records what came of a command.
pub fn record(cmd: &str, outcome: RunOutcome) -> (r: CommandRecord)
    ensures
        r.deep_view() == recorded(cmd@, outcome),
{
    match outcome {
        RunOutcome::NoCheckout(e) => error_record(
            cmd,
            cat2("throwaway checkout unavailable: ", &e),
        ),
        RunOutcome::NotWrapped(e) => error_record(cmd, cat2("containment wrap failed: ", &e)),
        RunOutcome::NotSpawned { program, error } => error_record(
            cmd,
            text::cat4("spawning `", &program, "`: ", &error),
        ),
        RunOutcome::NotWaited(e) => error_record(cmd, cat2("waiting on child: ", &e)),
        RunOutcome::Ended { code, output } => {
            let exit: i64 = match code {
                Some(c) => c as i64,
                None => -1,
            };
            success_record(cmd, exit, &output)
        },
        RunOutcome::TimedOut { output } => {
            let all = cat2(&output, "\n[maestro] command killed after 120s wall-clock timeout");
            success_record(cmd, -1, &all)
        },
    }
}

/// The arguments of the shell that runs a command.
pub fn shell_args(cmd: &str) -> (r: Vec<String>)
    ensures
        r.deep_view() == seq!["-c"@, cmd@],
{
    let mut args: Vec<String> = Vec::new();
    args.push("-c".to_owned());
    args.push(cmd.to_owned());
    assert(args.deep_view() =~= seq!["-c"@, cmd@]);
    args
}

/// What to do about a command that is being waited for.
#[derive(Debug, Clone, Copy, PartialEq, Eq, Structural)]
pub enum WaitStep {
    /// It has ended.
    Collect,
    /// It has run too long.
    Kill,
    /// Look again later.
    Sleep,
}

/// Decides about a command that is being waited for: one that has ended is
/// never killed, and one that has not is killed once its time is up.
pub fn wait_step(ended: bool, elapsed_seconds: u64) -> (r: WaitStep)
    ensures
        r == (if ended {
            WaitStep::Collect
        } else if elapsed_seconds >= COMMAND_TIMEOUT_SECS {
            WaitStep::Kill
        } else {
            WaitStep::Sleep
        }),
{
    if ended {
        WaitStep::Collect
    } else if elapsed_seconds >= COMMAND_TIMEOUT_SECS {
        WaitStep::Kill
    } else {
        WaitStep::Sleep
    }
}

/// What an entry of a directory is.
#[derive(Debug, Clone, Copy, PartialEq, Eq, Structural)]
pub enum EntryKind {
    Directory,
    Link,
    File,
}

/// What to do about an entry of a directory that is being copied.
#[derive(Debug, Clone, Copy, PartialEq, Eq, Structural)]
pub enum CopyStep {
    /// Leave it out.
    Skip,
    /// Copy what is in it.
    Descend,
    /// Copy what it points at, if that can be read.
    CopyTarget,
    /// Copy it.
    CopyFile,
}

/// Decides about an entry of a directory that is being copied. Nothing named
/// `.git` is ever copied, so the copy cannot reach the repository.
pub fn copy_step(name: &str, kind: EntryKind) -> (r: CopyStep)
    ensures
        r == (if name@ == ".git"@ {
            CopyStep::Skip
        } else {
            match kind {
                EntryKind::Directory => CopyStep::Descend,
                EntryKind::Link => CopyStep::CopyTarget,
                EntryKind::File => CopyStep::CopyFile,
            }
        }),
{
    if same(name, ".git") {
        return CopyStep::Skip;
    }
    match kind {
        EntryKind::Directory => CopyStep::Descend,
        EntryKind::Link => CopyStep::CopyTarget,
        EntryKind::File => CopyStep::CopyFile,
    }
}

/// What the model is shown is always a beginning of what the command wrote, and
/// never longer than the cap.
pub proof fn law_excerpt_is_a_prefix(s: Seq<char>, cap: nat)
    ensures
        truncated(s, cap).is_prefix_of(s),
        truncated(s, cap).len() <= cap,
{
}

/// What is recorded of a command is its own words, how it ended, the digest of
/// everything it wrote and the beginning of that; a command that did not run, was
/// killed or was ended by a signal has no exit code but -1.
pub proof fn law_records_say_what_happened(cmd: Seq<char>, outcome: RunOutcome)
    ensures
        recorded(cmd, outcome).cmd == cmd,
        outcome matches RunOutcome::Ended { code, output } ==> {
            let r = recorded(cmd, outcome);
            &&& code matches Some(c) ==> r.exit == c
            &&& code is None ==> r.exit == -1
            &&& r.output_digest == digest::sha256_of(output@)
            &&& r.output_excerpt == truncated(output@, 4000)
        },
        outcome matches RunOutcome::TimedOut { output } ==> {
            let r = recorded(cmd, outcome);
            let all = output@ + "\n[maestro] command killed after 120s wall-clock timeout"@;
            &&& r.exit == -1
            &&& r.output_digest == digest::sha256_of(all)
            &&& r.output_excerpt == truncated(all, 4000)
        },
        !(outcome is Ended || outcome is TimedOut) ==> {
            let r = recorded(cmd, outcome);
            &&& r.exit == -1
            &&& r.output_digest == digest::sha256_of(r.output_excerpt)
            &&& match outcome {
                RunOutcome::NoCheckout(e) => text::contains_text(r.output_excerpt, e@),
                RunOutcome::NotWrapped(e) => text::contains_text(r.output_excerpt, e@),
                RunOutcome::NotSpawned { program, error } => text::contains_text(
                    r.output_excerpt,
                    program@,
                ) && text::contains_text(r.output_excerpt, error@),
                RunOutcome::NotWaited(e) => text::contains_text(r.output_excerpt, e@),
                _ => true,
            }
        },
{
    let none = Seq::<char>::empty();
    match outcome {
        RunOutcome::NoCheckout(e) => {
            text::lemma_stands_inside("throwaway checkout unavailable: "@, e@, none);
            assert("throwaway checkout unavailable: "@ + e@ + none
                =~= "throwaway checkout unavailable: "@ + e@);
        },
        RunOutcome::NotWrapped(e) => {
            text::lemma_stands_inside("containment wrap failed: "@, e@, none);
            assert("containment wrap failed: "@ + e@ + none =~= "containment wrap failed: "@ + e@);
        },
        RunOutcome::NotSpawned { program, error } => {
            let whole = "spawning `"@ + program@ + "`: "@ + error@;
            text::lemma_stands_inside("spawning `"@, program@, "`: "@ + error@);
            assert("spawning `"@ + program@ + ("`: "@ + error@) =~= whole);
            text::lemma_stands_inside("spawning `"@ + program@ + "`: "@, error@, none);
            assert(whole + none =~= whole);
        },
        RunOutcome::NotWaited(e) => {
            text::lemma_stands_inside("waiting on child: "@, e@, none);
            assert("waiting on child: "@ + e@ + none =~= "waiting on child: "@ + e@);
        },
        _ => {},
    }
}

/// A text that fits is shown whole.
pub proof fn law_short_texts_are_shown_whole(s: Seq<char>, cap: nat)
    ensures
        s.len() <= cap ==> truncated(s, cap) == s,
        s.len() > cap ==> truncated(s, cap).len() == cap,
{
}

} // verus!
