//! Running `git`: what a command's end means, and scripts of commands that run
//! in order.

use crate::fault::{Fault, FaultView};
use crate::text::{self, cat3, join, trim};
use vstd::prelude::*;

verus! {

/// How a `git` command ended.
#[derive(Debug)]
pub enum GitReply {
    /// It could not be started.
    NotStarted(String),
    /// It ran.
    Ran {
        success: bool,
        /// Its exit code, where it has one.
        code: Option<i32>,
        /// Its exit status in words.
        status: String,
        stdout: String,
        stderr: String,
    },
}

impl GitReply {
    /// Whether the command ran and succeeded.
    pub open spec fn ok(self) -> bool {
        self matches GitReply::Ran { success, .. } && success
    }

    /// What the command wrote.
    pub open spec fn out(self) -> Seq<char> {
        match self {
            GitReply::NotStarted(_) => Seq::empty(),
            GitReply::Ran { stdout, .. } => stdout@,
        }
    }

    /// Whether the command ran and succeeded.
    pub fn succeeded(&self) -> (r: bool)
        ensures
            r == self.ok(),
    {
        match self {
            GitReply::NotStarted(_) => false,
            GitReply::Ran { success, .. } => *success,
        }
    }
}

/// The error of a command that did not succeed.
pub open spec fn git_fault(args: Seq<Seq<char>>, reply: GitReply) -> FaultView {
    let line = text::joined(args, " "@);
    match reply {
        GitReply::NotStarted(e) => FaultView {
            message: "spawning `git "@ + line + "`"@,
            cause: Some(e@),
        },
        GitReply::Ran { status, stdout, stderr, .. } => FaultView {
            message: "`git "@ + line + "` failed ("@ + status@ + "): "@ + stdout@ + stderr@,
            cause: None,
        },
    }
}

/// What a command wrote, or its error.
pub open spec fn git_text(args: Seq<Seq<char>>, reply: GitReply) -> Result<Seq<char>, FaultView> {
    if reply.ok() {
        Ok(reply.out())
    } else {
        Err(git_fault(args, reply))
    }
}

/// What a command wrote, trimmed, or its error.
pub open spec fn git_line(args: Seq<Seq<char>>, reply: GitReply) -> Result<Seq<char>, FaultView> {
    if reply.ok() {
        Ok(text::trimmed(reply.out()))
    } else {
        Err(git_fault(args, reply))
    }
}

/// What a text or an error says.
pub open spec fn text_view(r: Result<String, Fault>) -> Result<Seq<char>, FaultView> {
    match r {
        Ok(s) => Ok(s@),
        Err(e) => Err(e.deep_view()),
    }
}

/// What a command wrote, or its error.
pub fn output_of(args: &Vec<String>, reply: GitReply) -> (r: Result<String, Fault>)
    ensures
        text_view(r) == git_text(args.deep_view(), reply),
{
    let line = join(args, " ");
    match reply {
        GitReply::NotStarted(e) => Err(
            Fault { message: cat3("spawning `git ", &line, "`"), cause: Some(e) },
        ),
        GitReply::Ran { success, code: _, status, stdout, stderr } => {
            if success {
                Ok(stdout)
            } else {
                let mut message = text::cat5("`git ", &line, "` failed (", &status, "): ");
                message.append(&stdout);
                message.append(&stderr);
                Err(Fault::new(message))
            }
        },
    }
}

/// What a command wrote, trimmed, or its error.
pub fn line_of(args: &Vec<String>, reply: GitReply) -> (r: Result<String, Fault>)
    ensures
        text_view(r) == git_line(args.deep_view(), reply),
{
    match output_of(args, reply) {
        Ok(out) => Ok(trim(&out).to_owned()),
        Err(e) => Err(e),
    }
}

/// A list of texts with another behind it.
pub(crate) fn with_all(mut list: Vec<String>, more: &Vec<String>) -> (r: Vec<String>)
    ensures
        r.deep_view() == list.deep_view() + more.deep_view(),
{
    let ghost first = list.deep_view();
    let mut i: usize = 0;
    assert(list.deep_view() =~= first + more.deep_view().take(0));
    while i < more.len()
        invariant
            i <= more@.len(),
            list.deep_view() == first + more.deep_view().take(i as int),
        decreases more@.len() - i,
    {
        let ghost before = list.deep_view();
        list.push(more[i].clone());
        assert(list.deep_view() =~= before.push(more@[i as int]@));
        assert(more.deep_view().take(i + 1) =~= more.deep_view().take(i as int).push(
            more@[i as int]@,
        ));
        assert(list.deep_view() =~= first + more.deep_view().take(i + 1));
        i = i + 1;
    }
    assert(more.deep_view().take(more@.len() as int) =~= more.deep_view());
    list
}

/// The arguments `-C <dir>` and then the words given.
pub open spec fn in_dir(dir: Seq<char>, words: Seq<Seq<char>>) -> Seq<Seq<char>> {
    seq!["-C"@, dir] + words
}

/// The arguments `-C <dir>` and then the words given.
pub(crate) fn args_in(dir: &str, words: Vec<&str>) -> (r: Vec<String>)
    ensures
        r.deep_view() == in_dir(dir@, words.deep_view()),
{
    let mut list: Vec<String> = Vec::new();
    list.push("-C".to_owned());
    list.push(dir.to_owned());
    let ghost all = words.deep_view();
    let mut i: usize = 0;
    assert(list.deep_view() =~= in_dir(dir@, all.take(0)));
    while i < words.len()
        invariant
            i <= words@.len(),
            all == words.deep_view(),
            list.deep_view() == in_dir(dir@, all.take(i as int)),
        decreases words@.len() - i,
    {
        let ghost before = list.deep_view();
        list.push(words[i].to_owned());
        assert(list.deep_view() =~= before.push(words@[i as int]@));
        assert(all.take(i + 1) =~= all.take(i as int).push(words@[i as int]@));
        assert(list.deep_view() =~= in_dir(dir@, all.take(i + 1)));
        i = i + 1;
    }
    assert(all.take(words@.len() as int) =~= all);
    list
}

// ---------------------------------------------------------------------------
// Scripts
// ---------------------------------------------------------------------------

/// What a script makes of a command that does not succeed, or does.
#[derive(Debug, Clone, Copy, PartialEq, Eq, Structural)]
pub enum Rule {
    /// A failure ends the script in an error.
    Must,
    /// A failure is ignored.
    May,
    /// The command asks whether nothing is staged. Success ends the script
    /// early: there is nothing to do.
    UnlessClean,
}

/// One command of a script.
#[derive(Debug)]
pub struct Command {
    pub args: Vec<String>,
    pub rule: Rule,
}

/// What a [`Command`] says.
#[verifier::ext_equal]
pub struct CommandView {
    pub args: Seq<Seq<char>>,
    pub rule: Rule,
}

impl DeepView for Command {
    type V = CommandView;

    open spec fn deep_view(&self) -> CommandView {
        CommandView { args: self.args.deep_view(), rule: self.rule }
    }
}

/// Commands to run in order.
#[derive(Debug)]
pub struct Script {
    pub commands: Vec<Command>,
    /// How many have run.
    pub done: usize,
}

/// How a script ended.
#[derive(Debug)]
pub enum ScriptEnd {
    /// Every command ran; this is what the last one wrote.
    Completed(String),
    /// There was nothing to do.
    Stopped,
    /// A command failed.
    Failed(Fault),
}

/// What a [`ScriptEnd`] says.
#[verifier::ext_equal]
pub enum ScriptEndView {
    Completed(Seq<char>),
    Stopped,
    Failed(FaultView),
}

impl DeepView for ScriptEnd {
    type V = ScriptEndView;

    open spec fn deep_view(&self) -> ScriptEndView {
        match self {
            ScriptEnd::Completed(out) => ScriptEndView::Completed(out@),
            ScriptEnd::Stopped => ScriptEndView::Stopped,
            ScriptEnd::Failed(e) => ScriptEndView::Failed(e.deep_view()),
        }
    }
}

/// What comes of a script after its command number `done` ended: nothing while
/// there is more to run.
pub open spec fn script_after(commands: Seq<CommandView>, done: int, reply: GitReply) -> Option<
    ScriptEndView,
> {
    let c = commands[done];
    if c.rule is UnlessClean && reply is NotStarted {
        Some(
            ScriptEndView::Failed(
                FaultView {
                    message: "spawning `git diff --cached --quiet`"@,
                    cause: Some(reply->NotStarted_0@),
                },
            ),
        )
    } else if c.rule is UnlessClean && reply.ok() {
        Some(ScriptEndView::Stopped)
    } else if c.rule is Must && !reply.ok() {
        Some(ScriptEndView::Failed(git_fault(c.args, reply)))
    } else if done + 1 < commands.len() {
        None
    } else {
        Some(
            ScriptEndView::Completed(
                if reply.ok() {
                    reply.out()
                } else {
                    Seq::empty()
                },
            ),
        )
    }
}

impl Script {
    /// A script that has not begun.
    pub fn of(commands: Vec<Command>) -> (r: Self)
        ensures
            r.commands.deep_view() == commands.deep_view(),
            r.done == 0,
    {
        Script { commands, done: 0 }
    }

    /// The command to run next.
    pub fn current(&self) -> (r: &Vec<String>)
        requires
            self.done < self.commands@.len(),
        ensures
            r.deep_view() == self.commands.deep_view()[self.done as int].args,
    {
        &self.commands[self.done].args
    }

    /// Takes how the command ended.
    pub fn on_git(&mut self, reply: GitReply) -> (r: Option<ScriptEnd>)
        requires
            old(self).done < old(self).commands@.len(),
        ensures
            r.deep_view() == script_after(
                old(self).commands.deep_view(),
                old(self).done as int,
                reply,
            ),
            final(self).commands == old(self).commands,
            final(self).done == old(self).done + (if r is None {
                1int
            } else {
                0int
            }),
    {
        let count: usize = self.commands.len();
        let rule = self.commands[self.done].rule;
        assert(self.commands.deep_view()[self.done as int].rule == rule);
        let ok = reply.succeeded();
        match rule {
            Rule::UnlessClean => {
                match &reply {
                    GitReply::NotStarted(e) => {
                        return Some(
                            ScriptEnd::Failed(
                                Fault {
                                    message: "spawning `git diff --cached --quiet`".to_owned(),
                                    cause: Some(e.clone()),
                                },
                            ),
                        );
                    },
                    GitReply::Ran { .. } => {},
                }
                if ok {
                    return Some(ScriptEnd::Stopped);
                }
            },
            Rule::Must => {
                if !ok {
                    return match output_of(&self.commands[self.done].args, reply) {
                        Ok(_) => Some(ScriptEnd::Stopped),
                        Err(e) => Some(ScriptEnd::Failed(e)),
                    };
                }
            },
            Rule::May => {},
        }
        if self.done + 1 < count {
            self.done = self.done + 1;
            None
        } else {
            match reply {
                GitReply::Ran { stdout, .. } => if ok {
                    Some(ScriptEnd::Completed(stdout))
                } else {
                    Some(ScriptEnd::Completed(String::new()))
                },
                GitReply::NotStarted(_) => Some(ScriptEnd::Completed(String::new())),
            }
        }
    }
}

// ---------------------------------------------------------------------------
// Laws
// ---------------------------------------------------------------------------

/// A command that did not succeed is never taken for one that did, and one that
/// succeeded gives what it wrote: as it stands, or without the white space round
/// it. The error of one that ran holds both what it wrote and what it complained
/// of; the error of one that did not start holds why.
pub proof fn law_only_success_gives_text(args: Seq<Seq<char>>, reply: GitReply)
    ensures
        git_text(args, reply) is Ok <==> reply.ok(),
        git_line(args, reply) is Ok <==> reply.ok(),
        reply.ok() ==> git_text(args, reply) == Ok::<Seq<char>, FaultView>(
            reply->Ran_stdout@,
        ) && git_line(args, reply) == Ok::<Seq<char>, FaultView>(
            text::trimmed(reply->Ran_stdout@),
        ),
        reply matches GitReply::NotStarted(e) ==> git_text(args, reply)->Err_0.cause == Some(e@),
        !reply.ok() ==> git_text(args, reply)->Err_0 == git_line(args, reply)->Err_0
            && text::contains_text(
            git_text(args, reply)->Err_0.message,
            text::joined(args, " "@),
        ),
        reply is Ran && !reply.ok() ==> text::contains_text(
            git_text(args, reply)->Err_0.message,
            reply->Ran_stdout@,
        ) && text::contains_text(git_text(args, reply)->Err_0.message, reply->Ran_stderr@),
{
    let line = text::joined(args, " "@);
    match reply {
        GitReply::NotStarted(_) => {
            text::lemma_stands_inside("spawning `git "@, line, "`"@);
        },
        GitReply::Ran { status, stdout, stderr, .. } => {
            let whole = "`git "@ + line + "` failed ("@ + status@ + "): "@ + stdout@ + stderr@;
            text::lemma_stands_inside(
                "`git "@,
                line,
                "` failed ("@ + status@ + "): "@ + stdout@ + stderr@,
            );
            assert("`git "@ + line + ("` failed ("@ + status@ + "): "@ + stdout@ + stderr@)
                =~= whole);
            text::lemma_stands_inside(
                "`git "@ + line + "` failed ("@ + status@ + "): "@,
                stdout@,
                stderr@,
            );
            text::lemma_stands_inside(
                "`git "@ + line + "` failed ("@ + status@ + "): "@ + stdout@,
                stderr@,
                Seq::empty(),
            );
            assert(whole + Seq::<char>::empty() =~= whole);
        },
    }
}

/// Commands run in their order, one after the other, until one that must succeed
/// does not or there turns out to be nothing to do; a script that gets to its end
/// gives what the last one wrote.
pub proof fn law_scripts_stop_at_a_failure(commands: Seq<CommandView>, done: int, reply: GitReply)
    requires
        0 <= done < commands.len(),
    ensures
        commands[done].rule is Must ==> (script_after(commands, done, reply) matches Some(
            ScriptEndView::Failed(_),
        ) <==> !reply.ok()),
        commands[done].rule is May ==> !(script_after(commands, done, reply) matches Some(
            ScriptEndView::Failed(_),
        )),
        script_after(commands, done, reply) == Some(ScriptEndView::Stopped) <==> commands[done].rule
            is UnlessClean && reply.ok(),
        script_after(commands, done, reply) matches Some(ScriptEndView::Completed(out)) ==> done
            == commands.len() - 1 && out == (if reply.ok() {
            reply.out()
        } else {
            Seq::empty()
        }),
        script_after(commands, done, reply) is None ==> done < commands.len() - 1,
        done < commands.len() - 1 && reply.ok() && !(commands[done].rule is UnlessClean)
            ==> script_after(commands, done, reply) is None,
        done < commands.len() - 1 && commands[done].rule is May ==> script_after(
            commands,
            done,
            reply,
        ) is None,
        commands[done].rule is UnlessClean && reply is Ran && !reply.ok() && done < commands.len()
            - 1 ==> script_after(commands, done, reply) is None,
        commands[done].rule is UnlessClean && reply is NotStarted ==> script_after(
            commands,
            done,
            reply,
        ) matches Some(ScriptEndView::Failed(_)),
{
}

/// What a command gave is taken as it was given: its text, or its error; and a
/// command runs in the directory it is given, with its own words and no others.
pub proof fn law_texts_are_taken_as_given(
    said: String,
    error: Fault,
    dir: Seq<char>,
    words: Seq<Seq<char>>,
)
    ensures
        text_view(Ok(said)) == Ok::<Seq<char>, FaultView>(said@),
        text_view(Err(error)) == Err::<Seq<char>, FaultView>(error.deep_view()),
        in_dir(dir, words).len() == words.len() + 2,
        in_dir(dir, words)[0] == "-C"@,
        in_dir(dir, words)[1] == dir,
        in_dir(dir, words).skip(2) == words,
{
    assert(in_dir(dir, words).skip(2) =~= words);
}

} // verus!
