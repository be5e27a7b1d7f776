//! Cutting a fresh worktree for an attempt. The task's branch is made anew each
//! time; whatever was committed on the old one is saved under a reference of its
//! own first.

use crate::fault::{Fault, FaultView};
use crate::git::{self, args_in, line_of, GitReply};
use crate::text::{self, cat2, cat3, is_blank, take_chars};
use crate::worktree::{self, remove};
use vstd::prelude::*;

verus! {

/// The command a cut is at.
#[derive(Debug, Clone, Copy, PartialEq, Eq, Structural)]
pub enum CutStage {
    /// Where does the old branch point?
    Tip,
    /// Which commits does it have beyond the base?
    Beyond,
    /// What is its tip's short name?
    Short,
    /// Save its tip.
    Save,
    /// Remove the old worktree.
    Clear,
    /// Delete the old branch.
    Delete,
    /// Make the new worktree and branch.
    Make,
    /// Nothing more to run.
    Over,
}

/// What became of the work on the old branch.
#[derive(Debug, Clone, Copy, PartialEq, Eq, Structural)]
pub enum Salvage {
    /// There was none.
    Nothing,
    /// Whether there was any could not be found out.
    Unknown,
    /// It is saved.
    Saved,
    /// It could not be saved.
    Lost,
}

/// A cut under way.
#[derive(Debug)]
pub struct CutRun {
    pub stage: CutStage,
    pub repo: String,
    pub base_ref: String,
    pub task_id: String,
    /// Where the worktree goes.
    pub worktree: String,
    /// Whether something is there already.
    pub occupied: bool,
    pub tip: String,
    pub short: String,
    pub salvage: Salvage,
}

/// What a [`CutRun`] says.
#[verifier::ext_equal]
pub struct CutRunView {
    pub stage: CutStage,
    pub repo: Seq<char>,
    pub base_ref: Seq<char>,
    pub task_id: Seq<char>,
    pub worktree: Seq<char>,
    pub occupied: bool,
    pub tip: Seq<char>,
    pub short: Seq<char>,
    pub salvage: Salvage,
}

impl DeepView for CutRun {
    type V = CutRunView;

    open spec fn deep_view(&self) -> CutRunView {
        CutRunView {
            stage: self.stage,
            repo: self.repo@,
            base_ref: self.base_ref@,
            task_id: self.task_id@,
            worktree: self.worktree@,
            occupied: self.occupied,
            tip: self.tip@,
            short: self.short@,
            salvage: self.salvage,
        }
    }
}

/// The reference under which the tip of a task's old branch is saved.
pub open spec fn salvage_name(task_id: Seq<char>, short: Seq<char>) -> Seq<char> {
    "refs/maestro/salvage/"@ + task_id + "/"@ + short
}

/// The first characters of a commit's name.
pub open spec fn abbreviated(sha: Seq<char>) -> Seq<char> {
    sha.take(if 12 < sha.len() { 12int } else { sha.len() as int })
}

impl CutRunView {
    /// A cut that has not begun.
    pub open spec fn fresh(
        repo: Seq<char>,
        base_ref: Seq<char>,
        task_id: Seq<char>,
        worktree: Seq<char>,
        occupied: bool,
    ) -> CutRunView {
        CutRunView {
            stage: CutStage::Tip,
            repo,
            base_ref,
            task_id,
            worktree,
            occupied,
            tip: Seq::empty(),
            short: Seq::empty(),
            salvage: Salvage::Nothing,
        }
    }

    /// The words of the command a cut is at.
    pub open spec fn words(self) -> Seq<Seq<char>> {
        let branch = worktree::branch_of(self.task_id);
        match self.stage {
            CutStage::Tip => seq![
                "rev-parse"@,
                "--verify"@,
                "--quiet"@,
                worktree::head_ref(branch),
            ],
            CutStage::Beyond => seq!["rev-list"@, self.base_ref + ".."@ + branch],
            CutStage::Short => seq!["rev-parse"@, "--short"@, self.tip],
            CutStage::Save => seq![
                "update-ref"@,
                salvage_name(self.task_id, self.short),
                self.tip,
            ],
            CutStage::Clear => seq!["worktree"@, "remove"@, "--force"@, self.worktree],
            CutStage::Delete => seq!["branch"@, "-D"@, branch],
            CutStage::Make => seq![
                "worktree"@,
                "add"@,
                self.worktree,
                "-b"@,
                branch,
                self.base_ref,
            ],
            CutStage::Over => seq![],
        }
    }

    /// The arguments of the command a cut is at.
    pub open spec fn args(self) -> Seq<Seq<char>> {
        git::in_dir(self.repo, self.words())
    }

    /// The same cut at another stage.
    pub open spec fn at(self, stage: CutStage) -> CutRunView {
        CutRunView { stage, ..self }
    }

    /// The cut goes on once the old work has been dealt with.
    pub open spec fn salvaged(self, salvage: Salvage) -> CutRunView {
        CutRunView {
            stage: if self.occupied {
                CutStage::Clear
            } else {
                CutStage::Delete
            },
            salvage,
            ..self
        }
    }

    /// What a cut makes of the end of its command: the end of the cut, or
    /// nothing while there is more to run.
    pub open spec fn after(self, reply: GitReply) -> (
        CutRunView,
        Option<Result<Seq<char>, FaultView>>,
    ) {
        let line = git::git_line(self.args(), reply);
        match self.stage {
            CutStage::Tip => match line {
                Ok(sha) => ((CutRunView { tip: sha, ..self }).at(CutStage::Beyond), None),
                Err(_) => (self.salvaged(Salvage::Nothing), None),
            },
            CutStage::Beyond => match line {
                Ok(commits) => if text::blank(commits) {
                    (self.salvaged(Salvage::Nothing), None)
                } else {
                    (self.at(CutStage::Short), None)
                },
                Err(_) => (self.salvaged(Salvage::Unknown), None),
            },
            CutStage::Short => (
                (CutRunView {
                    short: match line {
                        Ok(short) => short,
                        Err(_) => abbreviated(self.tip),
                    },
                    ..self
                }).at(CutStage::Save),
                None,
            ),
            CutStage::Save => (
                self.salvaged(
                    if line is Ok {
                        Salvage::Saved
                    } else {
                        Salvage::Lost
                    },
                ),
                None,
            ),
            CutStage::Clear => (self.at(CutStage::Delete), None),
            CutStage::Delete => (self.at(CutStage::Make), None),
            CutStage::Make => (
                self.at(CutStage::Over),
                Some(
                    if reply.ok() {
                        Ok(self.worktree)
                    } else {
                        Err(
                            git::git_fault(self.args(), reply).within(
                                "creating worktree for task "@ + self.task_id,
                            ),
                        )
                    },
                ),
            ),
            CutStage::Over => (self, None),
        }
    }
}

/// What the end of a cut says.
pub open spec fn cut_end(r: Option<Result<String, Fault>>) -> Option<Result<Seq<char>, FaultView>> {
    match r {
        Some(Ok(path)) => Some(Ok(path@)),
        Some(Err(e)) => Some(Err(e.deep_view())),
        None => None,
    }
}

/// Begins to cut a fresh worktree for a task, off a base, at a path where
/// something may already be.
pub fn create(repo: &str, base_ref: &str, task_id: &str, worktree: &str, occupied: bool) -> (r:
    CutRun)
    ensures
        r.deep_view() == CutRunView::fresh(repo@, base_ref@, task_id@, worktree@, occupied),
{
    CutRun {
        stage: CutStage::Tip,
        repo: repo.to_owned(),
        base_ref: base_ref.to_owned(),
        task_id: task_id.to_owned(),
        worktree: worktree.to_owned(),
        occupied,
        tip: String::new(),
        short: String::new(),
        salvage: Salvage::Nothing,
    }
}

impl CutRun {
    /// The reference under which the tip of the old branch is saved.
    pub fn salvage_ref(&self) -> (r: String)
        ensures
            r@ == salvage_name(self.task_id@, self.short@),
    {
        text::cat4("refs/maestro/salvage/", &self.task_id, "/", &self.short)
    }

    /// The arguments of the command to run next.
    pub fn args(&self) -> (r: Vec<String>)
        ensures
            r.deep_view() == self.deep_view().args(),
    {
        let branch = cat2("maestro/", &self.task_id);
        let full = cat2("refs/heads/", &branch);
        let range = cat3(&self.base_ref, "..", &branch);
        let salvage = self.salvage_ref();
        let words: Vec<&str> = match self.stage {
            CutStage::Tip => vec!["rev-parse", "--verify", "--quiet", full.as_str()],
            CutStage::Beyond => vec!["rev-list", range.as_str()],
            CutStage::Short => vec!["rev-parse", "--short", self.tip.as_str()],
            CutStage::Save => vec!["update-ref", salvage.as_str(), self.tip.as_str()],
            CutStage::Clear => vec!["worktree", "remove", "--force", self.worktree.as_str()],
            CutStage::Delete => vec!["branch", "-D", branch.as_str()],
            CutStage::Make => vec![
                "worktree",
                "add",
                self.worktree.as_str(),
                "-b",
                branch.as_str(),
                self.base_ref.as_str(),
            ],
            CutStage::Over => Vec::new(),
        };
        assert(words.deep_view() =~= self.deep_view().words());
        args_in(&self.repo, words)
    }

    fn settle(&mut self, salvage: Salvage)
        ensures
            final(self).deep_view() == old(self).deep_view().salvaged(salvage),
    {
        self.salvage = salvage;
        self.stage = if self.occupied {
            CutStage::Clear
        } else {
            CutStage::Delete
        };
    }

    /// Takes how the command ended: the end of the cut, or nothing while there
    /// is more to run.
    pub fn on_git(&mut self, reply: GitReply) -> (r: Option<Result<String, Fault>>)
        requires
            !(old(self).stage is Over),
        ensures
            (final(self).deep_view(), cut_end(r)) == old(self).deep_view().after(reply),
    {
        let args = self.args();
        let line = line_of(&args, reply);
        match self.stage {
            CutStage::Tip => match line {
                Ok(sha) => {
                    self.tip = sha;
                    self.stage = CutStage::Beyond;
                    None
                },
                Err(_) => {
                    self.settle(Salvage::Nothing);
                    None
                },
            },
            CutStage::Beyond => match line {
                Ok(commits) => {
                    if is_blank(&commits) {
                        self.settle(Salvage::Nothing);
                    } else {
                        self.stage = CutStage::Short;
                    }
                    None
                },
                Err(_) => {
                    self.settle(Salvage::Unknown);
                    None
                },
            },
            CutStage::Short => {
                self.short = match line {
                    Ok(short) => short,
                    Err(_) => take_chars(&self.tip, 12),
                };
                self.stage = CutStage::Save;
                None
            },
            CutStage::Save => {
                self.settle(
                    if line.is_ok() {
                        Salvage::Saved
                    } else {
                        Salvage::Lost
                    },
                );
                None
            },
            CutStage::Clear => {
                self.stage = CutStage::Delete;
                None
            },
            CutStage::Delete => {
                self.stage = CutStage::Make;
                None
            },
            CutStage::Make => {
                self.stage = CutStage::Over;
                match line {
                    Ok(_) => Some(Ok(self.worktree.clone())),
                    Err(e) => Some(
                        Err(e.context(cat2("creating worktree for task ", &self.task_id))),
                    ),
                }
            },
            CutStage::Over => None,
        }
    }
}

// ---------------------------------------------------------------------------
// Laws
// ---------------------------------------------------------------------------

/// Whether a stage comes after the old work has been dealt with.
pub open spec fn past_salvage(stage: CutStage) -> bool {
    stage is Clear || stage is Delete || stage is Make || stage is Over
}

/// A branch is deleted only once its work has been dealt with: there was no
/// branch, it held no commits beyond the base (or that could not be found out),
/// or its tip was put under a reference of its own.
pub proof fn law_salvage_before_delete(m: CutRunView, reply: GitReply)
    requires
        !past_salvage(m.stage),
        past_salvage(m.after(reply).0.stage),
    ensures
        ({
            ||| m.stage is Tip && !reply.ok()
            ||| m.stage is Beyond && !(reply.ok() && !text::blank(text::trimmed(reply.out())))
            ||| m.stage is Save
        }),
        m.after(reply).0.salvage is Saved <==> m.stage is Save && reply.ok(),
{
}

/// Commits beyond the base always lead to an attempt to save the tip, under a
/// reference outside the branches.
pub proof fn law_work_beyond_the_base_is_saved(m: CutRunView, commits: GitReply, short: GitReply)
    requires
        m.stage is Beyond,
        commits.ok(),
        !text::blank(text::trimmed(commits.out())),
    ensures
        ({
            let n = m.after(commits).0.after(short).0;
            &&& n.stage is Save
            &&& n.words() == seq![
                "update-ref"@,
                salvage_name(m.task_id, n.short),
                m.tip,
            ]
        }),
{
}

/// Tips with different short names are saved under different references, so a
/// later salvage never overwrites an earlier one.
pub proof fn law_salvages_do_not_collide(task_id: Seq<char>, a: Seq<char>, b: Seq<char>)
    requires
        a != b,
    ensures
        salvage_name(task_id, a) != salvage_name(task_id, b),
{
    let head = "refs/maestro/salvage/"@ + task_id + "/"@;
    if salvage_name(task_id, a) == salvage_name(task_id, b) {
        assert((head + a).subrange(head.len() as int, (head + a).len() as int) =~= a);
        assert((head + b).subrange(head.len() as int, (head + b).len() as int) =~= b);
    }
}

/// The references of a repository once a cut's command has written its own.
pub open spec fn refs_after(m: CutRunView, refs: Map<Seq<char>, Seq<char>>) -> Map<
    Seq<char>,
    Seq<char>,
> {
    if m.stage is Save {
        refs.insert(salvage_name(m.task_id, m.short), m.tip)
    } else {
        refs
    }
}

/// Two salvages of the same task both stay, where their tips go by different short
/// names: each reference holds its own tip, and no other reference changes.
pub proof fn law_repeated_salvages_all_stay(
    first: CutRunView,
    second: CutRunView,
    refs: Map<Seq<char>, Seq<char>>,
)
    requires
        first.stage is Save,
        second.stage is Save,
        first.task_id == second.task_id,
        first.short != second.short,
    ensures
        ({
            let now = refs_after(second, refs_after(first, refs));
            let a = salvage_name(first.task_id, first.short);
            let b = salvage_name(second.task_id, second.short);
            &&& now.contains_key(a) && now[a] == first.tip
            &&& now.contains_key(b) && now[b] == second.tip
            &&& forall|r: Seq<char>|
                r != a && r != b ==> (#[trigger] now.contains_key(r) <==> refs.contains_key(r)) && (
                refs.contains_key(r) ==> now[r] == refs[r])
        }),
{
    law_salvages_do_not_collide(first.task_id, first.short, second.short);
}

/// A reference is written only for a branch that is there and holds commits beyond
/// the base; what comes after the salvage writes none.
pub proof fn law_only_commits_beyond_the_base_are_saved(m: CutRunView, reply: GitReply)
    ensures
        m.after(reply).0.stage is Save ==> m.stage is Short,
        m.after(reply).0.stage is Short ==> m.stage is Beyond && reply.ok() && !text::blank(
            text::trimmed(reply.out()),
        ),
        m.after(reply).0.stage is Beyond ==> m.stage is Tip && reply.ok(),
        past_salvage(m.stage) ==> past_salvage(m.after(reply).0.stage),
{
}

/// The new worktree is always cut off the base, whatever the old branch held.
pub proof fn law_fresh_cut_starts_at_the_base(m: CutRunView)
    requires
        m.stage is Make,
    ensures
        m.words().last() == m.base_ref,
{
}

/// What each command of a cut is, and of what: the old branch of the task is
/// looked up, counted against the base, saved by its tip and deleted; the worktree
/// is removed and made anew at its place, on a new branch of the task, off the
/// base.
pub proof fn law_cut_commands_name_the_task(m: CutRunView)
    ensures
        ({
            let branch = "maestro/"@ + m.task_id;
            match m.stage {
                CutStage::Tip => m.args() == seq![
                    "-C"@,
                    m.repo,
                    "rev-parse"@,
                    "--verify"@,
                    "--quiet"@,
                    "refs/heads/"@ + branch,
                ],
                CutStage::Beyond => m.args() == seq![
                    "-C"@,
                    m.repo,
                    "rev-list"@,
                    m.base_ref + ".."@ + branch,
                ],
                CutStage::Short => m.args() == seq![
                    "-C"@,
                    m.repo,
                    "rev-parse"@,
                    "--short"@,
                    m.tip,
                ],
                CutStage::Save => m.args() == seq![
                    "-C"@,
                    m.repo,
                    "update-ref"@,
                    "refs/maestro/salvage/"@ + m.task_id + "/"@ + m.short,
                    m.tip,
                ],
                CutStage::Clear => m.args() == seq![
                    "-C"@,
                    m.repo,
                    "worktree"@,
                    "remove"@,
                    "--force"@,
                    m.worktree,
                ],
                CutStage::Delete => m.args() == seq!["-C"@, m.repo, "branch"@, "-D"@, branch],
                CutStage::Make => m.args() == seq![
                    "-C"@,
                    m.repo,
                    "worktree"@,
                    "add"@,
                    m.worktree,
                    "-b"@,
                    branch,
                    m.base_ref,
                ],
                CutStage::Over => true,
            }
        }),
{
}

/// A cut goes by what `git` answered: it saves the tip it was told, under the
/// short name it was told or else the tip's first twelve characters; it removes a
/// worktree only where one is in the way; and it gives the worktree it made, or the
/// error of making it.
pub proof fn law_cut_goes_by_the_answers(m: CutRunView, reply: GitReply)
    ensures
        ({
            let (n, end) = m.after(reply);
            let told = text::trimmed(reply.out());
            let on = if m.occupied {
                CutStage::Clear
            } else {
                CutStage::Delete
            };
            &&& m.stage is Tip && reply.ok() ==> n == (CutRunView {
                stage: CutStage::Beyond,
                tip: told,
                ..m
            })
            &&& m.stage is Tip && !reply.ok() ==> n == (CutRunView {
                stage: on,
                salvage: Salvage::Nothing,
                ..m
            })
            &&& m.stage is Beyond ==> n == (if reply.ok() && !text::blank(told) {
                CutRunView { stage: CutStage::Short, ..m }
            } else {
                CutRunView {
                    stage: on,
                    salvage: if reply.ok() {
                        Salvage::Nothing
                    } else {
                        Salvage::Unknown
                    },
                    ..m
                }
            })
            &&& m.stage is Short && reply.ok() ==> n == (CutRunView {
                stage: CutStage::Save,
                short: told,
                ..m
            })
            &&& m.stage is Short && !reply.ok() ==> {
                &&& n.stage is Save
                &&& n.tip == m.tip
                &&& n.short.is_prefix_of(m.tip)
                &&& n.short.len() == (if m.tip.len() < 12 {
                    m.tip.len() as int
                } else {
                    12
                })
            }
            &&& m.stage is Save ==> n == (CutRunView {
                stage: on,
                salvage: if reply.ok() {
                    Salvage::Saved
                } else {
                    Salvage::Lost
                },
                ..m
            })
            &&& m.stage is Clear ==> n == (CutRunView { stage: CutStage::Delete, ..m })
            &&& m.stage is Delete ==> n == (CutRunView { stage: CutStage::Make, ..m })
            &&& end is Some <==> m.stage is Make
            &&& m.stage is Make && reply.ok() ==> end == Some(
                Ok::<Seq<char>, FaultView>(m.worktree),
            )
            &&& m.stage is Make && !reply.ok() ==> end->0 is Err
        }),
{
}

/// A cut begins by looking for the old branch, with nothing saved.
pub proof fn law_cuts_begin_with_the_old_branch(
    repo: Seq<char>,
    base_ref: Seq<char>,
    task_id: Seq<char>,
    worktree: Seq<char>,
    occupied: bool,
)
    ensures
        ({
            let m = CutRunView::fresh(repo, base_ref, task_id, worktree, occupied);
            &&& m.stage is Tip
            &&& m.repo == repo && m.base_ref == base_ref && m.task_id == task_id
            &&& m.worktree == worktree && m.occupied == occupied
            &&& m.salvage is Nothing
        }),
{
}

/// How a cut ended is taken as it was: the worktree, or the error.
pub proof fn law_ends_are_taken_as_given(path: String, error: Fault)
    ensures
        cut_end(Some(Ok(path))) == Some(Ok::<Seq<char>, FaultView>(path@)),
        cut_end(Some(Err(error))) == Some(Err::<Seq<char>, FaultView>(error.deep_view())),
        cut_end(None) is None,
{
}

/// What is said of a cut is what it holds, field by field.
pub proof fn law_cuts_are_said_whole(
    cut_run: CutRun,
)
    ensures
        cut_run.deep_view().stage == cut_run.stage,
        cut_run.deep_view().repo == cut_run.repo@,
        cut_run.deep_view().base_ref == cut_run.base_ref@,
        cut_run.deep_view().task_id == cut_run.task_id@,
        cut_run.deep_view().worktree == cut_run.worktree@,
        cut_run.deep_view().occupied == cut_run.occupied,
        cut_run.deep_view().tip == cut_run.tip@,
        cut_run.deep_view().short == cut_run.short@,
        cut_run.deep_view().salvage == cut_run.salvage,
{
}

/// A worktree that could not be made is explained by what `git` said, under the
/// name of the task.
pub proof fn law_failed_cuts_keep_their_cause(m: CutRunView, reply: GitReply)
    requires
        m.stage is Make,
        !reply.ok(),
    ensures
        m.after(reply).1 matches Some(Err(e)) && e.cause == Some(
            git::git_fault(m.args(), reply).full(),
        ) && e.message == "creating worktree for task "@ + m.task_id,
{
}

} // verus!
