//! Merging a task's branch into its base, one `git` command at a time: a
//! fast-forward where that is possible, else a merge commit where there is no
//! conflict, else a refusal that leaves every reference alone.

use crate::fault::{Fault, FaultView};
use crate::git::{self, args_in, line_of, GitReply};
use crate::text::{self, cat2, cat3, cat5, join, lines_with_content, same, split, trim};
use crate::worktree;
use vstd::prelude::*;

verus! {

/// A merge that went through.
#[derive(Debug)]
pub struct MergeOutcome {
    /// The commit the base now points at.
    pub merged_sha: String,
    /// The base branch.
    pub base_ref: String,
    /// The task branch.
    pub branch: String,
    /// Whether the base was fast-forwarded.
    pub fast_forward: bool,
}

/// What a [`MergeOutcome`] says.
#[verifier::ext_equal]
pub struct MergeOutcomeView {
    pub merged_sha: Seq<char>,
    pub base_ref: Seq<char>,
    pub branch: Seq<char>,
    pub fast_forward: bool,
}

impl DeepView for MergeOutcome {
    type V = MergeOutcomeView;

    open spec fn deep_view(&self) -> MergeOutcomeView {
        MergeOutcomeView {
            merged_sha: self.merged_sha@,
            base_ref: self.base_ref@,
            branch: self.branch@,
            fast_forward: self.fast_forward,
        }
    }
}

/// The command a merge is at.
#[derive(Debug, Clone, Copy, PartialEq, Eq, Structural)]
pub enum MergeStage {
    /// Where does the task branch point?
    TaskTip,
    /// Is the base a local branch?
    BaseIsBranch,
    /// Where does the base point?
    BaseTip,
    /// Which branch is checked out?
    Head,
    /// Is the base an ancestor of the task branch?
    Ancestor,
    /// Is the working tree clean (before a fast-forward)?
    ForwardStatus,
    /// Fast-forward the checked-out base.
    ForwardMerge,
    /// Advance the base to the task branch.
    ForwardAdvance,
    /// Try the merge in memory.
    MergeTree,
    /// Is the working tree clean (before a merge)?
    MergeStatus,
    /// Merge into the checked-out base.
    MergeInPlace,
    /// Where does the checked-out base point now?
    MergedHead,
    /// Make the merge commit.
    CommitTree,
    /// Advance the base to the merge commit.
    MergeAdvance,
    /// Nothing more to run.
    Over,
}

/// A merge under way.
#[derive(Debug)]
pub struct MergeRun {
    pub stage: MergeStage,
    pub repo: String,
    pub base_ref: String,
    pub task_id: String,
    pub task_sha: String,
    pub base_sha: String,
    /// Whether the base is checked out.
    pub checked_out: bool,
    /// The tree of a conflict-free merge.
    pub tree: String,
    /// The merge commit.
    pub commit: String,
}

/// What a [`MergeRun`] says.
#[verifier::ext_equal]
pub struct MergeRunView {
    pub stage: MergeStage,
    pub repo: Seq<char>,
    pub base_ref: Seq<char>,
    pub task_id: Seq<char>,
    pub task_sha: Seq<char>,
    pub base_sha: Seq<char>,
    pub checked_out: bool,
    pub tree: Seq<char>,
    pub commit: Seq<char>,
}

impl DeepView for MergeRun {
    type V = MergeRunView;

    open spec fn deep_view(&self) -> MergeRunView {
        MergeRunView {
            stage: self.stage,
            repo: self.repo@,
            base_ref: self.base_ref@,
            task_id: self.task_id@,
            task_sha: self.task_sha@,
            base_sha: self.base_sha@,
            checked_out: self.checked_out,
            tree: self.tree@,
            commit: self.commit@,
        }
    }
}

/// The end of a merge: what was merged, or why not.
pub type MergeEnd = Result<MergeOutcomeView, FaultView>;

/// What the end of a merge says.
pub open spec fn end_view(r: Option<Result<MergeOutcome, Fault>>) -> Option<MergeEnd> {
    match r {
        Some(Ok(o)) => Some(Ok(o.deep_view())),
        Some(Err(e)) => Some(Err(e.deep_view())),
        None => None,
    }
}

/// An error without a cause.
pub open spec fn plain(message: Seq<char>) -> FaultView {
    FaultView { message, cause: None }
}

/// The first line of a text, trimmed; nothing where it is blank.
pub open spec fn first_line(out: Seq<char>) -> Option<Seq<char>> {
    let line = text::trimmed(text::pieces(out, '\n')[0]);
    if line.len() == 0 {
        None
    } else {
        Some(line)
    }
}

impl MergeRunView {
    /// A merge that has not begun.
    pub open spec fn fresh(repo: Seq<char>, base_ref: Seq<char>, task_id: Seq<char>) -> MergeRunView {
        MergeRunView {
            stage: MergeStage::TaskTip,
            repo,
            base_ref,
            task_id,
            task_sha: Seq::empty(),
            base_sha: Seq::empty(),
            checked_out: false,
            tree: Seq::empty(),
            commit: Seq::empty(),
        }
    }

    /// The task branch.
    pub open spec fn branch(self) -> Seq<char> {
        worktree::branch_of(self.task_id)
    }

    /// The full name of the task branch.
    pub open spec fn branch_ref(self) -> Seq<char> {
        worktree::head_ref(self.branch())
    }

    /// The full name of the base.
    pub open spec fn base_branch(self) -> Seq<char> {
        worktree::head_ref(self.base_ref)
    }

    /// The same merge at another stage.
    pub open spec fn at(self, stage: MergeStage) -> MergeRunView {
        MergeRunView { stage, ..self }
    }

    /// The words of the command a merge is at.
    pub open spec fn words(self) -> Seq<Seq<char>> {
        match self.stage {
            MergeStage::TaskTip => seq!["rev-parse"@, "--verify"@, "--quiet"@, self.branch_ref()],
            MergeStage::BaseIsBranch => seq![
                "rev-parse"@,
                "--verify"@,
                "--quiet"@,
                self.base_branch(),
            ],
            MergeStage::BaseTip => seq!["rev-parse"@, "--verify"@, self.base_branch()],
            MergeStage::Head => seq!["symbolic-ref"@, "--quiet"@, "--short"@, "HEAD"@],
            MergeStage::Ancestor => seq![
                "merge-base"@,
                "--is-ancestor"@,
                self.base_sha,
                self.task_sha,
            ],
            MergeStage::ForwardStatus => seq!["status"@, "--porcelain"@],
            MergeStage::ForwardMerge => seq!["merge"@, "--ff-only"@, self.branch_ref()],
            MergeStage::ForwardAdvance => seq![
                "update-ref"@,
                self.base_branch(),
                self.task_sha,
                self.base_sha,
            ],
            MergeStage::MergeTree => seq![
                "merge-tree"@,
                "--write-tree"@,
                self.base_sha,
                self.task_sha,
            ],
            MergeStage::MergeStatus => seq!["status"@, "--porcelain"@],
            MergeStage::MergeInPlace => seq![
                "merge"@,
                "--no-ff"@,
                "--no-edit"@,
                self.branch_ref(),
            ],
            MergeStage::MergedHead => seq!["rev-parse"@, "HEAD"@],
            MergeStage::CommitTree => seq![
                "commit-tree"@,
                self.tree,
                "-p"@,
                self.base_sha,
                "-p"@,
                self.task_sha,
                "-m"@,
                "maestro: merge "@ + self.branch() + " into "@ + self.base_ref,
            ],
            MergeStage::MergeAdvance => seq![
                "update-ref"@,
                self.base_branch(),
                self.commit,
                self.base_sha,
            ],
            MergeStage::Over => seq![],
        }
    }

    /// The arguments of the command a merge is at.
    pub open spec fn args(self) -> Seq<Seq<char>> {
        git::in_dir(self.repo, self.words())
    }

    /// The merge went through.
    pub open spec fn merged(self, sha: Seq<char>, fast_forward: bool) -> MergeEnd {
        Ok(
            MergeOutcomeView {
                merged_sha: sha,
                base_ref: self.base_ref,
                branch: self.branch(),
                fast_forward,
            },
        )
    }

    /// The error of a base that is checked out with uncommitted changes.
    pub open spec fn dirty(self) -> FaultView {
        plain(
            "base branch '"@ + self.base_ref
                + "' is checked out with a dirty working tree; commit/stash then merge"@,
        )
    }

    /// The error of a merge with conflicts, naming them.
    pub open spec fn conflict(self, out: Seq<char>) -> FaultView {
        plain(
            "base '"@ + self.base_ref + "' has advanced and merging "@ + self.branch()
                + " conflicts — resolve manually (conflicted paths: "@ + text::joined(
                text::content_lines(out),
                ", "@,
            ) + ")"@,
        )
    }

    /// The merge goes on at another stage.
    pub open spec fn on(self, stage: MergeStage) -> (MergeRunView, Option<MergeEnd>) {
        (self.at(stage), None)
    }

    /// The merge is over.
    pub open spec fn over(self, end: MergeEnd) -> (MergeRunView, Option<MergeEnd>) {
        (self.at(MergeStage::Over), Some(end))
    }

    /// What a merge makes of the end of its command.
    pub open spec fn after(self, reply: GitReply) -> (MergeRunView, Option<MergeEnd>) {
        let line = git::git_line(self.args(), reply);
        match self.stage {
            MergeStage::TaskTip => match line {
                Ok(sha) => (MergeRunView { task_sha: sha, ..self }).on(MergeStage::BaseIsBranch),
                Err(e) => self.over(
                    Err(
                        e.within(
                            "task branch "@ + self.branch() + " is missing; nothing to merge"@,
                        ),
                    ),
                ),
            },
            MergeStage::BaseIsBranch => if reply.ok() {
                self.on(MergeStage::BaseTip)
            } else {
                self.over(
                    Err(
                        plain(
                            "base_ref '"@ + self.base_ref
                                + "' is not a local branch; merge manually"@,
                        ),
                    ),
                )
            },
            MergeStage::BaseTip => match line {
                Ok(sha) => (MergeRunView { base_sha: sha, ..self }).on(MergeStage::Head),
                Err(e) => self.over(Err(e)),
            },
            MergeStage::Head => (MergeRunView {
                checked_out: line == Ok::<Seq<char>, FaultView>(self.base_ref),
                ..self
            }).on(MergeStage::Ancestor),
            MergeStage::Ancestor => if !reply.ok() {
                self.on(MergeStage::MergeTree)
            } else if self.checked_out {
                self.on(MergeStage::ForwardStatus)
            } else {
                self.on(MergeStage::ForwardAdvance)
            },
            MergeStage::ForwardStatus => match line {
                Ok(out) => if out.len() > 0 {
                    self.over(Err(self.dirty()))
                } else {
                    self.on(MergeStage::ForwardMerge)
                },
                Err(e) => self.over(Err(e)),
            },
            MergeStage::ForwardMerge => match line {
                Ok(_) => self.over(self.merged(self.task_sha, true)),
                Err(e) => self.over(
                    Err(
                        e.within(
                            "fast-forwarding "@ + self.base_ref + " to "@ + self.branch(),
                        ),
                    ),
                ),
            },
            MergeStage::ForwardAdvance => match line {
                Ok(_) => self.over(self.merged(self.task_sha, true)),
                Err(e) => self.over(
                    Err(
                        e.within(
                            "fast-forwarding ref "@ + self.base_ref + " to "@ + self.branch(),
                        ),
                    ),
                ),
            },
            MergeStage::MergeTree => match reply {
                GitReply::NotStarted(e) => self.over(
                    Err(
                        FaultView {
                            message: "spawning `git merge-tree --write-tree`"@,
                            cause: Some(e@),
                        },
                    ),
                ),
                GitReply::Ran { code, status, stdout, stderr, .. } => if code == Some(0i32) {
                    match first_line(stdout@) {
                        None => self.over(
                            Err(
                                plain(
                                    "merge-tree reported a clean merge but wrote no tree OID"@,
                                ),
                            ),
                        ),
                        Some(tree) => (MergeRunView { tree, ..self }).on(
                            if self.checked_out {
                                MergeStage::MergeStatus
                            } else {
                                MergeStage::CommitTree
                            },
                        ),
                    }
                } else if code == Some(1i32) {
                    self.over(Err(self.conflict(stdout@)))
                } else {
                    self.over(
                        Err(
                            plain(
                                "`git merge-tree` failed ("@ + status@ + "): "@ + stdout@ + stderr@,
                            ),
                        ),
                    )
                },
            },
            MergeStage::MergeStatus => match line {
                Ok(out) => if out.len() > 0 {
                    self.over(Err(self.dirty()))
                } else {
                    self.on(MergeStage::MergeInPlace)
                },
                Err(e) => self.over(Err(e)),
            },
            MergeStage::MergeInPlace => match line {
                Ok(_) => self.on(MergeStage::MergedHead),
                Err(e) => self.over(
                    Err(
                        e.within("3-way merging "@ + self.branch() + " into "@ + self.base_ref),
                    ),
                ),
            },
            MergeStage::MergedHead => match line {
                Ok(sha) => self.over(self.merged(sha, false)),
                Err(e) => self.over(Err(e)),
            },
            MergeStage::CommitTree => match line {
                Ok(sha) => (MergeRunView { commit: sha, ..self }).on(MergeStage::MergeAdvance),
                Err(e) => self.over(
                    Err(
                        e.within(
                            "creating merge commit for "@ + self.branch() + " into "@
                                + self.base_ref,
                        ),
                    ),
                ),
            },
            MergeStage::MergeAdvance => match line {
                Ok(_) => self.over(self.merged(self.commit, false)),
                Err(e) => self.over(
                    Err(e.within("advancing ref "@ + self.base_ref + " to merge commit"@)),
                ),
            },
            MergeStage::Over => (self, None),
        }
    }
}

/// Begins the merge of a task's branch into its base.
pub fn merge_task_branch(repo: &str, base_ref: &str, task_id: &str) -> (r: MergeRun)
    ensures
        r.deep_view() == MergeRunView::fresh(repo@, base_ref@, task_id@),
{
    MergeRun {
        stage: MergeStage::TaskTip,
        repo: repo.to_owned(),
        base_ref: base_ref.to_owned(),
        task_id: task_id.to_owned(),
        task_sha: String::new(),
        base_sha: String::new(),
        checked_out: false,
        tree: String::new(),
        commit: String::new(),
    }
}

impl MergeRun {
    fn branch(&self) -> (r: String)
        ensures
            r@ == self.deep_view().branch(),
    {
        cat2("maestro/", &self.task_id)
    }

    fn branch_ref(&self) -> (r: String)
        ensures
            r@ == self.deep_view().branch_ref(),
    {
        cat2("refs/heads/", &self.branch())
    }

    fn base_branch(&self) -> (r: String)
        ensures
            r@ == self.deep_view().base_branch(),
    {
        cat2("refs/heads/", &self.base_ref)
    }

    /// The arguments of the command to run next.
    pub fn args(&self) -> (r: Vec<String>)
        ensures
            r.deep_view() == self.deep_view().args(),
            self.stage is MergeTree ==> r@.len() == 6 && r@[4]@ == self.base_sha@ && r@[5]@
                == self.task_sha@,
    {
        let branch_ref = self.branch_ref();
        let base_branch = self.base_branch();
        let message = text::cat4("maestro: merge ", &self.branch(), " into ", &self.base_ref);
        let words: Vec<&str> = match self.stage {
            MergeStage::TaskTip => vec!["rev-parse", "--verify", "--quiet", branch_ref.as_str()],
            MergeStage::BaseIsBranch => vec![
                "rev-parse",
                "--verify",
                "--quiet",
                base_branch.as_str(),
            ],
            MergeStage::BaseTip => vec!["rev-parse", "--verify", base_branch.as_str()],
            MergeStage::Head => vec!["symbolic-ref", "--quiet", "--short", "HEAD"],
            MergeStage::Ancestor => vec![
                "merge-base",
                "--is-ancestor",
                self.base_sha.as_str(),
                self.task_sha.as_str(),
            ],
            MergeStage::ForwardStatus => vec!["status", "--porcelain"],
            MergeStage::ForwardMerge => vec!["merge", "--ff-only", branch_ref.as_str()],
            MergeStage::ForwardAdvance => vec![
                "update-ref",
                base_branch.as_str(),
                self.task_sha.as_str(),
                self.base_sha.as_str(),
            ],
            MergeStage::MergeTree => vec![
                "merge-tree",
                "--write-tree",
                self.base_sha.as_str(),
                self.task_sha.as_str(),
            ],
            MergeStage::MergeStatus => vec!["status", "--porcelain"],
            MergeStage::MergeInPlace => vec!["merge", "--no-ff", "--no-edit", branch_ref.as_str()],
            MergeStage::MergedHead => vec!["rev-parse", "HEAD"],
            MergeStage::CommitTree => vec![
                "commit-tree",
                self.tree.as_str(),
                "-p",
                self.base_sha.as_str(),
                "-p",
                self.task_sha.as_str(),
                "-m",
                message.as_str(),
            ],
            MergeStage::MergeAdvance => vec![
                "update-ref",
                base_branch.as_str(),
                self.commit.as_str(),
                self.base_sha.as_str(),
            ],
            MergeStage::Over => Vec::new(),
        };
        assert(words.deep_view() =~= self.deep_view().words());
        let list = args_in(&self.repo, words);
        proof {
            let said = list.deep_view();
            assert(said.len() == list@.len());
            if self.stage is MergeTree {
                assert(said[4] == list@[4]@ && said[5] == list@[5]@);
            }
        }
        list
    }

    fn merged(&self, sha: &String, fast_forward: bool) -> (r: MergeOutcome)
        ensures
            Ok::<MergeOutcomeView, FaultView>(r.deep_view()) == self.deep_view().merged(
                sha@,
                fast_forward,
            ),
    {
        MergeOutcome {
            merged_sha: sha.clone(),
            base_ref: self.base_ref.clone(),
            branch: self.branch(),
            fast_forward,
        }
    }

    fn dirty(&self) -> (r: Fault)
        ensures
            r.deep_view() == self.deep_view().dirty(),
    {
        Fault::new(
            cat3(
                "base branch '",
                &self.base_ref,
                "' is checked out with a dirty working tree; commit/stash then merge",
            ),
        )
    }

    fn conflict(&self, out: &str) -> (r: Fault)
        ensures
            r.deep_view() == self.deep_view().conflict(out@),
    {
        let mut words = cat5(
            "base '",
            &self.base_ref,
            "' has advanced and merging ",
            &self.branch(),
            " conflicts — resolve manually (conflicted paths: ",
        );
        words.append(&join(&lines_with_content(out), ", "));
        words.append(")");
        Fault::new(words)
    }

    /// Takes how the command ended: the end of the merge, or nothing while
    /// there is more to run.
    #[verifier::rlimit(60)]
    pub fn on_git(&mut self, reply: GitReply) -> (r: Option<Result<MergeOutcome, Fault>>)
        requires
            !(old(self).stage is Over),
        ensures
            (final(self).deep_view(), end_view(r)) == old(self).deep_view().after(reply),
    {
        let stage = self.stage;
        let args = self.args();
        let ok = reply.succeeded();
        match stage {
            MergeStage::BaseIsBranch => {
                if ok {
                    self.stage = MergeStage::BaseTip;
                    return None;
                }
                self.stage = MergeStage::Over;
                return Some(
                    Err(
                        Fault::new(
                            cat3(
                                "base_ref '",
                                &self.base_ref,
                                "' is not a local branch; merge manually",
                            ),
                        ),
                    ),
                );
            },
            MergeStage::Ancestor => {
                self.stage = if !ok {
                    MergeStage::MergeTree
                } else if self.checked_out {
                    MergeStage::ForwardStatus
                } else {
                    MergeStage::ForwardAdvance
                };
                return None;
            },
            MergeStage::MergeTree => {
                return self.on_merge_tree(reply);
            },
            _ => {},
        }
        let line = line_of(&args, reply);
        match stage {
            MergeStage::TaskTip => match line {
                Ok(sha) => {
                    self.task_sha = sha;
                    self.stage = MergeStage::BaseIsBranch;
                    None
                },
                Err(e) => {
                    let words = cat3(
                        "task branch ",
                        &self.branch(),
                        " is missing; nothing to merge",
                    );
                    self.stage = MergeStage::Over;
                    Some(Err(e.context(words)))
                },
            },
            MergeStage::BaseTip => match line {
                Ok(sha) => {
                    self.base_sha = sha;
                    self.stage = MergeStage::Head;
                    None
                },
                Err(e) => {
                    self.stage = MergeStage::Over;
                    Some(Err(e))
                },
            },
            MergeStage::Head => {
                self.checked_out = match &line {
                    Ok(head) => same(head, &self.base_ref),
                    Err(_) => false,
                };
                self.stage = MergeStage::Ancestor;
                None
            },
            MergeStage::ForwardStatus => match line {
                Ok(out) => {
                    if out.as_str().is_empty() {
                        self.stage = MergeStage::ForwardMerge;
                        None
                    } else {
                        self.stage = MergeStage::Over;
                        Some(Err(self.dirty()))
                    }
                },
                Err(e) => {
                    self.stage = MergeStage::Over;
                    Some(Err(e))
                },
            },
            MergeStage::ForwardMerge => {
                self.stage = MergeStage::Over;
                match line {
                    Ok(_) => Some(Ok(self.merged(&self.task_sha, true))),
                    Err(e) => Some(
                        Err(
                            e.context(
                                text::cat4(
                                    "fast-forwarding ",
                                    &self.base_ref,
                                    " to ",
                                    &self.branch(),
                                ),
                            ),
                        ),
                    ),
                }
            },
            MergeStage::ForwardAdvance => {
                self.stage = MergeStage::Over;
                match line {
                    Ok(_) => Some(Ok(self.merged(&self.task_sha, true))),
                    Err(e) => Some(
                        Err(
                            e.context(
                                text::cat4(
                                    "fast-forwarding ref ",
                                    &self.base_ref,
                                    " to ",
                                    &self.branch(),
                                ),
                            ),
                        ),
                    ),
                }
            },
            MergeStage::MergeStatus => match line {
                Ok(out) => {
                    if out.as_str().is_empty() {
                        self.stage = MergeStage::MergeInPlace;
                        None
                    } else {
                        self.stage = MergeStage::Over;
                        Some(Err(self.dirty()))
                    }
                },
                Err(e) => {
                    self.stage = MergeStage::Over;
                    Some(Err(e))
                },
            },
            MergeStage::MergeInPlace => match line {
                Ok(_) => {
                    self.stage = MergeStage::MergedHead;
                    None
                },
                Err(e) => {
                    self.stage = MergeStage::Over;
                    Some(
                        Err(
                            e.context(
                                text::cat4(
                                    "3-way merging ",
                                    &self.branch(),
                                    " into ",
                                    &self.base_ref,
                                ),
                            ),
                        ),
                    )
                },
            },
            MergeStage::MergedHead => {
                self.stage = MergeStage::Over;
                match line {
                    Ok(sha) => Some(Ok(self.merged(&sha, false))),
                    Err(e) => Some(Err(e)),
                }
            },
            MergeStage::CommitTree => match line {
                Ok(sha) => {
                    self.commit = sha;
                    self.stage = MergeStage::MergeAdvance;
                    None
                },
                Err(e) => {
                    self.stage = MergeStage::Over;
                    Some(
                        Err(
                            e.context(
                                text::cat4(
                                    "creating merge commit for ",
                                    &self.branch(),
                                    " into ",
                                    &self.base_ref,
                                ),
                            ),
                        ),
                    )
                },
            },
            MergeStage::MergeAdvance => {
                self.stage = MergeStage::Over;
                match line {
                    Ok(_) => Some(Ok(self.merged(&self.commit, false))),
                    Err(e) => Some(
                        Err(
                            e.context(
                                cat3("advancing ref ", &self.base_ref, " to merge commit"),
                            ),
                        ),
                    ),
                }
            },
            _ => None,
        }
    }

    fn on_merge_tree(&mut self, reply: GitReply) -> (r: Option<Result<MergeOutcome, Fault>>)
        requires
            old(self).stage is MergeTree,
        ensures
            (final(self).deep_view(), end_view(r)) == old(self).deep_view().after(reply),
    {
        match reply {
            GitReply::NotStarted(e) => {
                self.stage = MergeStage::Over;
                Some(
                    Err(
                        Fault {
                            message: "spawning `git merge-tree --write-tree`".to_owned(),
                            cause: Some(e),
                        },
                    ),
                )
            },
            GitReply::Ran { success: _, code, status, stdout, stderr } => {
                let clean = match code {
                    Some(c) => c == 0,
                    None => false,
                };
                let conflicts = match code {
                    Some(c) => c == 1,
                    None => false,
                };
                if clean {
                    let lines = split(&stdout, '\n');
                    assert(lines.deep_view()[0] == lines@[0]@);
                    let tree = trim(&lines[0]);
                    if tree.is_empty() {
                        self.stage = MergeStage::Over;
                        return Some(
                            Err(
                                Fault::new(
                                    "merge-tree reported a clean merge but wrote no tree OID".to_owned(),
                                ),
                            ),
                        );
                    }
                    self.tree = tree.to_owned();
                    self.stage = if self.checked_out {
                        MergeStage::MergeStatus
                    } else {
                        MergeStage::CommitTree
                    };
                    None
                } else if conflicts {
                    let e = self.conflict(&stdout);
                    self.stage = MergeStage::Over;
                    Some(Err(e))
                } else {
                    self.stage = MergeStage::Over;
                    Some(
                        Err(
                            Fault::new(
                                cat5(
                                    "`git merge-tree` failed (",
                                    &status,
                                    "): ",
                                    &stdout,
                                    &stderr,
                                ),
                            ),
                        ),
                    )
                }
            },
        }
    }
}

// ---------------------------------------------------------------------------
// Laws
// ---------------------------------------------------------------------------

/// Whether the command of a stage moves the base.
pub open spec fn moves_the_base(stage: MergeStage) -> bool {
    stage is ForwardMerge || stage is ForwardAdvance || stage is MergeInPlace || stage
        is MergeAdvance
}

/// Where a merge stands after a series of replies.
pub open spec fn after_all(m: MergeRunView, replies: Seq<GitReply>) -> MergeRunView
    decreases replies.len(),
{
    if replies.len() == 0 {
        m
    } else {
        after_all(m, replies.drop_last()).after(replies.last()).0
    }
}

/// How a merge ended with the last of a series of replies.
pub open spec fn end_of(m: MergeRunView, replies: Seq<GitReply>) -> Option<MergeEnd> {
    after_all(m, replies.drop_last()).after(replies.last()).1
}

/// Whether some command of a series has moved the base.
pub open spec fn moved(m: MergeRunView, replies: Seq<GitReply>) -> bool
    decreases replies.len(),
{
    replies.len() > 0 && {
        ||| moved(m, replies.drop_last())
        ||| {
            &&& moves_the_base(after_all(m, replies.drop_last()).stage)
            &&& replies.last().ok()
        }
    }
}

proof fn lemma_moved_ends(m: MergeRunView, replies: Seq<GitReply>)
    requires
        m.stage is TaskTip,
        moved(m, replies),
    ensures
        after_all(m, replies).stage is Over || after_all(m, replies).stage is MergedHead,
    decreases replies.len(),
{
    let before = replies.drop_last();
    if moved(m, before) {
        lemma_moved_ends(m, before);
    }
}

/// A refused merge moves nothing: where a merge ends in an error, no command has
/// moved the base, unless the merge commit was already in place and only reading
/// it back failed.
pub proof fn law_refusal_moves_nothing(
    repo: Seq<char>,
    base_ref: Seq<char>,
    task_id: Seq<char>,
    replies: Seq<GitReply>,
)
    requires
        replies.len() > 0,
        end_of(MergeRunView::fresh(repo, base_ref, task_id), replies) matches Some(Err(_)),
        !(after_all(
            MergeRunView::fresh(repo, base_ref, task_id),
            replies.drop_last(),
        ).stage is MergedHead),
    ensures
        !moved(MergeRunView::fresh(repo, base_ref, task_id), replies),
{
    let m = MergeRunView::fresh(repo, base_ref, task_id);
    let before = replies.drop_last();
    if moved(m, before) {
        lemma_moved_ends(m, before);
    }
}

/// A merge that went through has moved the base.
pub proof fn law_success_moves_the_base(
    repo: Seq<char>,
    base_ref: Seq<char>,
    task_id: Seq<char>,
    replies: Seq<GitReply>,
)
    requires
        replies.len() > 0,
        end_of(MergeRunView::fresh(repo, base_ref, task_id), replies) matches Some(Ok(_)),
    ensures
        moved(MergeRunView::fresh(repo, base_ref, task_id), replies),
{
    let m = MergeRunView::fresh(repo, base_ref, task_id);
    let before = replies.drop_last();
    if after_all(m, before).stage is MergedHead {
        lemma_merged_head(m, before);
    }
}

proof fn lemma_merged_head(m: MergeRunView, replies: Seq<GitReply>)
    requires
        m.stage is TaskTip,
        after_all(m, replies).stage is MergedHead,
    ensures
        moved(m, replies),
    decreases replies.len(),
{
    let before = replies.drop_last();
    let stage = after_all(m, before).stage;
    assert(stage is MergeInPlace && replies.last().ok());
}

/// A conflict is refused, and names the conflicting paths.
pub proof fn law_conflicts_are_refused(m: MergeRunView, reply: GitReply)
    requires
        m.stage is MergeTree,
        reply matches GitReply::Ran { code, .. } && code == Some(1i32),
    ensures
        m.after(reply).1 == Some(Err::<MergeOutcomeView, FaultView>(m.conflict(reply.out()))),
        m.after(reply).0.stage is Over,
{
}

/// A base that is not checked out is advanced by compare-and-swap: the command
/// names the commit the base pointed at when it was read.
pub proof fn law_advance_is_compare_and_swap(m: MergeRunView)
    requires
        m.stage is ForwardAdvance || m.stage is MergeAdvance,
    ensures
        m.words().len() == 4,
        m.words()[0] == "update-ref"@,
        m.words()[1] == m.base_branch(),
        m.words()[2] == (if m.stage is ForwardAdvance {
            m.task_sha
        } else {
            m.commit
        }),
        m.words()[3] == m.base_sha,
{
}

/// A checked-out base is touched only while its working tree is clean.
pub proof fn law_dirty_trees_are_left_alone(m: MergeRunView, reply: GitReply)
    requires
        m.after(reply).0.stage is ForwardMerge || m.after(reply).0.stage is MergeInPlace,
        !(m.stage is Over),
    ensures
        (m.stage is ForwardStatus || m.stage is MergeStatus) && reply.ok() && text::trimmed(
            reply.out(),
        ).len() == 0,
{
}

/// A merge is reported as a fast-forward exactly where the base was an ancestor
/// of the task branch, and then the base points at that branch's tip.
pub proof fn law_fast_forward_means_the_task_tip(m: MergeRunView, reply: GitReply)
    requires
        !(m.stage is Over),
        m.after(reply).1 matches Some(Ok(_)),
    ensures
        ({
            let o = m.after(reply).1->0->Ok_0;
            &&& o.fast_forward <==> (m.stage is ForwardMerge || m.stage is ForwardAdvance)
            &&& o.fast_forward ==> o.merged_sha == m.task_sha
            &&& o.base_ref == m.base_ref
            &&& o.branch == m.branch()
        }),
{
}

/// The name of a task's branch.
pub open spec fn task_branch(task_id: Seq<char>) -> Seq<char> {
    "maestro/"@ + task_id
}

/// What is merged is the task's tip into the base's: the trial merge is of
/// exactly those two commits, and the merge commit holds the tree of that trial
/// and has the base as its first parent and the task as its second.
pub proof fn law_merge_is_of_both_tips(m: MergeRunView)
    ensures
        m.stage is MergeTree ==> m.args() == seq![
            "-C"@,
            m.repo,
            "merge-tree"@,
            "--write-tree"@,
            m.base_sha,
            m.task_sha,
        ],
        m.stage is CommitTree ==> {
            &&& m.args().len() == 10
            &&& m.args().take(9) == seq![
                "-C"@,
                m.repo,
                "commit-tree"@,
                m.tree,
                "-p"@,
                m.base_sha,
                "-p"@,
                m.task_sha,
                "-m"@,
            ]
            &&& m.args()[9] == "maestro: merge "@ + task_branch(m.task_id) + " into "@ + m.base_ref
        },
        m.stage is MergeInPlace ==> m.args() == seq![
            "-C"@,
            m.repo,
            "merge"@,
            "--no-ff"@,
            "--no-edit"@,
            "refs/heads/"@ + task_branch(m.task_id),
        ],
        m.stage is ForwardMerge ==> m.args() == seq![
            "-C"@,
            m.repo,
            "merge"@,
            "--ff-only"@,
            "refs/heads/"@ + task_branch(m.task_id),
        ],
{
}

/// The questions a merge asks, and of what: the tip of the task's branch, whether
/// the base is a branch and where it points, what is checked out, whether the
/// base lies behind the task, and whether the working tree is clean.
pub proof fn law_merge_asks_about_the_right_branches(m: MergeRunView)
    ensures
        m.stage is TaskTip ==> m.args() == seq![
            "-C"@,
            m.repo,
            "rev-parse"@,
            "--verify"@,
            "--quiet"@,
            "refs/heads/"@ + task_branch(m.task_id),
        ],
        m.stage is BaseIsBranch ==> m.args() == seq![
            "-C"@,
            m.repo,
            "rev-parse"@,
            "--verify"@,
            "--quiet"@,
            "refs/heads/"@ + m.base_ref,
        ],
        m.stage is BaseTip ==> m.args() == seq![
            "-C"@,
            m.repo,
            "rev-parse"@,
            "--verify"@,
            "refs/heads/"@ + m.base_ref,
        ],
        m.stage is Head ==> m.args() == seq![
            "-C"@,
            m.repo,
            "symbolic-ref"@,
            "--quiet"@,
            "--short"@,
            "HEAD"@,
        ],
        m.stage is Ancestor ==> m.args() == seq![
            "-C"@,
            m.repo,
            "merge-base"@,
            "--is-ancestor"@,
            m.base_sha,
            m.task_sha,
        ],
        m.stage is ForwardStatus || m.stage is MergeStatus ==> m.args() == seq![
            "-C"@,
            m.repo,
            "status"@,
            "--porcelain"@,
        ],
        m.stage is MergedHead ==> m.args() == seq!["-C"@, m.repo, "rev-parse"@, "HEAD"@],
        m.stage is ForwardAdvance ==> m.args() == seq![
            "-C"@,
            m.repo,
            "update-ref"@,
            "refs/heads/"@ + m.base_ref,
            m.task_sha,
            m.base_sha,
        ],
        m.stage is MergeAdvance ==> m.args() == seq![
            "-C"@,
            m.repo,
            "update-ref"@,
            "refs/heads/"@ + m.base_ref,
            m.commit,
            m.base_sha,
        ],
{
}

/// A merge goes by what `git` answered: each commit it works with is the one it
/// was told, a base behind the task is fast-forwarded and any other merged, and
/// only a base that is checked out is touched through the working tree.
pub proof fn law_merge_goes_by_the_answers(m: MergeRunView, reply: GitReply)
    ensures
        m.stage is TaskTip && reply.ok() ==> m.after(reply).0 == (MergeRunView {
            task_sha: text::trimmed(reply.out()),
            stage: MergeStage::BaseIsBranch,
            ..m
        }) && m.after(reply).1 is None,
        m.stage is BaseIsBranch && reply.ok() ==> m.after(reply).0 == (MergeRunView {
            stage: MergeStage::BaseTip,
            ..m
        }) && m.after(reply).1 is None,
        m.stage is BaseTip && reply.ok() ==> m.after(reply).0 == (MergeRunView {
            base_sha: text::trimmed(reply.out()),
            stage: MergeStage::Head,
            ..m
        }) && m.after(reply).1 is None,
        m.stage is Head ==> m.after(reply).0 == (MergeRunView {
            checked_out: reply.ok() && text::trimmed(reply.out()) == m.base_ref,
            stage: MergeStage::Ancestor,
            ..m
        }) && m.after(reply).1 is None,
        m.stage is Ancestor ==> {
            let (next, end) = m.after(reply);
            &&& end is None
            &&& next.stage is MergeTree <==> !reply.ok()
            &&& next.stage is ForwardStatus <==> reply.ok() && m.checked_out
            &&& next.stage is ForwardAdvance <==> reply.ok() && !m.checked_out
            &&& next == (MergeRunView { stage: next.stage, ..m })
        },
        m.stage is MergeTree && m.after(reply).1 is None ==> {
            let next = m.after(reply).0;
            &&& reply matches GitReply::Ran { code, .. } && code == Some(0i32)
            &&& Some(next.tree) == first_line(reply.out())
            &&& next.stage is MergeStatus <==> m.checked_out
            &&& next.stage is CommitTree <==> !m.checked_out
            &&& next == (MergeRunView { stage: next.stage, tree: next.tree, ..m })
        },
        m.stage is MergeTree && (reply matches GitReply::Ran { code, .. } && code == Some(0i32))
            && first_line(reply.out()) is Some ==> m.after(reply).1 is None,
        m.stage is CommitTree && reply.ok() ==> m.after(reply).0 == (MergeRunView {
            commit: text::trimmed(reply.out()),
            stage: MergeStage::MergeAdvance,
            ..m
        }) && m.after(reply).1 is None,
        m.stage is MergeInPlace && reply.ok() ==> m.after(reply).0 == (MergeRunView {
            stage: MergeStage::MergedHead,
            ..m
        }) && m.after(reply).1 is None,
        (m.stage is ForwardStatus || m.stage is MergeStatus) && reply.ok() ==> (m.after(
            reply,
        ).1 is None <==> text::trimmed(reply.out()).len() == 0),
{
}

/// A merge that went through reports the commit the base now points at: the
/// task's tip after a fast-forward, what `HEAD` reads after a merge in place, and
/// the merge commit otherwise.
pub proof fn law_merge_reports_where_the_base_points(m: MergeRunView, reply: GitReply)
    ensures
        (m.stage is ForwardMerge || m.stage is ForwardAdvance || m.stage is MergedHead || m.stage
            is MergeAdvance) && reply.ok() ==> m.after(reply).1 == Some(
            Ok::<MergeOutcomeView, FaultView>(
                MergeOutcomeView {
                    merged_sha: if m.stage is MergedHead {
                        text::trimmed(reply.out())
                    } else if m.stage is MergeAdvance {
                        m.commit
                    } else {
                        m.task_sha
                    },
                    base_ref: m.base_ref,
                    branch: task_branch(m.task_id),
                    fast_forward: m.stage is ForwardMerge || m.stage is ForwardAdvance,
                },
            ),
        ),
        !(m.stage is Over) && (m.after(reply).1 matches Some(Ok(_))) ==> reply.ok() && (m.stage
            is ForwardMerge || m.stage is ForwardAdvance || m.stage is MergedHead || m.stage
            is MergeAdvance),
        m.stage is Over ==> m.after(reply) == (m, None::<MergeEnd>),
{
}

/// A command that failed ends the merge in an error, save the two that are asked
/// as questions: what is checked out, and whether the base lies behind the task.
pub proof fn law_failed_commands_end_the_merge(m: MergeRunView, reply: GitReply)
    requires
        !reply.ok(),
        !(m.stage is Over || m.stage is Head || m.stage is Ancestor || m.stage is MergeTree),
    ensures
        m.after(reply).1 matches Some(Err(_)),
        m.after(reply).0.stage is Over,
{
}

proof fn lemma_told(m: MergeRunView, replies: Seq<GitReply>)
    requires
        m.stage is TaskTip,
    ensures
        ({
            let now = after_all(m, replies);
            &&& now.repo == m.repo
            &&& now.base_ref == m.base_ref
            &&& now.task_id == m.task_id
        }),
    decreases replies.len(),
{
    if replies.len() > 0 {
        lemma_told(m, replies.drop_last());
    }
}

/// A merge never turns to another repository, base or task than it began with.
pub proof fn law_merge_keeps_to_its_task(
    repo: Seq<char>,
    base_ref: Seq<char>,
    task_id: Seq<char>,
    replies: Seq<GitReply>,
)
    ensures
        ({
            let now = after_all(MergeRunView::fresh(repo, base_ref, task_id), replies);
            &&& now.repo == repo
            &&& now.base_ref == base_ref
            &&& now.task_id == task_id
        }),
        MergeRunView::fresh(repo, base_ref, task_id).stage is TaskTip,
{
    lemma_told(MergeRunView::fresh(repo, base_ref, task_id), replies);
}

/// The first line of a text is what stands before its first line end, trimmed, and
/// nothing where that is blank.
pub proof fn law_first_line_ends_at_the_line_end(line: Seq<char>, rest: Seq<char>)
    requires
        !line.contains('\n'),
    ensures
        first_line(line) == (if text::blank(line) {
            None
        } else {
            Some(text::trimmed(line))
        }),
        first_line(line.push('\n') + rest) == first_line(line),
{
    lemma_first_piece(line, rest);
    lemma_one_piece(line);
}

proof fn lemma_one_piece(line: Seq<char>)
    requires
        !line.contains('\n'),
    ensures
        text::pieces(line, '\n') == seq![line],
    decreases line.len(),
{
    if line.len() > 0 {
        let rest = line.drop_last();
        assert forall|k: int| 0 <= k < rest.len() implies rest[k] != '\n' by {
            assert(line.contains(line[k]));
        }
        lemma_one_piece(rest);
        assert(line.contains(line[line.len() - 1]));
        let all = text::pieces(line, '\n');
        assert(rest.push(line.last()) =~= line);
        assert(all =~= seq![line]);
    } else {
        assert(line =~= Seq::<char>::empty());
    }
}

proof fn lemma_first_piece(line: Seq<char>, rest: Seq<char>)
    requires
        !line.contains('\n'),
    ensures
        text::pieces(line.push('\n') + rest, '\n').len() >= 2,
        text::pieces(line.push('\n') + rest, '\n')[0] == line,
    decreases rest.len(),
{
    let s = line.push('\n') + rest;
    if rest.len() == 0 {
        assert(s.drop_last() =~= line);
        lemma_one_piece(line);
    } else {
        assert(s.drop_last() =~= line.push('\n') + rest.drop_last());
        lemma_first_piece(line, rest.drop_last());
    }
}

/// A refusal says what it is about: a dirty tree, and a base that is no branch, by
/// the base's name; a conflict by the base, the task's branch and every path that
/// is in conflict; a missing branch by the task's.
pub proof fn law_refusals_name_the_branches(m: MergeRunView, out: Seq<char>, reply: GitReply)
    ensures
        text::contains_text(m.dirty().message, m.base_ref),
        text::contains_text(m.conflict(out).message, m.base_ref),
        text::contains_text(m.conflict(out).message, task_branch(m.task_id)),
        text::contains_text(
            m.conflict(out).message,
            text::joined(text::content_lines(out), ", "@),
        ),
        m.stage is TaskTip && !reply.ok() ==> (m.after(reply).1 matches Some(Err(e))
            && text::contains_text(e.message, task_branch(m.task_id))),
        m.stage is BaseIsBranch && !reply.ok() ==> (m.after(reply).1 matches Some(Err(e))
            && text::contains_text(e.message, m.base_ref)),
        m.stage is ForwardStatus && reply.ok() && text::trimmed(reply.out()).len() > 0 ==> m.after(
            reply,
        ).1 == Some(Err::<MergeOutcomeView, FaultView>(m.dirty())),
        m.stage is MergeStatus && reply.ok() && text::trimmed(reply.out()).len() > 0 ==> m.after(
            reply,
        ).1 == Some(Err::<MergeOutcomeView, FaultView>(m.dirty())),
{
    let b = m.branch();
    assert(b == task_branch(m.task_id));
    text::lemma_stands_inside(
        "base branch '"@,
        m.base_ref,
        "' is checked out with a dirty working tree; commit/stash then merge"@,
    );
    let paths = text::joined(text::content_lines(out), ", "@);
    let w1 = "base '"@;
    let w2 = "' has advanced and merging "@;
    let w3 = " conflicts — resolve manually (conflicted paths: "@;
    let w4 = ")"@;
    let all = m.conflict(out).message;
    text::lemma_stands_inside(w1, m.base_ref, w2 + b + w3 + paths + w4);
    assert(w1 + m.base_ref + (w2 + b + w3 + paths + w4) =~= all);
    text::lemma_stands_inside(w1 + m.base_ref + w2, b, w3 + paths + w4);
    assert(w1 + m.base_ref + w2 + b + (w3 + paths + w4) =~= all);
    text::lemma_stands_inside(w1 + m.base_ref + w2 + b + w3, paths, w4);
    text::lemma_stands_inside("task branch "@, b, " is missing; nothing to merge"@);
    text::lemma_stands_inside(
        "base_ref '"@,
        m.base_ref,
        "' is not a local branch; merge manually"@,
    );
}

/// Only four commands ever move the base: a fast-forward or a merge of what is
/// checked out, and an update of its reference to either.
pub proof fn law_four_commands_move_the_base(stage: MergeStage, end: MergeOutcome, error: Fault)
    ensures
        moves_the_base(stage) <==> stage == MergeStage::ForwardMerge || stage
            == MergeStage::ForwardAdvance || stage == MergeStage::MergeInPlace || stage
            == MergeStage::MergeAdvance,
        end_view(Some(Ok(end))) == Some(Ok::<MergeOutcomeView, FaultView>(end.deep_view())),
        end_view(Some(Err(error))) == Some(Err::<MergeOutcomeView, FaultView>(error.deep_view())),
        end_view(None) is None,
{
}

/// What is said of a merge, and of what came of it, is what it holds, field by
/// field.
pub proof fn law_merges_are_said_whole(
    merge_outcome: MergeOutcome,
    merge_run: MergeRun,
)
    ensures
        merge_outcome.deep_view().merged_sha == merge_outcome.merged_sha@,
        merge_outcome.deep_view().base_ref == merge_outcome.base_ref@,
        merge_outcome.deep_view().branch == merge_outcome.branch@,
        merge_outcome.deep_view().fast_forward == merge_outcome.fast_forward,
        merge_run.deep_view().stage == merge_run.stage,
        merge_run.deep_view().repo == merge_run.repo@,
        merge_run.deep_view().base_ref == merge_run.base_ref@,
        merge_run.deep_view().task_id == merge_run.task_id@,
        merge_run.deep_view().task_sha == merge_run.task_sha@,
        merge_run.deep_view().base_sha == merge_run.base_sha@,
        merge_run.deep_view().checked_out == merge_run.checked_out,
        merge_run.deep_view().tree == merge_run.tree@,
        merge_run.deep_view().commit == merge_run.commit@,
{
}

/// A trial merge that could not be tried is an error: one that did not start says
/// why, one that ended in neither of the two ways it can says what it wrote, and
/// one that was clean but wrote no tree does not pass for a merge.
pub proof fn law_trial_merges_must_be_told(m: MergeRunView, reply: GitReply)
    requires
        m.stage is MergeTree,
    ensures
        reply matches GitReply::NotStarted(why) ==> (m.after(reply).1 matches Some(Err(e))
            && e.cause == Some(why@)),
        reply is Ran && reply->code == Some(0i32) && first_line(reply.out()) is None ==> (m.after(
            reply,
        ).1 matches Some(Err(_))),
        reply is Ran && reply->code != Some(0i32) && reply->code != Some(1i32) ==> (m.after(
            reply,
        ).1 matches Some(Err(e)) && e.cause is None && text::contains_text(
            e.message,
            reply->Ran_stdout@,
        ) && text::contains_text(e.message, reply->Ran_stderr@) && text::contains_text(
            e.message,
            reply->status@,
        )),
        m.after(reply).1 is Some ==> m.after(reply).0.stage is Over,
{
    if reply is Ran {
        let a = "`git merge-tree` failed ("@;
        let b = "): "@;
        let x = reply->status@;
        let y = reply->Ran_stdout@;
        let z = reply->Ran_stderr@;
        let none = Seq::<char>::empty();
        text::lemma_stands_inside(a, x, b + y + z);
        assert(a + x + (b + y + z) =~= a + x + b + y + z);
        text::lemma_stands_inside(a + x + b, y, z);
        text::lemma_stands_inside(a + x + b + y, z, none);
        assert(a + x + b + y + z + none =~= a + x + b + y + z);
    }
}

/// What a failed command said is never lost: it is the error, or the cause of the
/// error that names the step it failed at.
pub proof fn law_failures_keep_their_cause(m: MergeRunView, reply: GitReply)
    requires
        !reply.ok(),
    ensures
        ({
            let said = git::git_fault(m.args(), reply);
            let end = m.after(reply).1;
            &&& m.stage is TaskTip || m.stage is ForwardMerge || m.stage is ForwardAdvance || m.stage
                is MergeInPlace || m.stage is CommitTree || m.stage is MergeAdvance ==> (end
                matches Some(Err(e)) && e.cause == Some(said.full()))
            &&& m.stage is BaseTip || m.stage is ForwardStatus || m.stage is MergeStatus || m.stage
                is MergedHead ==> end == Some(Err::<MergeOutcomeView, FaultView>(said))
        }),
{
}

} // verus!
