//! The daemon's control surface: its options, and what it answers to each
//! request. The journal, the sockets and the sessions are outside; what is read
//! from them comes in as an argument.

use crate::delegate::DelegationState;
use crate::domain::{EventKind, KillKind};
use crate::json::{
    self, as_text, compact, into_object, null, object, of_list, of_object, parse, put, put_int,
    put_text, put_text_or_null, take, Json,
};
use crate::merge::MergeOutcome;
use crate::model_auth::{self, build_model_auth, model_auth_error};
use crate::resolve::{Resolution, ResolvedProfileView};
use crate::table::Table;
use crate::text::{self, cat2, cat3, quote, same, strip_prefix};
use serde_json::Value;
use vstd::prelude::*;

verus! {

broadcast use vstd::string::group_string_axioms;

// ---------------------------------------------------------------------------
// Options
// ---------------------------------------------------------------------------

/// Startup options of the daemon.
#[derive(Debug)]
pub struct Options {
    /// The profile asked for on the command line.
    pub profile: Option<String>,
    /// Whether to detach from the controlling terminal.
    pub detach: bool,
}

/// The profile that the last `--profile <name>` or `--profile=<name>` among the
/// arguments asks for; `found` where there is none.
pub open spec fn profile_asked(args: Seq<Seq<char>>, found: Option<Seq<char>>) -> Option<Seq<char>>
    decreases args.len(),
{
    if args.len() == 0 {
        found
    } else if text::begins(args[0], "--profile="@) {
        profile_asked(args.skip(1), Some(args[0].skip("--profile="@.len() as int)))
    } else if args[0] == "--profile"@ && args.len() > 1 {
        profile_asked(args.skip(2), Some(args[1]))
    } else {
        profile_asked(args.skip(1), found)
    }
}

/// Reads the daemon's options from its arguments. Anything that is not a
/// profile is ignored; a daemon started from the command line detaches.
pub fn options_from_args(args: &[String]) -> (r: Options)
    ensures
        r.profile.deep_view() == profile_asked(args.deep_view(), None),
        r.detach,
{
    let mut profile: Option<String> = None;
    let mut i: usize = 0;
    let count: usize = args.len();
    assert(args.deep_view().skip(0) =~= args.deep_view());
    while i < count
        invariant
            count == args@.len(),
            i <= count,
            profile_asked(args.deep_view(), None) == profile_asked(
                args.deep_view().skip(i as int),
                profile.deep_view(),
            ),
        decreases count - i,
    {
        let ghost rest = args.deep_view().skip(i as int);
        assert(rest[0] == args@[i as int]@);
        assert(rest.skip(1) =~= args.deep_view().skip(i + 1));
        match strip_prefix(&args[i], "--profile=") {
            Some(v) => {
                assert(v@ =~= rest[0].skip("--profile="@.len() as int));
                profile = Some(v.to_owned());
            },
            None => {
                if same(&args[i], "--profile") && i + 1 < count {
                    assert(rest[1] == args@[i + 1]@);
                    assert(rest.skip(2) =~= args.deep_view().skip(i + 2));
                    i = i + 1;
                    profile = Some(args[i].clone());
                }
            },
        }
        i = i + 1;
    }
    assert(args.deep_view().skip(i as int).len() == 0);
    Options { profile, detach: true }
}

/// The number of slots where no profile could be resolved.
pub const DEFAULT_MACHINE_CAP: u32 = 4;

/// How many tasks may run at once on this machine.
pub fn resolve_machine_cap(res: &Resolution) -> (r: u32)
    ensures
        r == (match res.resolved {
            Ok(rp) => rp.concurrency.machine_cap,
            Err(_) => DEFAULT_MACHINE_CAP,
        }),
{
    match &res.resolved {
        Ok(rp) => rp.concurrency.machine_cap,
        Err(_) => DEFAULT_MACHINE_CAP,
    }
}

// ---------------------------------------------------------------------------
// Requests
// ---------------------------------------------------------------------------

/// The document to read in a request line, or the error where the client sent
/// nothing. `bytes` is how many bytes were read.
pub fn request_document(bytes: usize, line: &str) -> (r: Result<&str, &'static str>)
    ensures
        match r {
            Ok(doc) => bytes > 0 && doc@ == text::trimmed_end(line@),
            Err(m) => bytes == 0 && m@ == "empty request"@,
        },
{
    if bytes == 0 {
        Err("empty request")
    } else {
        Ok(text::trim_end(line))
    }
}

/// The requests whose answer comes straight from the journal or from reading
/// the request.
#[derive(Debug, Clone, Copy, PartialEq, Eq, Structural)]
pub enum Surface {
    Parsing,
    Ps,
    TaskStatus,
    RegisterAdvisor,
    DrainInbox,
}

impl Surface {
    /// What an error of such a request begins with.
    pub open spec fn prefix(self) -> Seq<char> {
        match self {
            Surface::Parsing => "malformed request: "@,
            Surface::Ps => "ps failed: "@,
            Surface::TaskStatus => "task_status failed: "@,
            Surface::RegisterAdvisor => "register_advisor failed: "@,
            Surface::DrainInbox => "drain_inbox failed: "@,
        }
    }
}

/// The answer to a request that failed.
pub fn surface_error(surface: Surface, error: &str) -> (r: String)
    ensures
        r@ == surface.prefix() + error@,
{
    let prefix = match surface {
        Surface::Parsing => "malformed request: ",
        Surface::Ps => "ps failed: ",
        Surface::TaskStatus => "task_status failed: ",
        Surface::RegisterAdvisor => "register_advisor failed: ",
        Surface::DrainInbox => "drain_inbox failed: ",
    };
    cat2(prefix, error)
}

// ---------------------------------------------------------------------------
// Killing a session
// ---------------------------------------------------------------------------

/// What kind of kill a request asks for.
pub open spec fn kill_kind(kind: Seq<char>) -> Option<KillKind> {
    if kind == "human"@ {
        Some(KillKind::Human)
    } else if kind == "advisor"@ {
        Some(KillKind::Advisor)
    } else {
        None
    }
}

/// Finds the session to kill and how to kill it. A kind that does not exist is
/// refused first, a task without a live driven session next.
pub fn kill_task<'a, H>(state: &'a DelegationState<H>, task_id: &str, kind: &str) -> (r: Result<
    (KillKind, &'a H),
    String,
>)
    requires
        state.wf(),
    ensures
        match r {
            Ok((k, h)) => kill_kind(kind@) == Some(k) && state.live().contains_key(task_id@)
                && state.live()[task_id@] == *h,
            Err(m) => match kill_kind(kind@) {
                None => m@ == "kill_task: invalid kind "@ + text::quoted(kind@)
                    + " (want human|advisor)"@,
                Some(_) => !state.live().contains_key(task_id@) && m@ == "task "@ + task_id@
                    + " is not a running driven session"@,
            },
        },
{
    let kill = if same(kind, "human") {
        KillKind::Human
    } else if same(kind, "advisor") {
        KillKind::Advisor
    } else {
        return Err(cat3("kill_task: invalid kind ", &quote(kind), " (want human|advisor)"));
    };
    match state.session_handle(task_id) {
        Some(h) => Ok((kill, h)),
        None => Err(cat3("task ", task_id, " is not a running driven session")),
    }
}

// ---------------------------------------------------------------------------
// Closing a task
// ---------------------------------------------------------------------------

/// What the journal said when asked for a task's state.
#[derive(Debug)]
pub enum StateReply {
    /// The state, if the task has one.
    Known(Option<EventKind>),
    Failed(String),
}

/// The event that closes a task.
pub open spec fn closing(outcome: Seq<char>, successor: Option<Seq<char>>) -> Map<Seq<char>, Json> {
    map![
        "kind"@ => Json::Text("verification_failed"@),
        "outcome"@ => Json::Text(outcome),
        "superseded_by"@ => json::text_or_null(successor),
    ]
}

/// Whether a task can be closed with this outcome.
pub open spec fn closing_outcome(outcome: Seq<char>) -> bool {
    outcome == "abandoned"@ || outcome == "superseded"@
}

/// What a request to close a task comes to: the payload of the terminal
/// `failed` event, or the error. Only a blocked task can be closed, as
/// abandoned or as superseded.
pub open spec fn closed(
    task_id: Seq<char>,
    outcome: Seq<char>,
    successor: Option<Seq<char>>,
    state: StateReply,
) -> Result<Seq<char>, Seq<char>> {
    if !closing_outcome(outcome) {
        Err(
            "close_task: invalid outcome "@ + text::quoted(outcome)
                + " (want abandoned|superseded)"@,
        )
    } else {
        match state {
            StateReply::Known(Some(EventKind::Blocked)) => Ok(
                json::compact_text(closing(outcome, successor)),
            ),
            StateReply::Known(_) => Err("close_task: task "@ + task_id + " is not blocked"@),
            StateReply::Failed(e) => Err("close_task: "@ + e@),
        }
    }
}

/// What a result of texts says.
pub open spec fn text_result(r: Result<String, String>) -> Result<Seq<char>, Seq<char>> {
    match r {
        Ok(s) => Ok(s@),
        Err(e) => Err(e@),
    }
}

/// Closes a blocked task.
pub fn close_task(
    task_id: &str,
    outcome: &str,
    successor: &Option<String>,
    state: StateReply,
) -> (r: Result<String, String>)
    ensures
        text_result(r) == closed(task_id@, outcome@, successor.deep_view(), state),
{
    if !same(outcome, "abandoned") && !same(outcome, "superseded") {
        return Err(
            cat3("close_task: invalid outcome ", &quote(outcome), " (want abandoned|superseded)"),
        );
    }
    match state {
        StateReply::Known(Some(EventKind::Blocked)) => {
            let mut m = object();
            put_text(&mut m, "kind", "verification_failed");
            put_text(&mut m, "outcome", outcome);
            put_text_or_null(&mut m, "superseded_by", successor);
            assert(json::fields(m) =~= closing(outcome@, successor.deep_view()));
            Ok(compact(m))
        },
        StateReply::Known(_) => Err(cat3("close_task: task ", task_id, " is not blocked")),
        StateReply::Failed(e) => Err(cat2("close_task: ", &e)),
    }
}

/// The answer where the closing event could not be written.
pub fn close_unrecorded(error: &str) -> (r: String)
    ensures
        r@ == "close_task: append failed: "@ + error@,
{
    cat2("close_task: append failed: ", error)
}

// ---------------------------------------------------------------------------
// Merging a task
// ---------------------------------------------------------------------------

/// Where a merge request stands.
#[derive(Debug, Clone, Copy, PartialEq, Eq, Structural)]
pub enum MergePhase {
    /// Waiting for the task's state.
    State,
    /// Waiting for its repository and base.
    Repo,
    /// Waiting for the merge.
    Merge,
    /// Waiting for the journal to take the event.
    Record,
    /// Answered.
    Over,
}

/// What a merge request asks for next.
#[derive(Debug)]
pub enum MergeStep {
    /// Read the task's repository and base.
    ReadRepo,
    /// Merge the task's branch.
    Merge {
        repo: String,
        base_ref: String,
    },
    /// Append the `merged` event.
    Append {
        payload: String,
    },
    /// Remove the worktree, delete the branch, and answer that it is merged.
    CleanUp {
        repo: String,
    },
    /// Answer with an error.
    Refuse(String),
}

/// What a [`MergeStep`] says.
#[verifier::ext_equal]
pub enum MergeStepView {
    ReadRepo,
    Merge { repo: Seq<char>, base_ref: Seq<char> },
    Append { payload: Seq<char> },
    CleanUp { repo: Seq<char> },
    Refuse(Seq<char>),
}

impl DeepView for MergeStep {
    type V = MergeStepView;

    open spec fn deep_view(&self) -> MergeStepView {
        match self {
            MergeStep::ReadRepo => MergeStepView::ReadRepo,
            MergeStep::Merge { repo, base_ref } => MergeStepView::Merge {
                repo: repo@,
                base_ref: base_ref@,
            },
            MergeStep::Append { payload } => MergeStepView::Append { payload: payload@ },
            MergeStep::CleanUp { repo } => MergeStepView::CleanUp { repo: repo@ },
            MergeStep::Refuse(m) => MergeStepView::Refuse(m@),
        }
    }
}

/// A request to merge a task's branch into its base.
#[derive(Debug)]
pub struct MergeRequest {
    task_id: String,
    repo: String,
    phase: MergePhase,
}

/// What a [`MergeRequest`] says.
#[verifier::ext_equal]
pub struct MergeRequestView {
    pub task_id: Seq<char>,
    pub repo: Seq<char>,
    pub phase: MergePhase,
}

impl DeepView for MergeRequest {
    type V = MergeRequestView;

    closed spec fn deep_view(&self) -> MergeRequestView {
        MergeRequestView { task_id: self.task_id@, repo: self.repo@, phase: self.phase }
    }
}

/// What the journal said when asked for a task's repository and base.
#[derive(Debug)]
pub enum RepoReply {
    Known {
        repo: Option<String>,
        base_ref: String,
    },
    Failed(String),
}

/// The payload of the `merged` event.
pub open spec fn merged_payload(
    base_ref: Seq<char>,
    branch: Seq<char>,
    merged_sha: Seq<char>,
) -> Map<Seq<char>, Json> {
    map![
        "base_ref"@ => Json::Text(base_ref),
        "branch"@ => Json::Text(branch),
        "merged_sha"@ => Json::Text(merged_sha),
    ]
}

impl MergeRequestView {
    /// A refusal.
    pub open spec fn refuse(self, message: Seq<char>) -> (MergeRequestView, MergeStepView) {
        (
            MergeRequestView { phase: MergePhase::Over, ..self },
            MergeStepView::Refuse("merge_task: "@ + message),
        )
    }

    /// What follows from the task's state: only a task that passed and rests is
    /// merged.
    pub open spec fn after_state(self, reply: StateReply) -> (MergeRequestView, MergeStepView) {
        match reply {
            StateReply::Known(Some(EventKind::VerifyPassed)) => (
                MergeRequestView { phase: MergePhase::Repo, ..self },
                MergeStepView::ReadRepo,
            ),
            StateReply::Known(Some(EventKind::Merged)) => self.refuse(
                "task "@ + self.task_id + " is already merged"@,
            ),
            StateReply::Known(_) => self.refuse(
                "task "@ + self.task_id + " is not in a merge-ready (verify_passed) state"@,
            ),
            StateReply::Failed(e) => self.refuse(e@),
        }
    }

    /// What follows from its repository and base.
    pub open spec fn after_repo(self, reply: RepoReply) -> (MergeRequestView, MergeStepView) {
        match reply {
            RepoReply::Known { repo: Some(repo), base_ref } => (
                MergeRequestView { repo: repo@, phase: MergePhase::Merge, ..self },
                MergeStepView::Merge { repo: repo@, base_ref: base_ref@ },
            ),
            RepoReply::Known { repo: None, .. } => self.refuse(
                "task "@ + self.task_id + " has no recorded repo path; merge manually"@,
            ),
            RepoReply::Failed(e) => self.refuse(e@),
        }
    }

    /// What follows from the merge.
    pub open spec fn after_merge(self, reply: Result<MergeOutcome, String>) -> (
        MergeRequestView,
        MergeStepView,
    ) {
        match reply {
            Ok(o) => (
                MergeRequestView { phase: MergePhase::Record, ..self },
                MergeStepView::Append {
                    payload: json::compact_text(
                        merged_payload(o.base_ref@, o.branch@, o.merged_sha@),
                    ),
                },
            ),
            Err(e) => self.refuse(e@),
        }
    }

    /// What follows from writing the event.
    pub open spec fn after_append(self, error: Option<Seq<char>>) -> (
        MergeRequestView,
        MergeStepView,
    ) {
        match error {
            None => (
                MergeRequestView { phase: MergePhase::Over, ..self },
                MergeStepView::CleanUp { repo: self.repo },
            ),
            Some(e) => self.refuse("append merged failed: "@ + e),
        }
    }
}

/// Takes up a request to merge a task: its state comes first.
pub fn merge_task(task_id: &str) -> (r: MergeRequest)
    ensures
        r.deep_view() == (MergeRequestView {
            task_id: task_id@,
            repo: Seq::empty(),
            phase: MergePhase::State,
        }),
{
    let repo = String::new();
    assert(repo@ =~= Seq::<char>::empty());
    MergeRequest { task_id: task_id.to_owned(), repo, phase: MergePhase::State }
}

impl MergeRequest {
    fn refuse(&mut self, message: &str) -> (r: MergeStep)
        ensures
            (final(self).deep_view(), r.deep_view()) == old(self).deep_view().refuse(message@),
    {
        self.phase = MergePhase::Over;
        MergeStep::Refuse(cat2("merge_task: ", message))
    }

    /// Takes the task's state.
    pub fn on_state(&mut self, reply: StateReply) -> (r: MergeStep)
        requires
            old(self).deep_view().phase == MergePhase::State,
        ensures
            (final(self).deep_view(), r.deep_view()) == old(self).deep_view().after_state(reply),
    {
        match reply {
            StateReply::Known(Some(EventKind::VerifyPassed)) => {
                self.phase = MergePhase::Repo;
                MergeStep::ReadRepo
            },
            StateReply::Known(Some(EventKind::Merged)) => {
                let m = cat3("task ", &self.task_id, " is already merged");
                self.refuse(&m)
            },
            StateReply::Known(_) => {
                let m = cat3(
                    "task ",
                    &self.task_id,
                    " is not in a merge-ready (verify_passed) state",
                );
                self.refuse(&m)
            },
            StateReply::Failed(e) => self.refuse(&e),
        }
    }

    /// Takes the task's repository and base.
    pub fn on_repo(&mut self, reply: RepoReply) -> (r: MergeStep)
        requires
            old(self).deep_view().phase == MergePhase::Repo,
        ensures
            (final(self).deep_view(), r.deep_view()) == old(self).deep_view().after_repo(reply),
    {
        match reply {
            RepoReply::Known { repo: Some(repo), base_ref } => {
                self.repo = repo.clone();
                self.phase = MergePhase::Merge;
                MergeStep::Merge { repo, base_ref }
            },
            RepoReply::Known { repo: None, .. } => {
                let m = cat3("task ", &self.task_id, " has no recorded repo path; merge manually");
                self.refuse(&m)
            },
            RepoReply::Failed(e) => self.refuse(&e),
        }
    }

    /// Takes the outcome of the merge, or the full words of its failure.
    pub fn on_merge(&mut self, reply: Result<MergeOutcome, String>) -> (r: MergeStep)
        requires
            old(self).deep_view().phase == MergePhase::Merge,
        ensures
            (final(self).deep_view(), r.deep_view()) == old(self).deep_view().after_merge(reply),
    {
        match reply {
            Ok(o) => {
                self.phase = MergePhase::Record;
                let mut m = object();
                put_text(&mut m, "base_ref", &o.base_ref);
                put_text(&mut m, "branch", &o.branch);
                put_text(&mut m, "merged_sha", &o.merged_sha);
                assert(json::fields(m) =~= merged_payload(o.base_ref@, o.branch@, o.merged_sha@));
                MergeStep::Append { payload: compact(m) }
            },
            Err(e) => self.refuse(&e),
        }
    }

    /// Takes the error of writing the event, if there was one.
    pub fn on_append(&mut self, error: Option<String>) -> (r: MergeStep)
        requires
            old(self).deep_view().phase == MergePhase::Record,
        ensures
            (final(self).deep_view(), r.deep_view()) == old(self).deep_view().after_append(
                error.deep_view(),
            ),
    {
        match error {
            None => {
                self.phase = MergePhase::Over;
                MergeStep::CleanUp { repo: self.repo.clone() }
            },
            Some(e) => {
                let m = cat2("append merged failed: ", &e);
                self.refuse(&m)
            },
        }
    }
}

// ---------------------------------------------------------------------------
// Journal queries
// ---------------------------------------------------------------------------

/// A journal query.
#[derive(Debug)]
pub enum Query {
    /// The verifier's reports on a task.
    VerifierReports {
        task_id: String,
    },
    /// The events of a task.
    Trace {
        task_id: String,
    },
    /// The telemetry of every task.
    RoutingReport,
}

/// What a [`Query`] says.
#[verifier::ext_equal]
#[allow(inconsistent_fields)]
pub enum QueryView {
    VerifierReports { task_id: Seq<char> },
    Trace { task_id: Seq<char> },
    RoutingReport,
}

impl DeepView for Query {
    type V = QueryView;

    open spec fn deep_view(&self) -> QueryView {
        match self {
            Query::VerifierReports { task_id } => QueryView::VerifierReports { task_id: task_id@ },
            Query::Trace { task_id } => QueryView::Trace { task_id: task_id@ },
            Query::RoutingReport => QueryView::RoutingReport,
        }
    }
}

/// The value under a key of a document, where it is an object that has the key.
pub open spec fn field_of(doc: Json, key: Seq<char>) -> Option<Json> {
    match doc {
        Json::Object(f) => if f.contains_key(key) {
            Some(f[key])
        } else {
            None
        },
        _ => None,
    }
}

/// The text under a key of a document, where there is one.
pub open spec fn text_field(doc: Json, key: Seq<char>) -> Option<Seq<char>> {
    match field_of(doc, key) {
        Some(Json::Text(t)) => Some(t),
        _ => None,
    }
}

/// What a query by this name and with these parameters asks for.
pub open spec fn query_of(name: Seq<char>, params: Json) -> Result<QueryView, Seq<char>> {
    let task = text_field(params, "task_id"@);
    if name == "verifier_reports"@ {
        match task {
            Some(task_id) => Ok(QueryView::VerifierReports { task_id }),
            None => Err("journal_query verifier_reports: missing params.task_id"@),
        }
    } else if name == "trace"@ {
        match task {
            Some(task_id) => Ok(QueryView::Trace { task_id }),
            None => Err("journal_query trace: missing params.task_id"@),
        }
    } else if name == "routing_report"@ {
        Ok(QueryView::RoutingReport)
    } else {
        Err("journal_query: unknown query "@ + text::quoted(name))
    }
}

/// What a read query says.
pub open spec fn query_result(r: Result<Query, String>) -> Result<QueryView, Seq<char>> {
    match r {
        Ok(q) => Ok(q.deep_view()),
        Err(e) => Err(e@),
    }
}

fn take_field(doc: Value, key: &str) -> (r: Option<Value>)
    ensures
        match r {
            Some(v) => field_of(json::document(doc), key@) == Some(json::document(v)),
            None => field_of(json::document(doc), key@) is None,
        },
{
    match into_object(doc) {
        Some(mut m) => take(&mut m, key),
        None => None,
    }
}

/// Reads a journal query.
pub fn journal_query(name: &str, params: Value) -> (r: Result<Query, String>)
    ensures
        query_result(r) == query_of(name@, json::document(params)),
{
    let field = take_field(params, "task_id");
    let task = match &field {
        Some(v) => as_text(v),
        None => None,
    };
    if same(name, "verifier_reports") {
        match task {
            Some(t) => Ok(Query::VerifierReports { task_id: t.to_owned() }),
            None => Err("journal_query verifier_reports: missing params.task_id".to_owned()),
        }
    } else if same(name, "trace") {
        match task {
            Some(t) => Ok(Query::Trace { task_id: t.to_owned() }),
            None => Err("journal_query trace: missing params.task_id".to_owned()),
        }
    } else if same(name, "routing_report") {
        Ok(Query::RoutingReport)
    } else {
        Err(cat2("journal_query: unknown query ", &quote(name)))
    }
}

impl Query {
    /// The answer where the journal could not be read.
    pub fn failed(&self, error: &str) -> (r: String)
        ensures
            r@ == (match self.deep_view() {
                QueryView::VerifierReports { .. } => "journal_query verifier_reports: "@,
                QueryView::Trace { .. } => "journal_query trace: "@,
                QueryView::RoutingReport => "journal_query routing_report: "@,
            }) + error@,
    {
        let prefix = match self {
            Query::VerifierReports { .. } => "journal_query verifier_reports: ",
            Query::Trace { .. } => "journal_query trace: ",
            Query::RoutingReport => "journal_query routing_report: ",
        };
        cat2(prefix, error)
    }
}

/// A verifier's report as the journal holds it.
#[derive(Debug)]
pub struct ReportRow {
    pub attempt: i64,
    pub independence: String,
    pub report: String,
}

/// The document in a text, or null where there is none.
pub open spec fn document_in(t: Seq<char>) -> Json {
    match json::parsed(t) {
        Ok(d) => d,
        Err(_) => Json::Null,
    }
}

/// A value, or null.
pub open spec fn or_null(j: Option<Json>) -> Json {
    match j {
        Some(j) => j,
        None => Json::Null,
    }
}

/// A verifier's report as it is answered: its verdict and findings, each null
/// where the report does not hold it.
pub open spec fn report_json(row: ReportRow) -> Json {
    let doc = document_in(row.report@);
    Json::Object(
        map![
            "attempt"@ => Json::Int(row.attempt as int),
            "independence"@ => Json::Text(row.independence@),
            "verdict"@ => or_null(field_of(doc, "verdict"@)),
            "findings"@ => or_null(field_of(doc, "findings"@)),
        ],
    )
}

fn field_in(t: &str, key: &str) -> (r: Value)
    ensures
        json::document(r) == or_null(field_of(document_in(t@), key@)),
{
    match parse(t) {
        Ok(doc) => match take_field(doc, key) {
            Some(v) => v,
            None => null(),
        },
        Err(_) => null(),
    }
}

fn report_value(row: &ReportRow) -> (r: Value)
    ensures
        json::document(r) == report_json(*row),
{
    let verdict = field_in(&row.report, "verdict");
    let findings = field_in(&row.report, "findings");
    let mut m = object();
    put_int(&mut m, "attempt", row.attempt);
    put_text(&mut m, "independence", &row.independence);
    put(&mut m, "verdict", verdict);
    put(&mut m, "findings", findings);
    assert(Json::Object(json::fields(m)) =~= report_json(*row));
    of_object(m)
}

/// The answer to a query for a task's verifier reports.
pub fn verifier_reports(rows: &Vec<ReportRow>) -> (r: Value)
    ensures
        json::document(r) == Json::List(rows@.map_values(|row: ReportRow| report_json(row))),
{
    let mut out: Vec<Value> = Vec::new();
    let mut i: usize = 0;
    while i < rows.len()
        invariant
            i <= rows@.len(),
            out@.len() == i,
            forall|j: int|
                0 <= j < i ==> json::document(#[trigger] out@[j]) == report_json(rows@[j]),
        decreases rows@.len() - i,
    {
        out.push(report_value(&rows[i]));
        i = i + 1;
    }
    assert(json::documents(out@) =~= rows@.map_values(|row: ReportRow| report_json(row)));
    of_list(out)
}

/// An event as the journal holds it.
#[derive(Debug)]
pub struct EventRow {
    pub seq: i64,
    pub kind: EventKind,
    pub ts: String,
    pub payload: Option<String>,
}

/// An event as it is answered; a payload that is no document is null.
pub open spec fn event_json(row: EventRow) -> Json {
    Json::Object(
        map![
            "seq"@ => Json::Int(row.seq as int),
            "kind"@ => Json::Text(row.kind.text()),
            "ts"@ => Json::Text(row.ts@),
            "payload"@ => match row.payload {
                Some(p) => document_in(p@),
                None => Json::Null,
            },
        ],
    )
}

fn event_value(row: &EventRow) -> (r: Value)
    ensures
        json::document(r) == event_json(*row),
{
    let payload = match &row.payload {
        Some(p) => match parse(p) {
            Ok(doc) => doc,
            Err(_) => null(),
        },
        None => null(),
    };
    let mut m = object();
    put_int(&mut m, "seq", row.seq);
    put_text(&mut m, "kind", row.kind.as_str());
    put_text(&mut m, "ts", &row.ts);
    put(&mut m, "payload", payload);
    assert(Json::Object(json::fields(m)) =~= event_json(*row));
    of_object(m)
}

/// The answer to a query for a task's events.
pub fn trace(rows: &Vec<EventRow>) -> (r: Value)
    ensures
        json::document(r) == Json::List(rows@.map_values(|row: EventRow| event_json(row))),
{
    let mut out: Vec<Value> = Vec::new();
    let mut i: usize = 0;
    while i < rows.len()
        invariant
            i <= rows@.len(),
            out@.len() == i,
            forall|j: int|
                0 <= j < i ==> json::document(#[trigger] out@[j]) == event_json(rows@[j]),
        decreases rows@.len() - i,
    {
        out.push(event_value(&rows[i]));
        i = i + 1;
    }
    assert(json::documents(out@) =~= rows@.map_values(|row: EventRow| event_json(row)));
    of_list(out)
}

// ---------------------------------------------------------------------------
// Advisors
// ---------------------------------------------------------------------------

/// What is recorded of a new advisor session.
#[derive(Debug)]
pub struct AdvisorEntry {
    pub profile: String,
    pub model: String,
    pub context: String,
}

/// The model and the context recorded for an advisor.
pub open spec fn advisor_of(resolved: Result<ResolvedProfileView, Seq<char>>) -> (
    Seq<char>,
    Seq<char>,
) {
    match resolved {
        Ok(rp) => (
            match rp.advisor.model {
                Some(m) => m,
                None => "unknown"@,
            },
            match rp.advisor.context {
                Some(c) => c,
                None => "standard"@,
            },
        ),
        Err(_) => ("unknown"@, "standard"@),
    }
}

/// What to record of a new advisor session.
pub fn register_advisor(res: &Resolution) -> (r: AdvisorEntry)
    ensures
        r.profile@ == res.profile@,
        (r.model@, r.context@) == advisor_of(res.outcome()),
{
    let (model, context) = match &res.resolved {
        Ok(rp) => (
            match &rp.advisor.model {
                Some(m) => m.clone(),
                None => "unknown".to_owned(),
            },
            match &rp.advisor.context {
                Some(c) => c.clone(),
                None => "standard".to_owned(),
            },
        ),
        Err(_) => ("unknown".to_owned(), "standard".to_owned()),
    };
    AdvisorEntry { profile: res.profile.clone(), model, context }
}

/// The profile to resolve for an advisor: the request's, or else the daemon's.
pub fn advisor_profile<'a>(request: Option<&'a str>, daemon: Option<&'a str>) -> (r: Option<
    &'a str,
>)
    ensures
        r == (if request is Some {
            request
        } else {
            daemon
        }),
{
    match request {
        Some(p) => Some(p),
        None => daemon,
    }
}

// ---------------------------------------------------------------------------
// Inboxes
// ---------------------------------------------------------------------------

/// An item of an advisor's inbox.
#[derive(Debug)]
pub struct InboxItem {
    pub event_id: String,
    pub task_id: String,
    pub ts: String,
    pub kind: String,
    pub summary: String,
    pub detail: Option<String>,
}

/// What an [`InboxItem`] says.
#[verifier::ext_equal]
pub struct InboxItemView {
    pub event_id: Seq<char>,
    pub task_id: Seq<char>,
    pub ts: Seq<char>,
    pub kind: Seq<char>,
    pub summary: Seq<char>,
    pub detail: Option<Seq<char>>,
}

impl DeepView for InboxItem {
    type V = InboxItemView;

    open spec fn deep_view(&self) -> InboxItemView {
        InboxItemView {
            event_id: self.event_id@,
            task_id: self.task_id@,
            ts: self.ts@,
            kind: self.kind@,
            summary: self.summary@,
            detail: self.detail.deep_view(),
        }
    }
}

/// The cursors after an advisor drained these items: its own moves to the last
/// of them, and stays where there is none.
pub open spec fn cursors_after(
    cursors: Map<Seq<char>, Seq<char>>,
    advisor: Seq<char>,
    items: Seq<InboxItemView>,
) -> Map<Seq<char>, Seq<char>> {
    if items.len() == 0 {
        cursors
    } else {
        cursors.insert(advisor, items.last().event_id)
    }
}

/// Up to which event each advisor has drained its inbox.
#[derive(Debug)]
pub struct InboxCursors {
    cursors: Table<String>,
}

impl View for InboxCursors {
    type V = Map<Seq<char>, Seq<char>>;

    closed spec fn view(&self) -> Map<Seq<char>, Seq<char>> {
        self.cursors@.map_values(|s: String| s@)
    }
}

impl InboxCursors {
    /// No advisor stands twice in the table.
    pub closed spec fn wf(self) -> bool {
        self.cursors.wf()
    }

    /// Nothing drained yet.
    pub fn new() -> (r: Self)
        ensures
            r.wf(),
            r@ == Map::<Seq<char>, Seq<char>>::empty(),
    {
        let r = InboxCursors { cursors: Table::new() };
        assert(r@ =~= Map::<Seq<char>, Seq<char>>::empty());
        r
    }

    /// The last event that an advisor drained.
    pub fn cursor(&self, advisor: &str) -> (r: Option<&str>)
        requires
            self.wf(),
        ensures
            match r {
                Some(c) => self@.contains_key(advisor@) && self@[advisor@] == c@,
                None => !self@.contains_key(advisor@),
            },
    {
        match self.cursors.get(advisor) {
            Some(c) => Some(c.as_str()),
            None => None,
        }
    }

    /// Notes what an advisor drained: its cursor moves to the last item, and
    /// stays where there is none.
    pub fn drained(&mut self, advisor: &str, items: &Vec<InboxItem>)
        requires
            old(self).wf(),
        ensures
            final(self).wf(),
            final(self)@ == cursors_after(old(self)@, advisor@, items.deep_view()),
    {
        let n: usize = items.len();
        if n > 0 {
            let ghost before = self.cursors@;
            let last = items[n - 1].event_id.clone();
            self.cursors.insert(advisor, last);
            proof {
                let got = self.cursors@.map_values(|s: String| s@);
                let want = before.map_values(|s: String| s@).insert(
                    advisor@,
                    items@.last().event_id@,
                );
                assert(got =~= want);
            }
        }
    }
}

/// Whether an advisor gets the payload of every event in its inbox. `context`
/// is the advisor's, if the journal knew the advisor.
pub fn inline_detail(context: &Option<String>) -> (r: bool)
    ensures
        r == (context.deep_view() == Some("1m"@)),
{
    text::opt_is(context, "1m")
}

/// The day of a timestamp: its first ten characters.
pub fn day_prefix(ts: &str) -> (r: String)
    ensures
        r@ == ts@.take(if 10 < ts@.len() { 10 } else { ts@.len() as int }),
{
    text::take_chars(ts, 10)
}

/// The tokens spent on a day, and by how many sessions.
#[derive(Debug, Clone, Copy)]
pub struct DayTotals {
    pub tokens_in: i64,
    pub tokens_out: i64,
    pub sessions: i64,
}

/// The line that sums up a day.
pub open spec fn daily_total(now: Seq<char>, t: DayTotals) -> InboxItemView {
    InboxItemView {
        event_id: Seq::empty(),
        task_id: Seq::empty(),
        ts: now,
        kind: "daily_total"@,
        summary: "today: "@ + text::decimal_int(t.tokens_in as int) + " in / "@
            + text::decimal_int(t.tokens_out as int) + " out tokens across "@
            + text::decimal_int(t.sessions as int) + " sessions"@,
        detail: None,
    }
}

/// What an advisor gets out of its inbox: the events, and a line for the day
/// where there were sessions on it.
pub open spec fn inbox(
    items: Seq<InboxItemView>,
    now: Seq<char>,
    totals: Option<DayTotals>,
) -> Seq<InboxItemView> {
    match totals {
        Some(t) => if t.sessions > 0 {
            items.push(daily_total(now, t))
        } else {
            items
        },
        None => items,
    }
}

/// What an advisor gets out of its inbox. The day's line is no event: it has no
/// id, and is added after the cursor has moved.
pub fn drain_inbox(items: Vec<InboxItem>, now: &str, totals: Option<DayTotals>) -> (r: Vec<
    InboxItem,
>)
    ensures
        r.deep_view() == inbox(items.deep_view(), now@, totals),
{
    let mut items = items;
    match totals {
        Some(t) => {
            if t.sessions > 0 {
                let ghost before = items.deep_view();
                let mut summary = cat3("today: ", &text::i64_text(t.tokens_in), " in / ");
                summary.append(&text::i64_text(t.tokens_out));
                summary.append(" out tokens across ");
                summary.append(&text::i64_text(t.sessions));
                summary.append(" sessions");
                let item = InboxItem {
                    event_id: String::new(),
                    task_id: String::new(),
                    ts: now.to_owned(),
                    kind: "daily_total".to_owned(),
                    summary,
                    detail: None,
                };
                assert(item.deep_view() =~= daily_total(now@, t));
                items.push(item);
                assert(items.deep_view() =~= before.push(daily_total(now@, t)));
            }
        },
        None => {},
    }
    items
}

// ---------------------------------------------------------------------------
// Doctor
// ---------------------------------------------------------------------------

/// The report on the models of the active profile, or the error where there is
/// no profile to report on.
pub fn doctor<E: Fn(&str) -> bool, C: Fn(&str) -> bool>(
    res: &Resolution,
    default_shim: &str,
    env_has: &E,
    cmd_on_path: &C,
) -> (r: Value)
    requires
        res.outcome() matches Ok(rp) ==> model_auth::report_askable(
            rp.roles,
            default_shim@,
            *env_has,
            *cmd_on_path,
        ),
    ensures
        match res.outcome() {
            Ok(rp) => model_auth::report_fits(
                json::document(r),
                rp.roles,
                default_shim@,
                *env_has,
                *cmd_on_path,
            ),
            Err(_) => json::document(r) == model_auth::no_report(),
        },
{
    match &res.resolved {
        Ok(rp) => build_model_auth(&rp.roles, default_shim, env_has, cmd_on_path),
        Err(_) => model_auth_error(),
    }
}

// ---------------------------------------------------------------------------
// Laws
// ---------------------------------------------------------------------------

/// Only a blocked task is closed, and only as abandoned or superseded.
pub proof fn law_only_blocked_tasks_close(
    task_id: Seq<char>,
    outcome: Seq<char>,
    successor: Option<Seq<char>>,
    state: StateReply,
)
    ensures
        closed(task_id, outcome, successor, state) is Ok <==> closing_outcome(outcome) && state
            == StateReply::Known(Some(EventKind::Blocked)),
{
}

/// A task is merged only from rest: the branch is touched only after the
/// journal said `verify_passed` and named a repository.
pub proof fn law_only_passed_tasks_merge(m: MergeRequestView, state: StateReply, repo: RepoReply)
    ensures
        m.after_state(state).1 is ReadRepo <==> state == StateReply::Known(
            Some(EventKind::VerifyPassed),
        ),
        m.after_repo(repo).1 is Merge <==> (repo matches RepoReply::Known { repo: Some(_), .. }),
{
}

/// A merge that failed is answered with an error and leaves no event; the
/// worktree goes only after the event was written.
pub proof fn law_failed_merges_leave_no_event(
    m: MergeRequestView,
    merge: Result<MergeOutcome, String>,
    append: Option<Seq<char>>,
)
    ensures
        m.after_merge(merge).1 is Append <==> merge is Ok,
        merge is Err ==> m.after_merge(merge).1 is Refuse,
        m.after_append(append).1 is CleanUp <==> append is None,
        append is Some ==> m.after_append(append).1 is Refuse,
{
}

/// Draining an inbox moves only its own cursor, to the last event handed out;
/// draining nothing moves none.
pub proof fn law_cursors_follow_what_was_drained(
    cursors: Map<Seq<char>, Seq<char>>,
    advisor: Seq<char>,
    other: Seq<char>,
    items: Seq<InboxItemView>,
)
    ensures
        ({
            let next = cursors_after(cursors, advisor, items);
            &&& items.len() == 0 ==> next == cursors
            &&& items.len() > 0 ==> next.contains_key(advisor) && next[advisor]
                == items.last().event_id
            &&& other != advisor ==> next.contains_key(other) == cursors.contains_key(other)
                && next[other] == cursors[other]
        }),
{
}

/// The day's line comes last, carries no event id, and leaves every event in
/// its place.
pub proof fn law_daily_total_is_no_event(
    items: Seq<InboxItemView>,
    now: Seq<char>,
    totals: Option<DayTotals>,
)
    ensures
        ({
            let got = inbox(items, now, totals);
            &&& items.is_prefix_of(got)
            &&& got.len() <= items.len() + 1
            &&& got.len() > items.len() ==> got.last().event_id.len() == 0 && got.last().kind
                == "daily_total"@
        }),
{
}

/// Both spellings ask for a profile, a later one overrides an earlier one, and
/// a `--profile` with nothing behind it asks for none.
pub proof fn law_later_profiles_win(
    name: Seq<char>,
    rest: Seq<Seq<char>>,
    found: Option<Seq<char>>,
)
    ensures
        profile_asked(seq!["--profile="@ + name] + rest, found) == profile_asked(rest, Some(name)),
        profile_asked(seq!["--profile"@, name] + rest, found) == profile_asked(rest, Some(name)),
        profile_asked(Seq::empty(), Some(name)) == Some(name),
        profile_asked(seq!["--profile"@], found) == found,
{
    reveal_strlit("--profile=");
    reveal_strlit("--profile");
    let joined = "--profile="@ + name;
    assert(joined.subrange(0, "--profile="@.len() as int) =~= "--profile="@);
    assert(joined.skip("--profile="@.len() as int) =~= name);
    assert((seq![joined] + rest).skip(1) =~= rest);
    assert((seq!["--profile"@, name] + rest).skip(2) =~= rest);
    assert(seq!["--profile"@].skip(1) =~= Seq::<Seq<char>>::empty());
    assert(profile_asked(seq!["--profile"@].skip(1), found) == found);
}

/// A word that asks for no profile changes nothing of what was asked for.
pub proof fn law_other_words_ask_for_no_profile(
    word: Seq<char>,
    rest: Seq<Seq<char>>,
    found: Option<Seq<char>>,
)
    requires
        word != "--profile"@,
        !text::begins(word, "--profile="@),
    ensures
        profile_asked(seq![word] + rest, found) == profile_asked(rest, found),
        profile_asked(Seq::empty(), found) == found,
{
    assert((seq![word] + rest).skip(1) =~= rest);
}

/// Only the two words that there are ask for a kill, each for its own.
pub proof fn law_kills_are_asked_for_by_name(kind: Seq<char>)
    ensures
        kill_kind(kind) == Some(KillKind::Human) <==> kind == "human"@,
        kill_kind(kind) == Some(KillKind::Advisor) <==> kind == "advisor"@,
        kill_kind(kind) is None <==> kind != "human"@ && kind != "advisor"@,
{
    reveal_strlit("human");
    reveal_strlit("advisor");
    assert("human"@.len() == 5 && "advisor"@.len() == 7);
}

/// A closed task is journaled with the outcome that was asked for and the task
/// that takes its place, if one does; a refusal says which of the conditions does
/// not hold.
pub proof fn law_closing_is_journaled_as_asked(
    task_id: Seq<char>,
    outcome: Seq<char>,
    successor: Option<Seq<char>>,
    state: StateReply,
)
    ensures
        closing_outcome(outcome) <==> outcome == "abandoned"@ || outcome == "superseded"@,
        closed(task_id, outcome, successor, state) matches Ok(payload) ==> payload
            == json::compact_text(
            map![
                "kind"@ => Json::Text("verification_failed"@),
                "outcome"@ => Json::Text(outcome),
                "superseded_by"@ => (match successor {
                    Some(t) => Json::Text(t),
                    None => Json::Null,
                }),
            ],
        ),
        closing_outcome(outcome) && state is Failed ==> closed(task_id, outcome, successor, state)
            == Err::<Seq<char>, Seq<char>>("close_task: "@ + state->Failed_0@),
        closing_outcome(outcome) && state is Known && state->Known_0 != Some(EventKind::Blocked)
            ==> closed(task_id, outcome, successor, state) == Err::<Seq<char>, Seq<char>>(
            "close_task: task "@ + task_id + " is not blocked"@,
        ),
        !closing_outcome(outcome) ==> closed(task_id, outcome, successor, state) == Err::<
            Seq<char>,
            Seq<char>,
        >(
            "close_task: invalid outcome "@ + text::quoted(outcome)
                + " (want abandoned|superseded)"@,
        ),
{
}

/// A merge is of the task's own branch into its own base, in its own repository;
/// the event says what was merged into what, and only once it is on record is
/// anything cleaned up, in that same repository.
pub proof fn law_merges_follow_the_record(
    m: MergeRequestView,
    repo: String,
    base_ref: String,
    outcome: MergeOutcome,
)
    ensures
        m.after_state(StateReply::Known(Some(EventKind::VerifyPassed))).0 == (MergeRequestView {
            phase: MergePhase::Repo,
            ..m
        }),
        m.after_repo(RepoReply::Known { repo: Some(repo), base_ref }).0 == (MergeRequestView {
            repo: repo@,
            phase: MergePhase::Merge,
            ..m
        }),
        m.after_repo(RepoReply::Known { repo: Some(repo), base_ref }).1 == (MergeStepView::Merge {
            repo: repo@,
            base_ref: base_ref@,
        }),
        m.after_merge(Ok(outcome)).0 == (MergeRequestView { phase: MergePhase::Record, ..m }),
        m.after_merge(Ok(outcome)).1 == (MergeStepView::Append {
            payload: json::compact_text(
                map![
                    "base_ref"@ => Json::Text(outcome.base_ref@),
                    "branch"@ => Json::Text(outcome.branch@),
                    "merged_sha"@ => Json::Text(outcome.merged_sha@),
                ],
            ),
        }),
        m.after_append(None).0.phase is Over,
        m.after_append(None).1 == (MergeStepView::CleanUp { repo: m.repo }),
{
}

/// A merge that is refused is over, and says why: the task is merged already, it
/// has not passed, its repository is not known, or what an outside step said.
pub proof fn law_refused_merges_say_why(
    m: MergeRequestView,
    state: Option<EventKind>,
    error: String,
    base_ref: String,
)
    ensures
        m.after_state(StateReply::Known(Some(EventKind::Merged))).1 == MergeStepView::Refuse(
            "merge_task: "@ + ("task "@ + m.task_id + " is already merged"@),
        ),
        state != Some(EventKind::VerifyPassed) && state != Some(EventKind::Merged) ==> m.after_state(
            StateReply::Known(state),
        ).1 == MergeStepView::Refuse(
            "merge_task: "@ + ("task "@ + m.task_id
                + " is not in a merge-ready (verify_passed) state"@),
        ),
        m.after_state(StateReply::Failed(error)).1 == MergeStepView::Refuse(
            "merge_task: "@ + error@,
        ),
        m.after_repo(RepoReply::Known { repo: None, base_ref }).1 == MergeStepView::Refuse(
            "merge_task: "@ + ("task "@ + m.task_id
                + " has no recorded repo path; merge manually"@),
        ),
        m.after_repo(RepoReply::Failed(error)).1 == MergeStepView::Refuse("merge_task: "@ + error@),
        m.after_merge(Err(error)).1 == MergeStepView::Refuse("merge_task: "@ + error@),
        m.after_append(Some(error@)).1 == MergeStepView::Refuse(
            "merge_task: "@ + ("append merged failed: "@ + error@),
        ),
        m.refuse(error@).0.phase is Over,
        m.after_merge(Err(error)).0.phase is Over,
        m.after_append(Some(error@)).0.phase is Over,
{
}

/// The field of a name is what an object holds under it; nothing else has fields.
pub proof fn law_fields_are_found_by_name(fields: Map<Seq<char>, Json>, key: Seq<char>, doc: Json)
    ensures
        fields.contains_key(key) ==> field_of(Json::Object(fields), key) == Some(fields[key]),
        !fields.contains_key(key) ==> field_of(Json::Object(fields), key) is None,
        !(doc is Object) ==> field_of(doc, key) is None,
        text_field(doc, key) is Some <==> (field_of(doc, key) matches Some(Json::Text(_))),
        text_field(doc, key) matches Some(t) ==> field_of(doc, key) == Some(Json::Text(t)),
        or_null(None) is Null,
        or_null(Some(doc)) == doc,
{
}

/// A journal query is taken for what its name says, of the task that it names; two
/// of the three need one, and an unknown name is refused.
pub proof fn law_queries_are_taken_by_name(name: Seq<char>, params: Json)
    ensures
        ({
            let task = text_field(params, "task_id"@);
            let q = query_of(name, params);
            &&& name == "verifier_reports"@ && task is Some ==> q == Ok::<QueryView, Seq<char>>(
                QueryView::VerifierReports { task_id: task->0 },
            )
            &&& name == "trace"@ && task is Some ==> q == Ok::<QueryView, Seq<char>>(
                QueryView::Trace { task_id: task->0 },
            )
            &&& name == "routing_report"@ ==> q == Ok::<QueryView, Seq<char>>(
                QueryView::RoutingReport,
            )
            &&& (name == "verifier_reports"@ || name == "trace"@) && task is None ==> q is Err
            &&& name != "verifier_reports"@ && name != "trace"@ && name != "routing_report"@ ==> q
                is Err
        }),
{
    reveal_strlit("verifier_reports");
    reveal_strlit("trace");
    reveal_strlit("routing_report");
    assert("verifier_reports"@.len() == 16 && "trace"@.len() == 5);
    assert("routing_report"@.len() == 14);
}

/// A row of the journal is answered with everything it holds: a report with its
/// attempt, its judge's independence, its verdict and findings; an event with its
/// number, kind, time and payload.
pub proof fn law_rows_are_answered_whole(report: ReportRow, event: EventRow)
    ensures
        ({
            let doc = document_in(report.report@);
            report_json(report) == Json::Object(
                map![
                    "attempt"@ => Json::Int(report.attempt as int),
                    "independence"@ => Json::Text(report.independence@),
                    "verdict"@ => or_null(field_of(doc, "verdict"@)),
                    "findings"@ => or_null(field_of(doc, "findings"@)),
                ],
            )
        }),
        event_json(event) == Json::Object(
            map![
                "seq"@ => Json::Int(event.seq as int),
                "kind"@ => Json::Text(event.kind.text()),
                "ts"@ => Json::Text(event.ts@),
                "payload"@ => (match event.payload {
                    Some(p) => document_in(p@),
                    None => Json::Null,
                }),
            ],
        ),
        forall|t: Seq<char>|
            #![trigger document_in(t)]
            (json::parsed(t) matches Ok(d) ==> document_in(t) == d) && (json::parsed(t) is Err
                ==> document_in(t) is Null),
{
}

/// An advisor runs the model and the context of its profile; what the profile does
/// not say, or could not be read, has a name of its own.
pub proof fn law_advisors_are_as_configured(rp: ResolvedProfileView, error: Seq<char>)
    ensures
        rp.advisor.model matches Some(m) ==> advisor_of(Ok(rp)).0 == m,
        rp.advisor.context matches Some(c) ==> advisor_of(Ok(rp)).1 == c,
        rp.advisor.model is None ==> advisor_of(Ok(rp)).0 == "unknown"@,
        rp.advisor.context is None ==> advisor_of(Ok(rp)).1 == "standard"@,
        advisor_of(Err(error)) == ("unknown"@, "standard"@),
{
}

/// An inbox holds every item, in order, and behind them the day's totals where any
/// session ran: the tokens in, the tokens out and the sessions, at this time.
pub proof fn law_inbox_ends_in_the_totals(
    items: Seq<InboxItemView>,
    now: Seq<char>,
    totals: DayTotals,
)
    ensures
        totals.sessions > 0 ==> {
            let got = inbox(items, now, Some(totals));
            &&& got.drop_last() == items
            &&& got.last().ts == now
            &&& got.last().kind == "daily_total"@
            &&& got.last().task_id.len() == 0
            &&& got.last().detail is None
            &&& got.last().summary == "today: "@ + text::decimal_int(totals.tokens_in as int)
                + " in / "@ + text::decimal_int(totals.tokens_out as int)
                + " out tokens across "@ + text::decimal_int(totals.sessions as int)
                + " sessions"@
        },
        totals.sessions <= 0 ==> inbox(items, now, Some(totals)) == items,
        inbox(items, now, None) == items,
{
    assert(items.push(daily_total(now, totals)).drop_last() =~= items);
}

/// What an outside step said is taken as it was said, and so is a query; a request
/// that failed is answered under the name of what was asked.
pub proof fn law_answers_are_taken_as_given(said: String, query: Query)
    ensures
        text_result(Ok(said)) == Ok::<Seq<char>, Seq<char>>(said@),
        text_result(Err(said)) == Err::<Seq<char>, Seq<char>>(said@),
        query_result(Ok(query)) == Ok::<QueryView, Seq<char>>(query.deep_view()),
        query_result(Err(said)) == Err::<QueryView, Seq<char>>(said@),
        Surface::Parsing.prefix() == "malformed request: "@,
        Surface::Ps.prefix() == "ps failed: "@,
        Surface::TaskStatus.prefix() == "task_status failed: "@,
        Surface::RegisterAdvisor.prefix() == "register_advisor failed: "@,
        Surface::DrainInbox.prefix() == "drain_inbox failed: "@,
{
}

} // verus!
