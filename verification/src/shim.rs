//! Searching and extracting from the web on the advisor's behalf: what is
//! cached, for how long, how much of a page comes back, and what every outcome
//! is reported as.

use crate::clock::{self, parse_timestamp, unix_second, SECOND};
use crate::config::{Roles, RolesView, RoleModel, RoleModelView};
use crate::digest::{self, content_digest};
use crate::domain::{ExitStatus, SessionKind, SessionRole};
use crate::json::{self, compact, object, of_count, of_list, of_object, parse, put, put_text, Json};
use crate::resolve::ResolvedProfile;
use crate::text::{self, cat2, same};
use serde_json::Value;
use vstd::prelude::*;
use vstd::utf8::*;

verus! {

broadcast use vstd::string::group_string_axioms;

// ---------------------------------------------------------------------------
// Freshness
// ---------------------------------------------------------------------------

/// How long a cached extraction counts as fresh, in seconds.
pub const CACHE_TTL_SECS: i64 = 86400;

/// The second that a timestamp falls in, if it is one.
pub open spec fn unix_of(ts: Seq<char>) -> Option<int> {
    match clock::instant(ts) {
        Some(n) => Some(n as int / SECOND as int),
        None => None,
    }
}

/// Whether something retrieved at second `r` is fresh at second `n`: not from
/// the future, and younger than the time to live.
pub open spec fn fresh(r: Option<int>, n: Option<int>) -> bool {
    r is Some && n is Some && 0 <= n->0 - r->0 < CACHE_TTL_SECS
}

/// The second that a timestamp falls in, if it is one.
pub fn rfc3339_to_unix(ts: &str) -> (r: Option<i64>)
    ensures
        match r {
            Some(s) => unix_of(ts@) == Some(s as int),
            None => unix_of(ts@) is None,
        },
        r is Some ==> -2_000_000_000_000 < r->0 < 2_000_000_000_000,
{
    match parse_timestamp(ts) {
        Some(n) => Some(unix_second(n)),
        None => None,
    }
}

/// Whether something retrieved at second `r` is fresh at second `n`.
pub fn fresh_at(r: Option<i64>, n: Option<i64>) -> (fresh_now: bool)
    requires
        r is Some ==> -2_000_000_000_000 < r->0 < 2_000_000_000_000,
        n is Some ==> -2_000_000_000_000 < n->0 < 2_000_000_000_000,
    ensures
        fresh_now == (r is Some && n is Some && 0 <= n->0 - r->0 < CACHE_TTL_SECS),
{
    match (r, n) {
        (Some(r), Some(n)) => n - r < CACHE_TTL_SECS && n >= r,
        _ => false,
    }
}

/// Whether a cache entry retrieved at one timestamp is fresh at another. A
/// timestamp that cannot be read counts as stale.
pub fn cache_fresh(retrieved_at: &str, now: &str) -> (r: bool)
    ensures
        r == fresh(unix_of(retrieved_at@), unix_of(now@)),
{
    fresh_at(rfc3339_to_unix(retrieved_at), rfc3339_to_unix(now))
}

// ---------------------------------------------------------------------------
// Excerpts
// ---------------------------------------------------------------------------

/// A passage found in a page: the field it answers, its text, and the bytes it
/// spans.
#[derive(Debug)]
pub struct ExtractionField {
    pub field: String,
    pub verbatim: String,
    pub start: usize,
    pub end: usize,
}

/// What an [`ExtractionField`] says.
#[verifier::ext_equal]
pub struct ExtractionFieldView {
    pub field: Seq<char>,
    pub verbatim: Seq<char>,
    pub start: int,
    pub end: int,
}

impl DeepView for ExtractionField {
    type V = ExtractionFieldView;

    open spec fn deep_view(&self) -> ExtractionFieldView {
        ExtractionFieldView {
            field: self.field@,
            verbatim: self.verbatim@,
            start: self.start as int,
            end: self.end as int,
        }
    }
}

impl ExtractionFieldView {
    /// The passage cut to `cap` characters, spanning what is left of it. A cap
    /// of zero cuts nothing.
    pub open spec fn capped(self, cap: nat) -> ExtractionFieldView {
        if cap == 0 || self.verbatim.len() <= cap {
            self
        } else {
            let kept = self.verbatim.take(cap as int);
            ExtractionFieldView {
                verbatim: kept,
                end: self.start + encode_utf8(kept).len(),
                ..self
            }
        }
    }

    /// Whether the span is exactly as long as the passage.
    pub open spec fn spans_its_text(self) -> bool {
        self.end - self.start == encode_utf8(self.verbatim).len()
    }
}

/// Cuts a passage to `cap_chars` characters.
pub fn cap_field(field: ExtractionField, cap_chars: usize) -> (r: ExtractionField)
    requires
        field.deep_view().capped(cap_chars as nat).end <= usize::MAX,
    ensures
        r.deep_view() == field.deep_view().capped(cap_chars as nat),
{
    let n: usize = field.verbatim.as_str().unicode_len();
    if cap_chars == 0 || n <= cap_chars {
        return field;
    }
    let kept = field.verbatim.as_str().substring_char(0, cap_chars).to_owned();
    assert(kept@ =~= field.verbatim@.take(cap_chars as int));
    let bytes = kept.as_str().as_bytes();
    let end: usize = field.start + bytes.len();
    ExtractionField { field: field.field, verbatim: kept, start: field.start, end }
}

/// Every passage cut to `cap` characters.
pub open spec fn all_capped(fields: Seq<ExtractionFieldView>, cap: nat) -> Seq<
    ExtractionFieldView,
> {
    fields.map_values(|f: ExtractionFieldView| f.capped(cap))
}

/// A passage as it is reported.
pub open spec fn field_json(f: ExtractionFieldView) -> Json {
    Json::Object(
        map![
            "field"@ => Json::Text(f.field),
            "verbatim"@ => Json::Text(f.verbatim),
            "char_offset"@ => Json::List(seq![Json::Int(f.start), Json::Int(f.end)]),
        ],
    )
}

/// The passages as they are reported.
pub open spec fn fields_json(fields: Seq<ExtractionFieldView>) -> Json {
    Json::List(fields.map_values(|f: ExtractionFieldView| field_json(f)))
}

/// The fields of an extraction.
pub open spec fn extraction_json(
    url: Seq<char>,
    retrieved_at: Seq<char>,
    content: Seq<char>,
    fields: Seq<ExtractionFieldView>,
) -> Map<Seq<char>, Json> {
    map![
        "url"@ => Json::Text(url),
        "retrieved_at"@ => Json::Text(retrieved_at),
        "content_digest"@ => Json::Text("sha256:"@ + digest::sha256_of(content)),
        "extractions"@ => fields_json(fields),
    ]
}

fn field_value(f: &ExtractionField) -> (r: Value)
    ensures
        json::document(r) == field_json(f.deep_view()),
{
    let mut span: Vec<Value> = Vec::new();
    span.push(of_count(f.start as u64));
    span.push(of_count(f.end as u64));
    let mut m = object();
    put_text(&mut m, "field", &f.field);
    put_text(&mut m, "verbatim", &f.verbatim);
    assert(json::documents(span@) =~= seq![
        Json::Int(f.start as int),
        Json::Int(f.end as int),
    ]);
    let span = of_list(span);
    put(&mut m, "char_offset", span);
    assert(Json::Object(json::fields(m)) =~= field_json(f.deep_view()));
    of_object(m)
}

fn extraction_object(
    url: &str,
    retrieved_at: &str,
    content: &str,
    fields: &Vec<ExtractionField>,
) -> (r: serde_json::Map<String, Value>)
    ensures
        json::fields(r) == extraction_json(url@, retrieved_at@, content@, fields.deep_view()),
{
    let mut items: Vec<Value> = Vec::new();
    let mut i: usize = 0;
    while i < fields.len()
        invariant
            i <= fields@.len(),
            items@.len() == i,
            forall|j: int|
                0 <= j < i ==> json::document(#[trigger] items@[j]) == field_json(
                    fields@[j].deep_view(),
                ),
        decreases fields@.len() - i,
    {
        items.push(field_value(&fields[i]));
        i = i + 1;
    }
    assert(json::documents(items@) =~= fields.deep_view().map_values(
        |f: ExtractionFieldView| field_json(f),
    ));
    let mut m = object();
    put_text(&mut m, "url", url);
    put_text(&mut m, "retrieved_at", retrieved_at);
    put_text(&mut m, "content_digest", &content_digest(content));
    let list = of_list(items);
    put(&mut m, "extractions", list);
    assert(json::fields(m) =~= extraction_json(
        url@,
        retrieved_at@,
        content@,
        fields.deep_view(),
    ));
    m
}

// ---------------------------------------------------------------------------
// Extraction
// ---------------------------------------------------------------------------

/// A session as it is recorded.
#[derive(Debug)]
pub struct ShimSession {
    /// The task it belongs to, if it belongs to one.
    pub task_id: Option<String>,
    /// The advisor it is run for.
    pub advisor: String,
    pub role: SessionRole,
    pub model: String,
    pub kind: SessionKind,
    pub workspace: Option<String>,
}

/// What a [`ShimSession`] says.
#[verifier::ext_equal]
pub struct ShimSessionView {
    pub task_id: Option<Seq<char>>,
    pub advisor: Seq<char>,
    pub role: SessionRole,
    pub model: Seq<char>,
    pub kind: SessionKind,
    pub workspace: Option<Seq<char>>,
}

impl DeepView for ShimSession {
    type V = ShimSessionView;

    open spec fn deep_view(&self) -> ShimSessionView {
        ShimSessionView {
            task_id: self.task_id.deep_view(),
            advisor: self.advisor@,
            role: self.role,
            model: self.model@,
            kind: self.kind,
            workspace: self.workspace.deep_view(),
        }
    }
}

/// A session of the shim: one request for an advisor, of no task and without a
/// workspace.
pub open spec fn shim_session(advisor: Seq<char>, model: Seq<char>) -> ShimSessionView {
    ShimSessionView {
        task_id: None,
        advisor,
        role: SessionRole::Shim,
        model,
        kind: SessionKind::OneShotApi,
        workspace: None,
    }
}

fn new_session(advisor: &str, model: &str) -> (r: ShimSession)
    ensures
        r.deep_view() == shim_session(advisor@, model@),
{
    ShimSession {
        task_id: None,
        advisor: advisor.to_owned(),
        role: SessionRole::Shim,
        model: model.to_owned(),
        kind: SessionKind::OneShotApi,
        workspace: None,
    }
}

/// Something to carry out that needs no answer.
#[derive(Debug)]
pub enum ShimEffect {
    /// Open a session; later effects that finish a session mean this one.
    OpenSession(ShimSession),
    /// Record how the session ended.
    FinishSession(ExitStatus),
    /// Cache a result under an address and the digest of a schema.
    CachePut {
        url: String,
        schema: String,
        retrieved_at: String,
        payload: String,
    },
}

/// What a [`ShimEffect`] says.
#[verifier::ext_equal]
pub enum ShimEffectView {
    OpenSession(ShimSessionView),
    FinishSession(ExitStatus),
    CachePut {
        url: Seq<char>,
        schema: Seq<char>,
        retrieved_at: Seq<char>,
        payload: Seq<char>,
    },
}

impl DeepView for ShimEffect {
    type V = ShimEffectView;

    open spec fn deep_view(&self) -> ShimEffectView {
        match self {
            ShimEffect::OpenSession(s) => ShimEffectView::OpenSession(s.deep_view()),
            ShimEffect::FinishSession(exit) => ShimEffectView::FinishSession(*exit),
            ShimEffect::CachePut { url, schema, retrieved_at, payload } => ShimEffectView::CachePut {
                url: url@,
                schema: schema@,
                retrieved_at: retrieved_at@,
                payload: payload@,
            },
        }
    }
}

/// What an extraction asks for next.
#[derive(Debug)]
pub enum ExtractNext {
    /// Look an address and the digest of a schema up in the cache.
    Lookup {
        url: String,
        schema: String,
    },
    /// Fetch the page and clean it.
    Fetch {
        url: String,
    },
    /// Ask the model for passages of the content that answer the fields.
    Extract {
        content: String,
        fields: Vec<String>,
    },
    /// Locate the passages in the content.
    Locate {
        content: String,
    },
    /// The result.
    Done(Value),
    /// The error to report.
    Refused(String),
}

/// What an [`ExtractNext`] says.
#[verifier::ext_equal]
pub enum ExtractNextView {
    Lookup { url: Seq<char>, schema: Seq<char> },
    Fetch { url: Seq<char> },
    Extract { content: Seq<char>, fields: Seq<Seq<char>> },
    Locate { content: Seq<char> },
    Done(Json),
    Refused(Seq<char>),
}

impl DeepView for ExtractNext {
    type V = ExtractNextView;

    open spec fn deep_view(&self) -> ExtractNextView {
        match self {
            ExtractNext::Lookup { url, schema } => ExtractNextView::Lookup {
                url: url@,
                schema: schema@,
            },
            ExtractNext::Fetch { url } => ExtractNextView::Fetch { url: url@ },
            ExtractNext::Extract { content, fields } => ExtractNextView::Extract {
                content: content@,
                fields: fields.deep_view(),
            },
            ExtractNext::Locate { content } => ExtractNextView::Locate { content: content@ },
            ExtractNext::Done(v) => ExtractNextView::Done(json::document(*v)),
            ExtractNext::Refused(m) => ExtractNextView::Refused(m@),
        }
    }
}

/// What to carry out, in order, and what to ask next.
#[derive(Debug)]
pub struct ExtractTurn {
    pub effects: Vec<ShimEffect>,
    pub next: ExtractNext,
}

/// What an [`ExtractTurn`] says.
#[verifier::ext_equal]
pub struct ExtractTurnView {
    pub effects: Seq<ShimEffectView>,
    pub next: ExtractNextView,
}

impl DeepView for ExtractTurn {
    type V = ExtractTurnView;

    open spec fn deep_view(&self) -> ExtractTurnView {
        ExtractTurnView { effects: self.effects.deep_view(), next: self.next.deep_view() }
    }
}

/// How the model's run ended; its passages stay outside.
#[derive(Debug)]
pub enum ExtractReply {
    Passages,
    /// The model cannot be reached.
    Unavailable(String),
    /// Anything else.
    Failed(String),
}

/// How locating the passages ended.
#[derive(Debug)]
pub enum LocateReply {
    Found(Vec<ExtractionField>),
    /// The passage for this field does not occur in the content.
    NotFound {
        field: String,
    },
    /// Anything else.
    Failed(String),
}

/// A turn.
pub open spec fn turn(effects: Seq<ShimEffectView>, next: ExtractNextView) -> ExtractTurnView {
    ExtractTurnView { effects, next }
}

/// A turn that ends a session in an error.
pub open spec fn refusal(message: Seq<char>) -> ExtractTurnView {
    turn(
        seq![ShimEffectView::FinishSession(ExitStatus::Error)],
        ExtractNextView::Refused(message),
    )
}

/// Where an extraction stands.
#[derive(Debug, Clone, Copy, PartialEq, Eq, Structural)]
pub enum ExtractPhase {
    /// Waiting for the cache.
    Cache,
    /// Waiting for the page.
    Fetch,
    /// Waiting for the model.
    Extract,
    /// Waiting for the passages to be located.
    Locate,
    /// Answered.
    Over,
}

/// A request for passages of a page.
#[derive(Debug)]
pub struct ExtractRequest {
    /// The advisor who asks.
    pub advisor: String,
    /// The model that extracts.
    pub model: String,
    pub url: String,
    /// The fields that passages are wanted for.
    pub fields: Vec<String>,
    /// The digest of the fields.
    pub schema: String,
}

/// What an [`ExtractRequest`] says.
#[verifier::ext_equal]
pub struct ExtractRequestView {
    pub advisor: Seq<char>,
    pub model: Seq<char>,
    pub url: Seq<char>,
    pub fields: Seq<Seq<char>>,
    pub schema: Seq<char>,
}

impl DeepView for ExtractRequest {
    type V = ExtractRequestView;

    open spec fn deep_view(&self) -> ExtractRequestView {
        ExtractRequestView {
            advisor: self.advisor@,
            model: self.model@,
            url: self.url@,
            fields: self.fields.deep_view(),
            schema: self.schema@,
        }
    }
}

/// An extraction under way.
#[derive(Debug)]
pub struct ExtractRun {
    request: ExtractRequest,
    now: String,
    cap_chars: usize,
    content: String,
    phase: ExtractPhase,
}

/// What an [`ExtractRun`] says.
#[verifier::ext_equal]
pub struct ExtractRunView {
    pub request: ExtractRequestView,
    pub now: Seq<char>,
    pub cap: nat,
    pub content: Seq<char>,
    pub phase: ExtractPhase,
}

impl DeepView for ExtractRun {
    type V = ExtractRunView;

    closed spec fn deep_view(&self) -> ExtractRunView {
        ExtractRunView {
            request: self.request.deep_view(),
            now: self.now@,
            cap: self.cap_chars as nat,
            content: self.content@,
            phase: self.phase,
        }
    }
}

/// What an optional cache entry says.
pub open spec fn cached_view(c: Option<(String, String)>) -> Option<(Seq<char>, Seq<char>)> {
    match c {
        Some((a, b)) => Some((a@, b@)),
        None => None,
    }
}

/// What a fetched page says.
pub open spec fn page_view(r: Result<String, String>) -> Result<Seq<char>, Seq<char>> {
    match r {
        Ok(c) => Ok(c@),
        Err(e) => Err(e@),
    }
}

impl ExtractRunView {
    /// The same extraction in another phase.
    pub open spec fn at(self, phase: ExtractPhase) -> ExtractRunView {
        ExtractRunView { phase, ..self }
    }

    /// What the cache's answer comes to: a fresh entry that can be read is the
    /// result; anything else is fetched.
    pub open spec fn after_cache(self, cached: Option<(Seq<char>, Seq<char>)>) -> (
        ExtractRunView,
        ExtractTurnView,
    ) {
        let fetch = (
            self.at(ExtractPhase::Fetch),
            turn(Seq::empty(), ExtractNextView::Fetch { url: self.request.url }),
        );
        match cached {
            Some((retrieved_at, payload)) => if fresh(unix_of(retrieved_at), unix_of(self.now))
                && json::parsed(payload) is Ok {
                (
                    self.at(ExtractPhase::Over),
                    turn(Seq::empty(), ExtractNextView::Done(json::parsed(payload)->Ok_0)),
                )
            } else {
                fetch
            },
            None => fetch,
        }
    }

    /// What a fetched page comes to: a session of the model, or an error.
    pub open spec fn after_fetch(self, page: Result<Seq<char>, Seq<char>>) -> (
        ExtractRunView,
        ExtractTurnView,
    ) {
        match page {
            Err(e) => (
                self.at(ExtractPhase::Over),
                turn(Seq::empty(), ExtractNextView::Refused("fetch failed: "@ + e)),
            ),
            Ok(content) => (
                ExtractRunView { content, phase: ExtractPhase::Extract, ..self },
                turn(
                    seq![
                        ShimEffectView::OpenSession(
                            shim_session(self.request.advisor, self.request.model),
                        ),
                    ],
                    ExtractNextView::Extract { content, fields: self.request.fields },
                ),
            ),
        }
    }

    /// What the model's answer comes to.
    pub open spec fn after_extract(self, reply: ExtractReply) -> (ExtractRunView, ExtractTurnView) {
        match reply {
            ExtractReply::Passages => (
                self.at(ExtractPhase::Locate),
                turn(Seq::empty(), ExtractNextView::Locate { content: self.content }),
            ),
            ExtractReply::Unavailable(m) => (
                self.at(ExtractPhase::Over),
                refusal("extraction model unavailable: "@ + m@),
            ),
            ExtractReply::Failed(e) => (
                self.at(ExtractPhase::Over),
                refusal("extraction failed: "@ + e@),
            ),
        }
    }

    /// What the located passages come to: cut, cached and reported. A passage
    /// that does not occur in the page is rejected, and nothing is cached.
    pub open spec fn after_locate(self, reply: LocateReply) -> (ExtractRunView, ExtractTurnView) {
        (
            self.at(ExtractPhase::Over),
            match reply {
                LocateReply::NotFound { field } => refusal(
                    "rejected: verbatim not found in content — field "@ + field@,
                ),
                LocateReply::Failed(e) => refusal("extraction failed: "@ + e@),
                LocateReply::Found(fields) => {
                    let result = extraction_json(
                        self.request.url,
                        self.now,
                        self.content,
                        all_capped(fields.deep_view(), self.cap),
                    );
                    turn(
                        seq![
                            ShimEffectView::CachePut {
                                url: self.request.url,
                                schema: self.request.schema,
                                retrieved_at: self.now,
                                payload: json::compact_text(result),
                            },
                            ShimEffectView::FinishSession(ExitStatus::Finished),
                        ],
                        ExtractNextView::Done(Json::Object(result)),
                    )
                },
            },
        )
    }
}

/// Whether a cache entry serves a result: any extraction that finds it while it is
/// fresh answers with the result at once, without fetching, asking the model or
/// opening a session.
pub open spec fn serves(retrieved_at: Seq<char>, payload: Seq<char>, result: Json) -> bool {
    forall|later: ExtractRunView|
        fresh(unix_of(retrieved_at), unix_of(later.now)) ==> #[trigger] later.after_cache(
            Some((retrieved_at, payload)),
        ) == (
            later.at(ExtractPhase::Over),
            turn(Seq::empty(), ExtractNextView::Done(result)),
        )
}

/// Whether every located passage, once cut, ends at a place that a machine
/// integer can hold.
pub open spec fn ends_fit(reply: LocateReply, cap: nat) -> bool {
    reply matches LocateReply::Found(fields) ==> forall|i: int|
        0 <= i < fields@.len() ==> (#[trigger] fields@[i]).deep_view().capped(cap).end
            <= usize::MAX
}

fn cap_all(fields: Vec<ExtractionField>, cap_chars: usize) -> (r: Vec<ExtractionField>)
    requires
        forall|i: int|
            0 <= i < fields@.len() ==> (#[trigger] fields@[i]).deep_view().capped(
                cap_chars as nat,
            ).end <= usize::MAX,
    ensures
        r.deep_view() == all_capped(fields.deep_view(), cap_chars as nat),
{
    let ghost all = fields@;
    let mut rest = fields;
    let mut out: Vec<ExtractionField> = Vec::new();
    while rest.len() > 0
        invariant
            rest@.len() + out@.len() == all.len(),
            rest@ == all.subrange(out@.len() as int, all.len() as int),
            forall|i: int|
                0 <= i < all.len() ==> (#[trigger] all[i]).deep_view().capped(
                    cap_chars as nat,
                ).end <= usize::MAX,
            forall|i: int|
                0 <= i < out@.len() ==> (#[trigger] out@[i]).deep_view()
                    == all[i].deep_view().capped(cap_chars as nat),
        decreases rest@.len(),
    {
        let ghost done = out@.len() as int;
        let field = rest.remove(0);
        assert(field == all[done]);
        out.push(cap_field(field, cap_chars));
        assert(rest@ =~= all.subrange(done + 1, all.len() as int));
    }
    assert(out.deep_view() =~= all_capped(fields.deep_view(), cap_chars as nat));
    out
}

fn refuse(message: String) -> (r: ExtractTurn)
    ensures
        r.deep_view() == refusal(message@),
{
    ExtractTurn { effects: closing(ExitStatus::Error), next: ExtractNext::Refused(message) }
}

fn opening(session: ShimSession) -> (r: Vec<ShimEffect>)
    ensures
        r.deep_view() == seq![ShimEffectView::OpenSession(session.deep_view())],
{
    let ghost want = seq![ShimEffectView::OpenSession(session.deep_view())];
    let mut effects: Vec<ShimEffect> = Vec::new();
    effects.push(ShimEffect::OpenSession(session));
    assert(effects.deep_view() =~= want);
    effects
}

fn closing(exit: ExitStatus) -> (r: Vec<ShimEffect>)
    ensures
        r.deep_view() == seq![ShimEffectView::FinishSession(exit)],
{
    let mut effects: Vec<ShimEffect> = Vec::new();
    effects.push(ShimEffect::FinishSession(exit));
    assert(effects.deep_view() =~= seq![ShimEffectView::FinishSession(exit)]);
    effects
}

fn plainly(next: ExtractNext) -> (r: ExtractTurn)
    ensures
        r.deep_view() == turn(Seq::empty(), next.deep_view()),
{
    let effects: Vec<ShimEffect> = Vec::new();
    assert(effects.deep_view() =~= Seq::<ShimEffectView>::empty());
    ExtractTurn { effects, next }
}

/// Takes up a request for passages of a page: the cache is asked first.
/// Passages are cut to `cap_chars` characters.
pub fn run_fetch_extract(request: ExtractRequest, now: &str, cap_chars: usize) -> (r: (
    ExtractRun,
    ExtractTurn,
))
    ensures
        r.0.deep_view() == (ExtractRunView {
            request: request.deep_view(),
            now: now@,
            cap: cap_chars as nat,
            content: Seq::empty(),
            phase: ExtractPhase::Cache,
        }),
        r.1.deep_view() == turn(
            Seq::empty(),
            ExtractNextView::Lookup { url: request.url@, schema: request.schema@ },
        ),
{
    let content = String::new();
    assert(content@ =~= Seq::<char>::empty());
    let lookup = ExtractNext::Lookup {
        url: request.url.clone(),
        schema: request.schema.clone(),
    };
    let run = ExtractRun {
        request,
        now: now.to_owned(),
        cap_chars,
        content,
        phase: ExtractPhase::Cache,
    };
    (run, plainly(lookup))
}

impl ExtractRun {
    /// Takes the cache's answer: when the entry was retrieved, and its payload.
    pub fn on_cache(&mut self, cached: Option<(String, String)>) -> (r: ExtractTurn)
        requires
            old(self).deep_view().phase == ExtractPhase::Cache,
        ensures
            (final(self).deep_view(), r.deep_view()) == old(self).deep_view().after_cache(
                cached_view(cached),
            ),
    {
        match cached {
            Some((retrieved_at, payload)) => {
                if cache_fresh(&retrieved_at, &self.now) {
                    match parse(&payload) {
                        Ok(v) => {
                            self.phase = ExtractPhase::Over;
                            return plainly(ExtractNext::Done(v));
                        },
                        Err(_) => {},
                    }
                }
            },
            None => {},
        }
        self.phase = ExtractPhase::Fetch;
        plainly(ExtractNext::Fetch { url: self.request.url.clone() })
    }

    /// Takes the cleaned page, or the error of fetching it.
    pub fn on_fetch(&mut self, page: Result<String, String>) -> (r: ExtractTurn)
        requires
            old(self).deep_view().phase == ExtractPhase::Fetch,
        ensures
            (final(self).deep_view(), r.deep_view()) == old(self).deep_view().after_fetch(
                page_view(page),
            ),
    {
        match page {
            Err(e) => {
                self.phase = ExtractPhase::Over;
                plainly(ExtractNext::Refused(cat2("fetch failed: ", &e)))
            },
            Ok(content) => {
                self.content = content;
                self.phase = ExtractPhase::Extract;
                let session = new_session(&self.request.advisor, &self.request.model);
                let effects = opening(session);
                let next = ExtractNext::Extract {
                    content: self.content.clone(),
                    fields: self.request.fields.clone(),
                };
                ExtractTurn { effects, next }
            },
        }
    }

    /// Takes how the model's run ended.
    pub fn on_extract(&mut self, reply: ExtractReply) -> (r: ExtractTurn)
        requires
            old(self).deep_view().phase == ExtractPhase::Extract,
        ensures
            (final(self).deep_view(), r.deep_view()) == old(self).deep_view().after_extract(reply),
    {
        match reply {
            ExtractReply::Passages => {
                self.phase = ExtractPhase::Locate;
                plainly(ExtractNext::Locate { content: self.content.clone() })
            },
            ExtractReply::Unavailable(m) => {
                self.phase = ExtractPhase::Over;
                refuse(cat2("extraction model unavailable: ", &m))
            },
            ExtractReply::Failed(e) => {
                self.phase = ExtractPhase::Over;
                refuse(cat2("extraction failed: ", &e))
            },
        }
    }

    /// Takes the located passages.
    pub fn on_locate(&mut self, reply: LocateReply) -> (r: ExtractTurn)
        requires
            old(self).deep_view().phase == ExtractPhase::Locate,
            ends_fit(reply, old(self).deep_view().cap),
        ensures
            (final(self).deep_view(), r.deep_view()) == old(self).deep_view().after_locate(reply),
            reply is Found ==> {
                &&& r.deep_view().effects[0] matches ShimEffectView::CachePut {
                    url,
                    schema,
                    retrieved_at,
                    payload,
                }
                &&& r.deep_view().next matches ExtractNextView::Done(result)
                &&& url == old(self).deep_view().request.url
                &&& schema == old(self).deep_view().request.schema
                &&& serves(retrieved_at, payload, result)
            },
    {
        self.phase = ExtractPhase::Over;
        match reply {
            LocateReply::NotFound { field } => refuse(
                cat2("rejected: verbatim not found in content — field ", &field),
            ),
            LocateReply::Failed(e) => refuse(cat2("extraction failed: ", &e)),
            LocateReply::Found(fields) => {
                let capped = cap_all(fields, self.cap_chars);
                let payload = compact(
                    extraction_object(&self.request.url, &self.now, &self.content, &capped),
                );
                let value = of_object(
                    extraction_object(&self.request.url, &self.now, &self.content, &capped),
                );
                let mut effects: Vec<ShimEffect> = Vec::new();
                effects.push(
                    ShimEffect::CachePut {
                        url: self.request.url.clone(),
                        schema: self.request.schema.clone(),
                        retrieved_at: self.now.clone(),
                        payload,
                    },
                );
                effects.push(ShimEffect::FinishSession(ExitStatus::Finished));
                assert(effects.deep_view() =~= old(self).deep_view().after_locate(
                    reply,
                ).1.effects);
                ExtractTurn { effects, next: ExtractNext::Done(value) }
            },
        }
    }
}

// ---------------------------------------------------------------------------
// Search
// ---------------------------------------------------------------------------

/// Where a search goes.
#[derive(Debug)]
pub enum SearchRoute {
    /// To the provider's search tool, through the shim's model.
    Anthropic {
        model: String,
        base_url: Option<String>,
    },
    /// To a search engine of one's own.
    Searxng {
        endpoint: Option<String>,
    },
    /// Nowhere; the error to report.
    Refused(String),
}

/// What a [`SearchRoute`] says.
#[verifier::ext_equal]
pub enum SearchRouteView {
    Anthropic { model: Seq<char>, base_url: Option<Seq<char>> },
    Searxng { endpoint: Option<Seq<char>> },
    Refused(Seq<char>),
}

impl DeepView for SearchRoute {
    type V = SearchRouteView;

    open spec fn deep_view(&self) -> SearchRouteView {
        match self {
            SearchRoute::Anthropic { model, base_url } => SearchRouteView::Anthropic {
                model: model@,
                base_url: base_url.deep_view(),
            },
            SearchRoute::Searxng { endpoint } => SearchRouteView::Searxng {
                endpoint: endpoint.deep_view(),
            },
            SearchRoute::Refused(m) => SearchRouteView::Refused(m@),
        }
    }
}

/// The address of the shim's model, where its role is a table that gives one.
pub open spec fn shim_address(roles: RolesView) -> Option<Seq<char>> {
    match roles.shim {
        Some(RoleModelView::Detailed(t)) => t.base_url,
        _ => None,
    }
}

/// The address of the shim's model, where its role is a table that gives one.
pub fn shim_base_url(roles: &Roles) -> (r: Option<String>)
    ensures
        r.deep_view() == shim_address(roles.deep_view()),
{
    match &roles.shim {
        Some(RoleModel::Detailed(t)) => t.base_url.clone(),
        _ => None,
    }
}

/// Where a search goes: each backend is explicit, the default is the provider's
/// search tool, and there is no fallback from one to another.
pub open spec fn search_route_of(
    backend: Option<Seq<char>>,
    endpoint: Option<Seq<char>>,
    roles: RolesView,
    default_model: Seq<char>,
) -> SearchRouteView {
    let kind = match backend {
        Some(b) => b,
        None => "anthropic"@,
    };
    if kind == "anthropic"@ {
        SearchRouteView::Anthropic {
            model: roles.shim_model(default_model),
            base_url: shim_address(roles),
        }
    } else if kind == "searxng"@ {
        SearchRouteView::Searxng { endpoint }
    } else if kind == "none"@ {
        SearchRouteView::Refused(
            "backend_unavailable: search disabled on this profile (search.backend = none)"@,
        )
    } else {
        SearchRouteView::Refused("backend_unavailable: unknown search backend "@ + kind)
    }
}

/// Where a search goes under a profile. `default_model` stands in where the
/// profile names no model for it.
pub fn search_route(rp: &ResolvedProfile, default_model: &str) -> (r: SearchRoute)
    ensures
        r.deep_view() == search_route_of(
            rp.search.backend.deep_view(),
            rp.search.endpoint.deep_view(),
            rp.roles.deep_view(),
            default_model@,
        ),
{
    let kind = match &rp.search.backend {
        Some(b) => b.as_str(),
        None => "anthropic",
    };
    if same(kind, "anthropic") {
        SearchRoute::Anthropic {
            model: rp.roles.shim_model(default_model).to_owned(),
            base_url: shim_base_url(&rp.roles),
        }
    } else if same(kind, "searxng") {
        SearchRoute::Searxng { endpoint: rp.search.endpoint.clone() }
    } else if same(kind, "none") {
        SearchRoute::Refused(
            "backend_unavailable: search disabled on this profile (search.backend = none)".to_owned(),
        )
    } else {
        SearchRoute::Refused(cat2("backend_unavailable: unknown search backend ", kind))
    }
}

impl SearchRoute {
    /// The name that a search's session is recorded under, where it goes anywhere.
    pub fn label(&self) -> (r: Option<&str>)
        ensures
            r.deep_view() == (match self.deep_view() {
                SearchRouteView::Anthropic { model, .. } => Some(model),
                SearchRouteView::Searxng { .. } => Some("searxng"@),
                SearchRouteView::Refused(_) => None,
            }),
    {
        match self {
            SearchRoute::Anthropic { model, .. } => Some(model.as_str()),
            SearchRoute::Searxng { .. } => Some("searxng"),
            SearchRoute::Refused(_) => None,
        }
    }
}

/// How a search ended.
#[derive(Debug)]
pub enum SearchReply {
    Results(Value),
    /// There are results, but they cannot be written down.
    Unwritable(String),
    /// The backend cannot be reached.
    Unavailable(String),
    /// Anything else.
    Failed(String),
}

/// What a search asks for next.
#[derive(Debug)]
pub enum SearchNext {
    /// Put the queries to the backend.
    Search {
        queries: Vec<String>,
    },
    /// The results.
    Done(Value),
    /// The error to report.
    Refused(String),
}

/// What a [`SearchNext`] says.
#[verifier::ext_equal]
pub enum SearchNextView {
    Search { queries: Seq<Seq<char>> },
    Done(Json),
    Refused(Seq<char>),
}

impl DeepView for SearchNext {
    type V = SearchNextView;

    open spec fn deep_view(&self) -> SearchNextView {
        match self {
            SearchNext::Search { queries } => SearchNextView::Search {
                queries: queries.deep_view(),
            },
            SearchNext::Done(v) => SearchNextView::Done(json::document(*v)),
            SearchNext::Refused(m) => SearchNextView::Refused(m@),
        }
    }
}

/// What to carry out, in order, and what to ask next.
#[derive(Debug)]
pub struct SearchTurn {
    pub effects: Vec<ShimEffect>,
    pub next: SearchNext,
}

/// What a [`SearchTurn`] says.
#[verifier::ext_equal]
pub struct SearchTurnView {
    pub effects: Seq<ShimEffectView>,
    pub next: SearchNextView,
}

impl DeepView for SearchTurn {
    type V = SearchTurnView;

    open spec fn deep_view(&self) -> SearchTurnView {
        SearchTurnView { effects: self.effects.deep_view(), next: self.next.deep_view() }
    }
}

/// Takes up a search for an advisor: a session is opened under the backend's name
/// before the queries are put.
pub fn run_search(advisor: &str, model: &str, queries: Vec<String>) -> (r: SearchTurn)
    ensures
        r.deep_view() == (SearchTurnView {
            effects: seq![ShimEffectView::OpenSession(shim_session(advisor@, model@))],
            next: SearchNextView::Search { queries: queries.deep_view() },
        }),
{
    SearchTurn {
        effects: opening(new_session(advisor, model)),
        next: SearchNext::Search { queries },
    }
}

/// How a search ends: its session is closed, by whether the backend answered, and
/// its results or its error are reported. Nothing is cached.
pub open spec fn search_end(reply: SearchReply) -> SearchTurnView {
    let (exit, next) = match reply {
        SearchReply::Results(v) => (
            ExitStatus::Finished,
            SearchNextView::Done(json::document(v)),
        ),
        SearchReply::Unwritable(e) => (
            ExitStatus::Finished,
            SearchNextView::Refused("search serialize failed: "@ + e@),
        ),
        SearchReply::Unavailable(m) => (
            ExitStatus::Error,
            SearchNextView::Refused("backend_unavailable: "@ + m@),
        ),
        SearchReply::Failed(e) => (
            ExitStatus::Error,
            SearchNextView::Refused("search failed: "@ + e@),
        ),
    };
    SearchTurnView { effects: seq![ShimEffectView::FinishSession(exit)], next }
}

/// Takes how a search ended.
pub fn on_search(reply: SearchReply) -> (r: SearchTurn)
    ensures
        r.deep_view() == search_end(reply),
{
    match reply {
        SearchReply::Results(v) => SearchTurn {
            effects: closing(ExitStatus::Finished),
            next: SearchNext::Done(v),
        },
        SearchReply::Unwritable(e) => SearchTurn {
            effects: closing(ExitStatus::Finished),
            next: SearchNext::Refused(cat2("search serialize failed: ", &e)),
        },
        SearchReply::Unavailable(m) => SearchTurn {
            effects: closing(ExitStatus::Error),
            next: SearchNext::Refused(cat2("backend_unavailable: ", &m)),
        },
        SearchReply::Failed(e) => SearchTurn {
            effects: closing(ExitStatus::Error),
            next: SearchNext::Refused(cat2("search failed: ", &e)),
        },
    }
}

// ---------------------------------------------------------------------------
// Laws
// ---------------------------------------------------------------------------

proof fn lemma_encode_adds(a: Seq<char>, b: Seq<char>)
    ensures
        encode_utf8(a + b) == encode_utf8(a) + encode_utf8(b),
    decreases a.len(),
{
    if a.len() == 0 {
        assert(a + b =~= b);
        assert(encode_utf8(a) =~= Seq::<u8>::empty());
        assert(Seq::<u8>::empty() + encode_utf8(b) =~= encode_utf8(b));
    } else {
        let rest = a.drop_first();
        assert((a + b).drop_first() =~= rest + b);
        lemma_encode_adds(rest, b);
        let head = encode_scalar(a[0] as u32);
        assert(encode_utf8(a) == head + encode_utf8(rest));
        assert(encode_utf8(a + b) == head + encode_utf8(rest + b));
        assert(head + (encode_utf8(rest) + encode_utf8(b)) =~= (head + encode_utf8(rest))
            + encode_utf8(b));
    }
}

/// A cut passage is a beginning of the original and no longer than the cap; a
/// span that fitted the original passage fits the cut one, and stays within it.
pub proof fn law_capped_passages(f: ExtractionFieldView, cap: nat)
    requires
        f.spans_its_text(),
    ensures
        f.capped(cap).verbatim.is_prefix_of(f.verbatim),
        cap > 0 ==> f.capped(cap).verbatim.len() <= cap,
        f.capped(cap).spans_its_text(),
        f.capped(cap).start == f.start,
        f.capped(cap).end <= f.end,
{
    if cap > 0 && f.verbatim.len() > cap {
        let kept = f.verbatim.take(cap as int);
        let rest = f.verbatim.skip(cap as int);
        assert(kept + rest =~= f.verbatim);
        lemma_encode_adds(kept, rest);
    }
}

/// A cap of zero means no cap.
pub proof fn law_zero_cap_cuts_nothing(f: ExtractionFieldView)
    ensures
        f.capped(0) == f,
{
}

/// A passage that does not occur in the page is rejected; whatever is refused,
/// nothing is cached.
pub proof fn law_rejections_are_not_cached(run: ExtractRunView, reply: LocateReply)
    ensures
        ({
            let t = run.after_locate(reply).1;
            &&& reply is NotFound ==> t.next is Refused
            &&& t.next is Refused ==> forall|i: int|
                0 <= i < t.effects.len() ==> !(#[trigger] t.effects[i] is CachePut)
        }),
{
}

/// What is cached is what is reported, under the address and the schema that were
/// asked for, stamped with the time of the request.
pub proof fn law_what_is_cached_is_what_is_reported(run: ExtractRunView, reply: LocateReply)
    requires
        reply is Found,
    ensures
        ({
            let t = run.after_locate(reply).1;
            &&& t.next matches ExtractNextView::Done(Json::Object(f)) && t.effects[0]
                == (ShimEffectView::CachePut {
                url: run.request.url,
                schema: run.request.schema,
                retrieved_at: run.now,
                payload: json::compact_text(f),
            })
        }),
{
}

/// A session is opened with the page in hand, and every answer of the model
/// closes it: at once where the model failed, after the passages otherwise.
pub proof fn law_sessions_are_closed(
    run: ExtractRunView,
    page: Result<Seq<char>, Seq<char>>,
    model: ExtractReply,
    located: LocateReply,
)
    ensures
        run.after_fetch(page).1.effects.contains(
            ShimEffectView::OpenSession(shim_session(run.request.advisor, run.request.model)),
        ) <==> page is Ok,
        page is Err ==> run.after_fetch(page).0.phase == ExtractPhase::Over,
        !(model is Passages) ==> run.after_extract(model).1.effects.last()
            == ShimEffectView::FinishSession(ExitStatus::Error),
        run.after_locate(located).1.effects.last() is FinishSession,
        run.after_locate(located).1.effects.last() == ShimEffectView::FinishSession(
            ExitStatus::Finished,
        ) <==> located is Found,
{
    if page is Ok {
        assert(run.after_fetch(page).1.effects[0] == ShimEffectView::OpenSession(
            shim_session(run.request.advisor, run.request.model),
        ));
    }
}

/// A search is never cached, and what it ends in closes its session.
pub proof fn law_searches_are_not_cached(reply: SearchReply)
    ensures
        search_end(reply).effects.len() == 1,
        search_end(reply).effects[0] is FinishSession,
        search_end(reply).next is Done <==> reply is Results,
{
}

/// An entry is fresh from the second it was retrieved until the time to live has
/// passed, and no longer.
pub proof fn law_freshness_window(r: int, n: int)
    ensures
        fresh(Some(r), Some(n)) <==> r <= n < r + 86400,
        !fresh(None, Some(n)),
        !fresh(Some(r), None),
{
}

/// A fresh entry that can be read is served without fetching; a stale one is
/// always fetched again.
pub proof fn law_cache_hits_and_misses(run: ExtractRunView, entry: (Seq<char>, Seq<char>))
    ensures
        fresh(unix_of(entry.0), unix_of(run.now)) && json::parsed(entry.1) is Ok
            ==> run.after_cache(Some(entry)).1.next == ExtractNextView::Done(
            json::parsed(entry.1)->Ok_0,
        ),
        !fresh(unix_of(entry.0), unix_of(run.now)) ==> run.after_cache(Some(entry)).1.next is Fetch,
        run.after_cache(None).1.next is Fetch,
{
}

/// A page that was fetched is what the model reads, for the fields that were asked
/// for, in a session of the advisor's shim model; what the model found is located
/// in that same page.
pub proof fn law_passages_are_of_the_page(run: ExtractRunView, content: Seq<char>)
    ensures
        ({
            let (next, t) = run.after_fetch(Ok(content));
            &&& next == (ExtractRunView { content, phase: ExtractPhase::Extract, ..run })
            &&& t.next == (ExtractNextView::Extract { content, fields: run.request.fields })
            &&& t.effects == seq![
                ShimEffectView::OpenSession(
                    ShimSessionView {
                        task_id: None,
                        advisor: run.request.advisor,
                        role: SessionRole::Shim,
                        model: run.request.model,
                        kind: SessionKind::OneShotApi,
                        workspace: None,
                    },
                ),
            ]
        }),
        run.after_extract(ExtractReply::Passages).0 == (ExtractRunView {
            phase: ExtractPhase::Locate,
            ..run
        }),
        run.after_extract(ExtractReply::Passages).1.next == (ExtractNextView::Locate {
            content: run.content,
        }),
        run.after_extract(ExtractReply::Passages).1.effects.len() == 0,
{
}

/// An address that is not in the cache, or no longer fresh, is fetched, and no
/// other; the run goes on with the same request.
pub proof fn law_misses_fetch_the_address(run: ExtractRunView, stale: (Seq<char>, Seq<char>))
    requires
        !fresh(unix_of(stale.0), unix_of(run.now)) || json::parsed(stale.1) is Err,
    ensures
        run.after_cache(None).1.next == (ExtractNextView::Fetch { url: run.request.url }),
        run.after_cache(None).0 == (ExtractRunView { phase: ExtractPhase::Fetch, ..run }),
        run.after_cache(Some(stale)) == run.after_cache(None),
        run.after_cache(None).1.effects.len() == 0,
{
}

/// A result holds the address, the time, the digest of the page and every passage
/// that was located, in order: its field, its own words up to the cap, and where
/// it stands in the page.
pub proof fn law_results_hold_every_passage(run: ExtractRunView, fields: Vec<ExtractionField>, i: int)
    requires
        0 <= i < fields@.len(),
    ensures
        run.after_locate(LocateReply::Found(fields)).1.next matches ExtractNextView::Done(
            Json::Object(f),
        ) && {
            &&& f["url"@] == Json::Text(run.request.url)
            &&& f["retrieved_at"@] == Json::Text(run.now)
            &&& f["content_digest"@] == Json::Text(
                "sha256:"@ + digest::sha256_of(run.content),
            )
            &&& f["extractions"@] matches Json::List(items) && {
                let found = fields@[i].deep_view();
                let kept = if run.cap == 0 || found.verbatim.len() <= run.cap {
                    found.verbatim
                } else {
                    found.verbatim.take(run.cap as int)
                };
                &&& items.len() == fields@.len()
                &&& items[i] matches Json::Object(e) && {
                    &&& e["field"@] == Json::Text(found.field)
                    &&& e["verbatim"@] == Json::Text(kept)
                    &&& e["char_offset"@] matches Json::List(ends) && ends.len() == 2 && ends[0]
                        == Json::Int(found.start) && (kept == found.verbatim ==> ends[1]
                        == Json::Int(found.end))
                }
            }
        },
{
    reveal_strlit("url");
    reveal_strlit("retrieved_at");
    reveal_strlit("content_digest");
    reveal_strlit("extractions");
    reveal_strlit("field");
    reveal_strlit("verbatim");
    reveal_strlit("char_offset");
    assert("url"@.len() == 3 && "retrieved_at"@.len() == 12 && "content_digest"@.len() == 14);
    assert("extractions"@.len() == 11 && "field"@.len() == 5 && "verbatim"@.len() == 8);
    assert("char_offset"@.len() == 11);
    let views = fields.deep_view();
    assert(views[i] == fields@[i].deep_view());
    let capped = all_capped(views, run.cap);
    assert(capped[i] == views[i].capped(run.cap));
    let found = views[i];
    if run.cap > 0 && found.verbatim.len() > run.cap {
        assert(found.verbatim.take(run.cap as int).len() != found.verbatim.len());
    }
}

/// What stops an extraction is reported in its own words, and the run is over.
pub proof fn law_stopped_extractions_say_why(run: ExtractRunView, words: String)
    ensures
        run.after_fetch(Err(words@)).1.next == ExtractNextView::Refused("fetch failed: "@ + words@),
        run.after_fetch(Err(words@)).1.effects.len() == 0,
        run.after_extract(ExtractReply::Unavailable(words)).1.next == ExtractNextView::Refused(
            "extraction model unavailable: "@ + words@,
        ),
        run.after_extract(ExtractReply::Failed(words)).1.next == ExtractNextView::Refused(
            "extraction failed: "@ + words@,
        ),
        run.after_locate(LocateReply::Failed(words)).1.next == ExtractNextView::Refused(
            "extraction failed: "@ + words@,
        ),
        run.after_locate(LocateReply::NotFound { field: words }).1.next == ExtractNextView::Refused(
            "rejected: verbatim not found in content — field "@ + words@,
        ),
        run.after_extract(ExtractReply::Unavailable(words)).0.phase is Over,
        run.after_extract(ExtractReply::Failed(words)).0.phase is Over,
        run.after_locate(LocateReply::Failed(words)).0.phase is Over,
        run.after_locate(LocateReply::NotFound { field: words }).0.phase is Over,
{
}

/// A passage longer than the cap keeps exactly as many characters as the cap, and a
/// shorter one keeps all of them.
pub proof fn law_caps_are_exact(f: ExtractionFieldView, cap: nat)
    ensures
        cap > 0 && f.verbatim.len() > cap ==> f.capped(cap).verbatim == f.verbatim.take(cap as int)
            && f.capped(cap).field == f.field && f.capped(cap).start == f.start && f.capped(cap).end
            == f.start + encode_utf8(f.verbatim.take(cap as int)).len(),
        cap == 0 || f.verbatim.len() <= cap ==> f.capped(cap) == f,
{
}

/// Searches go where the profile says, and to the provider where it says nothing:
/// to its search tool with the shim's own model and address, or to the engine at
/// the profile's address. Switched off or unknown, they go nowhere.
pub proof fn law_searches_go_where_the_profile_says(
    backend: Option<Seq<char>>,
    endpoint: Option<Seq<char>>,
    roles: RolesView,
    default_model: Seq<char>,
)
    ensures
        ({
            let route = search_route_of(backend, endpoint, roles, default_model);
            &&& backend is None || backend == Some("anthropic"@) <==> route is Anthropic
            &&& backend == Some("searxng"@) <==> route is Searxng
            &&& route matches SearchRouteView::Anthropic { model, base_url } ==> {
                &&& model == roles.shim_model(default_model)
                &&& roles.shim matches Some(RoleModelView::Detailed(t)) ==> base_url == t.base_url
                &&& !(roles.shim matches Some(RoleModelView::Detailed(_))) ==> base_url is None
            }
            &&& route matches SearchRouteView::Searxng { endpoint: at } ==> at == endpoint
            &&& route is Refused ==> backend is Some
            &&& backend == Some("none"@) ==> route == SearchRouteView::Refused(
                "backend_unavailable: search disabled on this profile (search.backend = none)"@,
            )
            &&& route is Refused && backend != Some("none"@) ==> route == SearchRouteView::Refused(
                "backend_unavailable: unknown search backend "@ + backend->0,
            )
        }),
{
    reveal_strlit("anthropic");
    reveal_strlit("searxng");
    reveal_strlit("none");
    assert("anthropic"@.len() == 9 && "searxng"@.len() == 7 && "none"@.len() == 4);
}

/// A search ends with its results or with the reason why there are none; its
/// session counts as finished wherever the backend answered.
pub proof fn law_searches_end_as_answered(results: Value, words: String)
    ensures
        search_end(SearchReply::Results(results)).next == SearchNextView::Done(
            json::document(results),
        ),
        search_end(SearchReply::Results(results)).effects[0] == ShimEffectView::FinishSession(
            ExitStatus::Finished,
        ),
        search_end(SearchReply::Unwritable(words)).next == SearchNextView::Refused(
            "search serialize failed: "@ + words@,
        ),
        search_end(SearchReply::Unwritable(words)).effects[0] == ShimEffectView::FinishSession(
            ExitStatus::Finished,
        ),
        search_end(SearchReply::Unavailable(words)).next == SearchNextView::Refused(
            "backend_unavailable: "@ + words@,
        ),
        search_end(SearchReply::Unavailable(words)).effects[0] == ShimEffectView::FinishSession(
            ExitStatus::Error,
        ),
        search_end(SearchReply::Failed(words)).next == SearchNextView::Refused(
            "search failed: "@ + words@,
        ),
        search_end(SearchReply::Failed(words)).effects[0] == ShimEffectView::FinishSession(
            ExitStatus::Error,
        ),
{
}

/// A timestamp counts as the second it falls in.
pub proof fn law_timestamps_count_in_seconds(ts: Seq<char>)
    ensures
        clock::instant(ts) is None <==> unix_of(ts) is None,
        clock::instant(ts) matches Some(n) ==> unix_of(ts)->0 * 1_000_000_000 <= n < (unix_of(ts)->0
            + 1) * 1_000_000_000,
{
}

/// What the cache and the network said is taken as it was said.
pub proof fn law_replies_are_taken_as_given(a: String, b: String)
    ensures
        cached_view(Some((a, b))) == Some((a@, b@)),
        cached_view(None) is None,
        page_view(Ok(a)) == Ok::<Seq<char>, Seq<char>>(a@),
        page_view(Err(a)) == Err::<Seq<char>, Seq<char>>(a@),
{
}

/// What is said of a passage, a request and a session is what they hold, field by
/// field.
pub proof fn law_passages_are_said_whole(
    extraction_field: ExtractionField,
    extract_request: ExtractRequest,
    shim_session: ShimSession,
)
    ensures
        extraction_field.deep_view().field == extraction_field.field@,
        extraction_field.deep_view().verbatim == extraction_field.verbatim@,
        extraction_field.deep_view().start == extraction_field.start as int,
        extraction_field.deep_view().end == extraction_field.end as int,
        extract_request.deep_view().advisor == extract_request.advisor@,
        extract_request.deep_view().model == extract_request.model@,
        extract_request.deep_view().url == extract_request.url@,
        extract_request.deep_view().fields == extract_request.fields.deep_view(),
        extract_request.deep_view().schema == extract_request.schema@,
        shim_session.deep_view().task_id == shim_session.task_id.deep_view(),
        shim_session.deep_view().advisor == shim_session.advisor@,
        shim_session.deep_view().role == shim_session.role,
        shim_session.deep_view().model == shim_session.model@,
        shim_session.deep_view().kind == shim_session.kind,
        shim_session.deep_view().workspace == shim_session.workspace.deep_view(),
{
}

} // verus!
