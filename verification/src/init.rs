//! Setting a repository up: the starter configuration, and the files that keep
//! an advisor's client from changing the working tree.
//!
//! Every file is merged, never overwritten: what was in it stays, and doing it
//! twice changes nothing the second time.

use crate::client::{Client, ClientView};
use crate::fault::{Fault, FaultView};
use crate::json::{
    self, as_text, equal, into_list, into_object, object, of_list, of_object, of_text, parse,
    pretty, put, put_text, take, Json,
};
use crate::text::{self, cat2, cat3, contains, is_blank};
use serde_json::{Map as Object, Value};
use vstd::prelude::*;

verus! {

broadcast use vstd::string::group_string_axioms;

// ---------------------------------------------------------------------------
// Configuration
// ---------------------------------------------------------------------------

/// The configuration to start from, for an advisor with this client.
pub open spec fn starter(client: ClientView) -> Seq<char> {
    "default_profile = \"personal\"\n\n[defaults]\nconcurrency.machine_cap = 4\nconcurrency.advisor_cap = 2\nwatchdog_minutes = 10\nshim.excerpt_cap_chars = 1500\nshim.cache_ttl_hours = 24\ndowngrade_policy = \"tighten\"          # tighten | refuse\ntighten.allowlist_factor = 0.5        # applied on containment downgrade\ntighten.turn_factor = 0.6\nadvisor.writable_paths = []           # in-repo globs made RW in the advisor mount; empty = repo fully read-only\nlifetime.token_factor = 1.0           # task-lifetime token ceiling factor\nlifetime.wall_clock_minutes = 30      # task-lifetime wall-clock ceiling\n\n[profiles.personal]\nadvisor.model = \""@ + client.name + "-fable-5\"      # informational; advisor runs in "@ + client.title + " Code\nadvisor.context = \"standard\"\nroles.tier0 = \""@ + client.name + "-sonnet-4-6\"\nroles.tier1 = { model = \"codex\", kind = \"driven_cli\", turn_budget = 25 }\nroles.tier2 = \""@ + client.name + "-opus-4-8\"\nroles.verifier_floor = \""@ + client.name + "-sonnet-4-6\"\ncontainment_min = { tier0 = 0, tier1 = 1, tier2 = 2 }\nsearch.backend = \"searxng\"\nsearch.endpoint = \"https://searx.internal:8443\"   # unreachable => backend_unavailable\n"@
}

fn starter_text(client: &Client) -> (r: String)
    ensures
        r@ == starter(client.deep_view()),
{
    let mut out = "default_profile = \"personal\"\n\n[defaults]\nconcurrency.machine_cap = 4\nconcurrency.advisor_cap = 2\nwatchdog_minutes = 10\nshim.excerpt_cap_chars = 1500\nshim.cache_ttl_hours = 24\ndowngrade_policy = \"tighten\"          # tighten | refuse\ntighten.allowlist_factor = 0.5        # applied on containment downgrade\ntighten.turn_factor = 0.6\nadvisor.writable_paths = []           # in-repo globs made RW in the advisor mount; empty = repo fully read-only\nlifetime.token_factor = 1.0           # task-lifetime token ceiling factor\nlifetime.wall_clock_minutes = 30      # task-lifetime wall-clock ceiling\n\n[profiles.personal]\nadvisor.model = \"".to_owned();
    out.append(&client.name);
    out.append("-fable-5\"      # informational; advisor runs in ");
    out.append(&client.title);
    out.append(" Code\nadvisor.context = \"standard\"\nroles.tier0 = \"");
    out.append(&client.name);
    out.append("-sonnet-4-6\"\nroles.tier1 = { model = \"codex\", kind = \"driven_cli\", turn_budget = 25 }\nroles.tier2 = \"");
    out.append(&client.name);
    out.append("-opus-4-8\"\nroles.verifier_floor = \"");
    out.append(&client.name);
    out.append("-sonnet-4-6\"\ncontainment_min = { tier0 = 0, tier1 = 1, tier2 = 2 }\nsearch.backend = \"searxng\"\nsearch.endpoint = \"https://searx.internal:8443\"   # unreachable => backend_unavailable\n");
    out
}

/// The configuration to write, unless there is one already.
pub fn starter_config(exists: bool, client: &Client) -> (r: Option<String>)
    ensures
        match r {
            Some(t) => !exists && t@ == starter(client.deep_view()),
            None => exists,
        },
{
    if exists {
        None
    } else {
        Some(starter_text(client))
    }
}

// ---------------------------------------------------------------------------
// Reports
// ---------------------------------------------------------------------------

/// What became of a file.
#[derive(Debug, Clone, Copy, PartialEq, Eq, Structural)]
pub enum FileOutcome {
    /// It was not there, and is now.
    Created,
    /// It was there, and more was put into it.
    Merged,
    /// It was there, with everything in it.
    Unchanged,
}

impl FileOutcome {
    /// The outcome in a word.
    pub open spec fn word(self) -> Seq<char> {
        match self {
            FileOutcome::Created => "created"@,
            FileOutcome::Merged => "merged"@,
            FileOutcome::Unchanged => "unchanged"@,
        }
    }

    /// The outcome in a word.
    pub fn label(self) -> (r: &'static str)
        ensures
            r@ == self.word(),
    {
        match self {
            FileOutcome::Created => "created",
            FileOutcome::Merged => "merged",
            FileOutcome::Unchanged => "unchanged",
        }
    }
}

/// What became of each file of the lockdown.
#[derive(Debug, Clone, Copy, PartialEq, Eq, Structural)]
pub struct LockdownReport {
    /// The client's settings.
    pub settings: FileOutcome,
    /// The server registrations.
    pub mcp: FileOutcome,
    /// The client's instructions.
    pub claude_md: FileOutcome,
}

impl Default for LockdownReport {
    fn default() -> (r: Self)
        ensures
            r.settings == FileOutcome::Unchanged,
            r.mcp == FileOutcome::Unchanged,
            r.claude_md == FileOutcome::Unchanged,
    {
        LockdownReport {
            settings: FileOutcome::Unchanged,
            mcp: FileOutcome::Unchanged,
            claude_md: FileOutcome::Unchanged,
        }
    }
}

/// What setting a repository up did.
#[derive(Debug, Clone, Copy, PartialEq, Eq, Structural)]
pub struct InitReport {
    /// Whether the starter configuration was written.
    pub wrote_config: bool,
    pub lockdown: LockdownReport,
}

// ---------------------------------------------------------------------------
// JSON files
// ---------------------------------------------------------------------------

/// A file before it is merged into.
#[derive(Debug)]
pub enum FileText {
    Absent,
    Present(String),
    /// It is there and could not be read.
    Unreadable(String),
}

/// What a [`FileText`] says.
#[verifier::ext_equal]
pub enum FileTextView {
    Absent,
    Present(Seq<char>),
    Unreadable(Seq<char>),
}

impl DeepView for FileText {
    type V = FileTextView;

    open spec fn deep_view(&self) -> FileTextView {
        match self {
            FileText::Absent => FileTextView::Absent,
            FileText::Present(t) => FileTextView::Present(t@),
            FileText::Unreadable(e) => FileTextView::Unreadable(e@),
        }
    }
}

/// An error with a path in it.
pub open spec fn fault_at(words: Seq<char>, path: Seq<char>, cause: Seq<char>) -> FaultView {
    FaultView { message: words + path, cause: Some(cause) }
}

/// The object in a file, and whether there was one. A file that is missing or
/// blank holds an object without fields.
pub open spec fn loaded(path: Seq<char>, file: FileTextView) -> Result<
    (Map<Seq<char>, Json>, bool),
    FaultView,
> {
    match file {
        FileTextView::Absent => Ok((json::no_fields(), false)),
        FileTextView::Unreadable(e) => Err(fault_at("reading "@, path, e)),
        FileTextView::Present(t) => if text::blank(t) {
            Ok((json::no_fields(), false))
        } else {
            match json::parsed(t) {
                Err(e) => Err(fault_at("parsing JSON from "@, path, e)),
                Ok(Json::Object(f)) => Ok((f, true)),
                Ok(_) => Err(FaultView { message: path + " is not a JSON object"@, cause: None }),
            }
        },
    }
}

fn fault_on(words: &str, path: &str, cause: String) -> (r: Fault)
    ensures
        r.deep_view() == fault_at(words@, path@, cause@),
{
    Fault { message: cat2(words, path), cause: Some(cause) }
}

/// A loaded object and whether it was there.
pub open spec fn loaded_view(r: Result<(Object<String, Value>, bool), Fault>) -> Result<
    (Map<Seq<char>, Json>, bool),
    FaultView,
> {
    match r {
        Ok((m, existed)) => Ok((json::fields(m), existed)),
        Err(f) => Err(f.deep_view()),
    }
}

fn load_json_object(path: &str, file: FileText) -> (r: Result<
    (Object<String, Value>, bool),
    Fault,
>)
    ensures
        loaded_view(r) == loaded(path@, file.deep_view()),
        r is Ok ==> json::nests_within(Json::Object(json::fields(r->Ok_0.0)), json::depth_limit()),
{
    match file {
        FileText::Absent => Ok((object(), false)),
        FileText::Unreadable(e) => Err(fault_on("reading ", path, e)),
        FileText::Present(t) => {
            if is_blank(&t) {
                return Ok((object(), false));
            }
            match parse(&t) {
                Err(e) => Err(fault_on("parsing JSON from ", path, e)),
                Ok(v) => match into_object(v) {
                    Some(m) => Ok((m, true)),
                    None => Err(Fault::new(cat2(path, " is not a JSON object"))),
                },
            }
        },
    }
}

/// What merging into a file comes to.
#[derive(Debug)]
pub struct Merge {
    pub outcome: FileOutcome,
    /// The text to write, where the file changes.
    pub text: Option<String>,
}

/// How a merge of an object is written: not at all where nothing is missing, and
/// laid out, as a text that gives the merged object back, otherwise.
pub open spec fn written(existed: bool, changed: bool, merged: Map<Seq<char>, Json>, m: Merge) -> bool {
    if existed && !changed {
        m.outcome == FileOutcome::Unchanged && m.text is None
    } else {
        &&& m.outcome == if existed {
            FileOutcome::Merged
        } else {
            FileOutcome::Created
        }
        &&& m.text is Some
        &&& !text::blank(m.text->0@)
        &&& m.text->0@ == json::laid_out(Json::Object(merged)).push('\n')
        &&& json::reads_like(m.text->0@, Json::Object(merged))
        &&& json::gives_back(m.text->0@, Json::Object(merged))
    }
}

fn write_json_object(obj: Object<String, Value>, existed: bool) -> (r: Merge)
    requires
        json::nests_within(Json::Object(json::fields(obj)), json::depth_limit()),
    ensures
        written(existed, true, json::fields(obj), r),
{
    let mut out = match pretty(&of_object(obj)) {
        Ok(t) => t,
        Err(e) => e,
    };
    out.push('\n');
    Merge {
        outcome: if existed {
            FileOutcome::Merged
        } else {
            FileOutcome::Created
        },
        text: Some(out),
    }
}

/// The value under a key, or another where there is none.
pub open spec fn field_or(f: Map<Seq<char>, Json>, key: Seq<char>, other: Json) -> Json {
    if f.contains_key(key) {
        f[key]
    } else {
        other
    }
}

// ---------------------------------------------------------------------------
// The client's settings
// ---------------------------------------------------------------------------

/// Whether a list holds a text.
pub open spec fn lists(items: Seq<Json>, t: Seq<char>) -> bool {
    items.contains(Json::Text(t))
}

/// A list with a text in it: itself where it has the text, with the text at its
/// end otherwise.
pub open spec fn listing(items: Seq<Json>, t: Seq<char>) -> Seq<Json> {
    if lists(items, t) {
        items
    } else {
        items.push(Json::Text(t))
    }
}

/// A list of denied tools with the ones in it that change the working tree.
pub open spec fn denying(items: Seq<Json>) -> Seq<Json> {
    listing(listing(listing(items, "Edit"@), "Write"@), "Bash"@)
}

/// Settings with the deny rules in them, and whether any was missing.
pub open spec fn denied(f: Map<Seq<char>, Json>, client: ClientView) -> Result<
    (Map<Seq<char>, Json>, bool),
    Seq<char>,
> {
    match field_or(f, "permissions"@, Json::Object(json::no_fields())) {
        Json::Object(p) => match field_or(p, "deny"@, Json::List(Seq::empty())) {
            Json::List(items) => Ok(
                (
                    f.insert(
                        "permissions"@,
                        Json::Object(p.insert("deny"@, Json::List(denying(items)))),
                    ),
                    denying(items) != items,
                ),
            ),
            _ => Err(
                "`permissions.deny` in "@ + client.dir() + "/settings.json is not an array"@,
            ),
        },
        _ => Err("`permissions` in "@ + client.dir() + "/settings.json is not an object"@),
    }
}

/// Whether a merge of the settings is as it should be.
pub open spec fn settings_merged(
    path: Seq<char>,
    client: ClientView,
    file: FileTextView,
    r: Result<Merge, Fault>,
) -> bool {
    match loaded(path, file) {
        Err(e) => r matches Err(f) && f.deep_view() == e,
        Ok((f, existed)) => match denied(f, client) {
            Err(m) => r matches Err(f) && f.deep_view() == (FaultView { message: m, cause: None }),
            Ok((merged, added)) => r matches Ok(m) && written(existed, added, merged, m),
        },
    }
}

fn has_text(items: &Vec<Value>, t: &str) -> (r: bool)
    ensures
        r == lists(json::documents(items@), t@),
{
    let ghost docs = json::documents(items@);
    let mut i: usize = 0;
    while i < items.len()
        invariant
            i <= items@.len(),
            docs == json::documents(items@),
            forall|j: int| 0 <= j < i ==> docs[j] != Json::Text(t@),
        decreases items@.len() - i,
    {
        assert(docs[i as int] == json::document(items@[i as int]));
        match as_text(&items[i]) {
            Some(s) => {
                if text::same(s, t) {
                    return true;
                }
            },
            None => {},
        }
        i = i + 1;
    }
    false
}

fn list_text(items: &mut Vec<Value>, t: &str) -> (added: bool)
    ensures
        json::documents(final(items)@) == listing(json::documents(old(items)@), t@),
        added == !lists(json::documents(old(items)@), t@),
{
    if has_text(items, t) {
        false
    } else {
        let ghost before = json::documents(items@);
        items.push(of_text(t));
        assert(json::documents(items@) =~= before.push(Json::Text(t@)));
        true
    }
}

fn take_object(m: &mut Object<String, Value>, key: &str) -> (r: Option<Object<String, Value>>)
    ensures
        json::fields(*final(m)) == json::fields(*old(m)).remove(key@),
        match field_or(json::fields(*old(m)), key@, Json::Object(json::no_fields())) {
            Json::Object(f) => r is Some && json::fields(r->0) == f,
            _ => r is None,
        },
{
    match take(m, key) {
        Some(v) => into_object(v),
        None => Some(object()),
    }
}

fn take_list(m: &mut Object<String, Value>, key: &str) -> (r: Option<Vec<Value>>)
    ensures
        json::fields(*final(m)) == json::fields(*old(m)).remove(key@),
        match field_or(json::fields(*old(m)), key@, Json::List(Seq::empty())) {
            Json::List(items) => r is Some && json::documents(r->0@) == items,
            _ => r is None,
        },
{
    match take(m, key) {
        Some(v) => into_list(v),
        None => {
            let items: Vec<Value> = Vec::new();
            assert(json::documents(items@) =~= Seq::<Json>::empty());
            Some(items)
        },
    }
}

proof fn lemma_denied_nests(f: Map<Seq<char>, Json>, client: ClientView, limit: nat)
    requires
        limit >= 3,
        json::nests_within(Json::Object(f), limit),
        denied(f, client) is Ok,
    ensures
        json::nests_within(Json::Object(denied(f, client)->Ok_0.0), limit),
{
    let perm = field_or(f, "permissions"@, Json::Object(json::no_fields()));
    let p = perm->Object_0;
    let deny = field_or(p, "deny"@, Json::List(Seq::empty()));
    let items = deny->List_0;
    let under = (limit - 1) as nat;
    let deep = (limit - 2) as nat;
    let wider = denying(items);
    let p2 = p.insert("deny"@, Json::List(wider));
    json::lemma_object_nests(f, limit);
    json::lemma_object_nests(json::no_fields(), under);
    json::lemma_object_nests(p, under);
    json::lemma_list_nests(Seq::empty(), deep);
    json::lemma_list_nests(items, deep);
    assert(json::nests_within(perm, under));
    assert(json::nests_within(deny, deep));
    assert forall|i: int| 0 <= i < wider.len() implies json::nests_within(
        #[trigger] wider[i],
        (limit - 3) as nat,
    ) by {
        if i < items.len() {
            assert(wider[i] == items[i]);
        }
    }
    json::lemma_list_nests(wider, deep);
    json::lemma_object_nests(p2, under);
    json::lemma_object_nests(f.insert("permissions"@, Json::Object(p2)), limit);
}

/// Puts the deny rules into the client's settings.
pub fn merge_settings(path: &str, client: &Client, file: FileText) -> (r: Result<Merge, Fault>)
    ensures
        settings_merged(path@, client.deep_view(), file.deep_view(), r),
{
    let (obj, existed) = match load_json_object(path, file) {
        Ok(x) => x,
        Err(e) => return Err(e),
    };
    let ghost f = json::fields(obj);
    let mut obj = obj;
    let mut permissions = match take_object(&mut obj, "permissions") {
        Some(p) => p,
        None => return Err(
            Fault::new(
                cat3("`permissions` in ", &client.dir(), "/settings.json is not an object"),
            ),
        ),
    };
    let ghost p = json::fields(permissions);
    let mut deny = match take_list(&mut permissions, "deny") {
        Some(d) => d,
        None => return Err(
            Fault::new(
                cat3("`permissions.deny` in ", &client.dir(), "/settings.json is not an array"),
            ),
        ),
    };
    let ghost items = json::documents(deny@);
    let edit = list_text(&mut deny, "Edit");
    let write = list_text(&mut deny, "Write");
    let bash = list_text(&mut deny, "Bash");
    let added = edit || write || bash;
    proof {
        let first = listing(items, "Edit"@);
        let second = listing(first, "Write"@);
        assert(added == (denying(items).len() != items.len()));
        assert(!added ==> denying(items) == items);
    }
    if existed && !added {
        return Ok(Merge { outcome: FileOutcome::Unchanged, text: None });
    }
    let list = of_list(deny);
    put(&mut permissions, "deny", list);
    let inner = of_object(permissions);
    put(&mut obj, "permissions", inner);
    proof {
        let p2 = p.insert("deny"@, Json::List(denying(items)));
        assert(p.remove("deny"@).insert("deny"@, Json::List(denying(items))) =~= p2);
        assert(f.remove("permissions"@).insert("permissions"@, Json::Object(p2)) =~= f.insert(
            "permissions"@,
            Json::Object(p2),
        ));
        lemma_denied_nests(f, client.deep_view(), json::depth_limit());
    }
    Ok(write_json_object(obj, existed))
}

// ---------------------------------------------------------------------------
// .mcp.json
// ---------------------------------------------------------------------------

/// The registration of the MCP server.
pub open spec fn registration(mcp_bin: Seq<char>) -> Json {
    Json::Object(map!["command"@ => Json::Text(mcp_bin)])
}

/// Server registrations with the MCP server in them, and whether that changed
/// any.
pub open spec fn registered(f: Map<Seq<char>, Json>, mcp_bin: Seq<char>) -> Result<
    (Map<Seq<char>, Json>, bool),
    Seq<char>,
> {
    match field_or(f, "mcpServers"@, Json::Object(json::no_fields())) {
        Json::Object(s) => Ok(
            (
                f.insert(
                    "mcpServers"@,
                    Json::Object(s.insert("maestro"@, registration(mcp_bin))),
                ),
                !(s.contains_key("maestro"@) && s["maestro"@] == registration(mcp_bin)),
            ),
        ),
        _ => Err("`mcpServers` in .mcp.json is not an object"@),
    }
}

/// Whether a merge of the registrations is as it should be.
pub open spec fn mcp_merged(
    path: Seq<char>,
    file: FileTextView,
    mcp_bin: Seq<char>,
    r: Result<Merge, Fault>,
) -> bool {
    match loaded(path, file) {
        Err(e) => r matches Err(f) && f.deep_view() == e,
        Ok((f, existed)) => match registered(f, mcp_bin) {
            Err(m) => r matches Err(f) && f.deep_view() == (FaultView { message: m, cause: None }),
            Ok((merged, changed)) => r matches Ok(m) && written(existed, changed, merged, m),
        },
    }
}

proof fn lemma_registered_nests(f: Map<Seq<char>, Json>, mcp_bin: Seq<char>, limit: nat)
    requires
        limit >= 3,
        json::nests_within(Json::Object(f), limit),
        registered(f, mcp_bin) is Ok,
    ensures
        json::nests_within(Json::Object(registered(f, mcp_bin)->Ok_0.0), limit),
{
    let servers = field_or(f, "mcpServers"@, Json::Object(json::no_fields()));
    let s = servers->Object_0;
    let under = (limit - 1) as nat;
    let deep = (limit - 2) as nat;
    let s2 = s.insert("maestro"@, registration(mcp_bin));
    json::lemma_object_nests(f, limit);
    json::lemma_object_nests(json::no_fields(), under);
    json::lemma_object_nests(s, under);
    assert(json::nests_within(servers, under));
    json::lemma_object_nests(registration(mcp_bin)->Object_0, deep);
    json::lemma_object_nests(s2, under);
    json::lemma_object_nests(f.insert("mcpServers"@, Json::Object(s2)), limit);
}

/// Registers the MCP server in `.mcp.json`.
pub fn merge_mcp(path: &str, file: FileText, mcp_bin: &str) -> (r: Result<Merge, Fault>)
    ensures
        mcp_merged(path@, file.deep_view(), mcp_bin@, r),
{
    let (obj, existed) = match load_json_object(path, file) {
        Ok(x) => x,
        Err(e) => return Err(e),
    };
    let ghost f = json::fields(obj);
    let mut obj = obj;
    let mut servers = match take_object(&mut obj, "mcpServers") {
        Some(s) => s,
        None => return Err(
            Fault::new("`mcpServers` in .mcp.json is not an object".to_owned()),
        ),
    };
    let ghost s = json::fields(servers);
    let mut entry = object();
    put_text(&mut entry, "command", mcp_bin);
    assert(json::fields(entry) =~= map!["command"@ => Json::Text(mcp_bin@)]);
    let desired = of_object(entry);
    let already = match take(&mut servers, "maestro") {
        Some(v) => equal(&v, &desired),
        None => false,
    };
    if existed && already {
        return Ok(Merge { outcome: FileOutcome::Unchanged, text: None });
    }
    put(&mut servers, "maestro", desired);
    let inner = of_object(servers);
    put(&mut obj, "mcpServers", inner);
    proof {
        let s2 = s.insert("maestro"@, registration(mcp_bin@));
        assert(s.remove("maestro"@).insert("maestro"@, registration(mcp_bin@)) =~= s2);
        assert(f.remove("mcpServers"@).insert("mcpServers"@, Json::Object(s2)) =~= f.insert(
            "mcpServers"@,
            Json::Object(s2),
        ));
        lemma_registered_nests(f, mcp_bin@, json::depth_limit());
    }
    Ok(write_json_object(obj, existed))
}

// ---------------------------------------------------------------------------
// The client's instructions
// ---------------------------------------------------------------------------

/// The mark that the advisor's section begins with.
pub const SECTION_MARKER: &'static str = "<!-- maestro:advisor-role -->";

/// The advisor's section behind its mark.
pub const SECTION_BODY: &'static str = "\n## maestro-managed repository\n\nThis repository is managed by **maestro**. You are the *advisor*: you plan and\nreview, but you do **not** edit files directly. The working tree is mounted\n**read-only** — attempts to Edit/Write/Bash-mutate it will fail by construction.\n\n- Implementation is **delegated**: use the maestro MCP tools (`delegate`,\n  `task_status`, `close_task`, `journal_query`, …) to hand work to subagents.\n- **Merges are human / `merge_task`** — verified work sits on a task branch and\n  is never auto-merged.\n- A writable scratch dir is provided for plans and notes; in-repo writes are\n  limited to the opt-in `advisor.writable_paths` allowlist (default: none).\n<!-- /maestro:advisor-role -->\n";

/// The advisor's section.
pub open spec fn section() -> Seq<char> {
    SECTION_MARKER@ + SECTION_BODY@
}

/// Instructions with the advisor's section in them: alone where there was no file,
/// and behind what was there, after an empty line, where there was one without
/// the section.
pub open spec fn with_section(existing: Option<Seq<char>>) -> (FileOutcome, Option<Seq<char>>) {
    match existing {
        None => (FileOutcome::Created, Some(section())),
        Some(t) => if text::contains_text(t, SECTION_MARKER@) {
            (FileOutcome::Unchanged, None)
        } else {
            let ended = if t.len() > 0 && t.last() == '\n' {
                t
            } else {
                t.push('\n')
            };
            (FileOutcome::Merged, Some(ended.push('\n') + section()))
        },
    }
}

/// Whether a merge of the instructions is as it should be.
pub open spec fn claude_md_merged(
    path: Seq<char>,
    file: FileTextView,
    r: Result<Merge, Fault>,
) -> bool {
    match file {
        FileTextView::Unreadable(e) => r matches Err(f) && f.deep_view() == fault_at(
            "reading "@,
            path,
            e,
        ),
        FileTextView::Absent => r matches Ok(m) && (m.outcome, m.text.deep_view()) == with_section(
            None,
        ),
        FileTextView::Present(t) => r matches Ok(m) && (m.outcome, m.text.deep_view())
            == with_section(Some(t)),
    }
}

/// Puts the advisor's section into the client's instructions.
pub fn merge_claude_md(path: &str, file: FileText) -> (r: Result<Merge, Fault>)
    ensures
        claude_md_merged(path@, file.deep_view(), r),
{
    match file {
        FileText::Unreadable(e) => Err(fault_on("reading ", path, e)),
        FileText::Absent => Ok(
            Merge {
                outcome: FileOutcome::Created,
                text: Some(cat2(SECTION_MARKER, SECTION_BODY)),
            },
        ),
        FileText::Present(t) => {
            if contains(&t, SECTION_MARKER) {
                return Ok(Merge { outcome: FileOutcome::Unchanged, text: None });
            }
            let n: usize = t.as_str().unicode_len();
            let mut out = t;
            if n == 0 || out.as_str().get_char(n - 1) != '\n' {
                out.push('\n');
            }
            out.push('\n');
            out.append(&cat2(SECTION_MARKER, SECTION_BODY));
            Ok(Merge { outcome: FileOutcome::Merged, text: Some(out) })
        },
    }
}

// ---------------------------------------------------------------------------
// The lockdown
// ---------------------------------------------------------------------------

/// The files of the lockdown.
#[derive(Debug, Clone, Copy, PartialEq, Eq, Structural)]
pub enum LockdownFile {
    Settings,
    Mcp,
    ClaudeMd,
}

/// A file to write.
#[derive(Debug)]
pub struct FileWrite {
    pub file: LockdownFile,
    pub text: String,
}

/// A step of the lockdown, and what it came to.
#[derive(Debug)]
pub struct Lockdown {
    /// The files to write, in order.
    pub writes: Vec<FileWrite>,
    /// The report once they are written, or the error that stopped it.
    pub report: Result<LockdownReport, Fault>,
}

/// The files of a repository before the lockdown.
#[derive(Debug)]
pub struct LockdownFiles {
    pub settings: FileText,
    pub mcp: FileText,
    pub claude_md: FileText,
}

/// Where the settings of a repository lie.
pub open spec fn settings_path(repo: Seq<char>, client: ClientView) -> Seq<char> {
    text::path_joined(text::path_joined(repo, client.dir()), "settings.json"@)
}

/// Where the server registrations of a repository lie.
pub open spec fn mcp_path(repo: Seq<char>) -> Seq<char> {
    text::path_joined(repo, ".mcp.json"@)
}

/// Where the advisor's instructions of a repository lie.
pub open spec fn claude_md_path(repo: Seq<char>, client: ClientView) -> Seq<char> {
    text::path_joined(repo, client.instructions)
}

/// Whether the write behind the first `n` is the one that a merge of `file` asks
/// for.
pub open spec fn writes_on(writes: Seq<FileWrite>, n: int, file: LockdownFile, m: Merge) -> bool {
    match m.text {
        Some(t) => writes.len() > n && writes[n].file == file && writes[n].text == t,
        None => true,
    }
}

/// How many files a merge writes.
pub open spec fn count(m: Merge) -> int {
    if m.text is Some {
        1
    } else {
        0
    }
}

/// Whether a lockdown is what the three merges come to, one after the other:
/// each file is written where its merge changes it, and the first merge that
/// fails ends the lockdown, after what came before it was written.
pub open spec fn locked_down(
    l: Lockdown,
    settings: Result<Merge, Fault>,
    mcp: Result<Merge, Fault>,
    claude_md: Result<Merge, Fault>,
) -> bool {
    match settings {
        Err(e) => l.report == Err::<LockdownReport, Fault>(e) && l.writes@.len() == 0,
        Ok(s) => writes_on(l.writes@, 0, LockdownFile::Settings, s) && match mcp {
            Err(e) => l.report == Err::<LockdownReport, Fault>(e) && l.writes@.len() == count(s),
            Ok(m) => writes_on(l.writes@, count(s), LockdownFile::Mcp, m) && match claude_md {
                Err(e) => l.report == Err::<LockdownReport, Fault>(e) && l.writes@.len() == count(s)
                    + count(m),
                Ok(c) => {
                    &&& writes_on(l.writes@, count(s) + count(m), LockdownFile::ClaudeMd, c)
                    &&& l.writes@.len() == count(s) + count(m) + count(c)
                    &&& l.report matches Ok(report) && report.settings == s.outcome && report.mcp
                        == m.outcome && report.claude_md == c.outcome
                },
            },
        },
    }
}

fn note(writes: &mut Vec<FileWrite>, file: LockdownFile, text: Option<String>)
    ensures
        match text {
            Some(t) => final(writes)@ == old(writes)@.push(FileWrite { file, text: t }),
            None => final(writes)@ == old(writes)@,
        },
{
    match text {
        Some(t) => writes.push(FileWrite { file, text: t }),
        None => {},
    }
}

/// What the files of the lockdown say.
#[verifier::ext_equal]
pub struct LockdownFilesView {
    pub settings: FileTextView,
    pub mcp: FileTextView,
    pub claude_md: FileTextView,
}

impl DeepView for LockdownFiles {
    type V = LockdownFilesView;

    open spec fn deep_view(&self) -> LockdownFilesView {
        LockdownFilesView {
            settings: self.settings.deep_view(),
            mcp: self.mcp.deep_view(),
            claude_md: self.claude_md.deep_view(),
        }
    }
}

/// Whether a lockdown is what merging into these files comes to.
pub open spec fn lockdown_of(
    repo: Seq<char>,
    client: ClientView,
    files: LockdownFilesView,
    mcp_bin: Seq<char>,
    l: Lockdown,
) -> bool {
    exists|settings: Result<Merge, Fault>, mcp: Result<Merge, Fault>, claude_md: Result<Merge, Fault>|
        {
            &&& #[trigger] locked_down(l, settings, mcp, claude_md)
            &&& settings_merged(settings_path(repo, client), client, files.settings, settings)
            &&& settings is Ok ==> mcp_merged(mcp_path(repo), files.mcp, mcp_bin, mcp)
            &&& settings is Ok && mcp is Ok ==> claude_md_merged(
                claude_md_path(repo, client),
                files.claude_md,
                claude_md,
            )
        }
}

/// A file once writes were carried out in order: the last text that was written to
/// it, or what it was before.
pub open spec fn file_after(
    file: FileTextView,
    which: LockdownFile,
    writes: Seq<FileWrite>,
) -> FileTextView
    decreases writes.len(),
{
    if writes.len() == 0 {
        file
    } else if writes.last().file == which {
        FileTextView::Present(writes.last().text@)
    } else {
        file_after(file, which, writes.drop_last())
    }
}

/// The files of the lockdown once writes were carried out.
pub open spec fn files_after(files: LockdownFilesView, writes: Seq<FileWrite>) -> LockdownFilesView {
    LockdownFilesView {
        settings: file_after(files.settings, LockdownFile::Settings, writes),
        mcp: file_after(files.mcp, LockdownFile::Mcp, writes),
        claude_md: file_after(files.claude_md, LockdownFile::ClaudeMd, writes),
    }
}

/// Merges the lockdown into the three files of a repository.
pub fn write_lockdown(repo: &str, client: &Client, files: LockdownFiles, mcp_bin: &str) -> (r:
    Lockdown)
    ensures
        lockdown_of(repo@, client.deep_view(), files.deep_view(), mcp_bin@, r),
{
    let mut writes: Vec<FileWrite> = Vec::new();
    let dir = text::path_join(repo, &client.dir());
    let settings = match merge_settings(
        &text::path_join(&dir, "settings.json"),
        client,
        files.settings,
    ) {
        Ok(m) => m,
        Err(e) => {
            let r = Lockdown { writes, report: Err(e) };
            proof {
                let failed = Err::<Merge, Fault>(e);
                assert(locked_down(r, failed, failed, failed));
            }
            return r;
        },
    };
    let ghost s = settings;
    note(&mut writes, LockdownFile::Settings, settings.text);
    let mcp = match merge_mcp(&text::path_join(repo, ".mcp.json"), files.mcp, mcp_bin) {
        Ok(m) => m,
        Err(e) => {
            let r = Lockdown { writes, report: Err(e) };
            proof {
                let failed = Err::<Merge, Fault>(e);
                assert(locked_down(r, Ok(s), failed, failed));
            }
            return r;
        },
    };
    let ghost m = mcp;
    note(&mut writes, LockdownFile::Mcp, mcp.text);
    let claude_md = match merge_claude_md(
        &text::path_join(repo, &client.instructions),
        files.claude_md,
    ) {
        Ok(c) => c,
        Err(e) => {
            let r = Lockdown { writes, report: Err(e) };
            proof {
                let failed = Err::<Merge, Fault>(e);
                assert(locked_down(r, Ok(s), Ok(m), failed));
            }
            return r;
        },
    };
    let ghost c = claude_md;
    note(&mut writes, LockdownFile::ClaudeMd, claude_md.text);
    let r = Lockdown {
        writes,
        report: Ok(
            LockdownReport {
                settings: settings.outcome,
                mcp: mcp.outcome,
                claude_md: claude_md.outcome,
            },
        ),
    };
    assert(locked_down(r, Ok(s), Ok(m), Ok(c)));
    r
}

// ---------------------------------------------------------------------------
// Laws
// ---------------------------------------------------------------------------

proof fn lemma_listed(items: Seq<Json>, t: Seq<char>, u: Seq<char>)
    ensures
        lists(listing(items, t), t),
        lists(items, u) ==> lists(listing(items, t), u),
{
    let wider = listing(items, t);
    if !lists(items, t) {
        assert(wider[items.len() as int] == Json::Text(t));
    }
    if lists(items, u) {
        let i = choose|i: int| 0 <= i < items.len() && items[i] == Json::Text(u);
        assert(wider[i] == items[i]);
    }
}

/// The tools that change the working tree are denied, and a list that denies
/// them gains nothing more.
pub proof fn law_denied_once(items: Seq<Json>)
    ensures
        lists(denying(items), "Edit"@),
        lists(denying(items), "Write"@),
        lists(denying(items), "Bash"@),
        denying(denying(items)) == denying(items),
        items.is_prefix_of(denying(items)),
{
    let first = listing(items, "Edit"@);
    let second = listing(first, "Write"@);
    lemma_listed(items, "Edit"@, "Edit"@);
    lemma_listed(first, "Write"@, "Edit"@);
    lemma_listed(second, "Bash"@, "Edit"@);
    lemma_listed(second, "Bash"@, "Write"@);
}

/// What else the settings hold stays as it was.
pub proof fn law_settings_keep_the_rest(
    f: Map<Seq<char>, Json>,
    client: ClientView,
    k: Seq<char>,
)
    requires
        denied(f, client) is Ok,
        k != "permissions"@,
    ensures
        ({
            let merged = denied(f, client)->Ok_0.0;
            &&& merged.contains_key(k) == f.contains_key(k)
            &&& merged[k] == f[k]
        }),
{
}

/// What else the permissions hold stays as it was.
pub proof fn law_permissions_keep_the_rest(
    f: Map<Seq<char>, Json>,
    client: ClientView,
    k: Seq<char>,
)
    requires
        denied(f, client) is Ok,
        f.contains_key("permissions"@),
        k != "deny"@,
    ensures
        ({
            let merged = denied(f, client)->Ok_0.0["permissions"@]->Object_0;
            let p = f["permissions"@]->Object_0;
            &&& merged.contains_key(k) == p.contains_key(k)
            &&& merged[k] == p[k]
        }),
{
}

/// What else the registrations hold stays as it was.
pub proof fn law_servers_keep_the_rest(f: Map<Seq<char>, Json>, mcp_bin: Seq<char>, k: Seq<char>)
    requires
        registered(f, mcp_bin) is Ok,
        f.contains_key("mcpServers"@),
        k != "maestro"@,
    ensures
        ({
            let merged = registered(f, mcp_bin)->Ok_0.0["mcpServers"@]->Object_0;
            let s = f["mcpServers"@]->Object_0;
            &&& merged.contains_key(k) == s.contains_key(k)
            &&& merged[k] == s[k]
        }),
{
}

/// What was in the instructions stays at their beginning.
pub proof fn law_claude_md_keeps_the_rest(t: Seq<char>)
    ensures
        with_section(Some(t)).1 matches Some(out) ==> t.is_prefix_of(out),
{
    match with_section(Some(t)).1 {
        Some(out) => {
            assert(t =~= out.subrange(0, t.len() as int));
        },
        None => {},
    }
}

proof fn lemma_texts_stay(read: Seq<Json>, items: Seq<Json>, limit: nat)
    requires
        read.len() == items.len(),
        forall|i: int| 0 <= i < items.len() ==> json::alike(read[i], #[trigger] items[i], limit),
    ensures
        forall|t: Seq<char>| #[trigger] lists(items, t) ==> lists(read, t),
{
    assert forall|t: Seq<char>| #[trigger] lists(items, t) implies lists(read, t) by {
        let i = choose|i: int| 0 <= i < items.len() && items[i] == Json::Text(t);
        assert(json::alike(read[i], items[i], limit));
        assert(read[i] == Json::Text(t));
    }
}

/// Merging the settings twice changes nothing the second time.
pub proof fn law_settings_merge_once(
    path: Seq<char>,
    client: ClientView,
    file: FileTextView,
    first: Merge,
    second: Result<Merge, Fault>,
)
    requires
        settings_merged(path, client, file, Ok(first)),
        settings_merged(
            path,
            client,
            match first.text {
                Some(t) => FileTextView::Present(t@),
                None => file,
            },
            second,
        ),
    ensures
        second matches Ok(m) && m.outcome == FileOutcome::Unchanged && m.text is None,
{
    let (f, existed) = loaded(path, file)->Ok_0;
    let p = field_or(f, "permissions"@, Json::Object(json::no_fields()))->Object_0;
    let items = field_or(p, "deny"@, Json::List(Seq::empty()))->List_0;
    law_denied_once(items);
    if first.text is Some {
        let limit = json::depth_limit();
        let merged = denied(f, client)->Ok_0.0;
        let d = json::parsed(first.text->0@)->Ok_0;
        json::lemma_alike_object(d, merged, limit);
        let read = d->Object_0["permissions"@];
        let p2 = p.insert("deny"@, Json::List(denying(items)));
        assert(merged.contains_key("permissions"@));
        json::lemma_alike_object(read, p2, (limit - 1) as nat);
        assert(p2.contains_key("deny"@));
        let list = read->Object_0["deny"@];
        json::lemma_alike_list(list, denying(items), (limit - 2) as nat);
        lemma_texts_stay(list->List_0, denying(items), (limit - 3) as nat);
    }
}

/// Registering the MCP server twice changes nothing the second time.
pub proof fn law_mcp_merge_once(
    path: Seq<char>,
    file: FileTextView,
    mcp_bin: Seq<char>,
    first: Merge,
    second: Result<Merge, Fault>,
)
    requires
        mcp_merged(path, file, mcp_bin, Ok(first)),
        mcp_merged(
            path,
            match first.text {
                Some(t) => FileTextView::Present(t@),
                None => file,
            },
            mcp_bin,
            second,
        ),
    ensures
        second matches Ok(m) && m.outcome == FileOutcome::Unchanged && m.text is None,
{
    let (f, existed) = loaded(path, file)->Ok_0;
    if first.text is Some {
        let limit = json::depth_limit();
        let merged = registered(f, mcp_bin)->Ok_0.0;
        let d = json::parsed(first.text->0@)->Ok_0;
        json::lemma_alike_object(d, merged, limit);
        let s = field_or(f, "mcpServers"@, Json::Object(json::no_fields()))->Object_0;
        let s2 = s.insert("maestro"@, registration(mcp_bin));
        assert(merged.contains_key("mcpServers"@));
        let read = d->Object_0["mcpServers"@];
        json::lemma_alike_object(read, s2, (limit - 1) as nat);
        assert(s2.contains_key("maestro"@));
        let entry = read->Object_0["maestro"@];
        let want = registration(mcp_bin)->Object_0;
        json::lemma_alike_object(entry, want, (limit - 2) as nat);
        assert(want.contains_key("command"@));
        assert(entry->Object_0 =~= want);
    }
}

/// The advisor's section is put into the instructions once: a file that has it is
/// left alone.
pub proof fn law_claude_md_merge_once(existing: Option<Seq<char>>)
    ensures
        with_section(existing).1 matches Some(out) ==> with_section(Some(out)) == (
            FileOutcome::Unchanged,
            None::<Seq<char>>,
        ),
{
    match with_section(existing).1 {
        Some(out) => {
            let at = out.len() - section().len();
            assert(out.subrange(at, at + SECTION_MARKER@.len()) =~= SECTION_MARKER@);
            assert(text::occurs_at(out, SECTION_MARKER@, at));
        },
        None => {},
    }
}

/// The lockdown succeeds where every merge does, and writes nothing where the
/// settings cannot be merged.
pub proof fn law_lockdown_stops_at_the_first_error(
    l: Lockdown,
    settings: Result<Merge, Fault>,
    mcp: Result<Merge, Fault>,
    claude_md: Result<Merge, Fault>,
)
    requires
        locked_down(l, settings, mcp, claude_md),
    ensures
        l.report is Ok <==> settings is Ok && mcp is Ok && claude_md is Ok,
        settings is Err ==> l.writes@.len() == 0,
{
}

/// What a file holds once a merge into it was written.
spec fn merged_into(file: FileTextView, m: Merge) -> FileTextView {
    match m.text {
        Some(t) => FileTextView::Present(t@),
        None => file,
    }
}

proof fn lemma_files_after(files: LockdownFilesView, l: Lockdown, s: Merge, m: Merge, c: Merge)
    requires
        locked_down(l, Ok(s), Ok(m), Ok(c)),
    ensures
        files_after(files, l.writes@) == (LockdownFilesView {
            settings: merged_into(files.settings, s),
            mcp: merged_into(files.mcp, m),
            claude_md: merged_into(files.claude_md, c),
        }),
{
    reveal_with_fuel(file_after, 4);
    let writes = l.writes@;
    if writes.len() > 0 {
        let shorter = writes.drop_last();
        if shorter.len() > 0 {
            let shortest = shorter.drop_last();
            assert(shortest.len() <= 1);
        }
    }
}

/// Locking down twice changes nothing the second time: on the files that a
/// successful lockdown left, another one reports all three unchanged and writes
/// nothing.
pub proof fn law_locking_down_twice_changes_nothing(
    repo: Seq<char>,
    client: ClientView,
    files: LockdownFilesView,
    mcp_bin: Seq<char>,
    first: Lockdown,
    second: Lockdown,
)
    requires
        lockdown_of(repo, client, files, mcp_bin, first),
        first.report is Ok,
        lockdown_of(repo, client, files_after(files, first.writes@), mcp_bin, second),
    ensures
        second.report == Ok::<LockdownReport, Fault>(
            LockdownReport {
                settings: FileOutcome::Unchanged,
                mcp: FileOutcome::Unchanged,
                claude_md: FileOutcome::Unchanged,
            },
        ),
        second.writes@.len() == 0,
        files_after(files_after(files, first.writes@), second.writes@) == files_after(
            files,
            first.writes@,
        ),
{
    let left = files_after(files, first.writes@);
    let (s1, m1, c1) = choose|s: Result<Merge, Fault>, m: Result<Merge, Fault>, c: Result<Merge, Fault>|
        {
            &&& #[trigger] locked_down(first, s, m, c)
            &&& settings_merged(settings_path(repo, client), client, files.settings, s)
            &&& s is Ok ==> mcp_merged(mcp_path(repo), files.mcp, mcp_bin, m)
            &&& s is Ok && m is Ok ==> claude_md_merged(
                claude_md_path(repo, client),
                files.claude_md,
                c,
            )
        };
    lemma_files_after(files, first, s1->Ok_0, m1->Ok_0, c1->Ok_0);
    let (s2, m2, c2) = choose|s: Result<Merge, Fault>, m: Result<Merge, Fault>, c: Result<Merge, Fault>|
        {
            &&& #[trigger] locked_down(second, s, m, c)
            &&& settings_merged(settings_path(repo, client), client, left.settings, s)
            &&& s is Ok ==> mcp_merged(mcp_path(repo), left.mcp, mcp_bin, m)
            &&& s is Ok && m is Ok ==> claude_md_merged(
                claude_md_path(repo, client),
                left.claude_md,
                c,
            )
        };
    law_settings_merge_once(settings_path(repo, client), client, files.settings, s1->Ok_0, s2);
    law_mcp_merge_once(mcp_path(repo), files.mcp, mcp_bin, m1->Ok_0, m2);
    match files.claude_md {
        FileTextView::Absent => law_claude_md_merge_once(None),
        FileTextView::Present(t) => law_claude_md_merge_once(Some(t)),
        FileTextView::Unreadable(_) => {},
    }
    assert(c2 matches Ok(c) && c.outcome == FileOutcome::Unchanged && c.text is None);
    assert(second.writes@ =~= Seq::<FileWrite>::empty());
}

/// What is denied afterwards is what was denied before and the three tools, and
/// nothing else; where all three were denied already, nothing changes.
pub proof fn law_only_the_three_tools_are_added(items: Seq<Json>, t: Seq<char>)
    ensures
        lists(denying(items), t) <==> lists(items, t) || t == "Edit"@ || t == "Write"@ || t
            == "Bash"@,
        lists(items, "Edit"@) && lists(items, "Write"@) && lists(items, "Bash"@) <==> denying(items)
            == items,
        denying(items).len() <= items.len() + 3,
{
    let a = listing(items, "Edit"@);
    let b = listing(a, "Write"@);
    lemma_listing(items, "Edit"@, t);
    lemma_listing(a, "Write"@, t);
    lemma_listing(b, "Bash"@, t);
    lemma_listing(items, "Edit"@, "Write"@);
    lemma_listing(items, "Edit"@, "Bash"@);
    lemma_listing(a, "Write"@, "Bash"@);
    reveal_strlit("Edit");
    reveal_strlit("Write");
    reveal_strlit("Bash");
    assert("Edit"@.len() == 4 && "Write"@.len() == 5 && "Bash"@.len() == 4);
    assert("Edit"@[0] == 'E' && "Bash"@[0] == 'B');
    if denying(items) == items {
        assert(a.len() >= items.len() && b.len() >= a.len() && denying(items).len() >= b.len());
        assert(a.len() == items.len());
        assert(b.len() == a.len());
    }
}

proof fn lemma_listing(items: Seq<Json>, added: Seq<char>, t: Seq<char>)
    ensures
        lists(listing(items, added), t) <==> lists(items, t) || t == added,
        listing(items, added).len() == items.len() + (if lists(items, added) {
            0int
        } else {
            1int
        }),
{
    let all = listing(items, added);
    if !lists(items, added) {
        assert(all.last() == Json::Text(added));
        assert(all[all.len() - 1] == Json::Text(added));
        if lists(items, t) {
            let i = choose|i: int| 0 <= i < items.len() && items[i] == Json::Text(t);
            assert(all[i] == Json::Text(t));
        }
        if lists(all, t) && t != added {
            let i = choose|i: int| 0 <= i < all.len() && all[i] == Json::Text(t);
            assert(i < items.len());
            assert(items[i] == Json::Text(t));
        }
    }
}

/// Merged settings deny what they denied before and the three tools, under
/// `permissions.deny`, where either was missing it is made; settings that hold
/// something else there are refused, and count as changed exactly where a tool was
/// not denied yet.
pub proof fn law_settings_deny_the_tools(
    f: Map<Seq<char>, Json>,
    client: ClientView,
    k: Seq<char>,
    other: Json,
)
    ensures
        ({
            let p = field_or(f, "permissions"@, Json::Object(json::no_fields()));
            let d = field_or(p->Object_0, "deny"@, Json::List(Seq::empty()));
            &&& denied(f, client) is Ok <==> p is Object && d is List
            &&& denied(f, client) matches Ok((merged, added)) ==> {
                &&& merged.contains_key("permissions"@)
                &&& merged["permissions"@] matches Json::Object(q) && q.contains_key("deny"@)
                    && q["deny"@] == Json::List(denying(d->List_0))
                &&& added <==> !(lists(d->List_0, "Edit"@) && lists(d->List_0, "Write"@) && lists(
                    d->List_0,
                    "Bash"@,
                ))
            }
        }),
        f.contains_key(k) ==> field_or(f, k, other) == f[k],
        !f.contains_key(k) ==> field_or(f, k, other) == other,
{
    let p = field_or(f, "permissions"@, Json::Object(json::no_fields()));
    let d = field_or(p->Object_0, "deny"@, Json::List(Seq::empty()));
    law_only_the_three_tools_are_added(d->List_0, "Edit"@);
}

/// Merged registrations name the server's program under `mcpServers.maestro`, and
/// count as changed exactly where they did not already; anything else at that place
/// is replaced, and registrations that are no object are refused.
pub proof fn law_the_server_is_registered(f: Map<Seq<char>, Json>, mcp_bin: Seq<char>)
    ensures
        ({
            let s = field_or(f, "mcpServers"@, Json::Object(json::no_fields()));
            let entry = Json::Object(map!["command"@ => Json::Text(mcp_bin)]);
            &&& registered(f, mcp_bin) is Ok <==> s is Object
            &&& registered(f, mcp_bin) matches Ok((merged, changed)) ==> {
                &&& merged.contains_key("mcpServers"@)
                &&& merged["mcpServers"@] matches Json::Object(t) && t.contains_key("maestro"@)
                    && t["maestro"@] == entry
                &&& changed <==> !(s->Object_0.contains_key("maestro"@) && s->Object_0["maestro"@]
                    == entry)
                &&& forall|k: Seq<char>|
                    k != "mcpServers"@ ==> (#[trigger] merged.contains_key(k) <==> f.contains_key(
                        k,
                    )) && (f.contains_key(k) ==> merged[k] == f[k])
            }
        }),
{
}

/// Instructions get the section where they do not have it: as a file of its own
/// where there was none, and behind everything else, after an empty line, where
/// there was one.
pub proof fn law_the_section_is_put_in(t: Seq<char>)
    ensures
        with_section(None) == (FileOutcome::Created, Some(SECTION_MARKER@ + SECTION_BODY@)),
        text::contains_text(t, SECTION_MARKER@) ==> with_section(Some(t)) == (
            FileOutcome::Unchanged,
            None::<Seq<char>>,
        ),
        !text::contains_text(t, SECTION_MARKER@) ==> {
            let (outcome, out) = with_section(Some(t));
            let section = SECTION_MARKER@ + SECTION_BODY@;
            &&& outcome == FileOutcome::Merged
            &&& t.len() > 0 && t.last() == '\n' ==> out == Some(t + seq!['\n'] + section)
            &&& !(t.len() > 0 && t.last() == '\n') ==> out == Some(t + seq!['\n', '\n'] + section)
        },
{
    let section = SECTION_MARKER@ + SECTION_BODY@;
    assert(t.push('\n') + section =~= t + seq!['\n'] + section);
    assert(t.push('\n').push('\n') + section =~= t + seq!['\n', '\n'] + section);
}

/// A file that is not there, or blank, is an object without fields; one that is
/// there is the object it holds. What cannot be read, is no document, or is no
/// object, is an error that names the file.
pub proof fn law_files_are_loaded_as_objects(path: Seq<char>, t: Seq<char>, f: Map<Seq<char>, Json>)
    ensures
        loaded(path, FileTextView::Absent) == Ok::<(Map<Seq<char>, Json>, bool), FaultView>(
            (json::no_fields(), false),
        ),
        text::blank(t) ==> loaded(path, FileTextView::Present(t)) == Ok::<
            (Map<Seq<char>, Json>, bool),
            FaultView,
        >((json::no_fields(), false)),
        !text::blank(t) && json::parsed(t) == Ok::<Json, Seq<char>>(Json::Object(f)) ==> loaded(
            path,
            FileTextView::Present(t),
        ) == Ok::<(Map<Seq<char>, Json>, bool), FaultView>((f, true)),
        !text::blank(t) && (json::parsed(t) is Err || !(json::parsed(t)->Ok_0 is Object)) ==> {
            &&& loaded(path, FileTextView::Present(t)) is Err
            &&& text::contains_text(loaded(path, FileTextView::Present(t))->Err_0.message, path)
        },
        loaded(path, FileTextView::Unreadable(t)) == Err::<
            (Map<Seq<char>, Json>, bool),
            FaultView,
        >(FaultView { message: "reading "@ + path, cause: Some(t) }),
        json::no_fields().dom() =~= Set::<Seq<char>>::empty(),
{
    let none = Seq::<char>::empty();
    text::lemma_stands_inside("parsing JSON from "@, path, none);
    assert("parsing JSON from "@ + path + none =~= "parsing JSON from "@ + path);
    text::lemma_stands_inside(none, path, " is not a JSON object"@);
    assert(none + path + " is not a JSON object"@ =~= path + " is not a JSON object"@);
}

/// The files of a lockdown lie in the repository: the settings in the client's own
/// directory, the registrations and the instructions at the top.
pub proof fn law_lockdown_files_lie_in_the_repo(repo: Seq<char>, client: ClientView)
    ensures
        settings_path(repo, client) == text::path_joined(
            text::path_joined(repo, "."@ + client.name),
            "settings.json"@,
        ),
        mcp_path(repo) == text::path_joined(repo, ".mcp.json"@),
        claude_md_path(repo, client) == text::path_joined(repo, client.instructions),
{
}

/// A file that was there and needs nothing is not written; any other is written as
/// the merged document, laid out, with a line end, and counts as merged where it
/// was there and as created where it was not.
pub proof fn law_merged_files_are_written_whole(
    existed: bool,
    changed: bool,
    merged: Map<Seq<char>, Json>,
    m: Merge,
)
    requires
        written(existed, changed, merged, m),
    ensures
        m.text is None <==> existed && !changed,
        m.outcome == FileOutcome::Unchanged <==> existed && !changed,
        m.outcome == FileOutcome::Merged <==> existed && changed,
        m.outcome == FileOutcome::Created <==> !existed,
        m.text matches Some(t) ==> t@ == json::laid_out(Json::Object(merged)).push('\n')
            && json::gives_back(t@, Json::Object(merged)),
{
}

/// Merged settings are the file's own with the three tools denied, and merged
/// registrations the file's own with the server in them; a file that cannot be
/// merged is left alone, with the reason.
pub proof fn law_merges_are_of_the_file(
    path: Seq<char>,
    client: ClientView,
    file: FileTextView,
    mcp_bin: Seq<char>,
    settings: Result<Merge, Fault>,
    mcp: Result<Merge, Fault>,
)
    requires
        settings_merged(path, client, file, settings),
        mcp_merged(path, file, mcp_bin, mcp),
    ensures
        settings is Ok <==> loaded(path, file) is Ok && denied(loaded(path, file)->Ok_0.0, client)
            is Ok,
        mcp is Ok <==> loaded(path, file) is Ok && registered(loaded(path, file)->Ok_0.0, mcp_bin)
            is Ok,
        settings matches Ok(m) ==> {
            let (f, existed) = loaded(path, file)->Ok_0;
            let (merged, added) = denied(f, client)->Ok_0;
            &&& m.text is Some <==> !existed || added
            &&& m.text matches Some(t) ==> t@ == json::laid_out(Json::Object(merged)).push('\n')
        },
        mcp matches Ok(m) ==> {
            let (f, existed) = loaded(path, file)->Ok_0;
            let (merged, changed) = registered(f, mcp_bin)->Ok_0;
            &&& m.text is Some <==> !existed || changed
            &&& m.text matches Some(t) ==> t@ == json::laid_out(Json::Object(merged)).push('\n')
        },
        loaded(path, file) is Err ==> settings->Err_0.deep_view() == loaded(path, file)->Err_0
            && mcp->Err_0.deep_view() == loaded(path, file)->Err_0,
{
}

/// A lockdown that goes through leaves each file as its own merge made it: what
/// changed is written, in its own file, and what did not is left; the report says of
/// each what became of it.
pub proof fn law_lockdowns_write_what_changed(
    files: LockdownFilesView,
    l: Lockdown,
    s: Merge,
    m: Merge,
    c: Merge,
)
    requires
        locked_down(l, Ok(s), Ok(m), Ok(c)),
    ensures
        ({
            let now = files_after(files, l.writes@);
            &&& s.text matches Some(t) ==> now.settings == FileTextView::Present(t@)
            &&& s.text is None ==> now.settings == files.settings
            &&& m.text matches Some(t) ==> now.mcp == FileTextView::Present(t@)
            &&& m.text is None ==> now.mcp == files.mcp
            &&& c.text matches Some(t) ==> now.claude_md == FileTextView::Present(t@)
            &&& c.text is None ==> now.claude_md == files.claude_md
        }),
        l.report matches Ok(r) && r.settings == s.outcome && r.mcp == m.outcome && r.claude_md
            == c.outcome,
        l.writes@.len() == (if s.text is Some {
            1int
        } else {
            0int
        }) + (if m.text is Some {
            1int
        } else {
            0int
        }) + (if c.text is Some {
            1int
        } else {
            0int
        }),
{
    lemma_files_after(files, l, s, m, c);
}

/// A lockdown merges the three files of the repository, each with its own part.
pub proof fn law_lockdowns_merge_their_own_files(
    repo: Seq<char>,
    client: ClientView,
    files: LockdownFilesView,
    mcp_bin: Seq<char>,
    l: Lockdown,
) -> (parts: (Result<Merge, Fault>, Result<Merge, Fault>, Result<Merge, Fault>))
    requires
        lockdown_of(repo, client, files, mcp_bin, l),
    ensures
        locked_down(l, parts.0, parts.1, parts.2),
        settings_merged(settings_path(repo, client), client, files.settings, parts.0),
        parts.0 is Ok ==> mcp_merged(mcp_path(repo), files.mcp, mcp_bin, parts.1),
        parts.0 is Ok && parts.1 is Ok ==> claude_md_merged(
            claude_md_path(repo, client),
            files.claude_md,
            parts.2,
        ),
{
    let (settings, mcp, claude_md) = choose|
        settings: Result<Merge, Fault>,
        mcp: Result<Merge, Fault>,
        claude_md: Result<Merge, Fault>,
    |
        {
            &&& #[trigger] locked_down(l, settings, mcp, claude_md)
            &&& settings_merged(settings_path(repo, client), client, files.settings, settings)
            &&& settings is Ok ==> mcp_merged(mcp_path(repo), files.mcp, mcp_bin, mcp)
            &&& settings is Ok && mcp is Ok ==> claude_md_merged(
                claude_md_path(repo, client),
                files.claude_md,
                claude_md,
            )
        };
    (settings, mcp, claude_md)
}

/// Instructions that cannot be read are left alone; any other get the section as
/// they stand.
pub proof fn law_instructions_are_merged_as_they_stand(
    path: Seq<char>,
    t: Seq<char>,
    r: Result<Merge, Fault>,
)
    ensures
        claude_md_merged(path, FileTextView::Unreadable(t), r) ==> (r matches Err(e)
            && e.deep_view() == (FaultView { message: "reading "@ + path, cause: Some(t) })),
        claude_md_merged(path, FileTextView::Absent, r) ==> (r matches Ok(m) && m.outcome
            == FileOutcome::Created && m.text.deep_view() == Some(SECTION_MARKER@ + SECTION_BODY@)),
        claude_md_merged(path, FileTextView::Present(t), r) ==> (r matches Ok(m) && (m.outcome,
            m.text.deep_view()) == with_section(Some(t))),
{
}

/// What became of a file is told apart by its word.
pub proof fn law_outcomes_are_told_apart(a: FileOutcome, b: FileOutcome)
    ensures
        a.word() == b.word() <==> a == b,
{
    reveal_strlit("created");
    reveal_strlit("merged");
    reveal_strlit("unchanged");
    assert("created"@.len() == 7 && "merged"@.len() == 6 && "unchanged"@.len() == 9);
}

} // verus!
