//! Whether the models of a profile can be used: a check that reads credentials
//! and paths but makes no network call.

use crate::config::{RoleModel, RoleModelView, Roles, RolesView};
use crate::json::{self, object, of_object, put, put_text, Json};
use crate::text::{cat2, same};
use serde_json::{Map as Object, Value};
use vstd::prelude::*;

verus! {

/// What has to be found out about the machine to judge a role.
#[verifier::ext_equal]
pub enum Question {
    /// Nothing.
    Nothing,
    /// Is this environment variable set?
    Variable(Seq<char>),
    /// Is this program on the path?
    Program(Seq<char>),
}

/// Whether a model and kind name the mock backend.
pub open spec fn mocked(kind: Option<Seq<char>>, model: Seq<char>) -> bool {
    model == "mock"@ || kind == Some("mock"@)
}

/// The program of a driven CLI: its command, or its model's name.
pub open spec fn program_of(model: Seq<char>, command: Option<Seq<char>>) -> Seq<char> {
    match command {
        Some(c) => c,
        None => model,
    }
}

/// What has to be found out to judge a role.
pub open spec fn question(
    kind: Option<Seq<char>>,
    model: Seq<char>,
    command: Option<Seq<char>>,
) -> Question {
    if mocked(kind, model) {
        Question::Nothing
    } else {
        match kind {
            None => Question::Variable("ANTHROPIC_API_KEY"@),
            Some(k) => if k == "driven_cli"@ {
                Question::Program(program_of(model, command))
            } else if k == "anthropic"@ {
                Question::Variable("ANTHROPIC_API_KEY"@)
            } else if k == "openai_compat"@ {
                Question::Variable("OPENAI_API_KEY"@)
            } else {
                Question::Nothing
            },
        }
    }
}

/// The backend and the status of a role, given the answer to its question.
pub open spec fn standing(
    kind: Option<Seq<char>>,
    model: Seq<char>,
    base_url: Option<Seq<char>>,
    command: Option<Seq<char>>,
    yes: bool,
) -> (Seq<char>, Seq<char>) {
    let anthropic = (
        "anthropic"@,
        if yes {
            "ok"@
        } else {
            "missing_credential:ANTHROPIC_API_KEY"@
        },
    );
    if mocked(kind, model) {
        ("mock"@, "ok"@)
    } else {
        match kind {
            None => anthropic,
            Some(k) => if k == "driven_cli"@ {
                (
                    "driven_cli"@,
                    if yes {
                        "ok"@
                    } else {
                        "command_not_found:"@ + program_of(model, command)
                    },
                )
            } else if k == "anthropic"@ {
                anthropic
            } else if k == "openai_compat"@ {
                (
                    "openai_compat"@,
                    if !yes {
                        "missing_credential:OPENAI_API_KEY"@
                    } else if base_url is None {
                        "unconfigured:base_url"@
                    } else {
                        "ok"@
                    },
                )
            } else {
                (k, "unknown_backend"@)
            },
        }
    }
}

/// Whether `yes` is an answer to a question.
pub open spec fn answers<E: Fn(&str) -> bool, C: Fn(&str) -> bool>(
    env_has: E,
    cmd_on_path: C,
    q: Question,
    yes: bool,
) -> bool {
    match q {
        Question::Nothing => true,
        Question::Variable(v) => exists|k: &str| k@ == v && #[trigger] env_has.ensures((k,), yes),
        Question::Program(p) => exists|k: &str|
            k@ == p && #[trigger] cmd_on_path.ensures((k,), yes),
    }
}

/// Whether a question can be put: what it asks about is the one thing that may be
/// asked.
pub open spec fn askable<E: Fn(&str) -> bool, C: Fn(&str) -> bool>(
    env_has: E,
    cmd_on_path: C,
    q: Question,
) -> bool {
    match q {
        Question::Nothing => true,
        Question::Variable(v) => forall|k: &str| k@ == v ==> #[trigger] env_has.requires((k,)),
        Question::Program(p) => forall|k: &str| k@ == p ==> #[trigger] cmd_on_path.requires((k,)),
    }
}

proof fn lemma_kinds_differ()
    ensures
        "mock"@ != "anthropic"@,
        "mock"@ != "openai_compat"@,
        "mock"@ != "driven_cli"@,
        "anthropic"@ != "openai_compat"@,
        "anthropic"@ != "driven_cli"@,
        "openai_compat"@ != "driven_cli"@,
{
    reveal_strlit("mock");
    reveal_strlit("anthropic");
    reveal_strlit("openai_compat");
    reveal_strlit("driven_cli");
    assert("mock"@.len() == 4 && "anthropic"@.len() == 9);
    assert("openai_compat"@.len() == 13 && "driven_cli"@.len() == 10);
}

/// The backend of a role and whether it can be used: `ok`, or what is missing.
/// Nothing is asked but the question of the role.
pub fn role_auth_status<E: Fn(&str) -> bool, C: Fn(&str) -> bool>(
    kind: Option<&str>,
    model: &str,
    base_url: Option<&str>,
    command: Option<&str>,
    env_has: &E,
    cmd_on_path: &C,
) -> (r: (String, String))
    requires
        askable(*env_has, *cmd_on_path, question(kind.deep_view(), model@, command.deep_view())),
    ensures
        exists|yes: bool|
            #![trigger answers(
                *env_has,
                *cmd_on_path,
                question(kind.deep_view(), model@, command.deep_view()),
                yes,
            )]
            {
                &&& answers(
                    *env_has,
                    *cmd_on_path,
                    question(kind.deep_view(), model@, command.deep_view()),
                    yes,
                )
                &&& (r.0@, r.1@) == standing(
                    kind.deep_view(),
                    model@,
                    base_url.deep_view(),
                    command.deep_view(),
                    yes,
                )
            },
{
    let ghost q = question(kind.deep_view(), model@, command.deep_view());
    proof {
        lemma_kinds_differ();
    }
    let mock_kind = match kind {
        Some(k) => same(k, "mock"),
        None => false,
    };
    if same(model, "mock") || mock_kind {
        assert(answers(*env_has, *cmd_on_path, q, true));
        return ("mock".to_owned(), "ok".to_owned());
    }
    let anthropic = match kind {
        Some(k) => same(k, "anthropic"),
        None => true,
    };
    if anthropic {
        let yes = env_has("ANTHROPIC_API_KEY");
        assert(answers(*env_has, *cmd_on_path, q, yes));
        return (
            "anthropic".to_owned(),
            if yes {
                "ok".to_owned()
            } else {
                "missing_credential:ANTHROPIC_API_KEY".to_owned()
            },
        );
    }
    let word = match kind {
        Some(k) => k,
        None => "",
    };
    if same(word, "driven_cli") {
        let program = match command {
            Some(c) => c,
            None => model,
        };
        let yes = cmd_on_path(program);
        assert(answers(*env_has, *cmd_on_path, q, yes));
        (
            "driven_cli".to_owned(),
            if yes {
                "ok".to_owned()
            } else {
                cat2("command_not_found:", program)
            },
        )
    } else if same(word, "openai_compat") {
        let yes = env_has("OPENAI_API_KEY");
        assert(answers(*env_has, *cmd_on_path, q, yes));
        (
            "openai_compat".to_owned(),
            if !yes {
                "missing_credential:OPENAI_API_KEY".to_owned()
            } else if base_url.is_none() {
                "unconfigured:base_url".to_owned()
            } else {
                "ok".to_owned()
            },
        )
    } else {
        assert(answers(*env_has, *cmd_on_path, q, true));
        (word.to_owned(), "unknown_backend".to_owned())
    }
}

/// The parts of a role that its standing depends on: model, kind, address and
/// command.
pub open spec fn parts(role: RoleModelView) -> (
    Seq<char>,
    Option<Seq<char>>,
    Option<Seq<char>>,
    Option<Seq<char>>,
) {
    match role {
        RoleModelView::Bare(m) => (m, None, None, None),
        RoleModelView::Detailed(t) => (t.model, t.kind, t.base_url, t.command),
    }
}

/// The entry of a role in a report.
pub open spec fn entry(model: Seq<char>, standing: (Seq<char>, Seq<char>)) -> Json {
    Json::Object(
        map![
            "model"@ => Json::Text(model),
            "backend"@ => Json::Text(standing.0),
            "status"@ => Json::Text(standing.1),
        ],
    )
}

/// Whether `j` is a fitting entry for a role.
pub open spec fn entry_fits<E: Fn(&str) -> bool, C: Fn(&str) -> bool>(
    role: RoleModelView,
    env_has: E,
    cmd_on_path: C,
    j: Json,
) -> bool {
    let (model, kind, base_url, command) = parts(role);
    exists|yes: bool|
        #![trigger answers(env_has, cmd_on_path, question(kind, model, command), yes)]
        answers(env_has, cmd_on_path, question(kind, model, command), yes) && j == entry(
            model,
            standing(kind, model, base_url, command, yes),
        )
}

/// Whether the question of a role, if there is one, can be put.
pub open spec fn role_askable<E: Fn(&str) -> bool, C: Fn(&str) -> bool>(
    role: Option<RoleModelView>,
    env_has: E,
    cmd_on_path: C,
) -> bool {
    match role {
        Some(role) => {
            let (model, kind, _, command) = parts(role);
            askable(env_has, cmd_on_path, question(kind, model, command))
        },
        None => true,
    }
}

/// Whether a slot of a report is as it should be: a fitting entry where the slot
/// has a role, and no entry where it has none.
pub open spec fn slot_fits<E: Fn(&str) -> bool, C: Fn(&str) -> bool>(
    report: Map<Seq<char>, Json>,
    slot: Seq<char>,
    role: Option<RoleModelView>,
    env_has: E,
    cmd_on_path: C,
) -> bool {
    match role {
        Some(role) => report.contains_key(slot) && entry_fits(
            role,
            env_has,
            cmd_on_path,
            report[slot],
        ),
        None => !report.contains_key(slot),
    }
}

/// The role behind the shim: the configured one, or the default model.
pub open spec fn shim_role(roles: RolesView, default: Seq<char>) -> RoleModelView {
    match roles.shim {
        Some(role) => role,
        None => RoleModelView::Bare(default),
    }
}

fn as_opt(s: &Option<String>) -> (r: Option<&str>)
    ensures
        r.deep_view() == s.deep_view(),
{
    match s {
        Some(s) => Some(s.as_str()),
        None => None,
    }
}

fn judge<E: Fn(&str) -> bool, C: Fn(&str) -> bool>(
    role: &RoleModel,
    env_has: &E,
    cmd_on_path: &C,
) -> (r: Value)
    requires
        role_askable(Some(role.deep_view()), *env_has, *cmd_on_path),
    ensures
        entry_fits(role.deep_view(), *env_has, *cmd_on_path, json::document(r)),
{
    let (model, (backend, status)) = match role {
        RoleModel::Bare(m) => (
            m.as_str(),
            role_auth_status(None, m, None, None, env_has, cmd_on_path),
        ),
        RoleModel::Detailed(t) => (
            t.model.as_str(),
            role_auth_status(
                as_opt(&t.kind),
                &t.model,
                as_opt(&t.base_url),
                as_opt(&t.command),
                env_has,
                cmd_on_path,
            ),
        ),
    };
    let mut m = object();
    put_text(&mut m, "model", model);
    put_text(&mut m, "backend", &backend);
    put_text(&mut m, "status", &status);
    assert(Json::Object(json::fields(m)) =~= entry(model@, (backend@, status@)));
    of_object(m)
}

fn judge_slot<E: Fn(&str) -> bool, C: Fn(&str) -> bool>(
    report: &mut Object<String, Value>,
    slot: &str,
    role: &Option<RoleModel>,
    env_has: &E,
    cmd_on_path: &C,
)
    requires
        role_askable(role.deep_view(), *env_has, *cmd_on_path),
    ensures
        match role.deep_view() {
            Some(role) => exists|j: Json|
                #[trigger] entry_fits(role, *env_has, *cmd_on_path, j) && json::fields(
                    *final(report),
                ) == json::fields(*old(report)).insert(slot@, j),
            None => json::fields(*final(report)) == json::fields(*old(report)),
        },
{
    match role {
        Some(role) => {
            let v = judge(role, env_has, cmd_on_path);
            let ghost j = json::document(v);
            put(report, slot, v);
            assert(entry_fits(role.deep_view(), *env_has, *cmd_on_path, j));
        },
        None => {},
    }
}

proof fn lemma_slots_differ()
    ensures
        "tier0"@ != "tier1"@,
        "tier0"@ != "tier2"@,
        "tier1"@ != "tier2"@,
        "tier0"@ != "verifier_floor"@,
        "tier1"@ != "verifier_floor"@,
        "tier2"@ != "verifier_floor"@,
        "tier0"@ != "shim"@,
        "tier1"@ != "shim"@,
        "tier2"@ != "shim"@,
        "verifier_floor"@ != "shim"@,
{
    reveal_strlit("tier0");
    reveal_strlit("tier1");
    reveal_strlit("tier2");
    reveal_strlit("verifier_floor");
    reveal_strlit("shim");
    assert("tier0"@[4] == '0');
    assert("tier1"@[4] == '1');
    assert("tier2"@[4] == '2');
    assert("tier0"@.len() == 5);
    assert("tier1"@.len() == 5);
    assert("tier2"@.len() == 5);
    assert("verifier_floor"@.len() == 14);
    assert("shim"@.len() == 4);
}

/// Whether a report on the models of a profile is as it should be: a fitting
/// entry for every configured slot, always one for the shim, and no other.
pub open spec fn report_fits<E: Fn(&str) -> bool, C: Fn(&str) -> bool>(
    doc: Json,
    v: RolesView,
    default_shim: Seq<char>,
    env_has: E,
    cmd_on_path: C,
) -> bool {
    doc matches Json::Object(report) && {
        &&& slot_fits(report, "tier0"@, v.tier0, env_has, cmd_on_path)
        &&& slot_fits(report, "tier1"@, v.tier1, env_has, cmd_on_path)
        &&& slot_fits(report, "tier2"@, v.tier2, env_has, cmd_on_path)
        &&& slot_fits(report, "verifier_floor"@, v.verifier_floor, env_has, cmd_on_path)
        &&& slot_fits(report, "shim"@, Some(shim_role(v, default_shim)), env_has, cmd_on_path)
        &&& forall|k: Seq<char>| #[trigger]
            report.contains_key(k) ==> k == "tier0"@ || k == "tier1"@ || k == "tier2"@ || k
                == "verifier_floor"@ || k == "shim"@
    }
}

/// Whether the questions of a report can be put: those of the configured slots and
/// of the shim, and no others.
pub open spec fn report_askable<E: Fn(&str) -> bool, C: Fn(&str) -> bool>(
    v: RolesView,
    default_shim: Seq<char>,
    env_has: E,
    cmd_on_path: C,
) -> bool {
    &&& role_askable(v.tier0, env_has, cmd_on_path)
    &&& role_askable(v.tier1, env_has, cmd_on_path)
    &&& role_askable(v.tier2, env_has, cmd_on_path)
    &&& role_askable(v.verifier_floor, env_has, cmd_on_path)
    &&& role_askable(Some(shim_role(v, default_shim)), env_has, cmd_on_path)
}

/// The report where no profile could be resolved.
pub open spec fn no_report() -> Json {
    Json::Object(
        map!["error"@ => Json::Text("profile resolution failed; cannot check model auth"@)],
    )
}

/// The report on the models of a profile: an entry for every configured slot,
/// and always one for the shim, which runs on `default_shim` where it has none of
/// its own.
pub fn build_model_auth<E: Fn(&str) -> bool, C: Fn(&str) -> bool>(
    roles: &Roles,
    default_shim: &str,
    env_has: &E,
    cmd_on_path: &C,
) -> (r: Value)
    requires
        report_askable(roles.deep_view(), default_shim@, *env_has, *cmd_on_path),
    ensures
        report_fits(json::document(r), roles.deep_view(), default_shim@, *env_has, *cmd_on_path),
{
    proof {
        lemma_slots_differ();
    }
    let mut report = object();
    judge_slot(&mut report, "tier0", &roles.tier0, env_has, cmd_on_path);
    judge_slot(&mut report, "tier1", &roles.tier1, env_has, cmd_on_path);
    judge_slot(&mut report, "tier2", &roles.tier2, env_has, cmd_on_path);
    judge_slot(&mut report, "verifier_floor", &roles.verifier_floor, env_has, cmd_on_path);
    let shim = match &roles.shim {
        Some(role) => Some(role.clone()),
        None => Some(RoleModel::Bare(default_shim.to_owned())),
    };
    judge_slot(&mut report, "shim", &shim, env_has, cmd_on_path);
    of_object(report)
}

/// The report shown where the profile did not resolve.
pub fn model_auth_error() -> (r: Value)
    ensures
        json::document(r) == no_report(),
{
    let mut m = object();
    json::put_text(&mut m, "error", "profile resolution failed; cannot check model auth");
    assert(json::fields(m) =~= map![
        "error"@ => Json::Text("profile resolution failed; cannot check model auth"@),
    ]);
    json::of_object(m)
}

/// The bits that let anyone run a file.
pub const RUN_BITS: u32 = 0o111;

/// Whether a directory entry is a program: a file that someone may run.
pub fn is_executable_file(is_file: bool, mode: u32) -> (r: bool)
    ensures
        r == (is_file && mode & RUN_BITS != 0),
{
    is_file && mode & RUN_BITS != 0
}

/// A mock role is always in order, whatever the machine lacks.
pub proof fn law_mock_is_always_ok(
    kind: Option<Seq<char>>,
    model: Seq<char>,
    base_url: Option<Seq<char>>,
    command: Option<Seq<char>>,
    yes: bool,
)
    requires
        mocked(kind, model),
    ensures
        standing(kind, model, base_url, command, yes) == ("mock"@, "ok"@),
        question(kind, model, command) is Nothing,
{
}

/// A driven CLI never needs a key: only its program is asked for.
pub proof fn law_driven_cli_needs_no_key(model: Seq<char>, command: Option<Seq<char>>)
    requires
        model != "mock"@,
    ensures
        question(Some("driven_cli"@), model, command) == Question::Program(
            program_of(model, command),
        ),
{
    lemma_kinds_differ();
}

/// What a role needs is asked by its kind: a key of its provider, or a program on
/// the path; a role without a kind is the provider's own. The mock, and a backend
/// that is not known, need nothing.
pub proof fn law_needs_go_by_kind(
    kind: Option<Seq<char>>,
    model: Seq<char>,
    command: Option<Seq<char>>,
)
    requires
        model != "mock"@,
    ensures
        kind is None || kind == Some("anthropic"@) ==> question(kind, model, command)
            == Question::Variable("ANTHROPIC_API_KEY"@),
        kind == Some("openai_compat"@) ==> question(kind, model, command) == Question::Variable(
            "OPENAI_API_KEY"@,
        ),
        kind == Some("driven_cli"@) ==> question(kind, model, command) == Question::Program(
            if command is Some {
                command->0
            } else {
                model
            },
        ),
        kind is Some && kind != Some("anthropic"@) && kind != Some("openai_compat"@) && kind
            != Some("driven_cli"@) ==> question(kind, model, command) is Nothing,
        mocked(kind, model) <==> kind == Some("mock"@),
{
    lemma_kinds_differ();
}

/// A role stands well exactly where what it needs is there; otherwise it is said
/// what is missing. One that speaks to an address needs the address too, and a
/// backend that is not known never stands well.
pub proof fn law_standing_says_what_is_missing(
    kind: Option<Seq<char>>,
    model: Seq<char>,
    base_url: Option<Seq<char>>,
    command: Option<Seq<char>>,
    yes: bool,
)
    requires
        model != "mock"@,
        kind != Some("mock"@),
    ensures
        ({
            let (backend, status) = standing(kind, model, base_url, command, yes);
            let program = if command is Some {
                command->0
            } else {
                model
            };
            &&& kind is None || kind == Some("anthropic"@) ==> backend == "anthropic"@ && status == (
            if yes {
                "ok"@
            } else {
                "missing_credential:ANTHROPIC_API_KEY"@
            })
            &&& kind == Some("driven_cli"@) ==> backend == "driven_cli"@ && status == (if yes {
                "ok"@
            } else {
                "command_not_found:"@ + program
            })
            &&& kind == Some("openai_compat"@) ==> backend == "openai_compat"@ && status == (if !yes {
                "missing_credential:OPENAI_API_KEY"@
            } else if base_url is Some {
                "ok"@
            } else {
                "unconfigured:base_url"@
            })
            &&& kind is Some && kind != Some("anthropic"@) && kind != Some("openai_compat"@) && kind
                != Some("driven_cli"@) ==> backend == kind->0 && status == "unknown_backend"@
        }),
{
    lemma_kinds_differ();
}

/// A report's entry shows the model, the backend and how it stands; the shim has
/// one even where no role is configured for it, with the default model.
pub proof fn law_entries_show_the_standing(
    model: Seq<char>,
    how: (Seq<char>, Seq<char>),
    roles: RolesView,
    default: Seq<char>,
)
    ensures
        entry(model, how) matches Json::Object(f) && f["model"@] == Json::Text(model)
            && f["backend"@] == Json::Text(how.0) && f["status"@] == Json::Text(how.1),
        roles.shim matches Some(role) ==> shim_role(roles, default) == role,
        roles.shim is None ==> shim_role(roles, default) == RoleModelView::Bare(default),
        parts(RoleModelView::Bare(model)) == (
            model,
            None::<Seq<char>>,
            None::<Seq<char>>,
            None::<Seq<char>>,
        ),
        forall|t: crate::config::RoleModelTableView|
            #![trigger t.model]
            parts(RoleModelView::Detailed(t)) == (t.model, t.kind, t.base_url, t.command),
{
    reveal_strlit("model");
    reveal_strlit("backend");
    reveal_strlit("status");
    assert("model"@.len() == 5 && "backend"@.len() == 7 && "status"@.len() == 6);
}

/// A report has an entry for every role that is configured, and for the shim, and
/// for nothing else; each entry names the role's own model.
pub proof fn law_reports_cover_every_role<E: Fn(&str) -> bool, C: Fn(&str) -> bool>(
    doc: Json,
    v: RolesView,
    default_shim: Seq<char>,
    env_has: E,
    cmd_on_path: C,
)
    requires
        report_fits(doc, v, default_shim, env_has, cmd_on_path),
    ensures
        doc matches Json::Object(r) && {
            &&& r.contains_key("tier0"@) <==> v.tier0 is Some
            &&& r.contains_key("tier1"@) <==> v.tier1 is Some
            &&& r.contains_key("tier2"@) <==> v.tier2 is Some
            &&& r.contains_key("verifier_floor"@) <==> v.verifier_floor is Some
            &&& r.contains_key("shim"@)
            &&& v.tier0 matches Some(role) ==> names_model(r["tier0"@], role)
            &&& v.tier1 matches Some(role) ==> names_model(r["tier1"@], role)
            &&& v.tier2 matches Some(role) ==> names_model(r["tier2"@], role)
            &&& v.verifier_floor matches Some(role) ==> names_model(r["verifier_floor"@], role)
            &&& v.shim matches Some(role) ==> names_model(r["shim"@], role)
            &&& v.shim is None ==> names_model(r["shim"@], RoleModelView::Bare(default_shim))
            &&& forall|k: Seq<char>| #[trigger]
                r.contains_key(k) ==> k == "tier0"@ || k == "tier1"@ || k == "tier2"@ || k
                    == "verifier_floor"@ || k == "shim"@
        },
{
    reveal_strlit("model");
    reveal_strlit("backend");
    reveal_strlit("status");
    assert("model"@.len() == 5 && "backend"@.len() == 7 && "status"@.len() == 6);
}

/// Whether an entry names a role's model.
pub open spec fn names_model(entry: Json, role: RoleModelView) -> bool {
    entry matches Json::Object(f) && f.contains_key("model"@) && f["model"@] == Json::Text(
        role.model(),
    )
}

/// An entry's standing is the one its role has by the answer that was given to what
/// it needs, asked of the environment or of the path as it needs it.
pub proof fn law_entries_follow_the_answers<E: Fn(&str) -> bool, C: Fn(&str) -> bool>(
    role: RoleModelView,
    env_has: E,
    cmd_on_path: C,
    j: Json,
) -> (yes: bool)
    requires
        entry_fits(role, env_has, cmd_on_path, j),
    ensures
        ({
            let (model, kind, base_url, command) = parts(role);
            &&& j == entry(model, standing(kind, model, base_url, command, yes))
            &&& match question(kind, model, command) {
                Question::Nothing => true,
                Question::Variable(v) => exists|k: &str|
                    k@ == v && #[trigger] env_has.ensures((k,), yes),
                Question::Program(p) => exists|k: &str|
                    k@ == p && #[trigger] cmd_on_path.ensures((k,), yes),
            }
        }),
{
    let (model, kind, base_url, command) = parts(role);
    choose|yes: bool|
        #![trigger answers(env_has, cmd_on_path, question(kind, model, command), yes)]
        answers(env_has, cmd_on_path, question(kind, model, command), yes) && j == entry(
            model,
            standing(kind, model, base_url, command, yes),
        )
}

} // verus!
