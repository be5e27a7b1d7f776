use maestro::config::{RoleModel, RoleModelTable, Roles};
use maestro::model_auth::{
    build_model_auth, is_executable_file, model_auth_error, role_auth_status,
};

fn no_env(_k: &str) -> bool {
    false
}

fn has_env(_k: &str) -> bool {
    true
}

fn no_cmd(_p: &str) -> bool {
    false
}

fn has_cmd(_p: &str) -> bool {
    true
}

#[test]
fn mock_model_is_always_ok() {
    let (backend, status) = role_auth_status(None, "mock", None, None, &no_env, &no_cmd);
    assert_eq!(backend, "mock");
    assert_eq!(status, "ok");
}

#[test]
fn mock_kind_is_always_ok() {
    let (backend, status) =
        role_auth_status(Some("mock"), "sonnet-4-6", None, None, &no_env, &no_cmd);
    assert_eq!(backend, "mock");
    assert_eq!(status, "ok");
}

#[test]
fn driven_cli_cmd_present_ok() {
    let (backend, status) =
        role_auth_status(Some("driven_cli"), "codex", None, Some("codex"), &no_env, &has_cmd);
    assert_eq!(backend, "driven_cli");
    assert_eq!(status, "ok");
}

#[test]
fn driven_cli_cmd_absent_error() {
    let (backend, status) =
        role_auth_status(Some("driven_cli"), "codex", None, Some("codex"), &no_env, &no_cmd);
    assert_eq!(backend, "driven_cli");
    assert_eq!(status, "command_not_found:codex");
}

#[test]
fn driven_cli_falls_back_to_model_as_program() {
    let (backend, status) =
        role_auth_status(Some("driven_cli"), "somecli", None, None, &no_env, &has_cmd);
    assert_eq!(backend, "driven_cli");
    assert_eq!(status, "ok");
}

#[test]
fn driven_cli_model_as_program_absent() {
    let (backend, status) =
        role_auth_status(Some("driven_cli"), "somecli", None, None, &no_env, &no_cmd);
    assert_eq!(backend, "driven_cli");
    assert_eq!(status, "command_not_found:somecli");
}

#[test]
fn anthropic_kind_none_key_present_ok() {
    let (backend, status) =
        role_auth_status(None, "sonnet-4-6", None, None, &has_env, &no_cmd);
    assert_eq!(backend, "anthropic");
    assert_eq!(status, "ok");
}

#[test]
fn anthropic_kind_explicit_key_present_ok() {
    let (backend, status) =
        role_auth_status(Some("anthropic"), "opus-4-8", None, None, &has_env, &no_cmd);
    assert_eq!(backend, "anthropic");
    assert_eq!(status, "ok");
}

#[test]
fn anthropic_key_missing() {
    let (backend, status) =
        role_auth_status(None, "sonnet-4-6", None, None, &no_env, &no_cmd);
    assert_eq!(backend, "anthropic");
    assert_eq!(status, "missing_credential:ANTHROPIC_API_KEY");
}

#[test]
fn anthropic_with_base_url_still_needs_key() {
    // An address of one's own does not remove the need for a key.
    let (backend, status) = role_auth_status(
        None,
        "sonnet-4-6",
        Some("https://custom.api"),
        None,
        &no_env,
        &no_cmd,
    );
    assert_eq!(backend, "anthropic");
    assert_eq!(status, "missing_credential:ANTHROPIC_API_KEY");
}

#[test]
fn openai_compat_key_and_base_url_ok() {
    let (backend, status) = role_auth_status(
        Some("openai_compat"),
        "qwen",
        Some("http://localhost:11434/v1"),
        None,
        &has_env,
        &no_cmd,
    );
    assert_eq!(backend, "openai_compat");
    assert_eq!(status, "ok");
}

#[test]
fn openai_compat_missing_key() {
    let (backend, status) = role_auth_status(
        Some("openai_compat"),
        "qwen",
        Some("http://localhost:11434/v1"),
        None,
        &no_env,
        &no_cmd,
    );
    assert_eq!(backend, "openai_compat");
    assert_eq!(status, "missing_credential:OPENAI_API_KEY");
}

#[test]
fn openai_compat_missing_base_url() {
    let (backend, status) =
        role_auth_status(Some("openai_compat"), "qwen", None, None, &has_env, &no_cmd);
    assert_eq!(backend, "openai_compat");
    assert_eq!(status, "unconfigured:base_url");
}

#[test]
fn openai_compat_missing_both_reports_key_first() {
    let (backend, status) =
        role_auth_status(Some("openai_compat"), "qwen", None, None, &no_env, &no_cmd);
    assert_eq!(backend, "openai_compat");
    assert_eq!(status, "missing_credential:OPENAI_API_KEY");
}

#[test]
fn unknown_kind() {
    let (backend, status) =
        role_auth_status(Some("future_backend"), "some-model", None, None, &no_env, &no_cmd);
    assert_eq!(backend, "future_backend");
    assert_eq!(status, "unknown_backend");
}

fn detailed(
    model: &str,
    kind: Option<&str>,
    base_url: Option<&str>,
    command: Option<&str>,
) -> RoleModel {
    RoleModel::Detailed(RoleModelTable {
        model: model.to_string(),
        kind: kind.map(str::to_string),
        base_url: base_url.map(str::to_string),
        command: command.map(str::to_string),
        args: None,
        adapter: None,
        turn_budget: None,
        max_budget_usd_bits: None,
    })
}

#[test]
fn build_model_auth_tier0_anthropic_tier1_driven_cli_shim_default() {
    let roles = Roles {
        tier0: Some(RoleModel::Bare("sonnet-4-6".to_string())),
        tier1: Some(detailed("codex", Some("driven_cli"), None, Some("codex"))),
        tier2: None,
        verifier_floor: None,
        shim: None,
    };
    let env_has = |k: &str| k == "ANTHROPIC_API_KEY";
    let cmd_on_path = |p: &str| p == "codex";

    let auth = build_model_auth(&roles, "haiku-4-5", &env_has, &cmd_on_path);

    assert_eq!(auth["tier0"]["model"], "sonnet-4-6");
    assert_eq!(auth["tier0"]["backend"], "anthropic");
    assert_eq!(auth["tier0"]["status"], "ok");

    assert_eq!(auth["tier1"]["model"], "codex");
    assert_eq!(auth["tier1"]["backend"], "driven_cli");
    assert_eq!(auth["tier1"]["status"], "ok");

    assert!(auth.get("tier2").is_none());
    assert!(auth.get("verifier_floor").is_none());

    assert_eq!(auth["shim"]["model"], "haiku-4-5");
    assert_eq!(auth["shim"]["backend"], "anthropic");
    assert_eq!(auth["shim"]["status"], "ok");
}

#[test]
fn build_model_auth_shim_present_explicit() {
    let roles = Roles {
        tier0: None,
        tier1: None,
        tier2: None,
        verifier_floor: None,
        shim: Some(RoleModel::Bare("haiku-4-5-fast".to_string())),
    };

    let auth = build_model_auth(&roles, "haiku-4-5", &has_env, &no_cmd);

    assert_eq!(auth["shim"]["model"], "haiku-4-5-fast");
    assert_eq!(auth["shim"]["backend"], "anthropic");
    assert_eq!(auth["shim"]["status"], "ok");
}

#[test]
fn build_model_auth_missing_key_surfaces_in_all_anthropic_slots() {
    let roles = Roles {
        tier0: Some(RoleModel::Bare("sonnet-4-6".to_string())),
        tier1: None,
        tier2: Some(RoleModel::Bare("opus-4-8".to_string())),
        verifier_floor: Some(RoleModel::Bare("sonnet-4-6".to_string())),
        shim: None,
    };

    let auth = build_model_auth(&roles, "haiku-4-5", &no_env, &no_cmd);

    assert_eq!(auth["tier0"]["status"], "missing_credential:ANTHROPIC_API_KEY");
    assert_eq!(auth["tier2"]["status"], "missing_credential:ANTHROPIC_API_KEY");
    assert_eq!(auth["verifier_floor"]["status"], "missing_credential:ANTHROPIC_API_KEY");
    assert_eq!(auth["shim"]["status"], "missing_credential:ANTHROPIC_API_KEY");
}

#[test]
fn build_model_auth_openai_compat_slot() {
    let roles = Roles {
        tier0: Some(detailed(
            "qwen",
            Some("openai_compat"),
            Some("http://localhost:11434/v1"),
            None,
        )),
        tier1: None,
        tier2: None,
        verifier_floor: None,
        shim: None,
    };

    let env_has = |k: &str| k == "OPENAI_API_KEY";
    let auth = build_model_auth(&roles, "haiku-4-5", &env_has, &no_cmd);

    assert_eq!(auth["tier0"]["model"], "qwen");
    assert_eq!(auth["tier0"]["backend"], "openai_compat");
    assert_eq!(auth["tier0"]["status"], "ok");
}

#[test]
fn build_model_auth_mock_slot() {
    let roles = Roles {
        tier0: Some(detailed("mock", Some("mock"), None, None)),
        tier1: None,
        tier2: None,
        verifier_floor: None,
        shim: None,
    };

    let auth = build_model_auth(&roles, "haiku-4-5", &no_env, &no_cmd);
    assert_eq!(auth["tier0"]["backend"], "mock");
    assert_eq!(auth["tier0"]["status"], "ok");
}

#[test]
fn unresolved_profiles_have_no_model_report() {
    let v = model_auth_error();
    assert_eq!(v["error"], "profile resolution failed; cannot check model auth");
    assert_eq!(v.as_object().unwrap().len(), 1);
}

#[test]
fn a_program_is_a_file_that_someone_may_run() {
    assert!(is_executable_file(true, 0o100755));
    assert!(is_executable_file(true, 0o100001));
    assert!(!is_executable_file(true, 0o100644));
    assert!(!is_executable_file(false, 0o040755));
}

#[test]
fn only_the_question_of_a_role_is_asked() {
    let no_env = |_: &str| -> bool { panic!("the environment must not be asked") };
    let no_path = |_: &str| -> bool { panic!("the path must not be asked") };
    let driven = |base_url: Option<&str>| {
        role_auth_status(Some("driven_cli"), "m", base_url, Some("prog"), &no_env, &|p: &str| {
            assert_eq!(p, "prog");
            true
        })
    };
    assert_eq!(driven(None), ("driven_cli".to_string(), "ok".to_string()));
    assert_eq!(driven(None), driven(Some("http://x")));
    let keyed = role_auth_status(None, "m", None, None, &|k: &str| k == "ANTHROPIC_API_KEY", &no_path);
    assert_eq!(keyed, ("anthropic".to_string(), "ok".to_string()));
    let mock = role_auth_status(None, "mock", None, None, &no_env, &no_path);
    assert_eq!(mock, ("mock".to_string(), "ok".to_string()));
}
