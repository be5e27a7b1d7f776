use maestro::credentials::{
    keys_to_inject, load_credentials_into_env, perms_too_open, variables_to_set, Credentials,
    FileContents, FileFacts, LoadStep,
};
use maestro::table::Table;

#[test]
fn perms_600_is_ok() {
    assert!(!perms_too_open(0o600));
}

#[test]
fn perms_400_is_ok() {
    assert!(!perms_too_open(0o400));
}

#[test]
fn perms_640_is_too_open() {
    assert!(perms_too_open(0o640));
}

#[test]
fn perms_644_is_too_open() {
    assert!(perms_too_open(0o644));
}

#[test]
fn perms_660_is_too_open() {
    assert!(perms_too_open(0o660));
}

#[test]
fn perms_666_is_too_open() {
    assert!(perms_too_open(0o666));
}

#[test]
fn perms_604_is_too_open() {
    // World-readable is still too open.
    assert!(perms_too_open(0o604));
}

#[test]
fn perms_700_is_ok() {
    // No bits for group or world.
    assert!(!perms_too_open(0o700));
}

fn make_creds(pairs: &[(&str, &str)]) -> Credentials {
    Credentials::from_pairs(pairs.iter().map(|(k, v)| (k.to_string(), v.to_string())).collect())
}

#[test]
fn keys_to_inject_includes_unset_key() {
    let creds = make_creds(&[("UNSET_KEY_XYZ", "value123")]);
    let result = keys_to_inject(&creds, |_k: &str| false);
    assert_eq!(result, vec![("UNSET_KEY_XYZ", "value123")]);
}

#[test]
fn keys_to_inject_skips_already_set_key() {
    let creds = make_creds(&[("ALREADY_SET_KEY", "from_file")]);
    let result = keys_to_inject(&creds, |_k: &str| true);
    assert!(result.is_empty());
}

#[test]
fn keys_to_inject_mixed() {
    let creds = make_creds(&[("KEY_SET", "file_value"), ("KEY_UNSET", "inject_me")]);
    let result = keys_to_inject(&creds, |k: &str| k == "KEY_SET");
    assert_eq!(result.len(), 1);
    assert_eq!(result[0], ("KEY_UNSET", "inject_me"));
}

#[test]
fn keys_to_inject_empty_creds_yields_empty() {
    let creds = make_creds(&[]);
    let result = keys_to_inject(&creds, |_: &str| false);
    assert!(result.is_empty());
}

#[test]
fn keys_to_inject_all_set_yields_empty() {
    let creds = make_creds(&[("A", "1"), ("B", "2")]);
    let result = keys_to_inject(&creds, |_: &str| true);
    assert!(result.is_empty());
}

#[test]
fn only_a_private_file_is_read() {
    assert_eq!(load_credentials_into_env(FileFacts::Missing), LoadStep::Quiet);
    assert_eq!(load_credentials_into_env(FileFacts::Unreadable), LoadStep::WarnUnreadable);
    assert_eq!(load_credentials_into_env(FileFacts::Mode(0o644)), LoadStep::WarnTooOpen);
    assert_eq!(load_credentials_into_env(FileFacts::Mode(0o600)), LoadStep::Read);
    // The file type bits do not count.
    assert_eq!(load_credentials_into_env(FileFacts::Mode(0o100600)), LoadStep::Read);
}

#[test]
fn keys_stand_in_order_and_once() {
    let creds = make_creds(&[("B", "1"), ("A", "2"), ("C", "3"), ("A", "4")]);
    assert_eq!(
        keys_to_inject(&creds, |_: &str| false),
        vec![("A", "4"), ("B", "1"), ("C", "3")]
    );
}

#[test]
fn the_environment_wins() {
    let mut env = Table::new();
    env.insert("SET", "mine".to_string());
    env.insert("EMPTY", String::new());
    let pairs = [("SET", "file"), ("EMPTY", "file"), ("UNSET", "file")];
    let parsed = FileContents::Parsed(make_creds(&pairs));
    let private = FileFacts::Mode(0o600);
    assert_eq!(
        variables_to_set(private, &parsed, &env),
        vec![("EMPTY", "file"), ("UNSET", "file")]
    );
    assert!(variables_to_set(FileFacts::Mode(0o640), &parsed, &env).is_empty());
    assert!(variables_to_set(FileFacts::Missing, &parsed, &env).is_empty());
    assert!(variables_to_set(FileFacts::Unreadable, &parsed, &env).is_empty());
    assert!(variables_to_set(private, &FileContents::Unusable, &env).is_empty());
}

#[test]
fn only_the_keys_of_the_file_are_asked_about() {
    let creds = make_creds(&[("A", "1"), ("B", "2")]);
    let is_set = |k: &str| match k {
        "A" => true,
        "B" => false,
        other => panic!("asked about {other}"),
    };
    assert_eq!(keys_to_inject(&creds, is_set), vec![("B", "2")]);
}
