use maestro::client::Client;
use maestro::init::{
    merge_claude_md, merge_mcp, merge_settings, starter_config, write_lockdown, FileOutcome,
    FileText, LockdownFile, LockdownFiles, LockdownReport, SECTION_MARKER,
};

const DENY_TOOLS: &[&str] = &["Edit", "Write", "Bash"];

fn client() -> Client {
    Client {
        name: "acme".to_string(),
        title: "Acme".to_string(),
        instructions: "ACME.md".to_string(),
    }
}

fn present(t: &str) -> FileText {
    FileText::Present(t.to_string())
}

/// The three files after a lockdown of these, and its report.
fn lock_down(
    files: &mut [Option<String>; 3],
    mcp_bin: &str,
) -> Result<LockdownReport, String> {
    let text = |f: &Option<String>| match f {
        Some(t) => FileText::Present(t.clone()),
        None => FileText::Absent,
    };
    let done = write_lockdown(
        "/repo",
        &client(),
        LockdownFiles {
            settings: text(&files[0]),
            mcp: text(&files[1]),
            claude_md: text(&files[2]),
        },
        mcp_bin,
    );
    for w in done.writes {
        let at = match w.file {
            LockdownFile::Settings => 0,
            LockdownFile::Mcp => 1,
            LockdownFile::ClaudeMd => 2,
        };
        files[at] = Some(w.text);
    }
    done.report.map_err(|f| f.full())
}

fn parsed(t: &Option<String>) -> serde_json::Value {
    serde_json::from_str(t.as_ref().unwrap()).unwrap()
}

#[test]
fn init_config_creates_dirs_and_writes_config_then_is_idempotent() {
    let written = starter_config(false, &client()).expect("first init should write the config");
    assert!(written.contains("default_profile = \"personal\""));
    assert!(written.contains("[profiles.personal]"));
    assert!(written.contains("roles.tier0 = \"acme-sonnet-4-6\""));
    assert!(written.contains("advisor runs in Acme Code"));
    assert!(starter_config(true, &client()).is_none(), "second init must not overwrite");
}

#[test]
fn lockdown_writes_all_three_and_is_idempotent() {
    let mut files = [None, None, None];
    let r1 = lock_down(&mut files, "/abs/maestro-mcp").unwrap();
    assert_eq!(r1.settings, FileOutcome::Created);
    assert_eq!(r1.mcp, FileOutcome::Created);
    assert_eq!(r1.claude_md, FileOutcome::Created);

    let settings = parsed(&files[0]);
    let deny = settings["permissions"]["deny"].as_array().unwrap();
    for tool in DENY_TOOLS {
        assert!(deny.iter().any(|v| v.as_str() == Some(tool)), "deny must contain {tool}");
    }
    let mcp = parsed(&files[1]);
    assert_eq!(mcp["mcpServers"]["maestro"]["command"], "/abs/maestro-mcp");
    assert!(files[2].as_ref().unwrap().contains(SECTION_MARKER));

    let before = files.clone();
    let r2 = lock_down(&mut files, "/abs/maestro-mcp").unwrap();
    assert_eq!(files, before, "the second run keeps every byte");
    assert_eq!(r2.settings, FileOutcome::Unchanged);
    assert_eq!(r2.mcp, FileOutcome::Unchanged);
    assert_eq!(r2.claude_md, FileOutcome::Unchanged);

    let settings = parsed(&files[0]);
    let deny = settings["permissions"]["deny"].as_array().unwrap();
    let edit_count = deny.iter().filter(|v| v.as_str() == Some("Edit")).count();
    assert_eq!(edit_count, 1, "no duplicate deny entries");
    assert_eq!(files[2].as_ref().unwrap().matches(SECTION_MARKER).count(), 1);
}

#[test]
fn lockdown_merges_into_existing_files() {
    let mut files = [
        Some(
            r#"{ "permissions": { "deny": ["WebFetch"], "allow": ["Read"] }, "model": "x" }"#
                .to_string(),
        ),
        Some(r#"{ "mcpServers": { "other": { "command": "other-bin" } } }"#.to_string()),
        Some("# My project\n\nHouse rules here.\n".to_string()),
    ];
    let r = lock_down(&mut files, "maestro-mcp").unwrap();
    assert_eq!(r.settings, FileOutcome::Merged);
    assert_eq!(r.mcp, FileOutcome::Merged);
    assert_eq!(r.claude_md, FileOutcome::Merged);

    let settings = parsed(&files[0]);
    let deny = settings["permissions"]["deny"].as_array().unwrap();
    assert!(deny.iter().any(|v| v.as_str() == Some("WebFetch")));
    assert!(deny.iter().any(|v| v.as_str() == Some("Edit")));
    assert_eq!(settings["permissions"]["allow"][0], "Read");
    assert_eq!(settings["model"], "x");

    let mcp = parsed(&files[1]);
    assert_eq!(mcp["mcpServers"]["other"]["command"], "other-bin");
    assert_eq!(mcp["mcpServers"]["maestro"]["command"], "maestro-mcp");

    let instructions = files[2].as_ref().unwrap();
    assert!(instructions.starts_with("# My project\n\nHouse rules here.\n\n"));
    assert!(instructions.contains(SECTION_MARKER), "appended maestro section");
    assert!(files[0].as_ref().unwrap().ends_with("}\n"));
}

#[test]
fn numbers_survive_a_merge() {
    let merged =
        merge_settings("s", &client(), present(r#"{"pi": 3.25, "deep": [[[{"n": null}]]]}"#))
            .unwrap();
    let v: serde_json::Value = serde_json::from_str(&merged.text.unwrap()).unwrap();
    assert_eq!(v["pi"], 3.25);
    assert!(v["deep"][0][0][0]["n"].is_null());
}

#[test]
fn files_that_are_no_objects_are_refused() {
    let path = "/repo/.acme/settings.json";
    let err = merge_settings(path, &client(), present("[1]")).unwrap_err();
    assert_eq!(err.full(), "/repo/.acme/settings.json is not a JSON object");
    let err = merge_settings(path, &client(), present("{oops")).unwrap_err();
    assert!(err.full().starts_with("parsing JSON from /repo/.acme/settings.json: "));
    let err = merge_settings(path, &client(), present(r#"{"permissions": 1}"#)).unwrap_err();
    assert_eq!(err.full(), "`permissions` in .acme/settings.json is not an object");
    let err =
        merge_settings(path, &client(), present(r#"{"permissions": {"deny": {}}}"#)).unwrap_err();
    assert_eq!(err.full(), "`permissions.deny` in .acme/settings.json is not an array");
    let err = merge_mcp("/repo/.mcp.json", present(r#"{"mcpServers": []}"#), "b").unwrap_err();
    assert_eq!(err.full(), "`mcpServers` in .mcp.json is not an object");
    let err = merge_mcp("p", FileText::Unreadable("denied".to_string()), "b").unwrap_err();
    assert_eq!(err.full(), "reading p: denied");
    let err = merge_claude_md("p", FileText::Unreadable("denied".to_string())).unwrap_err();
    assert_eq!(err.full(), "reading p: denied");
}

#[test]
fn a_blank_file_counts_as_created() {
    let m = merge_settings("p", &client(), present("  \n")).unwrap();
    assert_eq!(m.outcome, FileOutcome::Created);
    let m = merge_mcp("p", present(""), "b").unwrap();
    assert_eq!(m.outcome, FileOutcome::Created);
}

#[test]
fn another_command_is_replaced() {
    let before = r#"{"mcpServers": {"maestro": {"command": "old"}}}"#;
    let m = merge_mcp("p", present(before), "new").unwrap();
    assert_eq!(m.outcome, FileOutcome::Merged);
    let v: serde_json::Value = serde_json::from_str(&m.text.unwrap()).unwrap();
    assert_eq!(v["mcpServers"]["maestro"]["command"], "new");
    // A registration with more in it is not the same one.
    let before = r#"{"mcpServers": {"maestro": {"command": "new", "args": []}}}"#;
    assert_eq!(merge_mcp("p", present(before), "new").unwrap().outcome, FileOutcome::Merged);
}

#[test]
fn the_section_stands_behind_an_empty_line() {
    let m = merge_claude_md("p", present("no line break")).unwrap();
    assert!(m.text.unwrap().starts_with(&format!("no line break\n\n{SECTION_MARKER}\n")));
    let m = merge_claude_md("p", present("")).unwrap();
    assert_eq!(m.outcome, FileOutcome::Merged);
    assert!(m.text.unwrap().starts_with(&format!("\n\n{SECTION_MARKER}")));
    let had = format!("x {SECTION_MARKER} y");
    let m = merge_claude_md("p", present(&had)).unwrap();
    assert_eq!(m.outcome, FileOutcome::Unchanged);
    assert!(m.text.is_none());
}

#[test]
fn the_first_error_stops_the_lockdown() {
    let mut files = [None, Some("[]".to_string()), None];
    let err = lock_down(&mut files, "b").unwrap_err();
    assert_eq!(err, "/repo/.mcp.json is not a JSON object");
    assert!(files[0].is_some(), "what came before was written");
    assert!(files[2].is_none());
    let mut files = [Some("[]".to_string()), None, None];
    assert!(lock_down(&mut files, "b").is_err());
    assert!(files[1].is_none() && files[2].is_none());
}

#[test]
fn outcomes_have_words() {
    assert_eq!(FileOutcome::Created.label(), "created");
    assert_eq!(FileOutcome::Merged.label(), "merged");
    assert_eq!(FileOutcome::Unchanged.label(), "unchanged");
    assert_eq!(LockdownReport::default().mcp, FileOutcome::Unchanged);
    assert_eq!(client().shim_model(), "acme-haiku-4-5");
    assert_eq!(client().dir(), ".acme");
}
