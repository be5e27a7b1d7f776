use maestro::digest::sha256_hex;
use maestro::verify_checkout::{
    copy_step, record, shell_args, truncate_chars, wait_step, CopyStep, EntryKind, RunOutcome,
    WaitStep, COMMAND_TIMEOUT_SECS, OUTPUT_EXCERPT_CAP,
};

fn ended(code: i32, output: &str) -> RunOutcome {
    RunOutcome::Ended { code: Some(code), output: output.to_string() }
}

#[test]
fn cat_reads_copied_file_stable_digest() {
    let r = record("cat somefile", ended(0, "hello contents\n"));
    assert_eq!(r.exit, 0);
    assert!(r.output_excerpt.contains("hello contents"));
    assert_eq!(r.output_digest, sha256_hex(&r.output_excerpt));
    let r2 = record("cat somefile", ended(0, "hello contents\n"));
    assert_eq!(r.output_digest, r2.output_digest);
    assert_eq!(r.cmd, "cat somefile");
}

#[test]
fn false_command_nonzero_exit() {
    let r = record("false", ended(1, ""));
    assert_ne!(r.exit, 0);
}

#[test]
fn git_is_absent_in_the_copy() {
    assert_eq!(copy_step(".git", EntryKind::Directory), CopyStep::Skip);
    assert_eq!(copy_step(".git", EntryKind::File), CopyStep::Skip);
    assert_eq!(copy_step("somefile", EntryKind::File), CopyStep::CopyFile);
    assert_eq!(copy_step("src", EntryKind::Directory), CopyStep::Descend);
    assert_eq!(copy_step("link", EntryKind::Link), CopyStep::CopyTarget);
}

#[test]
fn copy_failure_yields_error_record_not_panic() {
    let r = record("cat somefile", RunOutcome::NoCheckout("no such directory".to_string()));
    assert_eq!(r.exit, -1);
    assert!(r.output_excerpt.contains("throwaway checkout unavailable"));
    assert_eq!(r.output_digest, sha256_hex(&r.output_excerpt));
}

#[test]
fn truncate_chars_is_codepoint_safe() {
    let s = "áéíóú";
    assert_eq!(truncate_chars(s, 3), "áéí");
    assert_eq!(truncate_chars(s, 10), s);
}

#[test]
fn long_output_is_cut_and_digested_whole() {
    let long = "x".repeat(OUTPUT_EXCERPT_CAP + 10);
    let r = record("yes", ended(0, &long));
    assert_eq!(r.output_excerpt.len(), OUTPUT_EXCERPT_CAP);
    assert_eq!(r.output_digest, sha256_hex(&long));
}

#[test]
fn runs_that_never_ended_are_recorded_as_errors() {
    for outcome in [
        RunOutcome::NotWrapped("w".to_string()),
        RunOutcome::NotSpawned { program: "bash".to_string(), error: "e".to_string() },
        RunOutcome::NotWaited("e".to_string()),
    ] {
        assert_eq!(record("c", outcome).exit, -1);
    }
    assert_eq!(record("c", RunOutcome::Ended { code: None, output: String::new() }).exit, -1);
    let late = record("c", RunOutcome::TimedOut { output: "partial".to_string() });
    assert_ne!(late.exit, 0);
    assert!(late.output_excerpt.contains("partial"));
}

#[test]
fn commands_run_in_a_shell_until_their_time_is_up() {
    assert_eq!(shell_args("echo hi"), vec!["-c", "echo hi"]);
    assert_eq!(wait_step(true, 0), WaitStep::Collect);
    assert_eq!(wait_step(false, 0), WaitStep::Sleep);
    assert_eq!(wait_step(false, COMMAND_TIMEOUT_SECS), WaitStep::Kill);
    assert_eq!(wait_step(true, COMMAND_TIMEOUT_SECS + 1), WaitStep::Collect);
}
