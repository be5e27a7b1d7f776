use std::cell::Cell;

use maestro::config::{RoleModel, RoleModelTable, Roles};
use maestro::digest::{content_digest, sha256_hex};
use maestro::domain::{ExitStatus, SessionKind, SessionRole};
use maestro::shim::{
    cache_fresh, cap_field, fresh_at, on_search, rfc3339_to_unix, run_fetch_extract, run_search,
    shim_base_url, ExtractNext, ExtractReply, ExtractRequest, ExtractRun, ExtractionField,
    LocateReply, SearchNext, SearchReply, SearchRoute, ShimEffect, ShimSession, CACHE_TTL_SECS,
};

const NOW: &str = "2026-07-07T12:00:00Z";

/// A cache with one entry, and what the outside was asked for.
struct World {
    cache: Option<(String, String)>,
    fetches: Cell<u32>,
    extractions: Cell<u32>,
    opened: Vec<ShimSession>,
    sessions: Vec<ExitStatus>,
}

/// A request for one field of a page.
fn request(url: &str) -> ExtractRequest {
    ExtractRequest {
        advisor: "adv".to_string(),
        model: "haiku-4-5".to_string(),
        url: url.to_string(),
        fields: vec!["greeting".to_string()],
        schema: "h1".to_string(),
    }
}

/// An extraction that waits for the cache.
fn begun(url: &str) -> ExtractRun {
    run_fetch_extract(request(url), NOW, 0).0
}

/// Checks that a session is one of the shim's, for the advisor and of no task.
fn assert_shim_session(s: &ShimSession, model: &str) {
    assert_eq!(s.role, SessionRole::Shim);
    assert_eq!(s.kind, SessionKind::OneShotApi);
    assert_eq!(s.task_id, None);
    assert_eq!(s.workspace, None);
    assert_eq!((s.advisor.as_str(), s.model.as_str()), ("adv", model));
}

impl World {
    fn new() -> Self {
        World {
            cache: None,
            fetches: Cell::new(0),
            extractions: Cell::new(0),
            opened: vec![],
            sessions: vec![],
        }
    }

    fn carry_out(&mut self, effects: Vec<ShimEffect>) {
        for e in effects {
            match e {
                ShimEffect::OpenSession(s) => self.opened.push(s),
                ShimEffect::FinishSession(exit) => self.sessions.push(exit),
                ShimEffect::CachePut { url, schema, retrieved_at, payload } => {
                    assert!(url.starts_with("https://example.com"));
                    assert_eq!(schema, "h1");
                    self.cache = Some((retrieved_at, payload));
                }
            }
        }
    }
}

/// Where a passage stands in a page, as bytes.
fn locate(content: &str, field: &str, verbatim: &str) -> LocateReply {
    match content.find(verbatim) {
        Some(start) => LocateReply::Found(vec![ExtractionField {
            field: field.to_string(),
            verbatim: verbatim.to_string(),
            start,
            end: start + verbatim.len(),
        }]),
        None => LocateReply::NotFound { field: field.to_string() },
    }
}

/// Runs an extraction of one passage of a page.
fn extract(
    world: &mut World,
    url: &str,
    content: &str,
    model: Result<(&str, &str), &str>,
    cap: usize,
) -> Result<serde_json::Value, String> {
    let (mut run, mut turn) = run_fetch_extract(request(url), NOW, cap);
    loop {
        world.carry_out(turn.effects);
        turn = match turn.next {
            ExtractNext::Lookup { url: asked, schema } => {
                assert_eq!((asked.as_str(), schema.as_str()), (url, "h1"));
                run.on_cache(world.cache.clone())
            }
            ExtractNext::Fetch { url: asked } => {
                assert_eq!(asked, url);
                world.fetches.set(world.fetches.get() + 1);
                run.on_fetch(Ok(content.to_string()))
            }
            ExtractNext::Extract { content: given, fields } => {
                assert_eq!(given, content);
                assert_eq!(fields, ["greeting"]);
                world.extractions.set(world.extractions.get() + 1);
                run.on_extract(match model {
                    Ok(_) => ExtractReply::Passages,
                    Err(m) => ExtractReply::Unavailable(m.to_string()),
                })
            }
            ExtractNext::Locate { content } => {
                let (field, verbatim) = model.unwrap();
                run.on_locate(locate(&content, field, verbatim))
            }
            ExtractNext::Done(v) => return Ok(v),
            ExtractNext::Refused(m) => return Err(m),
        };
    }
}

#[test]
fn ac4_search_backend_unavailable_is_loud() {
    let end = on_search(SearchReply::Unavailable("search endpoint not configured".to_string()));
    match end.next {
        SearchNext::Refused(message) => {
            assert!(message.contains("backend_unavailable"), "{message}")
        }
        other => panic!("expected an error, got {other:?}"),
    }
    assert!(matches!(end.effects[..], [ShimEffect::FinishSession(ExitStatus::Error)]));
}

#[test]
fn search_success_journals_shim_session() {
    let turn = run_search("adv", "searxng", vec!["q".to_string()]);
    match &turn.effects[..] {
        [ShimEffect::OpenSession(s)] => assert_shim_session(s, "searxng"),
        other => panic!("expected one session, got {other:?}"),
    }
    assert!(matches!(turn.next, SearchNext::Search { queries } if queries == ["q"]));

    let results: serde_json::Value =
        serde_json::from_str(r#"[{"query":"q","url":"https://example.com","rank":1}]"#).unwrap();
    let end = on_search(SearchReply::Results(results.clone()));
    assert!(matches!(end.effects[..], [ShimEffect::FinishSession(ExitStatus::Finished)]));
    match end.next {
        SearchNext::Done(v) => {
            assert_eq!(v.as_array().unwrap().len(), 1);
            assert_eq!(v, results);
        }
        other => panic!("expected results, got {other:?}"),
    }
}

#[test]
fn searches_go_by_the_name_of_their_backend() {
    let own = SearchRoute::Searxng { endpoint: None };
    assert_eq!(own.label(), Some("searxng"));
    let provider = SearchRoute::Anthropic { model: "m".to_string(), base_url: None };
    assert_eq!(provider.label(), Some("m"));
    assert_eq!(SearchRoute::Refused("no".to_string()).label(), None);
}

#[test]
fn failed_searches_say_so() {
    let end = on_search(SearchReply::Failed("http 500".to_string()));
    assert!(matches!(end.effects[..], [ShimEffect::FinishSession(ExitStatus::Error)]));
    assert!(matches!(end.next, SearchNext::Refused(m) if m == "search failed: http 500"));
    let end = on_search(SearchReply::Unwritable("odd".to_string()));
    assert!(matches!(end.effects[..], [ShimEffect::FinishSession(ExitStatus::Finished)]));
    assert!(matches!(end.next, SearchNext::Refused(m) if m == "search serialize failed: odd"));
}

#[test]
fn ac5_verbatim_not_found_rejected_and_not_cached() {
    let mut world = World::new();
    let message = extract(
        &mut world,
        "https://example.com",
        "Hello world",
        Ok(("greeting", "Goodbye")),
        0,
    )
    .unwrap_err();
    assert!(
        message.contains("rejected") && message.contains("verbatim not found"),
        "{message}"
    );
    assert!(world.cache.is_none(), "a rejected extraction must not be cached");
    assert_eq!(world.sessions, vec![ExitStatus::Error]);
}

#[test]
fn ac6_valid_extraction_caches_and_second_call_hits_cache() {
    let mut world = World::new();
    let v1 = extract(
        &mut world,
        "https://example.com",
        "Hello world",
        Ok(("greeting", "Hello")),
        0,
    )
    .unwrap();
    assert_eq!(v1.get("url").and_then(|u| u.as_str()), Some("https://example.com"));
    assert!(v1.get("content_digest").and_then(|d| d.as_str()).unwrap().starts_with("sha256:"));
    assert_eq!(v1["content_digest"], content_digest("Hello world"));
    assert_eq!(v1["retrieved_at"], NOW);
    let ext = v1.get("extractions").and_then(|e| e.as_array()).unwrap();
    assert_eq!(ext.len(), 1);
    let off = ext[0].get("char_offset").and_then(|o| o.as_array()).unwrap();
    assert_eq!(off[0].as_u64(), Some(0));
    assert_eq!(off[1].as_u64(), Some(5));
    assert_eq!(ext[0].get("verbatim").and_then(|v| v.as_str()), Some("Hello"));
    assert_eq!(ext[0]["field"], "greeting");
    assert_eq!(world.fetches.get(), 1);
    assert_eq!(world.extractions.get(), 1);
    assert_eq!(world.sessions, vec![ExitStatus::Finished]);
    assert_eq!(world.opened.len(), 1);
    assert_shim_session(&world.opened[0], "haiku-4-5");

    let v2 = extract(
        &mut world,
        "https://example.com",
        "Hello world",
        Ok(("greeting", "Hello")),
        0,
    )
    .unwrap();
    assert_eq!(v1, v2, "cached result must equal the first result");
    assert_eq!(world.fetches.get(), 1, "cache hit must not re-fetch");
    assert_eq!(world.extractions.get(), 1, "cache hit must not re-invoke the model");
    assert_eq!(world.opened.len(), 1, "cache hit must not open a session");
}

#[test]
fn stale_cache_entry_is_refetched() {
    let mut world = World::new();
    world.cache = Some(("2000-01-01T00:00:00Z".to_string(), r#"{"stale":true}"#.to_string()));
    let got = extract(
        &mut world,
        "https://example.com",
        "Hello world",
        Ok(("greeting", "Hello")),
        0,
    );
    assert!(got.is_ok());
    assert_eq!(world.fetches.get(), 1, "stale entry must refetch");
    assert_eq!(world.extractions.get(), 1);
}

#[test]
fn a_fresh_entry_that_cannot_be_read_is_refetched() {
    let mut world = World::new();
    world.cache = Some((NOW.to_string(), "{not json".to_string()));
    let got =
        extract(&mut world, "https://example.com", "Hello world", Ok(("greeting", "Hello")), 0);
    assert!(got.is_ok());
    assert_eq!(world.fetches.get(), 1);
}

#[test]
fn model_unavailable_is_surfaced() {
    let mut world = World::new();
    let message =
        extract(&mut world, "https://example.com", "content", Err("no api key"), 0).unwrap_err();
    assert!(message.contains("extraction model unavailable"), "{message}");
    assert_eq!(world.sessions, vec![ExitStatus::Error]);
}

#[test]
fn failures_on_the_way_are_told_apart() {
    let mut run = begun("u");
    run.on_cache(None);
    let turn = run.on_fetch(Err("timeout".to_string()));
    assert!(turn.effects.is_empty(), "no session without a page");
    assert!(matches!(turn.next, ExtractNext::Refused(m) if m == "fetch failed: timeout"));

    let mut run = begun("u");
    run.on_cache(None);
    run.on_fetch(Ok("page".to_string()));
    let turn = run.on_extract(ExtractReply::Failed("bad reply".to_string()));
    assert!(matches!(turn.next, ExtractNext::Refused(m) if m == "extraction failed: bad reply"));

    let mut run = begun("u");
    run.on_cache(None);
    run.on_fetch(Ok("page".to_string()));
    run.on_extract(ExtractReply::Passages);
    let turn = run.on_locate(LocateReply::Failed("odd".to_string()));
    assert!(matches!(turn.next, ExtractNext::Refused(m) if m == "extraction failed: odd"));
}

fn only_passage(v: &serde_json::Value) -> (String, usize, usize) {
    let extractions = v.get("extractions").and_then(|e| e.as_array()).unwrap();
    assert_eq!(extractions.len(), 1);
    let verbatim = extractions[0].get("verbatim").and_then(|v| v.as_str()).unwrap();
    let off = extractions[0].get("char_offset").and_then(|o| o.as_array()).unwrap();
    (
        verbatim.to_string(),
        off[0].as_u64().unwrap() as usize,
        off[1].as_u64().unwrap() as usize,
    )
}

#[test]
fn excerpt_cap_truncates_long_verbatim() {
    let mut world = World::new();
    let long = "abcdefghij";
    let cap = 5usize;
    let v = extract(&mut world, "https://example.com/cap", long, Ok(("body", long)), cap).unwrap();
    let (verbatim, start, end) = only_passage(&v);
    assert_eq!(verbatim.chars().count(), cap);
    assert!(long.starts_with(&verbatim));
    assert_eq!(end - start, verbatim.len());
}

#[test]
fn excerpt_cap_leaves_short_verbatim_unchanged() {
    let mut world = World::new();
    let v = extract(
        &mut world,
        "https://example.com/short",
        "Hello world",
        Ok(("greeting", "Hello")),
        100,
    )
    .unwrap();
    let (verbatim, start, end) = only_passage(&v);
    assert_eq!(verbatim, "Hello");
    assert_eq!((start, end), (0, 5));
}

#[test]
fn excerpt_cap_multibyte_no_panic() {
    let mut world = World::new();
    let content = "caf\u{00e9}\u{2192}world";
    assert_eq!(content.chars().count(), 10, "fixture sanity");
    let cap = 5usize;
    let v = extract(
        &mut world,
        "https://example.com/multibyte",
        content,
        Ok(("text", content)),
        cap,
    )
    .unwrap();
    let (verbatim, start, end) = only_passage(&v);
    assert_eq!(verbatim.chars().count(), cap);
    assert!(content.starts_with(&verbatim));
    assert_eq!(end - start, verbatim.len());
    assert_eq!(&content[start..end], verbatim, "offset must index the correct substring");
}

#[test]
fn excerpt_cap_zero_means_unlimited() {
    let mut world = World::new();
    let long = "a".repeat(5000);
    let v =
        extract(&mut world, "https://example.com/unlimited", &long, Ok(("big", &long)), 0).unwrap();
    let (verbatim, _, _) = only_passage(&v);
    assert_eq!(verbatim.len(), 5000, "cap=0 must not truncate");
}

#[test]
fn cutting_keeps_the_start_of_the_span() {
    let field = ExtractionField {
        field: "f".to_string(),
        verbatim: "\u{00e9}\u{00e9}x".to_string(),
        start: 10,
        end: 15,
    };
    let cut = cap_field(field, 2);
    assert_eq!(cut.verbatim, "\u{00e9}\u{00e9}");
    assert_eq!((cut.start, cut.end), (10, 14));
    assert_eq!(cut.field, "f");
}

#[test]
fn entries_are_fresh_for_a_day() {
    assert_eq!(CACHE_TTL_SECS, 86400);
    assert!(cache_fresh("2026-07-06T12:00:01Z", NOW));
    assert!(!cache_fresh("2026-07-06T12:00:00Z", NOW));
    assert!(cache_fresh(NOW, NOW));
    // From the future, or unreadable: stale.
    assert!(!cache_fresh("2026-07-07T12:00:01Z", NOW));
    assert!(!cache_fresh("yesterday", NOW));
    assert!(!cache_fresh(NOW, "now"));
    assert!(fresh_at(Some(5), Some(86404)));
    assert!(!fresh_at(Some(5), Some(86405)));
    assert!(!fresh_at(None, Some(5)));
}

#[test]
fn timestamps_are_read_in_seconds() {
    assert_eq!(rfc3339_to_unix("1970-01-01T00:00:00Z"), Some(0));
    assert_eq!(rfc3339_to_unix("1970-01-01T01:00:00+01:00"), Some(0));
    assert_eq!(rfc3339_to_unix("2000-01-01T00:00:00Z"), Some(946684800));
    // Half a second before the epoch lies in the second before it.
    assert_eq!(rfc3339_to_unix("1969-12-31T23:59:59.5Z"), Some(-1));
    assert_eq!(rfc3339_to_unix("not a time"), None);
}

#[test]
fn digests_are_those_of_the_standard() {
    let abc = "ba7816bf8f01cfea414140de5dae2223b00361a396177a9cb410ff61f20015ad";
    assert_eq!(sha256_hex("abc"), abc);
    assert_eq!(content_digest("abc"), format!("sha256:{abc}"));
}

#[test]
fn the_shim_role_may_have_an_address_of_its_own() {
    let mut roles =
        Roles { tier0: None, tier1: None, tier2: None, verifier_floor: None, shim: None };
    assert_eq!(roles.shim_model("haiku-4-5"), "haiku-4-5");
    assert_eq!(shim_base_url(&roles), None);
    roles.shim = Some(RoleModel::Bare("m".to_string()));
    assert_eq!(roles.shim_model("haiku-4-5"), "m");
    assert_eq!(shim_base_url(&roles), None);
    roles.shim = Some(RoleModel::Detailed(RoleModelTable {
        model: "n".to_string(),
        kind: None,
        base_url: Some("http://x".to_string()),
        command: None,
        args: None,
        adapter: None,
        turn_budget: None,
        max_budget_usd_bits: None,
    }));
    assert_eq!(roles.shim_model("haiku-4-5"), "n");
    assert_eq!(shim_base_url(&roles).as_deref(), Some("http://x"));
}
