use tokenizer_ffi::boundary::tokenize_to_payload;
use tokenizer_ffi::engine::load_definition;
use tokenizer_ffi::resolve::{cache_dir_for, ResolveAction, ResolveEvent, Resolver};

// A complete, minimal tokenizer definition the engine accepts: lowercasing,
// whitespace pre-tokenization, and a word-level vocabulary.
const MODEL_JSON: &str = "{\"version\":\"1.0\",\"truncation\":null,\"padding\":null,\
\"added_tokens\":[],\"normalizer\":{\"type\":\"Lowercase\"},\
\"pre_tokenizer\":{\"type\":\"Whitespace\"},\"post_processor\":null,\"decoder\":null,\
\"model\":{\"type\":\"WordLevel\",\"vocab\":{\"hello\":0,\",\":1,\"world\":2,\"!\":3,\
\"this\":4,\"is\":5,\"a\":6,\"test\":7,\".\":8,\"[UNK]\":9},\"unk_token\":\"[UNK]\"}}";

fn model_bytes() -> Vec<u8> {
    MODEL_JSON.as_bytes().to_vec()
}

fn expect_check_path(action: &ResolveAction, expected: &str) {
    match action {
        ResolveAction::CheckPath(p) => assert_eq!(p, expected),
        _ => panic!("expected a path check"),
    }
}

fn expect_read_file(action: &ResolveAction, expected: &str) {
    match action {
        ResolveAction::ReadFile(p) => assert_eq!(p, expected),
        _ => panic!("expected a file read"),
    }
}

fn trace_position(trace: &[String], needle: &str) -> usize {
    trace
        .iter()
        .position(|entry| entry.contains(needle))
        .unwrap_or_else(|| panic!("trace misses {:?}: {:?}", needle, trace))
}

fn assert_trace_free_of(trace: &[String], needle: &str) {
    assert!(
        trace.iter().all(|entry| !entry.contains(needle)),
        "trace unexpectedly mentions {:?}: {:?}",
        needle,
        trace
    );
}

#[test]
fn local_file_resolves_without_hub_or_cache() {
    let (mut resolver, first) = Resolver::new("model.json".to_string(), None);
    expect_check_path(&first, "model.json");
    let next = resolver.step(ResolveEvent::PathChecked(true));
    expect_read_file(&next, "model.json");
    let last = resolver.step(ResolveEvent::FileRead(Some(model_bytes())));
    match last {
        ResolveAction::Finished(Ok(_)) => {}
        _ => panic!("expected success from the local file"),
    }
    let trace = resolver.trace();
    trace_position(trace, "Loading tokenizer from file: model.json");
    trace_position(trace, "Successfully loaded tokenizer from file");
    assert_trace_free_of(trace, "model hub");
    assert_trace_free_of(trace, "cache");
}

#[test]
fn broken_local_file_is_terminal() {
    let (mut resolver, _) = Resolver::new("model.json".to_string(), None);
    resolver.step(ResolveEvent::PathChecked(true));
    let last = resolver.step(ResolveEvent::FileRead(Some(b"not a definition".to_vec())));
    match last {
        ResolveAction::Finished(Err(e)) => assert!(!e.is_empty()),
        _ => panic!("an existing but broken file must fail resolution"),
    }
    assert_trace_free_of(resolver.trace(), "model hub");
}

#[test]
fn hub_success_skips_cache_scan() {
    let stub = load_definition(&model_bytes()).unwrap();
    let (mut resolver, _) = Resolver::new("org/model".to_string(), None);
    let next = resolver.step(ResolveEvent::PathChecked(false));
    match next {
        ResolveAction::FetchHub(name, credential) => {
            assert_eq!(name, "org/model");
            assert!(credential.is_none());
        }
        _ => panic!("expected a hub fetch"),
    }
    let last = resolver.step(ResolveEvent::HubFetched(Ok(stub)));
    match last {
        ResolveAction::Finished(Ok(_)) => {}
        _ => panic!("expected success from the hub"),
    }
    assert_trace_free_of(resolver.trace(), "cache");
}

#[test]
fn credential_reaches_hub_and_stays_out_of_trace() {
    let (mut resolver, _) = Resolver::new(
        "org/model".to_string(),
        Some("SECRET-REDACTED".to_string()),
    );
    let next = resolver.step(ResolveEvent::PathChecked(false));
    match next {
        ResolveAction::FetchHub(name, credential) => {
            assert_eq!(name, "org/model");
            assert_eq!(credential.as_deref(), Some("SECRET-REDACTED"));
        }
        _ => panic!("expected a hub fetch carrying the credential"),
    }
    let trace = resolver.trace();
    trace_position(trace, "Using authentication token");
    assert_trace_free_of(trace, "SECRET-REDACTED");
}

#[test]
fn cache_fallback_resolves_after_hub_failure() {
    let (mut resolver, _) = Resolver::new("org/model".to_string(), None);
    resolver.step(ResolveEvent::PathChecked(false));
    let next = resolver.step(ResolveEvent::HubFetched(Err("hub unreachable".to_string())));
    let cache_dir = cache_dir_for("org/model");
    assert_eq!(
        cache_dir,
        "/root/.cache/huggingface/hub/models--org--model/snapshots"
    );
    match next {
        ResolveAction::ListDir(p) => assert_eq!(p, cache_dir),
        _ => panic!("expected a cache directory listing"),
    }
    let next = resolver.step(ResolveEvent::DirListed(Some(vec!["snap1".to_string()])));
    expect_read_file(
        &next,
        "/root/.cache/huggingface/hub/models--org--model/snapshots/snap1/tokenizer.json",
    );
    let last = resolver.step(ResolveEvent::FileRead(Some(model_bytes())));
    let resolved = match last {
        ResolveAction::Finished(Ok(t)) => t,
        _ => panic!("expected success from the cache"),
    };
    // The cached snapshot and a direct load of the same definition are
    // structurally identical: same tokens, same ids, same payload.
    let direct = load_definition(&model_bytes()).unwrap();
    let trace: Vec<String> = Vec::new();
    let from_cache = tokenize_to_payload(&resolved, "Hello, world! This is a test.", &trace);
    let from_direct = tokenize_to_payload(&direct, "Hello, world! This is a test.", &trace);
    assert!(from_cache.is_some());
    assert_eq!(from_cache, from_direct);
}

#[test]
fn second_snapshot_is_tried_after_a_broken_one() {
    let (mut resolver, _) = Resolver::new("org/model".to_string(), None);
    resolver.step(ResolveEvent::PathChecked(false));
    resolver.step(ResolveEvent::HubFetched(Err("hub unreachable".to_string())));
    let next = resolver.step(ResolveEvent::DirListed(Some(vec![
        "older".to_string(),
        "newer".to_string(),
    ])));
    expect_read_file(
        &next,
        "/root/.cache/huggingface/hub/models--org--model/snapshots/older/tokenizer.json",
    );
    let next = resolver.step(ResolveEvent::FileRead(Some(b"broken".to_vec())));
    expect_read_file(
        &next,
        "/root/.cache/huggingface/hub/models--org--model/snapshots/newer/tokenizer.json",
    );
    let last = resolver.step(ResolveEvent::FileRead(Some(model_bytes())));
    match last {
        ResolveAction::Finished(Ok(_)) => {}
        _ => panic!("expected the second snapshot to win"),
    }
}

#[test]
fn cache_dir_substitutes_every_separator() {
    assert_eq!(
        cache_dir_for("deep/nested/model"),
        "/root/.cache/huggingface/hub/models--deep--nested--model/snapshots"
    );
    assert_eq!(
        cache_dir_for("plain"),
        "/root/.cache/huggingface/hub/models--plain/snapshots"
    );
    assert_eq!(
        cache_dir_for(""),
        "/root/.cache/huggingface/hub/models--/snapshots"
    );
}

#[test]
fn all_sources_failing_returns_hub_error_and_ordered_trace() {
    let (mut resolver, _) = Resolver::new("org/missing".to_string(), None);
    resolver.step(ResolveEvent::PathChecked(false));
    resolver.step(ResolveEvent::HubFetched(Err("401 unauthorized".to_string())));
    let last = resolver.step(ResolveEvent::DirListed(None));
    match last {
        ResolveAction::Finished(Err(e)) => assert_eq!(e, "401 unauthorized"),
        _ => panic!("expected the hub error as the representative failure"),
    }
    let trace = resolver.trace();
    let file_check = trace_position(trace, "Checking for local file: org/missing");
    let hub_try = trace_position(trace, "Trying to load tokenizer from the model hub: org/missing");
    let cache_try = trace_position(trace, "Trying to find in cache: ");
    assert!(file_check < hub_try);
    assert!(hub_try < cache_try);
}

#[test]
fn empty_cache_listing_fails_with_hub_error() {
    let (mut resolver, _) = Resolver::new("org/model".to_string(), None);
    resolver.step(ResolveEvent::PathChecked(false));
    resolver.step(ResolveEvent::HubFetched(Err("offline".to_string())));
    let empty: Vec<String> = Vec::new();
    let last = resolver.step(ResolveEvent::DirListed(Some(empty)));
    match last {
        ResolveAction::Finished(Err(e)) => assert_eq!(e, "offline"),
        _ => panic!("expected failure when the cache holds no snapshot"),
    }
}

#[test]
fn unreadable_snapshot_files_fall_through_to_hub_error() {
    let (mut resolver, _) = Resolver::new("org/model".to_string(), None);
    resolver.step(ResolveEvent::PathChecked(false));
    resolver.step(ResolveEvent::HubFetched(Err("offline".to_string())));
    resolver.step(ResolveEvent::DirListed(Some(vec!["snap1".to_string()])));
    let last = resolver.step(ResolveEvent::FileRead(None));
    match last {
        ResolveAction::Finished(Err(e)) => assert_eq!(e, "offline"),
        _ => panic!("expected failure when no snapshot has a definition"),
    }
}

// The same definition with truncation settings the engine cannot encode
// with safely: the stride equals the max length, which deserializes but
// would abort the engine's truncation on a long enough text.
const UNSAFE_TRUNCATION_JSON: &str = "{\"version\":\"1.0\",\"truncation\":{\"direction\":\"Right\",\"max_length\":2,\"strategy\":\"LongestFirst\",\"stride\":2},\"padding\":null,\"added_tokens\":[],\"normalizer\":{\"type\":\"Lowercase\"},\"pre_tokenizer\":{\"type\":\"Whitespace\"},\"post_processor\":null,\"decoder\":null,\"model\":{\"type\":\"WordLevel\",\"vocab\":{\"hello\":0,\",\":1,\"world\":2,\"!\":3,\"this\":4,\"is\":5,\"a\":6,\"test\":7,\".\":8,\"[UNK]\":9},\"unk_token\":\"[UNK]\"}}";

#[test]
fn definition_with_unsafe_truncation_is_refused() {
    assert!(load_definition(&UNSAFE_TRUNCATION_JSON.as_bytes().to_vec()).is_err());
    // A strictly smaller stride is coherent and accepted, and the model
    // tokenizes without aborting even on a text beyond the limit.
    let safe = UNSAFE_TRUNCATION_JSON.replace("\"stride\":2", "\"stride\":1");
    let model = load_definition(&safe.into_bytes()).unwrap();
    let trace: Vec<String> = Vec::new();
    assert!(tokenize_to_payload(&model, "Hello, world! This is a test.", &trace).is_some());
}

#[test]
fn unsafe_truncation_in_local_file_fails_resolution() {
    let (mut resolver, _) = Resolver::new("model.json".to_string(), None);
    resolver.step(ResolveEvent::PathChecked(true));
    let last = resolver.step(ResolveEvent::FileRead(Some(
        UNSAFE_TRUNCATION_JSON.as_bytes().to_vec(),
    )));
    match last {
        ResolveAction::Finished(Err(e)) => assert!(e.contains("stride")),
        _ => panic!("a definition the engine cannot encode with must be refused"),
    }
}
