use helper::decode::DecodeError;
use helper::json::JsonValue;
use helper::ledger::{
    connection_outcome, ledger_url, publish_endpoint, probe_endpoint, publish_outcome,
    stats_outcome, validate_endpoint, validation_outcome, author_entries_endpoint,
    author_stats_endpoint, is_success_status, stats_endpoint, Exchange, LedgerError, StatsGeneration,
};
use helper::publish::parse_publish_response;
use helper::stats::{parse_stats_response, ChainStats};
use helper::transport::{endpoint_url, trim_trailing_slashes, API_TIMEOUT_SECS, PROBE_TIMEOUT_SECS};
use helper::validation::parse_validation_response;

fn s(t: &str) -> JsonValue {
    JsonValue::Str(t.to_string())
}

fn num(units: i128) -> JsonValue {
    JsonValue::Number(units * 1_000_000)
}

fn obj(members: Vec<(&str, JsonValue)>) -> JsonValue {
    JsonValue::Object(members.into_iter().map(|(k, v)| (k.to_string(), v)).collect())
}

fn strs(items: &[&str]) -> JsonValue {
    JsonValue::Array(items.iter().map(|t| s(t)).collect())
}

fn ok_reply(json: JsonValue) -> Exchange {
    Exchange::Reply { status: 200, body: String::new(), json: Some(json) }
}

fn zero() -> ChainStats {
    ChainStats { total_entries: 0, total_earnings: 0, subscribers: 0, views: 0 }
}

#[test]
fn stats_unknown_author_is_zero() {
    let r = stats_outcome(Exchange::Reply { status: 404, body: "not found".to_string(), json: None });
    assert_eq!(r.unwrap(), zero());
}

#[test]
fn stats_server_error_is_zero() {
    let r = stats_outcome(Exchange::Reply { status: 503, body: String::new(), json: None });
    assert_eq!(r.unwrap(), zero());
}

#[test]
fn stats_unreachable_is_transport_error() {
    let r = stats_outcome(Exchange::Unreachable("refused".to_string()));
    assert!(matches!(r, Err(LedgerError::Transport(m)) if m == "refused"));
}

#[test]
fn stats_nested_count() {
    let r = stats_outcome(ok_reply(obj(vec![("author", s("ann")), ("count", num(7))])));
    assert_eq!(r.unwrap(), ChainStats { total_entries: 7, total_earnings: 0, subscribers: 0, views: 0 });
}

#[test]
fn stats_nested_without_count_is_zero() {
    let r = parse_stats_response(&obj(vec![("author", s("ann"))]));
    assert_eq!(r.unwrap(), zero());
}

#[test]
fn stats_flat_all_fields() {
    let body = obj(vec![
        ("totalEntries", num(3)),
        ("totalEarnings", JsonValue::Number(12_500_000)),
        ("subscribers", num(4)),
        ("views", num(90)),
    ]);
    let r = parse_stats_response(&body).unwrap();
    assert_eq!(r, ChainStats { total_entries: 3, total_earnings: 12_500_000, subscribers: 4, views: 90 });
}

#[test]
fn stats_flat_missing_fields_are_zero() {
    let r = parse_stats_response(&obj(vec![("views", num(5))])).unwrap();
    assert_eq!(r, ChainStats { total_entries: 0, total_earnings: 0, subscribers: 0, views: 5 });
}

#[test]
fn stats_fractional_count_is_decode_error() {
    let r = parse_stats_response(&obj(vec![("count", JsonValue::Number(1_500_000))]));
    assert_eq!(r.unwrap_err(), DecodeError);
}

#[test]
fn stats_malformed_is_decode_error() {
    let r = stats_outcome(ok_reply(strs(&["x"])));
    assert!(matches!(r, Err(LedgerError::Decode(DecodeError))));
    let r = stats_outcome(Exchange::Reply { status: 200, body: "<html>".to_string(), json: None });
    assert!(matches!(r, Err(LedgerError::Decode(DecodeError))));
}

#[test]
fn publish_server_error_is_failed_result() {
    let r = publish_outcome(
        Exchange::Reply { status: 500, body: "boom".to_string(), json: None },
        "https://x/",
        "ann",
    )
    .unwrap();
    assert!(!r.success);
    assert_eq!(r.error.as_deref(), Some("API error (500): boom"));
    assert_eq!(r.entry_id, None);
    assert_eq!(r.block_hash, None);
    assert_eq!(r.transaction_url, None);
}

#[test]
fn publish_unreachable_is_transport_error() {
    let r = publish_outcome(Exchange::Unreachable("timed out".to_string()), "https://x", "ann");
    assert!(matches!(r, Err(LedgerError::Transport(_))));
}

#[test]
fn publish_flat_transaction_url() {
    let body = obj(vec![("success", JsonValue::Bool(true)), ("entryId", s("abc"))]);
    let r = parse_publish_response(&body, "https://x/", "ann").unwrap();
    assert!(r.success);
    assert_eq!(r.entry_id.as_deref(), Some("abc"));
    let url = r.transaction_url.unwrap();
    assert_eq!(url, "https://x/entry/abc");
    assert!(url.contains("abc"));
    assert!(!url["https://".len()..].contains("//"));
}

#[test]
fn publish_flat_without_id_has_no_url() {
    let body = obj(vec![
        ("success", JsonValue::Bool(false)),
        ("error", s("rejected")),
        ("blockHash", JsonValue::Null),
    ]);
    let r = parse_publish_response(&body, "https://x", "ann").unwrap();
    assert!(!r.success);
    assert_eq!(r.entry_id, None);
    assert_eq!(r.transaction_url, None);
    assert_eq!(r.block_hash, None);
    assert_eq!(r.error.as_deref(), Some("rejected"));
}

#[test]
fn publish_nested_uses_timestamp_and_author() {
    let body = obj(vec![
        ("status", s("success")),
        ("entry", obj(vec![("timestamp", s("2024-01-01T00:00:00")), ("author", s("ann"))])),
        ("block_hash", s("0xfe")),
    ]);
    let r = publish_outcome(ok_reply(body), "https://ledger.example//", "ann").unwrap();
    assert!(r.success);
    assert_eq!(r.entry_id.as_deref(), Some("2024-01-01T00:00:00"));
    assert_eq!(r.block_hash.as_deref(), Some("0xfe"));
    assert_eq!(r.transaction_url.as_deref(), Some("https://ledger.example/entries/author/ann"));
}

#[test]
fn publish_nested_failure_status() {
    let body = obj(vec![("status", s("failure")), ("error", s("unclear intent"))]);
    let r = parse_publish_response(&body, "https://x", "ann").unwrap();
    assert!(!r.success);
    assert_eq!(r.entry_id, None);
    assert_eq!(r.transaction_url, None);
    assert_eq!(r.error.as_deref(), Some("unclear intent"));
}

#[test]
fn publish_wrong_type_is_decode_error() {
    let body = obj(vec![("success", s("yes"))]);
    assert!(parse_publish_response(&body, "https://x", "ann").is_err());
    let r = publish_outcome(ok_reply(JsonValue::Bool(true)), "https://x", "ann");
    assert!(matches!(r, Err(LedgerError::Decode(DecodeError))));
}

#[test]
fn validate_malformed_is_decode_error() {
    let r = validation_outcome(ok_reply(s("VALID")), "share");
    assert!(matches!(r, Err(LedgerError::Decode(DecodeError))));
    let r = validation_outcome(ok_reply(obj(vec![("valid", s("true"))])), "share");
    assert!(matches!(r, Err(LedgerError::Decode(DecodeError))));
    let r = validation_outcome(ok_reply(obj(vec![("overall_decision", JsonValue::Bool(true))])), "share");
    assert!(matches!(r, Err(LedgerError::Decode(DecodeError))));
    let r = validation_outcome(Exchange::Reply { status: 200, body: "oops".to_string(), json: None }, "share");
    assert!(matches!(r, Err(LedgerError::Decode(DecodeError))));
}

#[test]
fn validate_rejection_is_error() {
    let r = validation_outcome(Exchange::Reply { status: 500, body: "down".to_string(), json: None }, "share");
    assert!(matches!(r, Err(LedgerError::Remote { status: 500, body }) if body == "down"));
}

#[test]
fn validate_unreachable_is_error() {
    let r = validation_outcome(Exchange::Unreachable("dns".to_string()), "share");
    assert!(matches!(r, Err(LedgerError::Transport(m)) if m == "dns"));
}

#[test]
fn validate_shapes_agree() {
    let nested = obj(vec![
        ("overall_decision", s("VALID")),
        ("llm_validation", obj(vec![("status", s("ok")), ("validation", obj(vec![("paraphrase", s("share a recipe"))]))])),
    ]);
    let flat = obj(vec![("valid", JsonValue::Bool(true)), ("intentDetected", s("share a recipe"))]);
    let a = parse_validation_response(&nested, "declared").unwrap();
    let b = parse_validation_response(&flat, "declared").unwrap();
    assert_eq!(a.valid, b.valid);
    assert!(a.valid);
    assert_eq!(a.intent_detected, b.intent_detected);
    assert_eq!(a.intent_detected, "share a recipe");
}

#[test]
fn validate_nested_heuristics() {
    let warned = obj(vec![
        ("overall_decision", s("INVALID")),
        ("symbolic_validation", obj(vec![("valid", JsonValue::Bool(false)), ("issues", strs(&["too short"]))])),
        ("llm_validation", obj(vec![("validation", obj(vec![("ambiguities", strs(&["who?"]))]))])),
    ]);
    let r = parse_validation_response(&warned, "declared").unwrap();
    assert!(!r.valid);
    assert_eq!(r.clarity_score, 400_000);
    assert_eq!(r.warnings, Some(vec!["too short".to_string()]));
    assert_eq!(r.suggestions, Some(vec!["who?".to_string()]));
    assert_eq!(r.intent_detected, "declared");

    let unwarned = obj(vec![
        ("overall_decision", s("NEEDS_CLARIFICATION")),
        ("symbolic_validation", obj(vec![("valid", JsonValue::Bool(true)), ("issues", strs(&[]))])),
    ]);
    let r = parse_validation_response(&unwarned, "declared").unwrap();
    assert!(!r.valid);
    assert_eq!(r.clarity_score, 700_000);
    assert_eq!(r.warnings, None);

    let valid = obj(vec![("overall_decision", s("VALID"))]);
    assert_eq!(parse_validation_response(&valid, "d").unwrap().clarity_score, 1_000_000);
}

#[test]
fn validate_never_defaults_to_valid() {
    let r = validation_outcome(ok_reply(obj(vec![])), "declared");
    assert!(matches!(r, Err(LedgerError::Decode(DecodeError))));
    let r = validation_outcome(ok_reply(obj(vec![("foo", num(1))])), "declared");
    assert!(matches!(r, Err(LedgerError::Decode(DecodeError))));
    let r = parse_validation_response(&obj(vec![("overall_decision", JsonValue::Null)]), "declared");
    assert_eq!(r.unwrap_err(), DecodeError);
    let r = parse_validation_response(&obj(vec![("overall_decision", s("REJECTED"))]), "declared").unwrap();
    assert!(!r.valid);
    assert_eq!(r.intent_detected, "declared");
}

#[test]
fn publish_unknown_object_is_decode_error() {
    let r = publish_outcome(ok_reply(obj(vec![])), "https://x", "ann");
    assert!(matches!(r, Err(LedgerError::Decode(DecodeError))));
    let r = parse_publish_response(&obj(vec![("foo", num(1))]), "https://x", "ann");
    assert_eq!(r.unwrap_err(), DecodeError);
    let r = parse_publish_response(&obj(vec![("error", s("quota"))]), "https://x", "ann").unwrap();
    assert!(!r.success);
    assert_eq!(r.error.as_deref(), Some("quota"));
}

#[test]
fn stats_unknown_object_is_decode_error() {
    let r = stats_outcome(ok_reply(obj(vec![])));
    assert!(matches!(r, Err(LedgerError::Decode(DecodeError))));
    assert_eq!(parse_stats_response(&obj(vec![("foo", num(1))])).unwrap_err(), DecodeError);
}

#[test]
fn validate_empty_remote_intent_falls_back() {
    let flat = obj(vec![("valid", JsonValue::Bool(false)), ("intentDetected", s(""))]);
    let r = parse_validation_response(&flat, "declared").unwrap();
    assert_eq!(r.intent_detected, "declared");
}

#[test]
fn validate_clarity_clamped() {
    let high = obj(vec![("valid", JsonValue::Bool(true)), ("clarityScore", JsonValue::Number(2_500_000))]);
    assert_eq!(parse_validation_response(&high, "d").unwrap().clarity_score, 1_000_000);
    let low = obj(vec![("valid", JsonValue::Bool(true)), ("clarityScore", JsonValue::Number(-300_000))]);
    assert_eq!(parse_validation_response(&low, "d").unwrap().clarity_score, 0);
    let mid = obj(vec![("valid", JsonValue::Bool(false)), ("clarityScore", JsonValue::Number(420_000))]);
    assert_eq!(parse_validation_response(&mid, "d").unwrap().clarity_score, 420_000);
    let none = obj(vec![("valid", JsonValue::Bool(false)), ("warnings", strs(&["w"]))]);
    assert_eq!(parse_validation_response(&none, "d").unwrap().clarity_score, 400_000);
}

#[test]
fn probe_unreachable_is_false() {
    assert!(!connection_outcome(&Exchange::Unreachable("timed out after 5s".to_string())));
    assert!(!connection_outcome(&Exchange::Reply { status: 404, body: String::new(), json: None }));
    assert!(connection_outcome(&Exchange::Reply { status: 204, body: String::new(), json: None }));
    assert_eq!(PROBE_TIMEOUT_SECS, 5);
    assert_eq!(API_TIMEOUT_SECS, 30);
}

#[test]
fn success_status_range() {
    assert!(is_success_status(200));
    assert!(is_success_status(299));
    assert!(!is_success_status(199));
    assert!(!is_success_status(300));
}

#[test]
fn urls_strip_trailing_slashes() {
    assert_eq!(trim_trailing_slashes("https://x///"), "https://x");
    assert_eq!(trim_trailing_slashes("///"), "");
    assert_eq!(endpoint_url("https://x/", "/stats"), "https://x/stats");
    assert_eq!(validate_endpoint("https://x/").unwrap(), "https://x/entry/validate");
    assert_eq!(publish_endpoint("http://h:5000").unwrap(), "http://h:5000/entry");
    assert_eq!(probe_endpoint("https://x//").unwrap(), "https://x/stats");
    assert_eq!(author_entries_endpoint("https://x/", "ann").unwrap(), "https://x/entries/author/ann");
    assert_eq!(author_stats_endpoint("https://x", "ann").unwrap(), "https://x/entries/author/ann/stats");
}

#[test]
fn bad_base_url_is_configuration_error() {
    assert!(matches!(ledger_url("", "/stats"), Err(LedgerError::Configuration(_))));
    assert!(matches!(ledger_url("https://", "/stats"), Err(LedgerError::Configuration(_))));
    assert!(matches!(ledger_url("ftp://x", "/stats"), Err(LedgerError::Configuration(_))));
    assert!(matches!(validate_endpoint("x.org"), Err(LedgerError::Configuration(_))));
}

#[test]
fn stats_count_limits() {
    let max = parse_stats_response(&obj(vec![("count", JsonValue::Number(u64::MAX as i128 * 1_000_000))]));
    assert_eq!(max.unwrap().total_entries, u64::MAX);
    let over = parse_stats_response(&obj(vec![("count", JsonValue::Number((u64::MAX as i128 + 1) * 1_000_000))]));
    assert_eq!(over.unwrap_err(), DecodeError);
    let negative = parse_stats_response(&obj(vec![("subscribers", num(-1))]));
    assert_eq!(negative.unwrap_err(), DecodeError);
    let null_count = parse_stats_response(&obj(vec![("author", s("ann")), ("count", JsonValue::Null)]));
    assert_eq!(null_count.unwrap(), zero());
}

#[test]
fn validate_extreme_scores_clamped() {
    let top = obj(vec![("valid", JsonValue::Bool(false)), ("clarityScore", JsonValue::Number(i128::MAX))]);
    assert_eq!(parse_validation_response(&top, "d").unwrap().clarity_score, 1_000_000);
    let bottom = obj(vec![("valid", JsonValue::Bool(true)), ("clarityScore", JsonValue::Number(i128::MIN))]);
    assert_eq!(parse_validation_response(&bottom, "d").unwrap().clarity_score, 0);
}

#[test]
fn stats_endpoint_per_generation() {
    assert_eq!(stats_endpoint("http://h/", "bob", StatsGeneration::Nested).unwrap(), "http://h/entries/author/bob");
    assert_eq!(stats_endpoint("http://h/", "bob", StatsGeneration::Flat).unwrap(), "http://h/entries/author/bob/stats");
    assert!(matches!(stats_endpoint("", "bob", StatsGeneration::Flat), Err(LedgerError::Configuration(_))));
}

#[test]
fn validate_nested_schema_violations_are_decode_errors() {
    let bodies = vec![
        obj(vec![("overall_decision", s("VALID")), ("symbolic_validation", obj(vec![("valid", s("yes"))]))]),
        obj(vec![("overall_decision", s("VALID")), ("symbolic_validation", obj(vec![("issues", strs(&[]))]))]),
        obj(vec![("overall_decision", s("VALID")), ("llm_validation", obj(vec![("status", num(1))]))]),
        obj(vec![
            ("overall_decision", s("VALID")),
            ("llm_validation", obj(vec![("validation", obj(vec![("intent_match", s("yes"))]))])),
        ]),
        obj(vec![
            ("overall_decision", s("VALID")),
            ("llm_validation", obj(vec![("validation", obj(vec![("decision", JsonValue::Bool(true))]))])),
        ]),
        obj(vec![
            ("overall_decision", s("VALID")),
            ("llm_validation", obj(vec![("validation", obj(vec![("reasoning", num(3))]))])),
        ]),
    ];
    for body in bodies {
        let r = validation_outcome(ok_reply(body), "share");
        assert!(matches!(r, Err(LedgerError::Decode(DecodeError))));
    }
    let good = obj(vec![
        ("overall_decision", s("VALID")),
        ("symbolic_validation", obj(vec![("valid", JsonValue::Bool(true))])),
        ("llm_validation", obj(vec![
            ("status", s("done")),
            ("validation", obj(vec![
                ("intent_match", JsonValue::Bool(true)),
                ("decision", s("VALID")),
                ("reasoning", s("clear")),
            ])),
        ])),
    ]);
    assert!(parse_validation_response(&good, "share").unwrap().valid);
}

#[test]
fn publish_entry_record_schema_violation_is_decode_error() {
    let body = obj(vec![
        ("status", s("success")),
        ("entry", obj(vec![("timestamp", s("t1")), ("author", num(5))])),
    ]);
    assert_eq!(parse_publish_response(&body, "https://x", "ann").unwrap_err(), DecodeError);
    let body = obj(vec![
        ("status", s("success")),
        ("entry", obj(vec![("timestamp", s("t1")), ("validation_status", JsonValue::Bool(true))])),
    ]);
    assert_eq!(parse_publish_response(&body, "https://x", "ann").unwrap_err(), DecodeError);
}

#[test]
fn stats_author_must_be_text() {
    assert_eq!(parse_stats_response(&obj(vec![("author", num(5))])).unwrap_err(), DecodeError);
    assert_eq!(parse_stats_response(&obj(vec![("author", num(5)), ("count", num(2))])).unwrap_err(), DecodeError);
}
