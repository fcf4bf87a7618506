use spacl::api::ApiError;
use spacl::cli::{asks_to_stop, required, short_id, skill_choice, trim, trim_url, SkillChoice};
use spacl::coordinator::CoordinatorError;
use spacl::json::push_json_string;
use spacl::model::{default_ttl, has_two_distinct_operators, Approval, ExecutionContext};
use spacl::runtime::{context_hash, ExecutionError, PolicyDenial, SignatureFault};
use spacl::text::{decimal_string, signed_decimal_string, text_less};

#[test]
fn context_json_matches_compact_serde_output() {
    let context = ExecutionContext {
        task_id: "task \"1\"\n".into(),
        zone: "zone/\u{1}\\é".into(),
        state_hash: "".into(),
    };
    let mut map = serde_json::Map::new();
    map.insert("task_id".into(), serde_json::Value::from(context.task_id.clone()));
    map.insert("zone".into(), serde_json::Value::from(context.zone.clone()));
    map.insert("state_hash".into(), serde_json::Value::from(context.state_hash.clone()));
    let mut expected = String::from("{");
    expected.push_str(&format!(
        "\"task_id\":{},\"zone\":{},\"state_hash\":{}",
        serde_json::to_string(&map["task_id"]).unwrap(),
        serde_json::to_string(&map["zone"]).unwrap(),
        serde_json::to_string(&map["state_hash"]).unwrap()
    ));
    expected.push('}');
    assert_eq!(context.canonical_json(), expected);
    assert_eq!(
        context.canonical_json(),
        "{\"task_id\":\"task \\\"1\\\"\\n\",\"zone\":\"zone/\\u0001\\\\é\",\"state_hash\":\"\"}"
    );
    assert_eq!(
        context_hash(&context),
        spacl::crypto::sha256_hex(context.canonical_json().as_bytes())
    );
}

#[test]
fn json_strings_escape_controls_quotes_and_backslashes() {
    let mut out = String::from("x=");
    push_json_string(&mut out, "a\tb\u{8}\u{c}\r\u{1f}\"\\");
    assert_eq!(out, "x=\"a\\tb\\b\\f\\r\\u001f\\\"\\\\\"");
    assert_eq!(
        serde_json::to_string("a\tb\u{8}\u{c}\r\u{1f}\"\\").unwrap(),
        out[2..].to_string()
    );
}

#[test]
fn decimals_render_like_display() {
    for n in [0u64, 7, 10, 42, 1_000_001, u64::MAX] {
        assert_eq!(decimal_string(n), n.to_string());
    }
    for n in [0i64, -1, -42, 1_700_000_000_000, i64::MIN, i64::MAX] {
        assert_eq!(signed_decimal_string(n), n.to_string());
    }
}

#[test]
fn string_order_is_byte_order() {
    assert!(text_less("a", "b"));
    assert!(text_less("ab", "abc"));
    assert!(!text_less("b", "ab"));
    assert!(!text_less("same", "same"));
    assert!(text_less("Z", "a"));
}

#[test]
fn urls_lose_trailing_slashes_and_ids_shorten_to_eight() {
    assert_eq!(trim_url("http://127.0.0.1:8080///"), "http://127.0.0.1:8080");
    assert_eq!(trim_url("http://x"), "http://x");
    assert_eq!(trim_url("///"), "");
    assert_eq!(short_id("sha256:0123456789"), "sha256:0");
    assert_eq!(short_id("short"), "short");
    assert_eq!(short_id("ééééé"), "éééé");
    assert_eq!(short_id("abcdefgé"), "abcdefgé");
}

#[test]
fn missing_settings_name_the_setting_and_the_source() {
    assert_eq!(required(Some(3), "token", "--token").unwrap(), 3);
    let missing = required::<u8>(None, "robot ID", "--robot-id or SPACL_ROBOT_ID").unwrap_err();
    assert_eq!(missing.name, "robot ID");
    assert_eq!(
        missing.message(),
        "missing robot ID\nNext: set --robot-id or SPACL_ROBOT_ID"
    );
}

#[test]
fn two_person_rule_counts_distinct_operators() {
    let approval = |who: &str| Approval { operator_id: who.into(), approved_at_unix_ms: 0 };
    assert!(!has_two_distinct_operators(&vec![]));
    assert!(!has_two_distinct_operators(&vec![approval("alice")]));
    assert!(!has_two_distinct_operators(&vec![approval("alice"), approval("alice")]));
    assert!(has_two_distinct_operators(&vec![approval("alice"), approval("alice"), approval("bob")]));
    assert_eq!(default_ttl(), 30);
}

#[test]
fn coordinator_errors_map_to_api_errors() {
    let cases = [
        (CoordinatorError::UnknownRobot("r".into()), 404, "IDENTITY_NOT_ENROLLED", false),
        (CoordinatorError::AlreadyEnrolled("r".into()), 409, "IDENTITY_ALREADY_ENROLLED", false),
        (CoordinatorError::SubjectMismatch, 422, "IDENTITY_SUBJECT_MISMATCH", false),
        (CoordinatorError::TwoPersonApprovalRequired, 422, "TWO_PERSON_APPROVAL_REQUIRED", true),
        (CoordinatorError::InvalidTtl, 422, "INVALID_TOKEN_TTL", true),
        (
            CoordinatorError::TaskAssigned { task_id: "t".into(), owner: "o".into() },
            409,
            "TASK_ALREADY_ASSIGNED",
            false,
        ),
        (CoordinatorError::Internal("disk full".into()), 500, "INTERNAL_ERROR", false),
    ];
    for (error, status, code, retryable) in cases {
        let api = ApiError::from_coordinator_error(&error);
        assert_eq!(api.status, status);
        assert_eq!(api.body.code, code);
        assert_eq!(api.body.retryable, retryable);
        assert_eq!(api.body.message, error.message());
    }
    let api = ApiError::from_coordinator_error(&CoordinatorError::InvalidTtl);
    assert_eq!(api.body.action, "Set ttl_seconds between 1 and 300.");
    assert_eq!(api.body.message, "token TTL must be between 1 and 300 seconds");
}

#[test]
fn execution_errors_map_to_api_errors() {
    let sequence = ExecutionError::Sequence { expected: 4, actual: 7 };
    let api = ApiError::from_execution_error(&sequence);
    assert_eq!(api.status, 409);
    assert_eq!(api.body.code, "SEQUENCE_GAP");
    assert_eq!(api.body.message, "expected sequence 4, received 7");
    assert_eq!(api.body.action, "Reconcile or execute sequence 4 before later tokens.");
    assert!(api.body.retryable);

    let cases = [
        (ExecutionError::EmergencyStop, 423, "EMERGENCY_STOP_ACTIVE"),
        (ExecutionError::Schema, 422, "UNSUPPORTED_TOKEN_SCHEMA"),
        (ExecutionError::WrongRobot, 403, "WRONG_ROBOT"),
        (ExecutionError::InvalidSignature(SignatureFault::UntrustedIssuer), 403, "INVALID_SIGNATURE"),
        (ExecutionError::Expired, 410, "TOKEN_EXPIRED"),
        (ExecutionError::Context, 409, "CONTEXT_MISMATCH"),
        (ExecutionError::Policy(PolicyDenial::SpeedExceeded), 422, "POLICY_DENIED"),
        (ExecutionError::Replay, 409, "TOKEN_REPLAY"),
        (ExecutionError::Internal("boom".into()), 500, "INTERNAL_ERROR"),
    ];
    for (error, status, code) in cases {
        let api = ApiError::from_execution_error(&error);
        assert_eq!(api.status, status);
        assert_eq!(api.body.code, code);
        assert_eq!(api.body.message, error.message());
    }
    assert_eq!(
        ExecutionError::Policy(PolicyDenial::SpeedExceeded).message(),
        "policy denied action: speed exceeds the token limit"
    );
    assert_eq!(
        ExecutionError::InvalidSignature(SignatureFault::UntrustedIssuer).message(),
        "token signature is invalid: token issuer is not the pinned coordinator"
    );
    let internal = ApiError::internal("storage failed".into());
    assert_eq!(internal.status, 500);
    assert_eq!(internal.body.action, "Check service logs and persistent storage.");
}

#[test]
fn action_arguments_parse_as_json_or_text_in_key_order() {
    let entries: Vec<String> = vec![
        "speed=0.5".into(),
        "label=left shelf".into(),
        "flags=[1,2]".into(),
        "equation=a=b".into(),
        "speed=2".into(),
    ];
    let args = spacl::cli::parse_arguments(&entries).unwrap();
    let keys: Vec<&str> = args.iter().map(|(k, _)| k.as_str()).collect();
    assert_eq!(keys, vec!["equation", "flags", "label", "speed"]);
    assert_eq!(args[0].1, serde_json::Value::String("a=b".into()));
    assert_eq!(args[1].1, serde_json::Value::Array(vec![1.into(), 2.into()]));
    assert_eq!(args[2].1, serde_json::Value::String("left shelf".into()));
    assert_eq!(args[3].1, serde_json::Value::from(2));
    let err = spacl::cli::parse_arguments(&vec!["ok=1".into(), "broken".into(), "x".into()]).unwrap_err();
    assert_eq!(err, "invalid --arg broken; use KEY=VALUE");
    assert!(spacl::cli::parse_arguments(&vec![]).unwrap().is_empty());
}

#[test]
fn prompt_answers_are_trimmed_and_interpreted() {
    assert_eq!(trim("  move \n"), "move");
    assert_eq!(trim("\t\n "), "");
    assert!(asks_to_stop(" Q\n"));
    assert!(asks_to_stop("q"));
    assert!(!asks_to_stop("quit"));
    assert!(matches!(skill_choice("\n", "pick"), SkillChoice::Use(s) if s == "pick"));
    assert!(matches!(skill_choice(" place\n", "pick"), SkillChoice::Use(s) if s == "place"));
    assert!(matches!(skill_choice("q\n", "pick"), SkillChoice::Quit));
    assert!(matches!(skill_choice("dance\n", "pick"), SkillChoice::AskAgain));
}

#[test]
fn command_requests_allow_exactly_what_they_ask_for() {
    let speed = Some(spacl::model::FloatBits { bits: 0.5f64.to_bits() });
    let request = spacl::cli::command_token_request(
        "robot-1".into(),
        "move".into(),
        ExecutionContext { task_id: "t".into(), zone: "cell-1".into(), state_hash: "h".into() },
        45,
        speed,
        None,
        vec![],
        true,
        vec!["alice".into(), "bob".into()],
        99,
    );
    assert_eq!(request.constraints.allowed_skills, vec!["move"]);
    assert_eq!(request.constraints.allowed_zones, vec!["cell-1"]);
    assert_eq!(request.constraints.max_speed_mps, speed);
    assert_eq!(request.action.requested_speed_mps, speed);
    assert_eq!(request.ttl_seconds, 45);
    assert_eq!(request.risk, spacl::model::RiskLevel::High);
    let approvers: Vec<(&str, i64)> =
        request.approvals.iter().map(|a| (a.operator_id.as_str(), a.approved_at_unix_ms)).collect();
    assert_eq!(approvers, vec![("alice", 99), ("bob", 99)]);
}

#[test]
fn api_error_summaries_name_the_next_action() {
    let api = ApiError::from_coordinator_error(&CoordinatorError::InvalidTtl);
    assert_eq!(
        api.body.summary(),
        "token TTL must be between 1 and 300 seconds (INVALID_TOKEN_TTL)\nNext: Set ttl_seconds between 1 and 300."
    );
}

#[test]
fn trimming_follows_the_unicode_white_space_property() {
    assert_eq!(trim("\u{3000}x\u{85}\u{2029}"), "x");
    assert_eq!(trim("\u{200b}x"), "\u{200b}x");
    for c in ['\t', '\n', '\u{b}', '\u{c}', '\r', ' ', '\u{a0}', '\u{1680}', '\u{2000}', '\u{200a}', '\u{2028}', '\u{202f}', '\u{205f}'] {
        assert!(c.is_whitespace());
        assert_eq!(trim(&format!("{c}y{c}")), "y");
    }
}

#[test]
fn private_files_must_not_grant_group_or_world_access() {
    assert!(!spacl::cli::grants_group_or_world(0o600));
    assert!(!spacl::cli::grants_group_or_world(0o700));
    assert!(spacl::cli::grants_group_or_world(0o640));
    assert!(spacl::cli::grants_group_or_world(0o604));
    assert!(spacl::cli::grants_group_or_world(0o100644));
}

#[test]
fn white_space_agrees_with_std_on_every_char() {
    for n in 0u32..=0x10ffff {
        if let Some(c) = char::from_u32(n) {
            let s = c.to_string();
            assert_eq!(trim(&s).is_empty(), c.is_whitespace(), "U+{n:04X}");
        }
    }
}
