use spacl::metrics::{sanitize_label, Metrics};

#[test]
fn renders_counters_and_sanitized_rejection_labels() {
    let mut metrics = Metrics::default();
    metrics.request();
    metrics.token_issued(42);
    metrics.execution();
    metrics.rejection("SEQUENCE GAP");
    let rendered = metrics.render("robot");
    assert!(rendered.contains("spacl_requests_total{role=\"robot\"} 1"));
    assert!(rendered.contains("reason=\"SEQUENCE_GAP\"} 1"));
    assert!(
        rendered.contains("spacl_token_issue_duration_microseconds_total{role=\"robot\"} 42")
    );
}

#[test]
fn render_matches_the_exposition_format_exactly() {
    let mut metrics = Metrics::new();
    metrics.request();
    metrics.request();
    metrics.token_issued(7);
    metrics.token_issued(5);
    metrics.rejection("TOKEN_REPLAY");
    metrics.rejection("CONTEXT MISMATCH");
    metrics.rejection("TOKEN_REPLAY");
    let expected = "# HELP spacl_requests_total HTTP requests handled.\n\
# TYPE spacl_requests_total counter\n\
spacl_requests_total{role=\"coordinator\"} 2\n\
# HELP spacl_tokens_issued_total Action tokens issued.\n\
# TYPE spacl_tokens_issued_total counter\n\
spacl_tokens_issued_total{role=\"coordinator\"} 2\n\
# HELP spacl_token_issue_duration_microseconds_total Total token issue time.\n\
# TYPE spacl_token_issue_duration_microseconds_total counter\n\
spacl_token_issue_duration_microseconds_total{role=\"coordinator\"} 12\n\
# HELP spacl_executions_total Actions completed by a robot runtime.\n\
# TYPE spacl_executions_total counter\n\
spacl_executions_total{role=\"coordinator\"} 0\n\
# HELP spacl_rejections_total Requests rejected by reason.\n\
# TYPE spacl_rejections_total counter\n\
spacl_rejections_total{role=\"coordinator\",reason=\"CONTEXT_MISMATCH\"} 1\n\
spacl_rejections_total{role=\"coordinator\",reason=\"TOKEN_REPLAY\"} 2\n";
    assert_eq!(metrics.render("coordinator"), expected);
}

#[test]
fn rejection_reasons_render_in_string_order() {
    let mut metrics = Metrics::new();
    for reason in ["b", "a", "B", "a-1", "_", "0"] {
        metrics.rejection(reason);
    }
    let rendered = metrics.render("r");
    let order: Vec<usize> = ["\"0\"", "\"B\"", "\"_\"", "\"a\"", "\"a-1\"", "\"b\""]
        .iter()
        .map(|label| rendered.find(&format!("reason={label}")).unwrap())
        .collect();
    let mut sorted = order.clone();
    sorted.sort();
    assert_eq!(order, sorted);
}

#[test]
fn labels_keep_only_ascii_alphanumerics_underscore_and_hyphen() {
    assert_eq!(sanitize_label("SEQUENCE GAP"), "SEQUENCE_GAP");
    assert_eq!(sanitize_label("a-b_c9"), "a-b_c9");
    assert_eq!(sanitize_label("x\"y}z\né"), "x_y_z__");
    assert_eq!(sanitize_label(""), "");
}

#[test]
fn counters_wrap_at_the_maximum() {
    let mut metrics = Metrics::new();
    metrics.token_issued(u64::MAX);
    metrics.token_issued(2);
    assert!(metrics
        .render("robot")
        .contains("spacl_token_issue_duration_microseconds_total{role=\"robot\"} 1\n"));
}
