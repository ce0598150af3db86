use argonaut::publish::{comment_body, endpoint_url, response_report};

#[test]
fn endpoint_matches_template() {
    let url = endpoint_url("gitlab.example.com", "42", "7");
    assert_eq!(
        url,
        "https://gitlab.example.com/api/v4/projects/42/merge_requests/7/discussions"
    );
}

#[test]
fn body_wraps_diff_byte_for_byte() {
    let body = comment_body("line1\nline2");
    assert_eq!(body, "\n```diff\nline1\nline2\n```");
}

#[test]
fn body_of_empty_diff() {
    assert_eq!(comment_body(""), "\n```diff\n\n```");
}

#[test]
fn error_status_is_reported_like_success() {
    let report = response_report(503, "service unavailable".to_string());
    assert_eq!(report, "service unavailable");
    let ok_report = response_report(201, "created".to_string());
    assert_eq!(ok_report, "created");
}
