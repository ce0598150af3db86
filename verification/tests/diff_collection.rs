use argonaut::diff::{diff_command_args, diff_from_output, diff_program};

#[test]
fn argument_sequence_is_exact() {
    let args = diff_command_args("argocd.example.com", "tok-123", "my-app", "abc123");
    let expected = vec![
        "app".to_string(),
        "diff".to_string(),
        "--server".to_string(),
        "argocd.example.com".to_string(),
        "--auth-token".to_string(),
        "tok-123".to_string(),
        "my-app".to_string(),
        "--revision".to_string(),
        "abc123".to_string(),
    ];
    assert_eq!(args, expected);
}

#[test]
fn program_name_is_fixed() {
    assert_eq!(diff_program(), "argocd");
}

#[test]
fn output_of_failed_run_is_still_used() {
    let out = diff_from_output(1, b" some diff \n");
    assert_eq!(out, "some diff");
}

#[test]
fn exit_code_does_not_change_the_text() {
    let ok_run = diff_from_output(0, b"same text\n");
    let failed_run = diff_from_output(20, b"same text\n");
    assert_eq!(ok_run, failed_run);
}

#[test]
fn invalid_bytes_are_replaced_not_rejected() {
    let out = diff_from_output(0, &[0xFF, b'a', b'\n']);
    assert_eq!(out, "\u{FFFD}a");
}

#[test]
fn empty_output_yields_empty_text() {
    assert_eq!(diff_from_output(0, b""), "");
    assert_eq!(diff_from_output(0, b"  \n\t"), "");
}
