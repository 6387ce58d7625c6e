use lk::outcome::{resolve_shell, ExecutionResult};
use lk::render::{
    render_email_body, render_email_subject, render_sms, render_toast_body, render_toast_summary,
    render_webhook_text,
};
use lk::text::{fmt_i32, fmt_u64};

fn success(stdout: &[u8]) -> ExecutionResult {
    ExecutionResult::new(true, Some(0), stdout.to_vec(), b"ignored stderr".to_vec())
}

fn failure(code: Option<i32>, stderr: &[u8]) -> ExecutionResult {
    ExecutionResult::new(false, code, b"ignored stdout".to_vec(), stderr.to_vec())
}

#[test]
fn sms_success_message() {
    let s = render_sms(&success(b""), &"echo hi".to_string(), &"myhost".to_string());
    assert_eq!(s, "Your command echo hi on myhost exited successfully!!");
}

#[test]
fn sms_failure_message_includes_exact_exit_code() {
    let s = render_sms(&failure(Some(3), b""), &"echo hi".to_string(), &"myhost".to_string());
    assert_eq!(s, "Your command echo hi on myhost exited with an error (3)");
}

#[test]
fn sms_failure_with_negative_exit_code() {
    let s = render_sms(&failure(Some(-1), b""), &"job".to_string(), &"h".to_string());
    assert_eq!(s, "Your command job on h exited with an error (-1)");
}

#[test]
fn sms_signal_termination_uses_the_placeholder() {
    let s = render_sms(&failure(None, b""), &"job".to_string(), &"h".to_string());
    assert_eq!(s, "Your command job on h exited with an error (signal)");
}

#[test]
fn email_subject_tells_success_from_failure() {
    let host = "myhost".to_string();
    assert_eq!(render_email_subject(&success(b""), &host), "Your job on myhost has completed!");
    assert_eq!(
        render_email_subject(&failure(Some(1), b""), &host),
        "Your job on myhost has failed!"
    );
}

#[test]
fn email_body_quotes_stdout_on_success() {
    let body = render_email_body(&success(b"all done\n"));
    assert_eq!(body, "Here is the output: \n\n\nall done\n");
}

#[test]
fn email_body_quotes_stderr_on_failure() {
    let body = render_email_body(&failure(Some(1), b"boom\n"));
    assert_eq!(body, "Here is the output: \n\n\nboom\n");
}

#[test]
fn email_body_substitutes_invalid_byte_sequences() {
    let body = render_email_body(&failure(Some(1), &[0xff, 0xfe, b'o', b'k']));
    assert_eq!(body, "Here is the output: \n\n\n\u{fffd}\u{fffd}ok");
}

#[test]
fn webhook_text_success_and_failure() {
    let host = "myhost".to_string();
    assert_eq!(
        render_webhook_text(&success(b""), &host),
        "Your job on myhost has finished successfully!"
    );
    assert_eq!(
        render_webhook_text(&failure(Some(2), b"oops"), &host),
        "Your job on myhost has failed, here's the output of stderr:\n\noops"
    );
}

#[test]
fn webhook_failure_with_invalid_bytes_never_errors() {
    let text = render_webhook_text(&failure(None, &[0x80, 0x80]), &"h".to_string());
    assert_eq!(text, "Your job on h has failed, here's the output of stderr:\n\n\u{fffd}\u{fffd}");
}

#[test]
fn toast_names_the_host_and_tells_the_outcome() {
    let host = "myhost".to_string();
    assert_eq!(
        render_toast_summary(&success(b""), &host),
        "Your job on myhost finished successfully!"
    );
    assert_eq!(
        render_toast_summary(&failure(Some(1), b""), &host),
        "Your job on myhost finished with an error!"
    );
    assert_eq!(render_toast_body(&success(b"")), "Woo! 🎉");
    assert_eq!(render_toast_body(&failure(Some(1), b"")), "Boo! 😿");
}

#[test]
fn shell_override_wins_and_bash_is_the_default() {
    assert_eq!(resolve_shell(Some("/bin/zsh".to_string())), "/bin/zsh");
    assert_eq!(resolve_shell(None), "/bin/bash");
}

#[test]
fn decimal_formatting_exact_values() {
    assert_eq!(fmt_u64(0), "0");
    assert_eq!(fmt_u64(42), "42");
    assert_eq!(fmt_u64(1000), "1000");
    assert_eq!(fmt_i32(-7), "-7");
    assert_eq!(fmt_i32(2147483647), "2147483647");
    assert_eq!(fmt_i32(-2147483648), "-2147483648");
}
