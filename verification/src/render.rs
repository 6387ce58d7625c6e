//! The message renderers: given the execution result and the host identity,
//! build each channel's message. Every message names the host and tells
//! success from failure; the success-flavoured messages never draw on the
//! captured standard error.

use vstd::prelude::*;
use crate::outcome::ExecutionResult;
use crate::text::{contains_seq, dec_int, decode_lossy, fmt_i32, lossy_decode};

verus! {

/// The fixed sender display name of the chat webhook payload.
pub open spec fn webhook_username() -> Seq<char> {
    "LK"@
}

/// The fixed icon reference of the chat webhook payload.
pub open spec fn webhook_icon_url() -> Seq<char> {
    "https://i0.wp.com/stephenkneale.com/wp-content/uploads/2019/11/Knowledge20Head.png"@
}

/// The text standing in for the exit code of a signal-terminated process.
pub open spec fn signal_code_text() -> Seq<char> {
    "signal"@
}

/// The exit-code text of a result: the decimal code, or the fixed
/// placeholder when the process was terminated by a signal.
pub open spec fn spec_exit_code_text(code: Option<i32>) -> Seq<char> {
    match code {
        Some(c) => dec_int(c as int),
        None => signal_code_text(),
    }
}

/// The single-line SMS text for a successful run.
pub open spec fn spec_sms_success_text(command: Seq<char>, host: Seq<char>) -> Seq<char> {
    "Your command "@ + command + " on "@ + host + " exited successfully!!"@
}

/// The single-line SMS text for a failed run, naming the exit code.
pub open spec fn spec_sms_failure_text(
    code: Option<i32>,
    command: Seq<char>,
    host: Seq<char>,
) -> Seq<char> {
    "Your command "@ + command + " on "@ + host + " exited with an error ("@
        + spec_exit_code_text(code) + ")"@
}

/// The SMS message for a result.
pub open spec fn spec_sms_text(res: ExecutionResult, command: Seq<char>, host: Seq<char>) -> Seq<
    char,
> {
    if res.success {
        spec_sms_success_text(command, host)
    } else {
        spec_sms_failure_text(res.exit_code, command, host)
    }
}

/// The email subject for a result.
pub open spec fn spec_email_subject(res: ExecutionResult, host: Seq<char>) -> Seq<char> {
    if res.success {
        "Your job on "@ + host + " has completed!"@
    } else {
        "Your job on "@ + host + " has failed!"@
    }
}

/// The email body for a result: the permissively decoded standard output on
/// success, standard error on failure.
pub open spec fn spec_email_body(res: ExecutionResult) -> Seq<char> {
    if res.success {
        "Here is the output: \n\n\n"@ + lossy_decode(res.stdout@)
    } else {
        "Here is the output: \n\n\n"@ + lossy_decode(res.stderr@)
    }
}

/// The chat webhook text for a result: failure always quotes the decoded
/// standard error.
pub open spec fn spec_webhook_text(res: ExecutionResult, host: Seq<char>) -> Seq<char> {
    if res.success {
        "Your job on "@ + host + " has finished successfully!"@
    } else {
        "Your job on "@ + host + " has failed, here's the output of stderr:\n\n"@ + lossy_decode(
            res.stderr@,
        )
    }
}

/// The OS toast summary: it names the host and tells success from failure.
pub open spec fn spec_toast_summary(res: ExecutionResult, host: Seq<char>) -> Seq<char> {
    if res.success {
        "Your job on "@ + host + " finished successfully!"@
    } else {
        "Your job on "@ + host + " finished with an error!"@
    }
}

/// The OS toast body: a fixed celebratory or commiserating phrase.
pub open spec fn spec_toast_body(res: ExecutionResult) -> Seq<char> {
    if res.success {
        "Woo! 🎉"@
    } else {
        "Boo! 😿"@
    }
}

/// Render the exit-code text of a result.
pub fn exit_code_text(code: &Option<i32>) -> (s: String)
    ensures
        s@ == spec_exit_code_text(*code),
{
    match code {
        Some(c) => fmt_i32(*c),
        None => String::from_str("signal"),
    }
}

/// Render the SMS message for a result.
pub fn render_sms(res: &ExecutionResult, command: &String, host: &String) -> (s: String)
    ensures
        s@ == spec_sms_text(*res, command@, host@),
{
    let mut s = String::from_str("Your command ");
    s.append(command.as_str());
    s.append(" on ");
    s.append(host.as_str());
    if res.success {
        s.append(" exited successfully!!");
    } else {
        s.append(" exited with an error (");
        let code = exit_code_text(&res.exit_code);
        s.append(code.as_str());
        s.append(")");
    }
    s
}

/// Render the email subject for a result.
pub fn render_email_subject(res: &ExecutionResult, host: &String) -> (s: String)
    ensures
        s@ == spec_email_subject(*res, host@),
{
    let mut s = String::from_str("Your job on ");
    s.append(host.as_str());
    if res.success {
        s.append(" has completed!");
    } else {
        s.append(" has failed!");
    }
    s
}

/// Render the email body for a result.
pub fn render_email_body(res: &ExecutionResult) -> (s: String)
    ensures
        s@ == spec_email_body(*res),
{
    let mut s = String::from_str("Here is the output: \n\n\n");
    let decoded = if res.success {
        decode_lossy(&res.stdout)
    } else {
        decode_lossy(&res.stderr)
    };
    s.append(decoded.as_str());
    s
}

/// Render the chat webhook text for a result.
pub fn render_webhook_text(res: &ExecutionResult, host: &String) -> (s: String)
    ensures
        s@ == spec_webhook_text(*res, host@),
{
    let mut s = String::from_str("Your job on ");
    s.append(host.as_str());
    if res.success {
        s.append(" has finished successfully!");
    } else {
        s.append(" has failed, here's the output of stderr:\n\n");
        let decoded = decode_lossy(&res.stderr);
        s.append(decoded.as_str());
    }
    s
}

/// Render the OS toast summary for a result.
pub fn render_toast_summary(res: &ExecutionResult, host: &String) -> (s: String)
    ensures
        s@ == spec_toast_summary(*res, host@),
{
    let mut s = String::from_str("Your job on ");
    s.append(host.as_str());
    if res.success {
        s.append(" finished successfully!");
    } else {
        s.append(" finished with an error!");
    }
    s
}

/// Render the OS toast body for a result.
pub fn render_toast_body(res: &ExecutionResult) -> (s: String)
    ensures
        s@ == spec_toast_body(*res),
{
    if res.success {
        String::from_str("Woo! 🎉")
    } else {
        String::from_str("Boo! 😿")
    }
}

/// Law: the messages rendered for a successful result use the success
/// templates and never draw on the captured standard error — two successful
/// results agreeing on everything but standard error render identically on
/// every channel.
pub proof fn lemma_success_renders_ignore_stderr(
    a: ExecutionResult,
    b: ExecutionResult,
    command: Seq<char>,
    host: Seq<char>,
)
    requires
        a.success,
        b.success,
        a.exit_code == b.exit_code,
        a.stdout@ == b.stdout@,
    ensures
        spec_sms_text(a, command, host) == spec_sms_success_text(command, host),
        spec_email_subject(a, host) == "Your job on "@ + host + " has completed!"@,
        spec_webhook_text(a, host) == "Your job on "@ + host + " has finished successfully!"@,
        spec_toast_summary(a, host) == "Your job on "@ + host + " finished successfully!"@,
        spec_toast_body(a) == "Woo! 🎉"@,
        spec_sms_text(a, command, host) == spec_sms_text(b, command, host),
        spec_email_subject(a, host) == spec_email_subject(b, host),
        spec_email_body(a) == spec_email_body(b),
        spec_webhook_text(a, host) == spec_webhook_text(b, host),
        spec_toast_summary(a, host) == spec_toast_summary(b, host),
        spec_toast_body(a) == spec_toast_body(b),
{
}

/// Law: the SMS message for a failed result with a present exit code
/// contains that exact decimal code.
pub proof fn lemma_failure_sms_includes_exit_code(
    res: ExecutionResult,
    command: Seq<char>,
    host: Seq<char>,
)
    requires
        !res.success,
        res.exit_code is Some,
    ensures
        contains_seq(spec_sms_text(res, command, host), dec_int(res.exit_code->0 as int)),
{
    let text = spec_sms_text(res, command, host);
    let prefix = "Your command "@ + command + " on "@ + host + " exited with an error ("@;
    let code_text = dec_int(res.exit_code->0 as int);
    assert(spec_exit_code_text(res.exit_code) == code_text);
    assert(text =~= prefix + code_text + ")"@);
    assert(text.subrange(prefix.len() as int, prefix.len() + code_text.len() as int)
        =~= code_text);
    assert(0 <= prefix.len() as int && prefix.len() + code_text.len() <= text.len());
}

} // verus!
