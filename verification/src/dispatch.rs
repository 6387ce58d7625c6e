//! The notification dispatcher: for each channel of the plan, in order,
//! validate its configuration, render its payload, and interpret the send
//! outcome. A validation failure or a fatal send failure aborts the rest of
//! the run with a reserved exit code; SMS and email send failures are
//! diagnostics only.

use vstd::prelude::*;
use crate::channel::{plan_channels, spec_plan, Channel};
use crate::config::LKConfig;
use crate::outcome::ExecutionResult;
use crate::render::{
    render_email_body, render_email_subject, render_sms, render_toast_body, render_toast_summary,
    render_webhook_text, spec_email_body, spec_email_subject, spec_sms_text, spec_toast_body,
    spec_toast_summary, spec_webhook_text, webhook_icon_url, webhook_username,
};
use crate::text::{dec_nat, fmt_u64};
use crate::validate::{
    invalid_config_diagnostic, invalid_exit_code, spec_channel_valid, spec_invalid_code,
    spec_invalid_diag, spec_sms_config_valid, validate_channel,
};

verus! {

/// What the SMS provider needs for one send.
pub struct SmsPayload {
    pub account_id: String,
    pub auth_token: String,
    pub sender: String,
    pub receiver: String,
    pub body: String,
}

/// What the SMTP client needs for one send.
pub struct EmailPayload {
    pub smtp_server: String,
    pub username: String,
    pub password: String,
    pub from: String,
    pub to: String,
    pub subject: String,
    pub body: String,
}

/// What the chat webhook needs for one post.
pub struct WebhookPayload {
    pub url: String,
    pub username: String,
    pub icon_url: String,
    pub channel: String,
    pub text: String,
}

/// What the OS notification daemon needs for one toast.
pub struct ToastPayload {
    pub summary: String,
    pub body: String,
}

/// One channel's fully rendered, ready-to-send message.
pub enum OutboundPayload {
    Sms(SmsPayload),
    Email(EmailPayload),
    ChatWebhook(WebhookPayload),
    SystemToast(ToastPayload),
}

/// A validation failure: the channel's reserved exit code and the diagnostic
/// to print before aborting.
pub struct ConfigFailure {
    pub exit_code: u8,
    pub diagnostic: String,
}

/// What a channel's external send reported back: completed, failed with a
/// human-readable detail, or (for the chat webhook) a numeric status code.
pub enum SendSignal {
    Delivered,
    Failed(String),
    Status(u16),
}

/// The dispatcher's decision after a send: go on to the next channel, print
/// a diagnostic and go on, abort the run with an exit code, or give up on an
/// unrecoverable local error.
pub enum Verdict {
    Proceed,
    Warn(String),
    Halt { code: u8, diagnostic: String },
    Unrecoverable(String),
}

/// The decision a verdict must realise, stated over character sequences.
pub enum VerdictModel {
    Proceed,
    Warn(Seq<char>),
    Halt(u8, Seq<char>),
    Crash(Seq<char>),
}

/// `p` is exactly the payload the renderer owes `ch` for this run.
pub open spec fn payload_matches(
    p: OutboundPayload,
    ch: Channel,
    cfg: LKConfig,
    res: ExecutionResult,
    host: Seq<char>,
    command: Seq<char>,
) -> bool {
    match ch {
        Channel::Sms => p matches OutboundPayload::Sms(sp) && sp.account_id@
            == cfg.twilio_account_id@ && sp.auth_token@ == cfg.twilio_auth_token@ && sp.sender@
            == cfg.twilio_sender@ && sp.receiver@ == cfg.twilio_receiver@ && sp.body@
            == spec_sms_text(res, command, host),
        Channel::Email => p matches OutboundPayload::Email(ep) && ep.smtp_server@ == cfg.email_smtp@
            && ep.username@ == cfg.email_username@ && ep.password@ == cfg.email_password@
            && ep.from@ == cfg.email_from@ && ep.to@ == cfg.email_to@ && ep.subject@
            == spec_email_subject(res, host) && ep.body@ == spec_email_body(res),
        Channel::ChatWebhook => p matches OutboundPayload::ChatWebhook(wp) && wp.url@
            == cfg.mattermost_url@ && wp.username@ == webhook_username() && wp.icon_url@
            == webhook_icon_url() && wp.channel@ == cfg.mattermost_channel@ && wp.text@
            == spec_webhook_text(res, host),
        Channel::SystemToast => p matches OutboundPayload::SystemToast(tp) && tp.summary@
            == spec_toast_summary(res, host) && tp.body@ == spec_toast_body(res),
    }
}

/// The decision owed when a channel's send failed outright: SMS and email
/// failures are diagnostics only; a chat webhook transport error aborts with
/// its reserved code; a toast that cannot be shown is unrecoverable.
pub open spec fn spec_failure_verdict(ch: Channel, detail: Seq<char>) -> VerdictModel {
    match ch {
        Channel::Sms => VerdictModel::Warn(
            "Error sending message to Twilio API: "@ + detail,
        ),
        Channel::Email => VerdictModel::Warn("Email refused to send: "@ + detail),
        Channel::ChatWebhook => VerdictModel::Halt(
            8,
            "Error within HTTP Request:\n"@ + detail + "\n\n"@,
        ),
        Channel::SystemToast => VerdictModel::Crash(
            "Error: Could not show system notification"@,
        ),
    }
}

/// The decision owed for a channel's send signal. A numeric status is how
/// the chat webhook answers: 200 counts as delivered, anything else aborts
/// with its reserved code; on the other channels a status is folded into
/// delivered-or-failed with the decimal code as the detail.
pub open spec fn spec_verdict(ch: Channel, signal: SendSignal) -> VerdictModel {
    match signal {
        SendSignal::Delivered => VerdictModel::Proceed,
        SendSignal::Failed(detail) => spec_failure_verdict(ch, detail@),
        SendSignal::Status(code) => if code == 200 {
            VerdictModel::Proceed
        } else if ch is ChatWebhook {
            VerdictModel::Halt(
                7,
                "Error sending job status to MatterMost\n\tresponse code: "@ + dec_nat(
                    code as nat,
                ) + "\n\n"@,
            )
        } else {
            spec_failure_verdict(ch, dec_nat(code as nat))
        },
    }
}

/// `v` realises the decision `m`.
pub open spec fn verdict_matches(v: Verdict, m: VerdictModel) -> bool {
    match m {
        VerdictModel::Proceed => v is Proceed,
        VerdictModel::Warn(t) => v matches Verdict::Warn(s) && s@ == t,
        VerdictModel::Halt(c, t) => v matches Verdict::Halt { code, diagnostic } && code == c
            && diagnostic@ == t,
        VerdictModel::Crash(t) => v matches Verdict::Unrecoverable(s) && s@ == t,
    }
}

/// Validate a channel and render its payload. Fails exactly when one of the
/// channel's required fields is unset, with the channel's reserved exit code
/// and diagnostic.
pub fn prepare_channel(
    ch: Channel,
    cfg: &LKConfig,
    res: &ExecutionResult,
    host: &String,
    command: &String,
    config_path: &String,
) -> (r: Result<OutboundPayload, ConfigFailure>)
    ensures
        r is Ok <==> spec_channel_valid(ch, *cfg),
        r matches Ok(p) ==> payload_matches(p, ch, *cfg, *res, host@, command@),
        r matches Err(f) ==> f.exit_code == spec_invalid_code(ch) && f.diagnostic@
            == spec_invalid_diag(ch, config_path@),
{
    if !validate_channel(ch, cfg) {
        return Err(
            ConfigFailure {
                exit_code: invalid_exit_code(ch),
                diagnostic: invalid_config_diagnostic(ch, config_path),
            },
        );
    }
    match ch {
        Channel::Sms => Ok(
            OutboundPayload::Sms(
                SmsPayload {
                    account_id: cfg.twilio_account_id.clone(),
                    auth_token: cfg.twilio_auth_token.clone(),
                    sender: cfg.twilio_sender.clone(),
                    receiver: cfg.twilio_receiver.clone(),
                    body: render_sms(res, command, host),
                },
            ),
        ),
        Channel::Email => Ok(
            OutboundPayload::Email(
                EmailPayload {
                    smtp_server: cfg.email_smtp.clone(),
                    username: cfg.email_username.clone(),
                    password: cfg.email_password.clone(),
                    from: cfg.email_from.clone(),
                    to: cfg.email_to.clone(),
                    subject: render_email_subject(res, host),
                    body: render_email_body(res),
                },
            ),
        ),
        Channel::ChatWebhook => Ok(
            OutboundPayload::ChatWebhook(
                WebhookPayload {
                    url: cfg.mattermost_url.clone(),
                    username: String::from_str("LK"),
                    icon_url: String::from_str(
                        "https://i0.wp.com/stephenkneale.com/wp-content/uploads/2019/11/Knowledge20Head.png",
                    ),
                    channel: cfg.mattermost_channel.clone(),
                    text: render_webhook_text(res, host),
                },
            ),
        ),
        Channel::SystemToast => Ok(
            OutboundPayload::SystemToast(
                ToastPayload {
                    summary: render_toast_summary(res, host),
                    body: render_toast_body(res),
                },
            ),
        ),
    }
}

/// Build the verdict for a send that failed outright.
fn failure_verdict(ch: Channel, detail: &String) -> (v: Verdict)
    ensures
        verdict_matches(v, spec_failure_verdict(ch, detail@)),
{
    match ch {
        Channel::Sms => {
            let mut d = String::from_str("Error sending message to Twilio API: ");
            d.append(detail.as_str());
            Verdict::Warn(d)
        },
        Channel::Email => {
            let mut d = String::from_str("Email refused to send: ");
            d.append(detail.as_str());
            Verdict::Warn(d)
        },
        Channel::ChatWebhook => {
            let mut d = String::from_str("Error within HTTP Request:\n");
            d.append(detail.as_str());
            d.append("\n\n");
            Verdict::Halt { code: 8, diagnostic: d }
        },
        Channel::SystemToast => Verdict::Unrecoverable(
            String::from_str("Error: Could not show system notification"),
        ),
    }
}

/// Interpret what a channel's external send reported back.
pub fn interpret_outcome(ch: Channel, signal: &SendSignal) -> (v: Verdict)
    ensures
        verdict_matches(v, spec_verdict(ch, *signal)),
{
    match signal {
        SendSignal::Delivered => Verdict::Proceed,
        SendSignal::Failed(detail) => failure_verdict(ch, detail),
        SendSignal::Status(code) => {
            if *code == 200 {
                Verdict::Proceed
            } else if matches!(ch, Channel::ChatWebhook) {
                let mut d = String::from_str(
                    "Error sending job status to MatterMost\n\tresponse code: ",
                );
                let code_text = fmt_u64(*code as u64);
                d.append(code_text.as_str());
                d.append("\n\n");
                Verdict::Halt { code: 7, diagnostic: d }
            } else {
                let detail = fmt_u64(*code as u64);
                failure_verdict(ch, &detail)
            }
        },
    }
}

/// How a whole run ends: every planned channel handled, or aborted with an
/// exit code and diagnostic, or given up on an unrecoverable local error.
pub enum RunOutcome {
    Completed,
    Halted { code: u8, diagnostic: String },
    Crashed { message: String },
}

/// Everything a run produced: the payloads handed to the providers in
/// order, the diagnostics of the non-fatal failures, and how the run ended.
pub struct RunReport {
    pub sent: Vec<OutboundPayload>,
    pub warnings: Vec<String>,
    pub outcome: RunOutcome,
}

/// How the run ends in the model: `None` while it may still go on.
pub enum OutcomeModel {
    Halted(u8, Seq<char>),
    Crashed(Seq<char>),
}

/// The dispatcher's state after some prefix of the plan: which channels'
/// sends were attempted, the warnings collected, and the terminal outcome if
/// one was reached.
pub struct DispatchModel {
    pub attempted: Seq<Channel>,
    pub warnings: Seq<Seq<char>>,
    pub outcome: Option<OutcomeModel>,
}

/// The state before any channel is handled.
pub open spec fn spec_dispatch_init() -> DispatchModel {
    DispatchModel { attempted: Seq::empty(), warnings: Seq::empty(), outcome: None }
}

/// One dispatcher step: nothing once a terminal outcome stands; an invalid
/// channel halts with its reserved code; otherwise the channel's send is
/// attempted, consuming the next signal, and its verdict is applied.
pub open spec fn spec_step(
    st: DispatchModel,
    ch: Channel,
    cfg: LKConfig,
    path: Seq<char>,
    signals: Seq<SendSignal>,
) -> DispatchModel {
    if st.outcome is Some {
        st
    } else if !spec_channel_valid(ch, cfg) {
        DispatchModel {
            outcome: Some(OutcomeModel::Halted(spec_invalid_code(ch), spec_invalid_diag(ch, path))),
            ..st
        }
    } else {
        let attempted = DispatchModel { attempted: st.attempted.push(ch), ..st };
        match spec_verdict(ch, signals[st.attempted.len() as int]) {
            VerdictModel::Proceed => attempted,
            VerdictModel::Warn(w) => DispatchModel {
                warnings: attempted.warnings.push(w),
                ..attempted
            },
            VerdictModel::Halt(c, d) => DispatchModel {
                outcome: Some(OutcomeModel::Halted(c, d)),
                ..attempted
            },
            VerdictModel::Crash(m) => DispatchModel {
                outcome: Some(OutcomeModel::Crashed(m)),
                ..attempted
            },
        }
    }
}

/// The dispatcher's state after the first `k` channels of the plan.
pub open spec fn spec_dispatch(
    plan: Seq<Channel>,
    k: int,
    cfg: LKConfig,
    path: Seq<char>,
    signals: Seq<SendSignal>,
) -> DispatchModel
    decreases k,
{
    if k <= 0 {
        spec_dispatch_init()
    } else {
        spec_step(spec_dispatch(plan, k - 1, cfg, path, signals), plan[k - 1], cfg, path, signals)
    }
}

/// Once a terminal outcome stands, later channels change nothing: the
/// channels after a fatal failure never get a chance.
pub proof fn lemma_dispatch_stable(
    plan: Seq<Channel>,
    k: int,
    n: int,
    cfg: LKConfig,
    path: Seq<char>,
    signals: Seq<SendSignal>,
)
    requires
        0 <= k <= n,
        spec_dispatch(plan, k, cfg, path, signals).outcome is Some,
    ensures
        spec_dispatch(plan, n, cfg, path, signals) == spec_dispatch(plan, k, cfg, path, signals),
    decreases n - k,
{
    if n > k {
        lemma_dispatch_stable(plan, k, n - 1, cfg, path, signals);
    }
}

/// Law: the first invalid channel of the plan halts the whole run with that
/// channel's reserved exit code and diagnostic; nothing more is attempted
/// and no further warning is collected, however many channels follow.
pub proof fn lemma_invalid_channel_aborts_rest(
    plan: Seq<Channel>,
    k: int,
    cfg: LKConfig,
    path: Seq<char>,
    signals: Seq<SendSignal>,
)
    requires
        0 <= k < plan.len(),
        spec_dispatch(plan, k, cfg, path, signals).outcome is None,
        !spec_channel_valid(plan[k], cfg),
    ensures
        ({
            let at_k = spec_dispatch(plan, k, cfg, path, signals);
            let at_end = spec_dispatch(plan, plan.len() as int, cfg, path, signals);
            &&& at_end.outcome == Some(
                OutcomeModel::Halted(spec_invalid_code(plan[k]), spec_invalid_diag(plan[k], path)),
            )
            &&& at_end.attempted == at_k.attempted
            &&& at_end.warnings == at_k.warnings
        }),
{
    lemma_dispatch_stable(plan, k + 1, plan.len() as int, cfg, path, signals);
}

/// Law: a planned SMS channel whose fields still hold the bootstrap
/// placeholders (or are empty) halts the run with the reserved exit code 4
/// and the SMS diagnostic, and no further channel is attempted. The run must
/// reach the SMS channel for its code to be the one raised: an invalid
/// channel standing earlier in the enabled order halts with its own code
/// first, so those runs are left out by the premise that no terminal outcome
/// stands yet.
pub proof fn lemma_placeholder_sms_halts_with_code_4(
    plan: Seq<Channel>,
    k: int,
    cfg: LKConfig,
    path: Seq<char>,
    signals: Seq<SendSignal>,
)
    requires
        0 <= k < plan.len(),
        plan[k] == Channel::Sms,
        !spec_sms_config_valid(cfg),
        spec_dispatch(plan, k, cfg, path, signals).outcome is None,
    ensures
        ({
            let at_k = spec_dispatch(plan, k, cfg, path, signals);
            let at_end = spec_dispatch(plan, plan.len() as int, cfg, path, signals);
            &&& at_end.outcome == Some(
                OutcomeModel::Halted(4, spec_invalid_diag(Channel::Sms, path)),
            )
            &&& at_end.attempted == at_k.attempted
            &&& at_end.warnings == at_k.warnings
        }),
{
    lemma_invalid_channel_aborts_rest(plan, k, cfg, path, signals);
}

/// `o` realises the model outcome `m`.
pub open spec fn outcome_matches(o: RunOutcome, m: Option<OutcomeModel>) -> bool {
    match m {
        None => o is Completed,
        Some(OutcomeModel::Halted(c, t)) => o matches RunOutcome::Halted { code, diagnostic }
            && code == c && diagnostic@ == t,
        Some(OutcomeModel::Crashed(t)) => o matches RunOutcome::Crashed { message } && message@
            == t,
    }
}

/// The warning strings realise the model's warning texts, in order.
pub open spec fn warnings_match(ws: Seq<String>, ms: Seq<Seq<char>>) -> bool {
    ws.len() == ms.len() && forall|i: int| 0 <= i < ws.len() ==> #[trigger] ws[i]@ == ms[i]
}

/// The report realises the model: one owed payload per attempted channel, in
/// plan order, the model's warnings, and the model's outcome.
pub open spec fn report_matches(
    report: RunReport,
    m: DispatchModel,
    cfg: LKConfig,
    res: ExecutionResult,
    host: Seq<char>,
    command: Seq<char>,
) -> bool {
    &&& report.sent@.len() == m.attempted.len()
    &&& forall|i: int|
        0 <= i < m.attempted.len() ==> payload_matches(
            #[trigger] report.sent@[i],
            m.attempted[i],
            cfg,
            res,
            host,
            command,
        )
    &&& warnings_match(report.warnings@, m.warnings)
    &&& outcome_matches(report.outcome, m.outcome)
}

/// Run the whole dispatch pipeline over the enabled channels, with the send
/// signals supplied up front (one is consumed per attempted send). This is
/// the dispatcher's state machine run to its end: channels are handled in
/// plan order, and a fatal failure abandons the rest.
pub fn dispatch_run(
    cfg: &LKConfig,
    res: &ExecutionResult,
    host: &String,
    command: &String,
    config_path: &String,
    signals: &Vec<SendSignal>,
) -> (report: RunReport)
    requires
        signals@.len() >= spec_plan(cfg.services@).len(),
    ensures
        report_matches(
            report,
            spec_dispatch(
                spec_plan(cfg.services@),
                spec_plan(cfg.services@).len() as int,
                *cfg,
                config_path@,
                signals@,
            ),
            *cfg,
            *res,
            host@,
            command@,
        ),
{
    let plan = plan_channels(&cfg.services);
    let ghost gplan = plan@;
    let mut sent: Vec<OutboundPayload> = Vec::new();
    let mut warnings: Vec<String> = Vec::new();
    let mut i: usize = 0;
    while i < plan.len()
        invariant
            i <= gplan.len(),
            plan@ == gplan,
            gplan == spec_plan(cfg.services@),
            signals@.len() >= gplan.len(),
            sent@.len() <= i,
            ({
                let m = spec_dispatch(gplan, i as int, *cfg, config_path@, signals@);
                &&& m.outcome is None
                &&& sent@.len() == m.attempted.len()
                &&& forall|j: int|
                    0 <= j < m.attempted.len() ==> payload_matches(
                        #[trigger] sent@[j],
                        m.attempted[j],
                        *cfg,
                        *res,
                        host@,
                        command@,
                    )
                &&& warnings_match(warnings@, m.warnings)
            }),
        decreases gplan.len() - i,
    {
        let ghost m0 = spec_dispatch(gplan, i as int, *cfg, config_path@, signals@);
        proof {
            assert(spec_dispatch(gplan, i + 1, *cfg, config_path@, signals@) == spec_step(
                m0,
                gplan[i as int],
                *cfg,
                config_path@,
                signals@,
            ));
        }
        let ch = plan[i];
        match prepare_channel(ch, cfg, res, host, command, config_path) {
            Err(f) => {
                proof {
                    lemma_dispatch_stable(
                        gplan,
                        i + 1,
                        gplan.len() as int,
                        *cfg,
                        config_path@,
                        signals@,
                    );
                }
                return RunReport {
                    sent,
                    warnings,
                    outcome: RunOutcome::Halted { code: f.exit_code, diagnostic: f.diagnostic },
                };
            },
            Ok(payload) => {
                let idx = sent.len();
                sent.push(payload);
                let verdict = interpret_outcome(ch, &signals[idx]);
                match verdict {
                    Verdict::Proceed => {},
                    Verdict::Warn(w) => {
                        warnings.push(w);
                    },
                    Verdict::Halt { code, diagnostic } => {
                        proof {
                            lemma_dispatch_stable(
                                gplan,
                                i + 1,
                                gplan.len() as int,
                                *cfg,
                                config_path@,
                                signals@,
                            );
                        }
                        return RunReport {
                            sent,
                            warnings,
                            outcome: RunOutcome::Halted { code, diagnostic },
                        };
                    },
                    Verdict::Unrecoverable(message) => {
                        proof {
                            lemma_dispatch_stable(
                                gplan,
                                i + 1,
                                gplan.len() as int,
                                *cfg,
                                config_path@,
                                signals@,
                            );
                        }
                        return RunReport {
                            sent,
                            warnings,
                            outcome: RunOutcome::Crashed { message },
                        };
                    },
                }
            },
        }
        i = i + 1;
    }
    RunReport { sent, warnings, outcome: RunOutcome::Completed }
}

} // verus!
