use lk::channel::Channel;
use lk::config::LKConfig;
use lk::dispatch::{
    dispatch_run, interpret_outcome, prepare_channel, OutboundPayload, RunOutcome, SendSignal,
    Verdict,
};
use lk::outcome::ExecutionResult;

fn valid_config(services: &[&str]) -> LKConfig {
    LKConfig {
        services: services.iter().map(|s| s.to_string()).collect(),
        twilio_account_id: "AC123".to_string(),
        twilio_auth_token: "tok456".to_string(),
        twilio_sender: "+15550001111".to_string(),
        twilio_receiver: "+15550002222".to_string(),
        email_from: "from@example.com".to_string(),
        email_to: "to@example.com".to_string(),
        email_smtp: "smtp.example.com".to_string(),
        email_username: "user".to_string(),
        email_password: "pw".to_string(),
        mattermost_url: "https://mm.example.com/hooks/abc".to_string(),
        mattermost_channel: "town-square".to_string(),
    }
}

fn success_result() -> ExecutionResult {
    ExecutionResult::new(true, Some(0), b"out".to_vec(), Vec::new())
}

fn failure_result() -> ExecutionResult {
    ExecutionResult::new(false, Some(2), Vec::new(), b"err".to_vec())
}

fn run(cfg: &LKConfig, res: &ExecutionResult, signals: Vec<SendSignal>) -> lk::dispatch::RunReport {
    dispatch_run(
        cfg,
        res,
        &"myhost".to_string(),
        &"echo hi".to_string(),
        &"/tmp/LK.toml".to_string(),
        &signals,
    )
}

#[test]
fn placeholder_sms_config_halts_with_code_4_and_sends_nothing() {
    let mut cfg = valid_config(&["twilio", "email"]);
    cfg.twilio_account_id = "account_id from Twilio".to_string();
    cfg.twilio_auth_token = "auth_token from Twilio".to_string();
    cfg.twilio_sender = "Enter the number provided by Twilio".to_string();
    cfg.twilio_receiver = "Enter the phone number to send message to".to_string();
    let report = run(&cfg, &success_result(), vec![SendSignal::Delivered, SendSignal::Delivered]);
    assert!(report.sent.is_empty());
    assert!(report.warnings.is_empty());
    match report.outcome {
        RunOutcome::Halted { code, diagnostic } => {
            assert_eq!(code, 4);
            assert_eq!(
                diagnostic,
                "Error found default values in twilio fields, please update the config file at /tmp/LK.toml"
            );
        }
        _ => panic!("expected a halt"),
    }
}

#[test]
fn email_goes_out_before_a_later_channel_aborts_with_code_6() {
    let mut cfg = valid_config(&["email", "mattermost"]);
    cfg.mattermost_url = "Enter the full MatterMost webhook url".to_string();
    cfg.mattermost_channel =
        "Enter the channel on the MatterMost server to send a message to (use @USERNAME to send a DM)"
            .to_string();
    let report = run(&cfg, &success_result(), vec![SendSignal::Delivered, SendSignal::Delivered]);
    assert_eq!(report.sent.len(), 1);
    match &report.sent[0] {
        OutboundPayload::Email(ep) => {
            assert_eq!(ep.to, "to@example.com");
            assert_eq!(ep.subject, "Your job on myhost has completed!");
        }
        _ => panic!("expected the email payload"),
    }
    match report.outcome {
        RunOutcome::Halted { code, .. } => assert_eq!(code, 6),
        _ => panic!("expected a halt"),
    }
}

#[test]
fn webhook_status_200_completes_without_diagnostics() {
    let cfg = valid_config(&["mattermost"]);
    let report = run(&cfg, &failure_result(), vec![SendSignal::Status(200)]);
    assert_eq!(report.sent.len(), 1);
    assert!(report.warnings.is_empty());
    assert!(matches!(report.outcome, RunOutcome::Completed));
}

#[test]
fn webhook_status_500_halts_with_code_7() {
    let cfg = valid_config(&["mattermost"]);
    let report = run(&cfg, &success_result(), vec![SendSignal::Status(500)]);
    match report.outcome {
        RunOutcome::Halted { code, diagnostic } => {
            assert_eq!(code, 7);
            assert_eq!(
                diagnostic,
                "Error sending job status to MatterMost\n\tresponse code: 500\n\n"
            );
        }
        _ => panic!("expected a halt"),
    }
}

#[test]
fn webhook_transport_error_halts_with_code_8() {
    let cfg = valid_config(&["mattermost"]);
    let report = run(
        &cfg,
        &success_result(),
        vec![SendSignal::Failed("connection refused".to_string())],
    );
    match report.outcome {
        RunOutcome::Halted { code, diagnostic } => {
            assert_eq!(code, 8);
            assert_eq!(diagnostic, "Error within HTTP Request:\nconnection refused\n\n");
        }
        _ => panic!("expected a halt"),
    }
}

#[test]
fn sms_and_email_send_failures_only_warn() {
    let cfg = valid_config(&["twilio", "email"]);
    let report = run(
        &cfg,
        &success_result(),
        vec![
            SendSignal::Failed("429".to_string()),
            SendSignal::Failed("relay down".to_string()),
        ],
    );
    assert_eq!(report.sent.len(), 2);
    assert_eq!(report.warnings.len(), 2);
    assert_eq!(report.warnings[0], "Error sending message to Twilio API: 429");
    assert_eq!(report.warnings[1], "Email refused to send: relay down");
    assert!(matches!(report.outcome, RunOutcome::Completed));
}

#[test]
fn toast_failure_is_unrecoverable() {
    let cfg = valid_config(&["system"]);
    let report = run(
        &cfg,
        &failure_result(),
        vec![SendSignal::Failed("no daemon".to_string())],
    );
    assert_eq!(report.sent.len(), 1);
    match &report.sent[0] {
        OutboundPayload::SystemToast(tp) => {
            assert_eq!(tp.summary, "Your job on myhost finished with an error!");
            assert_eq!(tp.body, "Boo! 😿");
        }
        _ => panic!("expected the toast payload"),
    }
    match report.outcome {
        RunOutcome::Crashed { message } => {
            assert_eq!(message, "Error: Could not show system notification");
        }
        _ => panic!("expected a crash"),
    }
}

#[test]
fn duplicate_services_send_once() {
    let cfg = valid_config(&["twilio", "twilio", "twilio"]);
    let report = run(&cfg, &success_result(), vec![SendSignal::Delivered]);
    assert_eq!(report.sent.len(), 1);
    assert!(matches!(report.outcome, RunOutcome::Completed));
}

#[test]
fn unknown_services_are_ignored() {
    let cfg = valid_config(&["irc"]);
    let report = run(&cfg, &success_result(), Vec::new());
    assert!(report.sent.is_empty());
    assert!(matches!(report.outcome, RunOutcome::Completed));
}

#[test]
fn wrapped_command_failure_alone_still_completes() {
    let cfg = valid_config(&["twilio"]);
    let report = run(&cfg, &failure_result(), vec![SendSignal::Delivered]);
    assert_eq!(report.sent.len(), 1);
    match &report.sent[0] {
        OutboundPayload::Sms(sp) => {
            assert_eq!(sp.body, "Your command echo hi on myhost exited with an error (2)");
        }
        _ => panic!("expected the SMS payload"),
    }
    assert!(matches!(report.outcome, RunOutcome::Completed));
}

#[test]
fn webhook_payload_carries_the_fixed_identity() {
    let cfg = valid_config(&["mattermost"]);
    let r = prepare_channel(
        Channel::ChatWebhook,
        &cfg,
        &success_result(),
        &"myhost".to_string(),
        &"echo hi".to_string(),
        &"/tmp/LK.toml".to_string(),
    );
    match r {
        Ok(OutboundPayload::ChatWebhook(wp)) => {
            assert_eq!(wp.username, "LK");
            assert_eq!(
                wp.icon_url,
                "https://i0.wp.com/stephenkneale.com/wp-content/uploads/2019/11/Knowledge20Head.png"
            );
            assert_eq!(wp.channel, "town-square");
            assert_eq!(wp.url, "https://mm.example.com/hooks/abc");
            assert_eq!(wp.text, "Your job on myhost has finished successfully!");
        }
        _ => panic!("expected the webhook payload"),
    }
}

#[test]
fn a_status_is_delivered_or_failed_on_other_channels() {
    assert!(matches!(
        interpret_outcome(Channel::Sms, &SendSignal::Status(200)),
        Verdict::Proceed
    ));
    match interpret_outcome(Channel::Sms, &SendSignal::Status(503)) {
        Verdict::Warn(w) => assert_eq!(w, "Error sending message to Twilio API: 503"),
        _ => panic!("expected a warning"),
    }
}
