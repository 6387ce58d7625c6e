use lk::channel::Channel;
use lk::config::LKConfig;
use lk::validate::{invalid_config_diagnostic, invalid_exit_code, validate_channel};

fn valid_config() -> LKConfig {
    LKConfig {
        services: vec!["twilio".to_string(), "email".to_string()],
        twilio_account_id: "AC123".to_string(),
        twilio_auth_token: "tok456".to_string(),
        twilio_sender: "+15550001111".to_string(),
        twilio_receiver: "+15550002222".to_string(),
        email_from: "from@example.com".to_string(),
        email_to: "to@example.com".to_string(),
        email_smtp: "smtp.example.com".to_string(),
        email_username: "user".to_string(),
        email_password: "pw".to_string(),
        mattermost_url: "https://mm.example.com/hooks/abc".to_string(),
        mattermost_channel: "town-square".to_string(),
    }
}

#[test]
fn fully_set_fields_validate() {
    let cfg = valid_config();
    assert!(validate_channel(Channel::Sms, &cfg));
    assert!(validate_channel(Channel::Email, &cfg));
    assert!(validate_channel(Channel::ChatWebhook, &cfg));
    assert!(validate_channel(Channel::SystemToast, &cfg));
}

#[test]
fn placeholder_sms_field_fails_validation() {
    let mut cfg = valid_config();
    cfg.twilio_auth_token = "auth_token from Twilio".to_string();
    assert!(!validate_channel(Channel::Sms, &cfg));
    assert!(validate_channel(Channel::Email, &cfg));
}

#[test]
fn empty_email_field_fails_validation() {
    let mut cfg = valid_config();
    cfg.email_smtp = String::new();
    assert!(!validate_channel(Channel::Email, &cfg));
    assert!(validate_channel(Channel::Sms, &cfg));
}

#[test]
fn placeholder_webhook_url_fails_validation() {
    let mut cfg = valid_config();
    cfg.mattermost_url = "Enter the full MatterMost webhook url".to_string();
    assert!(!validate_channel(Channel::ChatWebhook, &cfg));
}

#[test]
fn toast_needs_no_configuration() {
    let cfg = LKConfig::default();
    assert!(validate_channel(Channel::SystemToast, &cfg));
}

#[test]
fn each_channel_has_its_reserved_exit_code() {
    assert_eq!(invalid_exit_code(Channel::Sms), 4);
    assert_eq!(invalid_exit_code(Channel::Email), 5);
    assert_eq!(invalid_exit_code(Channel::ChatWebhook), 6);
}

#[test]
fn invalid_diagnostic_names_the_channel_fields_and_path() {
    let d = invalid_config_diagnostic(Channel::Sms, &"/tmp/LK.toml".to_string());
    assert_eq!(
        d,
        "Error found default values in twilio fields, please update the config file at /tmp/LK.toml"
    );
    let d = invalid_config_diagnostic(Channel::ChatWebhook, &"/tmp/LK.toml".to_string());
    assert_eq!(
        d,
        "Error found default values in mattermost fields, please update the config file at /tmp/LK.toml"
    );
}
