use lk::channel::{parse_channel, plan_channels, Channel};

fn names(ts: &[&str]) -> Vec<String> {
    ts.iter().map(|t| t.to_string()).collect()
}

#[test]
fn each_service_name_enables_its_channel() {
    assert_eq!(parse_channel(&"twilio".to_string()), Some(Channel::Sms));
    assert_eq!(parse_channel(&"email".to_string()), Some(Channel::Email));
    assert_eq!(parse_channel(&"mattermost".to_string()), Some(Channel::ChatWebhook));
    assert_eq!(parse_channel(&"system".to_string()), Some(Channel::SystemToast));
}

#[test]
fn unknown_service_names_enable_nothing() {
    assert_eq!(parse_channel(&"irc".to_string()), None);
    assert_eq!(parse_channel(&"".to_string()), None);
    assert_eq!(parse_channel(&"Twilio".to_string()), None);
}

#[test]
fn plan_follows_list_order() {
    let plan = plan_channels(&names(&["email", "mattermost"]));
    assert_eq!(plan, vec![Channel::Email, Channel::ChatWebhook]);
}

#[test]
fn plan_keeps_first_occurrence_order() {
    let plan = plan_channels(&names(&["system", "twilio", "system"]));
    assert_eq!(plan, vec![Channel::SystemToast, Channel::Sms]);
}

#[test]
fn duplicates_are_idempotent() {
    let plan = plan_channels(&names(&["twilio", "twilio", "twilio"]));
    assert_eq!(plan, vec![Channel::Sms]);
}

#[test]
fn unknown_names_are_skipped_in_the_plan() {
    let plan = plan_channels(&names(&["irc", "email", "xmpp"]));
    assert_eq!(plan, vec![Channel::Email]);
}

#[test]
fn empty_list_plans_nothing() {
    let plan = plan_channels(&Vec::new());
    assert!(plan.is_empty());
}
