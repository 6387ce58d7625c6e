//! The channel validator: immediately before a channel's send attempt, every
//! field that channel requires must be set — neither empty nor still the
//! bootstrap placeholder. An invalid channel aborts the whole run with that
//! channel's reserved exit code.

use vstd::prelude::*;
use crate::channel::Channel;
use crate::config::{
    field_unset, ph_email_from, ph_email_password, ph_email_smtp, ph_email_to, ph_email_username,
    ph_mattermost_channel, ph_mattermost_url, ph_twilio_account_id, ph_twilio_auth_token,
    ph_twilio_receiver, ph_twilio_sender, spec_unset, LKConfig,
};

verus! {

/// All four SMS fields are set.
pub open spec fn spec_sms_config_valid(cfg: LKConfig) -> bool {
    &&& !spec_unset(cfg.twilio_account_id@, ph_twilio_account_id())
    &&& !spec_unset(cfg.twilio_auth_token@, ph_twilio_auth_token())
    &&& !spec_unset(cfg.twilio_receiver@, ph_twilio_receiver())
    &&& !spec_unset(cfg.twilio_sender@, ph_twilio_sender())
}

/// All five email fields are set.
pub open spec fn spec_email_config_valid(cfg: LKConfig) -> bool {
    &&& !spec_unset(cfg.email_username@, ph_email_username())
    &&& !spec_unset(cfg.email_password@, ph_email_password())
    &&& !spec_unset(cfg.email_from@, ph_email_from())
    &&& !spec_unset(cfg.email_to@, ph_email_to())
    &&& !spec_unset(cfg.email_smtp@, ph_email_smtp())
}

/// Both chat webhook fields are set.
pub open spec fn spec_webhook_config_valid(cfg: LKConfig) -> bool {
    &&& !spec_unset(cfg.mattermost_url@, ph_mattermost_url())
    &&& !spec_unset(cfg.mattermost_channel@, ph_mattermost_channel())
}

/// A channel's required fields are all set. The OS toast requires none.
pub open spec fn spec_channel_valid(ch: Channel, cfg: LKConfig) -> bool {
    match ch {
        Channel::Sms => spec_sms_config_valid(cfg),
        Channel::Email => spec_email_config_valid(cfg),
        Channel::ChatWebhook => spec_webhook_config_valid(cfg),
        Channel::SystemToast => true,
    }
}

/// The reserved exit code for a channel whose configuration is invalid. The
/// OS toast requires no fields and so never fails validation; its arm only
/// completes the match.
pub open spec fn spec_invalid_code(ch: Channel) -> u8 {
    match ch {
        Channel::Sms => 4,
        Channel::Email => 5,
        Channel::ChatWebhook => 6,
        Channel::SystemToast => 0,
    }
}

/// The word naming a channel's configuration fields in diagnostics.
pub open spec fn spec_field_word(ch: Channel) -> Seq<char> {
    match ch {
        Channel::Sms => "twilio"@,
        Channel::Email => "email"@,
        Channel::ChatWebhook => "mattermost"@,
        Channel::SystemToast => "system"@,
    }
}

/// The diagnostic printed when a channel's configuration is invalid.
pub open spec fn spec_invalid_diag(ch: Channel, path: Seq<char>) -> Seq<char> {
    "Error found default values in "@ + spec_field_word(ch)
        + " fields, please update the config file at "@ + path
}

/// Check the fields a channel requires against the bootstrap placeholders.
pub fn validate_channel(ch: Channel, cfg: &LKConfig) -> (r: bool)
    ensures
        r == spec_channel_valid(ch, *cfg),
{
    let ph = LKConfig::default();
    match ch {
        Channel::Sms => !field_unset(&cfg.twilio_account_id, &ph.twilio_account_id) && !field_unset(
            &cfg.twilio_auth_token,
            &ph.twilio_auth_token,
        ) && !field_unset(&cfg.twilio_receiver, &ph.twilio_receiver) && !field_unset(
            &cfg.twilio_sender,
            &ph.twilio_sender,
        ),
        Channel::Email => !field_unset(&cfg.email_username, &ph.email_username) && !field_unset(
            &cfg.email_password,
            &ph.email_password,
        ) && !field_unset(&cfg.email_from, &ph.email_from) && !field_unset(
            &cfg.email_to,
            &ph.email_to,
        ) && !field_unset(&cfg.email_smtp, &ph.email_smtp),
        Channel::ChatWebhook => !field_unset(&cfg.mattermost_url, &ph.mattermost_url)
            && !field_unset(&cfg.mattermost_channel, &ph.mattermost_channel),
        Channel::SystemToast => true,
    }
}

/// The reserved exit code for a channel whose configuration is invalid.
pub fn invalid_exit_code(ch: Channel) -> (c: u8)
    ensures
        c == spec_invalid_code(ch),
{
    match ch {
        Channel::Sms => 4,
        Channel::Email => 5,
        Channel::ChatWebhook => 6,
        Channel::SystemToast => 0,
    }
}

/// Render the diagnostic for a channel whose configuration is invalid.
pub fn invalid_config_diagnostic(ch: Channel, path: &String) -> (d: String)
    ensures
        d@ == spec_invalid_diag(ch, path@),
{
    let mut d = String::from_str("Error found default values in ");
    let word: &str = match ch {
        Channel::Sms => "twilio",
        Channel::Email => "email",
        Channel::ChatWebhook => "mattermost",
        Channel::SystemToast => "system",
    };
    d.append(word);
    d.append(" fields, please update the config file at ");
    d.append(path.as_str());
    d
}

} // verus!
