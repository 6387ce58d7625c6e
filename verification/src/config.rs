//! The configuration record: the ordered list of enabled channel names and
//! the per-channel credential and address fields. A field equal to the
//! bootstrap placeholder written by [`LKConfig::default`], or empty, counts
//! as unset.

use vstd::prelude::*;

verus! {

/// The configuration record, supplied fully formed by an external loader and
/// read-only for the rest of the run.
pub struct LKConfig {
    pub services: Vec<String>,
    pub twilio_account_id: String,
    pub twilio_auth_token: String,
    pub twilio_sender: String,
    pub twilio_receiver: String,
    pub email_from: String,
    pub email_to: String,
    pub email_smtp: String,
    pub email_username: String,
    pub email_password: String,
    pub mattermost_url: String,
    pub mattermost_channel: String,
}

pub open spec fn ph_services_note() -> Seq<char> {
    "Enter services you wish to send through (if blank or with this string the program will exit early) e.g.:"@
}

pub open spec fn ph_twilio_account_id() -> Seq<char> {
    "account_id from Twilio"@
}

pub open spec fn ph_twilio_auth_token() -> Seq<char> {
    "auth_token from Twilio"@
}

pub open spec fn ph_twilio_sender() -> Seq<char> {
    "Enter the number provided by Twilio"@
}

pub open spec fn ph_twilio_receiver() -> Seq<char> {
    "Enter the phone number to send message to"@
}

pub open spec fn ph_email_from() -> Seq<char> {
    "Enter the email you want to send the message to"@
}

pub open spec fn ph_email_to() -> Seq<char> {
    "Enter the email you want it to appear from"@
}

pub open spec fn ph_email_smtp() -> Seq<char> {
    "Enter the smtp server e.g. smtp.gmail.com"@
}

pub open spec fn ph_email_username() -> Seq<char> {
    "Enter the username for your email account"@
}

pub open spec fn ph_email_password() -> Seq<char> {
    "Enter the password for your email account"@
}

pub open spec fn ph_mattermost_url() -> Seq<char> {
    "Enter the full MatterMost webhook url"@
}

pub open spec fn ph_mattermost_channel() -> Seq<char> {
    "Enter the channel on the MatterMost server to send a message to (use @USERNAME to send a DM)"@
}

/// The service list the bootstrap generator writes: a usage note followed by
/// the four recognised channel names.
pub open spec fn spec_placeholder_services(ss: Seq<String>) -> bool {
    &&& ss.len() == 5
    &&& ss[0]@ == ph_services_note()
    &&& ss[1]@ == "twilio"@
    &&& ss[2]@ == "email"@
    &&& ss[3]@ == "mattermost"@
    &&& ss[4]@ == "system"@
}

/// A service list that still needs the user's attention: empty, or exactly
/// the bootstrap list.
pub open spec fn spec_services_unconfigured(ss: Seq<String>) -> bool {
    ss.len() == 0 || spec_placeholder_services(ss)
}

/// A credential or address field is unset when it is empty or still holds
/// its bootstrap placeholder.
pub open spec fn spec_unset(v: Seq<char>, placeholder: Seq<char>) -> bool {
    v.len() == 0 || v == placeholder
}

impl Default for LKConfig {
    /// The bootstrap record: every field holds its placeholder sentinel.
    fn default() -> (c: Self)
        ensures
            spec_placeholder_services(c.services@),
            c.twilio_account_id@ == ph_twilio_account_id(),
            c.twilio_auth_token@ == ph_twilio_auth_token(),
            c.twilio_sender@ == ph_twilio_sender(),
            c.twilio_receiver@ == ph_twilio_receiver(),
            c.email_from@ == ph_email_from(),
            c.email_to@ == ph_email_to(),
            c.email_smtp@ == ph_email_smtp(),
            c.email_username@ == ph_email_username(),
            c.email_password@ == ph_email_password(),
            c.mattermost_url@ == ph_mattermost_url(),
            c.mattermost_channel@ == ph_mattermost_channel(),
    {
        LKConfig {
            services: vec![
                String::from_str(
                    "Enter services you wish to send through (if blank or with this string the program will exit early) e.g.:",
                ),
                String::from_str("twilio"),
                String::from_str("email"),
                String::from_str("mattermost"),
                String::from_str("system"),
            ],
            twilio_account_id: String::from_str("account_id from Twilio"),
            twilio_auth_token: String::from_str("auth_token from Twilio"),
            twilio_sender: String::from_str("Enter the number provided by Twilio"),
            twilio_receiver: String::from_str("Enter the phone number to send message to"),
            email_from: String::from_str("Enter the email you want to send the message to"),
            email_to: String::from_str("Enter the email you want it to appear from"),
            email_smtp: String::from_str("Enter the smtp server e.g. smtp.gmail.com"),
            email_username: String::from_str("Enter the username for your email account"),
            email_password: String::from_str("Enter the password for your email account"),
            mattermost_url: String::from_str("Enter the full MatterMost webhook url"),
            mattermost_channel: String::from_str(
                "Enter the channel on the MatterMost server to send a message to (use @USERNAME to send a DM)",
            ),
        }
    }
}

/// `true` exactly when the two strings hold the same characters.
pub fn string_eq(a: &String, b: &String) -> (r: bool)
    ensures
        r == (a@ == b@),
{
    a.eq(b)
}

/// `true` exactly when `v` is unset with respect to `placeholder`: empty or
/// equal to it.
pub fn field_unset(v: &String, placeholder: &String) -> (r: bool)
    ensures
        r == spec_unset(v@, placeholder@),
{
    if v.as_str().is_empty() {
        true
    } else {
        string_eq(v, placeholder)
    }
}

/// `true` exactly when the enabled-service list is empty or still the
/// bootstrap list, in which case the run must stop before doing any work.
pub fn services_unconfigured(services: &Vec<String>) -> (r: bool)
    ensures
        r == spec_services_unconfigured(services@),
{
    if services.len() == 0 {
        return true;
    }
    if services.len() != 5 {
        return false;
    }
    let ph = LKConfig::default();
    string_eq(&services[0], &ph.services[0]) && string_eq(&services[1], &ph.services[1])
        && string_eq(&services[2], &ph.services[2]) && string_eq(&services[3], &ph.services[3])
        && string_eq(&services[4], &ph.services[4])
}

/// The configuration file's location, composed as the loader names it:
/// `<config dir>/<project path>/LK.toml`.
pub fn config_file_path(config_dir: &String, project_path: &String) -> (p: String)
    ensures
        p@ == config_dir@ + "/"@ + project_path@ + "/LK.toml"@,
{
    let mut p = config_dir.clone();
    p.append("/");
    p.append(project_path.as_str());
    p.append("/LK.toml");
    p
}

/// Diagnostic for a run stopped because no configuration file existed yet
/// and a bootstrap one was written in its place.
pub fn missing_config_diagnostic(path: &String) -> (d: String)
    ensures
        d@ == "\nError: Configuration did not exist, please update "@ + path@
            + " with your settings and auth tokens...exiting\n\n"@,
{
    let mut d = String::from_str("\nError: Configuration did not exist, please update ");
    d.append(path.as_str());
    d.append(" with your settings and auth tokens...exiting\n\n");
    d
}

/// Diagnostic for a run stopped because the service list is still the
/// bootstrap default (or empty).
pub fn default_services_diagnostic(path: &String) -> (d: String)
    ensures
        d@ == "\nError: default account found, please update "@ + path@
            + " with your settings...exiting\n\n"@,
{
    let mut d = String::from_str("\nError: default account found, please update ");
    d.append(path.as_str());
    d.append(" with your settings...exiting\n\n");
    d
}

} // verus!
