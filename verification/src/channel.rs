//! The closed set of notification channels, the service names that enable
//! them, and the dispatch plan: the distinct channels named by the enabled
//! list, in order of first occurrence.

use vstd::prelude::*;
use crate::config::string_eq;

verus! {

/// One independently configured notification destination.
#[derive(Clone, Copy, PartialEq, Eq, Structural, Debug)]
pub enum Channel {
    Sms,
    Email,
    ChatWebhook,
    SystemToast,
}

/// The channel a service name enables, if any; unrecognised names enable
/// nothing.
pub open spec fn spec_parse_channel(name: Seq<char>) -> Option<Channel> {
    if name == "twilio"@ {
        Some(Channel::Sms)
    } else if name == "email"@ {
        Some(Channel::Email)
    } else if name == "mattermost"@ {
        Some(Channel::ChatWebhook)
    } else if name == "system"@ {
        Some(Channel::SystemToast)
    } else {
        None
    }
}

/// The dispatch plan for an enabled-service list: each recognised channel
/// once, in order of first occurrence.
pub open spec fn spec_plan(names: Seq<String>) -> Seq<Channel>
    decreases names.len(),
{
    if names.len() == 0 {
        Seq::empty()
    } else {
        let prefix = spec_plan(names.drop_last());
        match spec_parse_channel(names.last()@) {
            None => prefix,
            Some(c) => if prefix.contains(c) {
                prefix
            } else {
                prefix.push(c)
            },
        }
    }
}

/// Map a service name to the channel it enables, if any.
pub fn parse_channel(name: &String) -> (c: Option<Channel>)
    ensures
        c == spec_parse_channel(name@),
{
    let twilio = String::from_str("twilio");
    let email = String::from_str("email");
    let mattermost = String::from_str("mattermost");
    let system = String::from_str("system");
    if string_eq(name, &twilio) {
        Some(Channel::Sms)
    } else if string_eq(name, &email) {
        Some(Channel::Email)
    } else if string_eq(name, &mattermost) {
        Some(Channel::ChatWebhook)
    } else if string_eq(name, &system) {
        Some(Channel::SystemToast)
    } else {
        None
    }
}

/// `true` exactly when `c` already stands in `plan`.
fn plan_contains(plan: &Vec<Channel>, c: Channel) -> (r: bool)
    ensures
        r == plan@.contains(c),
{
    let mut i: usize = 0;
    while i < plan.len()
        invariant
            i <= plan@.len(),
            forall|k: int| 0 <= k < i ==> plan@[k] != c,
        decreases plan@.len() - i,
    {
        if plan[i] == c {
            return true;
        }
        i = i + 1;
    }
    false
}

/// Build the dispatch plan for the enabled-service list.
pub fn plan_channels(services: &Vec<String>) -> (plan: Vec<Channel>)
    ensures
        plan@ == spec_plan(services@),
{
    let mut plan: Vec<Channel> = Vec::new();
    let mut i: usize = 0;
    while i < services.len()
        invariant
            i <= services@.len(),
            plan@ == spec_plan(services@.take(i as int)),
        decreases services@.len() - i,
    {
        match parse_channel(&services[i]) {
            None => {},
            Some(c) => {
                if !plan_contains(&plan, c) {
                    plan.push(c);
                }
            },
        }
        proof {
            assert(services@.take(i + 1).drop_last() =~= services@.take(i as int));
            assert(services@.take(i + 1).last() == services@[i as int]);
        }
        i = i + 1;
    }
    proof {
        assert(services@.take(services@.len() as int) =~= services@);
    }
    plan
}

} // verus!
