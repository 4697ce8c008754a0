//! Routing of outbound notifications: whether a routed message goes out at
//! all, and to which channel.

use vstd::prelude::*;
use crate::account::Settings;
use crate::text::str_eq;

verus! {

/// Where a routed notification goes: to the configured log channel, unless
/// notifications are muted, no channel is configured, or the target equals
/// the channel to skip.
pub open spec fn notification_target_spec(
    settings: crate::account::SettingsV,
    skip_channel: Option<Seq<char>>,
) -> Option<Seq<char>> {
    if settings.mute_bot_messages == Option::Some(true) {
        Option::None
    } else {
        match settings.log_channel_id {
            Option::Some(chan) => if skip_channel == Option::Some(chan) {
                Option::None
            } else {
                Option::Some(chan)
            },
            Option::None => Option::None,
        }
    }
}

/// Decides where one routed notification goes, if anywhere.
pub fn notification_target(settings: &Settings, skip_channel: &Option<String>) -> (r: Option<
    String,
>)
    ensures
        crate::account::opt_view(r) == notification_target_spec(
            settings@,
            crate::account::opt_view(*skip_channel),
        ),
{
    if let Option::Some(true) = settings.mute_bot_messages {
        return Option::None;
    }
    match &settings.log_channel_id {
        Option::Some(chan) => {
            let skipped = match skip_channel {
                Option::Some(s) => str_eq(s.as_str(), chan.as_str()),
                Option::None => false,
            };
            if skipped {
                Option::None
            } else {
                Option::Some(chan.clone())
            }
        },
        Option::None => Option::None,
    }
}

} // verus!
