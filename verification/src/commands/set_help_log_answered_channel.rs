use vstd::prelude::*;
use crate::command::templates::SelectChannelTemplate;
use crate::text::capitalized;

verus! {

pub const HELP_LOG_ANSWERED_CHANNEL_NAME: &'static str = "help_log_answered";
pub const HELP_LOG_ANSWERED_CHANNEL_DISPLAY_NAME: &'static str = "help log answered";

/// The command that selects, and records, the channel for answered
/// questions.
pub fn set_help_log_answered_channel_fn() -> (t: SelectChannelTemplate)
    ensures
        t.channel_name == HELP_LOG_ANSWERED_CHANNEL_NAME,
        t.channel_display_name == HELP_LOG_ANSWERED_CHANNEL_DISPLAY_NAME,
        t.uppercase_channel_display_name@ == capitalized(HELP_LOG_ANSWERED_CHANNEL_DISPLAY_NAME@),
        t.save_to_database,
{
    SelectChannelTemplate::new(HELP_LOG_ANSWERED_CHANNEL_NAME, HELP_LOG_ANSWERED_CHANNEL_DISPLAY_NAME, true)
}

} // verus!
