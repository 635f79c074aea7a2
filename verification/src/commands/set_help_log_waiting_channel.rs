use vstd::prelude::*;
use crate::command::templates::SetChannelTemplate;
use crate::text::capitalized;

verus! {

pub const HELP_LOG_WAITING_CHANNEL_NAME: &'static str = "help_log_waiting";
pub const HELP_LOG_WAITING_CHANNEL_DISPLAY_NAME: &'static str = "help log waiting";

/// The command that sets the channel for waiting questions.
pub fn set_help_log_waiting_channel_fn() -> (t: SetChannelTemplate)
    ensures
        t.channel_name == HELP_LOG_WAITING_CHANNEL_NAME,
        t.channel_id == HELP_LOG_WAITING_CHANNEL_DISPLAY_NAME,
        t.uppercase_channel_name@ == capitalized(HELP_LOG_WAITING_CHANNEL_NAME@),
{
    SetChannelTemplate::new(HELP_LOG_WAITING_CHANNEL_NAME, HELP_LOG_WAITING_CHANNEL_DISPLAY_NAME)
}

} // verus!
