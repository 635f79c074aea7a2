use vstd::prelude::*;
use crate::command::templates::SetChannelTemplate;
use crate::text::capitalized;

verus! {

pub const GUIDELINES_CHANNEL_NAME: &'static str = "guidelines";
pub const GUIDELINES_CHANNEL_DISPLAY_NAME: &'static str = "guidelines";

/// The command that sets the guidelines channel.
pub fn set_guidelines_channel_fn() -> (t: SetChannelTemplate)
    ensures
        t.channel_name == GUIDELINES_CHANNEL_NAME,
        t.channel_id == GUIDELINES_CHANNEL_DISPLAY_NAME,
        t.uppercase_channel_name@ == capitalized(GUIDELINES_CHANNEL_NAME@),
{
    SetChannelTemplate::new(GUIDELINES_CHANNEL_NAME, GUIDELINES_CHANNEL_DISPLAY_NAME)
}

} // verus!
