//! How the bot is wired: the commands it registers and which handler
//! answers each component interaction.

use vstd::prelude::*;
use crate::command::command::Responder;
use crate::command::commands_handler::CommandsHandler;
use crate::commands::{
    add_help_category_fn, set_guidelines_channel_fn, set_help_channel_fn, set_help_log_answered_channel_fn,
    set_help_log_waiting_channel_fn, topic_fn, HELP_BUTTON_CLICK_ID,
};
use crate::command::command::CommandHolder;
use crate::command::templates::select_channel::{administrator_only, select_channel_description, selects_channel};
use crate::command::templates::set_channel::{set_channel_description, set_channel_option_description};
use crate::command::templates::select_channel::{select_channel_option_description, CHANNEL_OPTION};
use crate::command::command::{is_option, OptionKind};
use crate::commands::add_help_category::ADD_HELP_CATEGORY_DESCRIPTION;
use crate::commands::set_help_channel::SET_HELP_CHANNEL_DESCRIPTION;
use crate::commands::topic::TOPIC_DESCRIPTION;
use crate::commands::set_guidelines_channel::{GUIDELINES_CHANNEL_DISPLAY_NAME, GUIDELINES_CHANNEL_NAME};
use crate::commands::set_help_log_answered_channel::{
    HELP_LOG_ANSWERED_CHANNEL_DISPLAY_NAME, HELP_LOG_ANSWERED_CHANNEL_NAME,
};
use crate::commands::set_help_log_waiting_channel::{
    HELP_LOG_WAITING_CHANNEL_DISPLAY_NAME, HELP_LOG_WAITING_CHANNEL_NAME,
};
use crate::config::Config;
use crate::text::capitalized;
use crate::interactions::{HELP_CREATE_CLICK_ID, HELP_SELECT_CATEGORY_ID, HELP_SELECT_CHANNEL_ID};

verus! {

pub const SET_GUIDELINES_CHANNEL: &'static str = "set_guidelines_channel";
pub const SET_HELP_LOG_ANSWERED_CHANNEL: &'static str = "set_help_log_answered_channel";
pub const SET_HELP_LOG_WAITING_CHANNEL: &'static str = "set_help_log_waiting_channel";
pub const SET_HELP_CHANNEL: &'static str = "set_help_channel";
pub const ADD_HELP_CATEGORY: &'static str = "add_help_category";
pub const TOPIC: &'static str = "topic";

/// `r` records the selected channel under `key` and names it `upper` in
/// its confirmation.
pub open spec fn sets_channel(r: Responder, key: &'static str, upper: Seq<char>) -> bool {
    &&& r matches Responder::SetChannel { channel_key, uppercase_name }
    &&& channel_key == key
    &&& uppercase_name@ == upper
}

/// `c` is registered with this description, one option, this default
/// permission and, when `admin_only`, only its administrator allowed.
pub open spec fn registers(
    c: CommandHolder,
    description: Seq<char>,
    default_permission: Option<bool>,
    admin_only: bool,
    administrator_id: u64,
) -> bool {
    &&& c.description matches Some(d)
    &&& d@ == description
    &&& c.default_permission == default_permission
    &&& c.options@.len() == 1
    &&& if admin_only {
        administrator_only(c.permission, administrator_id)
    } else {
        c.permission is None
    }
}

/// `c`'s one option asks for a channel: required, named "channel", of kind
/// Channel, with this description.
pub open spec fn asks_for_channel(c: CommandHolder, description: Seq<char>) -> bool {
    &&& c.options@.len() == 1
    &&& is_option(c.options@[0], CHANNEL_OPTION@, OptionKind::Channel, true, description)
}

/// The bot's six slash commands.
pub fn build_commands_handler(config: Config) -> (h: CommandsHandler)
    ensures
        h.wf(),
        h.administrator_id() == config.administrator_id,
        h.holders().len() == 6,
        h.position(SET_GUIDELINES_CHANNEL@) is Some,
        h.position(SET_HELP_LOG_ANSWERED_CHANNEL@) is Some,
        h.position(SET_HELP_LOG_WAITING_CHANNEL@) is Some,
        h.responders()[h.position(SET_HELP_CHANNEL@)->0].response == Responder::SetHelpChannel,
        h.responders()[h.position(ADD_HELP_CATEGORY@)->0].response == Responder::AddHelpCategory,
        h.responders()[h.position(TOPIC@)->0].response == Responder::Topic,
        h.position(SET_HELP_CHANNEL@) is Some,
        h.position(ADD_HELP_CATEGORY@) is Some,
        h.position(TOPIC@) is Some,
        registers(
            h.holders()[h.position(SET_GUIDELINES_CHANNEL@)->0],
            set_channel_description(capitalized(GUIDELINES_CHANNEL_NAME@)),
            Some(false),
            true,
            config.administrator_id,
        ),
        registers(
            h.holders()[h.position(SET_HELP_LOG_ANSWERED_CHANNEL@)->0],
            select_channel_description(capitalized(HELP_LOG_ANSWERED_CHANNEL_DISPLAY_NAME@)),
            Some(false),
            true,
            config.administrator_id,
        ),
        registers(
            h.holders()[h.position(SET_HELP_LOG_WAITING_CHANNEL@)->0],
            set_channel_description(capitalized(HELP_LOG_WAITING_CHANNEL_NAME@)),
            Some(false),
            true,
            config.administrator_id,
        ),
        registers(
            h.holders()[h.position(SET_HELP_CHANNEL@)->0],
            SET_HELP_CHANNEL_DESCRIPTION@,
            Some(false),
            true,
            config.administrator_id,
        ),
        registers(
            h.holders()[h.position(ADD_HELP_CATEGORY@)->0],
            ADD_HELP_CATEGORY_DESCRIPTION@,
            Some(false),
            true,
            config.administrator_id,
        ),
        registers(
            h.holders()[h.position(TOPIC@)->0],
            TOPIC_DESCRIPTION@,
            None,
            false,
            config.administrator_id,
        ),
        asks_for_channel(
            h.holders()[h.position(SET_GUIDELINES_CHANNEL@)->0],
            set_channel_option_description(GUIDELINES_CHANNEL_NAME@),
        ),
        asks_for_channel(
            h.holders()[h.position(SET_HELP_LOG_ANSWERED_CHANNEL@)->0],
            select_channel_option_description(HELP_LOG_ANSWERED_CHANNEL_DISPLAY_NAME@),
        ),
        asks_for_channel(
            h.holders()[h.position(SET_HELP_LOG_WAITING_CHANNEL@)->0],
            set_channel_option_description(HELP_LOG_WAITING_CHANNEL_NAME@),
        ),
        sets_channel(
            h.responders()[h.position(SET_GUIDELINES_CHANNEL@)->0].response,
            GUIDELINES_CHANNEL_DISPLAY_NAME,
            capitalized(GUIDELINES_CHANNEL_NAME@),
        ),
        selects_channel(
            h.responders()[h.position(SET_HELP_LOG_ANSWERED_CHANNEL@)->0].response,
            HELP_LOG_ANSWERED_CHANNEL_NAME,
            capitalized(HELP_LOG_ANSWERED_CHANNEL_DISPLAY_NAME@),
            true,
        ),
        sets_channel(
            h.responders()[h.position(SET_HELP_LOG_WAITING_CHANNEL@)->0].response,
            HELP_LOG_WAITING_CHANNEL_DISPLAY_NAME,
            capitalized(HELP_LOG_WAITING_CHANNEL_NAME@),
        ),
{
    proof {
        reveal_strlit("set_guidelines_channel");
        reveal_strlit("set_help_log_answered_channel");
        reveal_strlit("set_help_log_waiting_channel");
        reveal_strlit("set_help_channel");
        reveal_strlit("add_help_category");
        reveal_strlit("topic");
        assert(SET_GUIDELINES_CHANNEL@.len() == 22);
        assert(SET_HELP_LOG_ANSWERED_CHANNEL@.len() == 29);
        assert(SET_HELP_LOG_WAITING_CHANNEL@.len() == 28);
        assert(SET_HELP_CHANNEL@.len() == 16);
        assert(ADD_HELP_CATEGORY@.len() == 17);
        assert(TOPIC@.len() == 5);
    }
    let h0 = CommandsHandler::new(config);
    assert(h0.position(SET_GUIDELINES_CHANNEL@) is None);
    assert(h0.position(SET_HELP_LOG_ANSWERED_CHANNEL@) is None);
    assert(h0.position(SET_HELP_LOG_WAITING_CHANNEL@) is None);
    assert(h0.position(SET_HELP_CHANNEL@) is None);
    assert(h0.position(ADD_HELP_CATEGORY@) is None);
    assert(h0.position(TOPIC@) is None);
    let h1 = h0.add_template_command(SET_GUIDELINES_CHANNEL, set_guidelines_channel_fn);
    assert(h1.position(SET_HELP_LOG_ANSWERED_CHANNEL@) is None);
    assert(h1.holders().len() == 1);
    let h2 = h1.add_template_command(SET_HELP_LOG_ANSWERED_CHANNEL, set_help_log_answered_channel_fn);
    assert(h2.position(SET_HELP_LOG_WAITING_CHANNEL@) is None);
    assert(h2.holders().len() == 2);
    let h3 = h2.add_template_command(SET_HELP_LOG_WAITING_CHANNEL, set_help_log_waiting_channel_fn);
    assert(h3.position(SET_HELP_CHANNEL@) is None);
    assert(h3.holders().len() == 3);
    let h4 = h3.add_command(SET_HELP_CHANNEL, set_help_channel_fn);
    assert(h4.position(ADD_HELP_CATEGORY@) is None);
    assert(h4.holders().len() == 4);
    let h5 = h4.add_command(ADD_HELP_CATEGORY, add_help_category_fn);
    assert(h5.position(TOPIC@) is None);
    assert(h5.holders().len() == 5);
    let h6 = h5.add_command(TOPIC, topic_fn);
    h6
}

/// The handlers of component interactions.
#[derive(Debug, PartialEq, Eq, Structural)]
pub enum ComponentRoute {
    /// The help button: show the categories.
    SendCategories,
    /// A category was chosen: show its channels.
    SendChannels,
    /// A channel was chosen: ask for confirmation.
    SendButtonCreate,
    /// The question was confirmed: open the help thread.
    CreateHelpThread,
}

/// The handler for a component with id `custom_id`; `None` for an id the
/// bot does not handle.
pub fn route_component(custom_id: &str) -> (r: Option<ComponentRoute>)
    ensures
        custom_id@ == HELP_BUTTON_CLICK_ID@ ==> r == Some(ComponentRoute::SendCategories),
        custom_id@ == HELP_SELECT_CATEGORY_ID@ ==> r == Some(ComponentRoute::SendChannels),
        custom_id@ == HELP_SELECT_CHANNEL_ID@ ==> r == Some(ComponentRoute::SendButtonCreate),
        custom_id@ == HELP_CREATE_CLICK_ID@ ==> r == Some(ComponentRoute::CreateHelpThread),
        r is None <==> (custom_id@ != HELP_BUTTON_CLICK_ID@ && custom_id@ != HELP_SELECT_CATEGORY_ID@
            && custom_id@ != HELP_SELECT_CHANNEL_ID@ && custom_id@ != HELP_CREATE_CLICK_ID@),
{
    proof {
        reveal_strlit("help_button_click");
        reveal_strlit("help_select_category");
        reveal_strlit("help_select_channel");
        reveal_strlit("help_create_click");
        assert(HELP_BUTTON_CLICK_ID@.len() == 17);
        assert(HELP_SELECT_CATEGORY_ID@.len() == 20);
        assert(HELP_SELECT_CHANNEL_ID@.len() == 19);
        assert(HELP_CREATE_CLICK_ID@.len() == 17);
        assert(HELP_BUTTON_CLICK_ID@[5] != HELP_CREATE_CLICK_ID@[5]);
    }
    let id = custom_id.to_owned();
    if id == HELP_BUTTON_CLICK_ID.to_owned() {
        Some(ComponentRoute::SendCategories)
    } else if id == HELP_SELECT_CATEGORY_ID.to_owned() {
        Some(ComponentRoute::SendChannels)
    } else if id == HELP_SELECT_CHANNEL_ID.to_owned() {
        Some(ComponentRoute::SendButtonCreate)
    } else if id == HELP_CREATE_CLICK_ID.to_owned() {
        Some(ComponentRoute::CreateHelpThread)
    } else {
        None
    }
}

} // verus!
