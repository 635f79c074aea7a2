//! A command that selects a channel and posts there a message with a button
//! that toggles a role.

use vstd::prelude::*;
use crate::command::command::{
    lemma_options_alike_push, options_alike, responders_alike, texts_alike,
    is_button, is_option, make_button, ButtonStyle, Command, Component, MessageData, OptionKind, Responder,
};
use crate::command::template::Template;
use crate::command::templates::select_channel::{
    administrator_only, select_channel_description, select_channel_option_description, selects_channel, SelectChannelTemplate,
    CHANNEL_OPTION,
};
use crate::text::capitalized;

verus! {

#[derive(Debug)]
pub struct SendRoleToggleMessage {
    pub channel_message: &'static str,
    pub role_id: u64,
    pub interaction_id: &'static str,
    pub select_channel: SelectChannelTemplate,
}

impl SendRoleToggleMessage {
    pub fn new(
        channel_message: &'static str,
        role_id: u64,
        interaction_id: &'static str,
        channel_name: &'static str,
        channel_display_name: &'static str,
    ) -> (t: Self)
        ensures
            t.channel_message == channel_message,
            t.role_id == role_id,
            t.interaction_id == interaction_id,
            t.select_channel.channel_name == channel_name,
            t.select_channel.channel_display_name == channel_display_name,
            t.select_channel.uppercase_channel_display_name@ == capitalized(channel_display_name@),
            !t.select_channel.save_to_database,
    {
        SendRoleToggleMessage {
            channel_message,
            role_id,
            interaction_id,
            select_channel: SelectChannelTemplate::new(channel_name, channel_display_name, false),
        }
    }
}

impl Template for SendRoleToggleMessage {
    /// The channel-selecting command, whose response first posts the toggle
    /// message and then confirms the selection.
    open spec fn builds(&self, command: Command, r: Command) -> bool {
        &&& r.administrator_id == command.administrator_id
        &&& r.description matches Some(d)
        &&& d@ == select_channel_description(self.select_channel.uppercase_channel_display_name@)
        &&& r.default_permission == Some(false)
        &&& r.options@ == command.options@.push(r.options@.last())
        &&& is_option(
            r.options@.last(),
            CHANNEL_OPTION@,
            OptionKind::Channel,
            true,
            select_channel_option_description(self.select_channel.channel_display_name@),
        )
        &&& administrator_only(r.permission, command.administrator_id)
        &&& r.response matches Some(Responder::RoleToggleMessage { channel_message, interaction_id, channel_name, inner })
        &&& channel_message == self.channel_message
        &&& interaction_id == self.interaction_id
        &&& channel_name == self.select_channel.channel_name
        &&& selects_channel(
            *inner,
            self.select_channel.channel_name,
            self.select_channel.uppercase_channel_display_name@,
            self.select_channel.save_to_database,
        )
    }

    proof fn lemma_builds_alike(&self, c1: Command, c2: Command, d1: Command, d2: Command) {
        lemma_options_alike_push(c1.options@, c2.options@, d1.options@.last(), d2.options@.last());
        reveal_with_fuel(responders_alike, 2);
    }

    fn run(&self, command: Command) -> (r: Command) {
        let selected = self.select_channel.run(command);
        let Command { administrator_id, description, default_permission, options, response, permission } = selected;
        let inner_response = match response {
            Some(response) => response,
            None => Responder::Topic,
        };
        Command {
            administrator_id,
            description,
            default_permission,
            options,
            response: Some(
                Responder::RoleToggleMessage {
                    channel_message: self.channel_message,
                    interaction_id: self.interaction_id,
                    channel_name: self.select_channel.channel_name,
                    inner: Box::new(inner_response),
                },
            ),
            permission,
        }
    }
}

/// The message posted in the selected channel: the text and a toggle button.
pub fn role_toggle_message(channel_message: &str, interaction_id: &str) -> (m: MessageData)
    ensures
        m.content matches Some(c) && c@ == channel_message@,
        !m.ephemeral,
        m.component matches Some(Component::Button(b)) && is_button(b, interaction_id@, "Değiştir"@, ButtonStyle::Primary),
{
    MessageData {
        content: Some(channel_message.to_owned()),
        ephemeral: false,
        component: Some(Component::Button(make_button(interaction_id, "Değiştir", ButtonStyle::Primary))),
    }
}

/// The role-toggle command is the channel-selection command it wraps with
/// only the response replaced: built from the same command, both have the
/// same administrator, permission, description, default permission and
/// options (so it asks for the channel as the selection does), and its
/// response runs the selection's response after posting the toggle message.
pub proof fn law_role_toggle_is_channel_selection(t: SendRoleToggleMessage, c: Command, d: Command, s: Command)
    requires
        t.builds(c, d),
        t.select_channel.builds(c, s),
    ensures
        d.administrator_id == s.administrator_id,
        d.permission == s.permission,
        texts_alike(d.description, s.description),
        d.default_permission == s.default_permission,
        options_alike(d.options@, s.options@),
        d.response matches Some(Responder::RoleToggleMessage { inner, .. }) && s.response matches Some(x)
            && responders_alike(*inner, x),
{
    assert(options_alike(c.options@, c.options@));
    lemma_options_alike_push(c.options@, c.options@, d.options@.last(), s.options@.last());
}

} // verus!
