//! What the channel-picking commands do once the administrator chose a
//! channel: the records to write, the messages to post, and the reply, in
//! the order they happen.

use vstd::prelude::*;
use crate::command::command::{is_button, is_ephemeral_text, ButtonStyle, Component, MessageData, Responder, Response};
use crate::command::templates::select_channel::{select_channel_reply, select_channel_reply_text};
use crate::command::templates::send_role_toggle_message::role_toggle_message;
use crate::command::templates::set_channel::{set_channel_reply, set_channel_reply_text};

verus! {

/// One step of answering a channel-picking command.
#[derive(Debug)]
pub enum ChannelAction {
    /// Record `channel_id` as the channel named `key`.
    RecordChannel { key: &'static str, channel_id: u64 },
    /// Delete the message recorded under `key`, if one is.
    DeleteRecordedMessage { key: &'static str },
    /// Post `message` in `channel_id` and record it under `record_key`.
    PostMessage { channel_id: u64, message: MessageData, record_key: &'static str },
    /// Answer the command with this, ending the steps.
    Reply(Response),
}

/// The responders that act on one chosen channel.
pub open spec fn is_channel_responder(r: Responder) -> bool
    decreases r,
{
    match r {
        Responder::SelectChannel { .. } => true,
        Responder::SetChannel { .. } => true,
        Responder::RoleToggleMessage { inner, .. } => is_channel_responder(*inner),
        _ => false,
    }
}

/// `m` is the toggle message: the text and its toggle button.
pub open spec fn is_toggle_message(m: MessageData, text: Seq<char>, interaction_id: Seq<char>) -> bool {
    &&& m.content matches Some(c)
    &&& c@ == text
    &&& !m.ephemeral
    &&& m.component matches Some(Component::Button(b))
    &&& is_button(b, interaction_id, "Değiştir"@, ButtonStyle::Primary)
}

/// `actions` are the steps `r` takes on `channel_id`:
/// - selecting a channel records it when asked to, then confirms;
/// - setting a channel records it under its key, then confirms;
/// - the role-toggle message first deletes the message recorded before,
///   posts the new one in the channel and records it, then goes on with the
///   steps of the channel selection it wraps.
pub open spec fn channel_steps(r: Responder, channel_id: u64, actions: Seq<ChannelAction>) -> bool
    decreases r,
{
    match r {
        Responder::SelectChannel { channel_name, uppercase_display_name, save_to_database } => {
            let reply = if save_to_database { 1int } else { 0int };
            &&& actions.len() == reply + 1
            &&& save_to_database ==> actions[0] == ChannelAction::RecordChannel { key: channel_name, channel_id }
            &&& actions[reply] matches ChannelAction::Reply(resp)
            &&& is_ephemeral_text(resp, select_channel_reply_text(uppercase_display_name@, channel_id as nat))
        },
        Responder::SetChannel { channel_key, uppercase_name } => {
            &&& actions.len() == 2
            &&& actions[0] == ChannelAction::RecordChannel { key: channel_key, channel_id }
            &&& actions[1] matches ChannelAction::Reply(resp)
            &&& is_ephemeral_text(resp, set_channel_reply_text(uppercase_name@, channel_id as nat))
        },
        Responder::RoleToggleMessage { channel_message, interaction_id, channel_name, inner } => {
            &&& actions.len() >= 2
            &&& actions[0] == ChannelAction::DeleteRecordedMessage { key: channel_name }
            &&& actions[1] matches ChannelAction::PostMessage { channel_id: posted_in, message, record_key }
            &&& posted_in == channel_id
            &&& record_key == channel_name
            &&& is_toggle_message(message, channel_message@, interaction_id@)
            &&& channel_steps(*inner, channel_id, actions.skip(2))
        },
        _ => false,
    }
}

/// The steps a channel-picking responder takes once `channel_id` was chosen.
pub fn channel_actions(responder: &Responder, channel_id: u64) -> (r: Vec<ChannelAction>)
    requires
        is_channel_responder(*responder),
    ensures
        channel_steps(*responder, channel_id, r@),
    decreases *responder,
{
    match responder {
        Responder::SelectChannel { channel_name, uppercase_display_name, save_to_database } => {
            let mut actions: Vec<ChannelAction> = Vec::new();
            if *save_to_database {
                actions.push(ChannelAction::RecordChannel { key: *channel_name, channel_id });
            }
            actions.push(ChannelAction::Reply(select_channel_reply(uppercase_display_name.as_str(), channel_id)));
            actions
        },
        Responder::SetChannel { channel_key, uppercase_name } => {
            let mut actions: Vec<ChannelAction> = Vec::new();
            actions.push(ChannelAction::RecordChannel { key: *channel_key, channel_id });
            actions.push(ChannelAction::Reply(set_channel_reply(uppercase_name.as_str(), channel_id)));
            actions
        },
        Responder::RoleToggleMessage { channel_message, interaction_id, channel_name, inner } => {
            let mut actions: Vec<ChannelAction> = Vec::new();
            actions.push(ChannelAction::DeleteRecordedMessage { key: *channel_name });
            actions.push(
                ChannelAction::PostMessage {
                    channel_id,
                    message: role_toggle_message(channel_message, interaction_id),
                    record_key: *channel_name,
                },
            );
            let mut rest = channel_actions(inner, channel_id);
            let ghost rest_view = rest@;
            actions.append(&mut rest);
            assert(actions@.skip(2) =~= rest_view);
            actions
        },
        _ => Vec::new(),
    }
}

} // verus!
