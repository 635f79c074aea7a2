//! A command that lets the administrator pick a channel for some role in
//! the help flow, optionally recording it.

use vstd::prelude::*;
use crate::command::command::{
    lemma_options_alike_push,
    ephemeral_text, is_ephemeral_text, is_option, Command, CommandOption, OptionKind, Permission,
    PermissionKind, Responder, Response,
};
use crate::command::channel_actions::is_channel_responder;
use crate::command::template::Template;
use crate::text::{capitalize_first, capitalized, channel_mention, channel_mention_text, concat2, concat3};

verus! {

pub const CHANNEL_OPTION: &'static str = "channel";

#[derive(Debug)]
pub struct SelectChannelTemplate {
    pub channel_name: &'static str,
    pub channel_display_name: &'static str,
    pub uppercase_channel_display_name: String,
    pub save_to_database: bool,
}

impl SelectChannelTemplate {
    pub fn new(channel_name: &'static str, channel_display_name: &'static str, save_to_database: bool) -> (t: Self)
        ensures
            t.channel_name == channel_name,
            t.channel_display_name == channel_display_name,
            t.uppercase_channel_display_name@ == capitalized(channel_display_name@),
            t.save_to_database == save_to_database,
    {
        let uppercase_channel_display_name = capitalize_first(channel_display_name);
        SelectChannelTemplate { channel_name, channel_display_name, uppercase_channel_display_name, save_to_database }
    }
}

/// The command's description.
pub open spec fn select_channel_description(upper: Seq<char>) -> Seq<char> {
    upper + " kanalını seçer."@
}

/// The description of its channel option.
pub open spec fn select_channel_option_description(display: Seq<char>) -> Seq<char> {
    "Seçilecek "@ + display + " kanalı."@
}

/// The confirmation once `channel_id` is selected.
pub open spec fn select_channel_reply_text(upper: Seq<char>, channel_id: nat) -> Seq<char> {
    upper + " kanalı başarıyla "@ + channel_mention(channel_id) + " olarak seçildi."@
}

/// `r` answers by confirming the selection of a channel recorded under
/// `channel_name` (when `save`), named `upper` in the confirmation.
pub open spec fn selects_channel(r: Responder, channel_name: &'static str, upper: Seq<char>, save: bool) -> bool {
    &&& r matches Responder::SelectChannel { channel_name: n, uppercase_display_name: u, save_to_database: s }
    &&& n == channel_name
    &&& u@ == upper
    &&& s == save
}

/// The command's one permission override: only the administrator may run it.
pub open spec fn administrator_only(p: Option<Permission>, administrator_id: u64) -> bool {
    p == Some(Permission { id: administrator_id, kind: PermissionKind::User, allowed: true })
}

impl Template for SelectChannelTemplate {
    open spec fn builds(&self, command: Command, r: Command) -> bool {
        &&& r.administrator_id == command.administrator_id
        &&& r.description matches Some(d)
        &&& d@ == select_channel_description(self.uppercase_channel_display_name@)
        &&& r.default_permission == Some(false)
        &&& r.options@ == command.options@.push(r.options@.last())
        &&& is_option(
            r.options@.last(),
            CHANNEL_OPTION@,
            OptionKind::Channel,
            true,
            select_channel_option_description(self.channel_display_name@),
        )
        &&& administrator_only(r.permission, command.administrator_id)
        &&& r.response matches Some(resp)
        &&& selects_channel(resp, self.channel_name, self.uppercase_channel_display_name@, self.save_to_database)
    }

    proof fn lemma_builds_alike(&self, c1: Command, c2: Command, d1: Command, d2: Command) {
        lemma_options_alike_push(c1.options@, c2.options@, d1.options@.last(), d2.options@.last());
    }

    fn run(&self, command: Command) -> (r: Command) {
        let mut command = command;
        let administrator_id = command.administrator_id;
        let description = concat2(self.uppercase_channel_display_name.as_str(), " kanalını seçer.");
        command.description(description.as_str());
        command.default_permission(false);
        let option = CommandOption {
            name: CHANNEL_OPTION.to_owned(),
            kind: OptionKind::Channel,
            required: true,
            description: concat3("Seçilecek ", self.channel_display_name, " kanalı."),
        };
        command.create_option(option);
        command.set_permissions(Permission { id: administrator_id, kind: PermissionKind::User, allowed: true });
        command.set_response(
            Responder::SelectChannel {
                channel_name: self.channel_name,
                uppercase_display_name: self.uppercase_channel_display_name.clone(),
                save_to_database: self.save_to_database,
            },
        );
        command
    }
}

/// The confirmation sent once the administrator selected `channel_id`.
pub fn select_channel_reply(uppercase_display_name: &str, channel_id: u64) -> (r: Response)
    ensures
        is_ephemeral_text(r, select_channel_reply_text(uppercase_display_name@, channel_id as nat)),
{
    let mention = channel_mention_text(channel_id);
    let mut text = concat3(uppercase_display_name, " kanalı başarıyla ", mention.as_str());
    text.append(" olarak seçildi.");
    ephemeral_text(text)
}

/// The channel-selection command asks the administrator for a channel: it
/// keeps the options it started from and adds one, the required option
/// named "channel" of kind Channel, which is what its response reads the
/// chosen channel from.
pub proof fn law_select_channel_asks_for_a_channel(t: SelectChannelTemplate, c: Command, d: Command)
    requires
        t.builds(c, d),
    ensures
        d.options@.len() == c.options@.len() + 1,
        d.options@.take(c.options@.len() as int) == c.options@,
        d.options@.last().name@ == "channel"@,
        d.options@.last().kind == OptionKind::Channel,
        d.options@.last().required,
        d.options@.last().description@ == "Seçilecek "@ + t.channel_display_name@ + " kanalı."@,
        d.response matches Some(r) && is_channel_responder(r),
{
    reveal_strlit("channel");
    assert(d.options@.take(c.options@.len() as int) =~= c.options@);
}

} // verus!
