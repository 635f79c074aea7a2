//! A command that lets the administrator set the channel recorded under a
//! fixed key.

use vstd::prelude::*;
use crate::command::command::{
    lemma_options_alike_push,
    ephemeral_text, is_ephemeral_text, is_option, Command, CommandOption, OptionKind, Permission,
    PermissionKind, Responder, Response,
};
use crate::command::channel_actions::is_channel_responder;
use crate::command::template::Template;
use crate::command::templates::select_channel::{administrator_only, CHANNEL_OPTION};
use crate::text::{capitalize_first, capitalized, channel_mention, channel_mention_text, concat2, concat3};

verus! {

#[derive(Debug)]
pub struct SetChannelTemplate {
    /// Shown to the administrator.
    pub channel_name: &'static str,
    /// The key the channel is recorded under.
    pub channel_id: &'static str,
    pub uppercase_channel_name: String,
}

impl SetChannelTemplate {
    pub fn new(channel_name: &'static str, channel_id: &'static str) -> (t: Self)
        ensures
            t.channel_name == channel_name,
            t.channel_id == channel_id,
            t.uppercase_channel_name@ == capitalized(channel_name@),
    {
        let uppercase_channel_name = capitalize_first(channel_name);
        SetChannelTemplate { channel_name, channel_id, uppercase_channel_name }
    }
}

/// The command's description.
pub open spec fn set_channel_description(upper: Seq<char>) -> Seq<char> {
    upper + " kanalını ayarlar."@
}

/// The description of its channel option.
pub open spec fn set_channel_option_description(name: Seq<char>) -> Seq<char> {
    "Ayarlanacak "@ + name + " kanalı."@
}

/// The confirmation once `channel_id` is set.
pub open spec fn set_channel_reply_text(upper: Seq<char>, channel_id: nat) -> Seq<char> {
    upper + " kanalı başarıyla "@ + channel_mention(channel_id) + " olarak ayarlandı."@
}

impl Template for SetChannelTemplate {
    open spec fn builds(&self, command: Command, r: Command) -> bool {
        &&& r.administrator_id == command.administrator_id
        &&& r.description matches Some(d)
        &&& d@ == set_channel_description(self.uppercase_channel_name@)
        &&& r.default_permission == Some(false)
        &&& r.options@ == command.options@.push(r.options@.last())
        &&& is_option(
            r.options@.last(),
            CHANNEL_OPTION@,
            OptionKind::Channel,
            true,
            set_channel_option_description(self.channel_name@),
        )
        &&& administrator_only(r.permission, command.administrator_id)
        &&& r.response matches Some(Responder::SetChannel { channel_key, uppercase_name })
        &&& channel_key == self.channel_id
        &&& uppercase_name@ == self.uppercase_channel_name@
    }

    proof fn lemma_builds_alike(&self, c1: Command, c2: Command, d1: Command, d2: Command) {
        lemma_options_alike_push(c1.options@, c2.options@, d1.options@.last(), d2.options@.last());
    }

    fn run(&self, command: Command) -> (r: Command) {
        let mut command = command;
        let administrator_id = command.administrator_id;
        let description = concat2(self.uppercase_channel_name.as_str(), " kanalını ayarlar.");
        command.description(description.as_str());
        command.default_permission(false);
        let option = CommandOption {
            name: CHANNEL_OPTION.to_owned(),
            kind: OptionKind::Channel,
            required: true,
            description: concat3("Ayarlanacak ", self.channel_name, " kanalı."),
        };
        command.create_option(option);
        command.set_permissions(Permission { id: administrator_id, kind: PermissionKind::User, allowed: true });
        command.set_response(
            Responder::SetChannel {
                channel_key: self.channel_id,
                uppercase_name: self.uppercase_channel_name.clone(),
            },
        );
        command
    }
}

/// The confirmation sent once the administrator set `channel_id`.
pub fn set_channel_reply(uppercase_name: &str, channel_id: u64) -> (r: Response)
    ensures
        is_ephemeral_text(r, set_channel_reply_text(uppercase_name@, channel_id as nat)),
{
    let mention = channel_mention_text(channel_id);
    let mut text = concat3(uppercase_name, " kanalı başarıyla ", mention.as_str());
    text.append(" olarak ayarlandı.");
    ephemeral_text(text)
}

/// The set-channel command asks the administrator for a channel: it keeps
/// the options it started from and adds one, the required option named
/// "channel" of kind Channel, which is what its response reads the chosen
/// channel from.
pub proof fn law_set_channel_asks_for_a_channel(t: SetChannelTemplate, c: Command, d: Command)
    requires
        t.builds(c, d),
    ensures
        d.options@.len() == c.options@.len() + 1,
        d.options@.take(c.options@.len() as int) == c.options@,
        d.options@.last().name@ == "channel"@,
        d.options@.last().kind == OptionKind::Channel,
        d.options@.last().required,
        d.options@.last().description@ == "Ayarlanacak "@ + t.channel_name@ + " kanalı."@,
        d.response matches Some(r) && is_channel_responder(r),
{
    reveal_strlit("channel");
    assert(d.options@.take(c.options@.len() as int) =~= c.options@);
}

} // verus!
