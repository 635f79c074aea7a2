//! The command that adds a channel category to the help categories, or
//! removes it when it is one already.

use vstd::prelude::*;
use crate::command::command::{
    ephemeral_text, is_ephemeral_text, is_option, Command, CommandOption, OptionKind, Permission,
    PermissionKind, Responder, Response,
};
use crate::command::option::{ChannelKind, PartialChannel};
use crate::command::templates::select_channel::administrator_only;
use crate::text::{channel_mention, channel_mention_text, concat2, replace_all, replaced};

verus! {

pub const CATEGORY_OPTION: &'static str = "category";

pub const ADD_HELP_CATEGORY_DESCRIPTION: &'static str = "Yardım kategorisi ekler veya çıkartır.";
pub const ADD_HELP_CATEGORY_OPTION_DESCRIPTION: &'static str = "Eklenecek veya çıkartılacak yardım kategorisi.";

/// The prefix removed from a category's name when it is recorded.
pub const HELP_CATEGORY_PREFIX: &'static str = "Yardımlaşma: ";

pub const NOT_A_CATEGORY: &'static str = " bir kategori değil, lütfen bir kategori seçiniz.";
pub const CATEGORY_REMOVED: &'static str = " yardım kategorileri arasından çıkartıldı.";
pub const CATEGORY_ADDED: &'static str = " yardım kategorileri arasına eklendi.";

/// Builds the command that adds or removes a help category.
pub fn add_help_category_fn(command: Command) -> (r: Command)
    ensures
        r.administrator_id == command.administrator_id,
        r.description matches Some(d) && d@ == ADD_HELP_CATEGORY_DESCRIPTION@,
        r.default_permission == Some(false),
        r.options@ == command.options@.push(r.options@.last()),
        is_option(
            r.options@.last(),
            CATEGORY_OPTION@,
            OptionKind::Channel,
            true,
            ADD_HELP_CATEGORY_OPTION_DESCRIPTION@,
        ),
        administrator_only(r.permission, command.administrator_id),
        r.response == Some(Responder::AddHelpCategory),
{
    let mut command = command;
    let administrator_id = command.administrator_id;
    command.description(ADD_HELP_CATEGORY_DESCRIPTION);
    command.default_permission(false);
    command.create_option(
        CommandOption {
            name: CATEGORY_OPTION.to_owned(),
            kind: OptionKind::Channel,
            required: true,
            description: ADD_HELP_CATEGORY_OPTION_DESCRIPTION.to_owned(),
        },
    );
    command.set_permissions(Permission { id: administrator_id, kind: PermissionKind::User, allowed: true });
    command.set_response(Responder::AddHelpCategory);
    command
}

/// Refuses a channel that is not a category.
pub fn help_category_check(category: &PartialChannel) -> (r: Option<Response>)
    ensures
        category.kind == ChannelKind::Category ==> r is None,
        category.kind != ChannelKind::Category ==> (r matches Some(resp) && is_ephemeral_text(
            resp,
            channel_mention(category.id as nat) + NOT_A_CATEGORY@,
        )),
{
    if category.kind != ChannelKind::Category {
        let mention = channel_mention_text(category.id);
        Some(ephemeral_text(concat2(mention.as_str(), NOT_A_CATEGORY)))
    } else {
        None
    }
}

/// The change to the recorded help categories.
#[derive(Debug)]
pub enum CategoryChange {
    Remove(u64),
    /// Records the category id with this name.
    Insert(u64, String),
}

/// Removes a recorded category, or records a new one under its name
/// without the help prefix, and says which happened.
pub fn help_category_toggle(category: &PartialChannel, exists: bool) -> (r: (CategoryChange, Response))
    ensures
        exists ==> r.0 == CategoryChange::Remove(category.id) && is_ephemeral_text(
            r.1,
            channel_mention(category.id as nat) + CATEGORY_REMOVED@,
        ),
        !exists ==> (r.0 matches CategoryChange::Insert(id, name) && id == category.id && name@ == replaced(
            category.name@,
            HELP_CATEGORY_PREFIX@,
            Seq::empty(),
        )) && is_ephemeral_text(r.1, channel_mention(category.id as nat) + CATEGORY_ADDED@),
{
    let mention = channel_mention_text(category.id);
    if exists {
        (CategoryChange::Remove(category.id), ephemeral_text(concat2(mention.as_str(), CATEGORY_REMOVED)))
    } else {
        proof {
            reveal_strlit("Yardımlaşma: ");
            reveal_strlit("");
            assert(""@ =~= Seq::<char>::empty());
        }
        let name = replace_all(category.name.as_str(), HELP_CATEGORY_PREFIX, "");
        (CategoryChange::Insert(category.id, name), ephemeral_text(concat2(mention.as_str(), CATEGORY_ADDED)))
    }
}

} // verus!
