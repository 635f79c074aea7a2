//! The answer to a chosen channel: remember it, and ask for confirmation.

use vstd::prelude::*;
use crate::cache::SelectedChannelsCache;
use crate::command::command::{is_button, make_button, ButtonStyle, Component, MessageData, Response};
use crate::lru_cache::lru_after_put;
use crate::text::{channel_mention, channel_mention_text, concat3};

verus! {

pub const HELP_CREATE_CLICK_ID: &'static str = "help_create_click";
pub const CONFIRM_LABEL: &'static str = "Onaylıyorum, Sorumu Sor";
pub const CONFIRM_TEXT_START: &'static str = "Sorunuzu ";
pub const CONFIRM_TEXT_END: &'static str = " kanalına sormak istediğinizden eminseniz aşağıdaki onaylama, butonuna tıklayınız. Sorunuzu yolladıktan sonra ``/topic`` komutunu kullanarak sorunuza açıklayıcı kısa bir başlık vermeyi unutmayın! Ayrıca, sadece 10 dakikada bir soru konusu açabilirsiniz.";

/// The confirmation request for a question in `channel_id`.
pub open spec fn confirm_text(channel_id: nat) -> Seq<char> {
    CONFIRM_TEXT_START@ + channel_mention(channel_id) + CONFIRM_TEXT_END@
}

/// `m` is the ephemeral confirmation request with its confirm button.
pub open spec fn asks_confirmation(m: MessageData, channel_id: nat) -> bool {
    &&& m.ephemeral
    &&& m.content matches Some(c)
    &&& c@ == confirm_text(channel_id)
    &&& m.component matches Some(Component::Button(b))
    &&& is_button(b, HELP_CREATE_CLICK_ID@, CONFIRM_LABEL@, ButtonStyle::Danger)
}

/// Remembers that `user_id` picked `channel_id` and asks them to confirm.
pub fn button_create_step(selected: &mut SelectedChannelsCache, user_id: u64, channel_id: u64) -> (r: Response)
    requires
        old(selected).wf(),
    ensures
        final(selected).wf(),
        final(selected).entries() == lru_after_put(
            old(selected).entries(),
            old(selected).capacity(),
            user_id,
            channel_id,
        ),
        final(selected).capacity() == old(selected).capacity(),
        r matches Response::Message(m) && asks_confirmation(m, channel_id as nat),
{
    selected.put(user_id, channel_id);
    let mention = channel_mention_text(channel_id);
    Response::Message(
        MessageData {
            content: Some(concat3(CONFIRM_TEXT_START, mention.as_str(), CONFIRM_TEXT_END)),
            ephemeral: true,
            component: Some(Component::Button(make_button(HELP_CREATE_CLICK_ID, CONFIRM_LABEL, ButtonStyle::Danger))),
        },
    )
}

} // verus!
