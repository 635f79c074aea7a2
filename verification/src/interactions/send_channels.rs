//! The answer to a chosen category: a menu of its channels.

use vstd::prelude::*;
use crate::command::command::{Component, MessageData, Response, SelectMenu, SelectMenuOption};
use crate::interactions::send_categories::is_select_message;
use crate::text::{decimal, parse_u64, parse_u64_spec, u64_to_decimal};

verus! {

pub const HELP_SELECT_CHANNEL_ID: &'static str = "help_select_channel";
pub const CHANNEL_PLACEHOLDER: &'static str = "Sormak istediğiniz kanal";
pub const CHANNELS_TEXT: &'static str = "Sormak istediğiniz kanalı seçiniz.\n                    ";

/// A channel of the guild.
#[derive(Debug)]
pub struct GuildChannelInfo {
    pub id: u64,
    pub name: String,
    pub category_id: Option<u64>,
}

/// The first selected value read as an id, as `values.first()` followed by
/// `parse::<u64>()`.
pub fn first_value_as_id(values: &Vec<String>) -> (r: Option<u64>)
    ensures
        values.len() == 0 ==> r is None,
        values.len() > 0 ==> r == parse_u64_spec(values@[0]@),
{
    if values.len() == 0 {
        None
    } else {
        parse_u64(values[0].as_str())
    }
}

/// The channels filed under `category_id`, order kept.
pub open spec fn channels_in(channels: Seq<GuildChannelInfo>, category_id: u64) -> Seq<GuildChannelInfo> {
    channels.filter(|c: GuildChannelInfo| c.category_id == Some(category_id))
}

/// A channel is offered exactly when it is filed under the chosen
/// category: every offered channel is one of the guild's channels whose
/// category is `category_id` (so never a channel outside any category, such
/// as the category itself), and every such channel is offered.
pub proof fn law_offered_exactly_when_filed_under(channels: Seq<GuildChannelInfo>, category_id: u64)
    ensures
        forall|k: int|
            0 <= k < channels_in(channels, category_id).len() ==> (#[trigger] channels_in(channels, category_id)[k]).category_id
                == Some(category_id) && channels.contains(channels_in(channels, category_id)[k]),
        forall|i: int|
            0 <= i < channels.len() && (#[trigger] channels[i]).category_id == Some(category_id)
                ==> channels_in(channels, category_id).contains(channels[i]),
{
    let pred = |c: GuildChannelInfo| c.category_id == Some(category_id);
    assert forall|k: int| 0 <= k < channels_in(channels, category_id).len() implies (
    #[trigger] channels_in(channels, category_id)[k]).category_id == Some(category_id) && channels.contains(
        channels_in(channels, category_id)[k],
    ) by {
        channels.lemma_filter_pred(pred, k);
        assert(channels.filter(pred).contains(channels.filter(pred)[k]));
        channels.lemma_filter_contains_rev(pred, channels.filter(pred)[k]);
    }
    assert forall|i: int|
        0 <= i < channels.len() && (#[trigger] channels[i]).category_id == Some(category_id) implies channels_in(
        channels,
        category_id,
    ).contains(channels[i]) by {
        channels.lemma_filter_contains(pred, i);
    }
}

/// The channels of a longer list are those of the shorter one, followed by
/// the added channel exactly when it is filed under `category_id`: the
/// menu keeps the guild's order and adds nothing else.
pub proof fn law_channels_in_push(channels: Seq<GuildChannelInfo>, c: GuildChannelInfo, category_id: u64)
    ensures
        channels_in(Seq::empty(), category_id).len() == 0,
        channels_in(channels.push(c), category_id) == if c.category_id == Some(category_id) {
            channels_in(channels, category_id).push(c)
        } else {
            channels_in(channels, category_id)
        },
{
    reveal_with_fuel(Seq::filter, 1);
    assert(channels.push(c).drop_last() =~= channels);
}

/// The menu of the channels filed under `category_id`, each shown by name
/// and chosen by id.
pub fn channels_menu(channels: &Vec<GuildChannelInfo>, category_id: u64) -> (r: Response)
    ensures
        r matches Response::Message(m) && is_select_message(
            m,
            CHANNELS_TEXT@,
            HELP_SELECT_CHANNEL_ID@,
            CHANNEL_PLACEHOLDER@,
            channels_in(channels@, category_id).map_values(|c: GuildChannelInfo| c.name@),
            channels_in(channels@, category_id).map_values(|c: GuildChannelInfo| decimal(c.id as nat)),
        ),
{
    let ghost pred = |c: GuildChannelInfo| c.category_id == Some(category_id);
    let mut options: Vec<SelectMenuOption> = Vec::new();
    let mut i: usize = 0;
    assert(channels@.take(0).filter(pred) =~= Seq::<GuildChannelInfo>::empty());
    while i < channels.len()
        invariant
            i <= channels.len(),
            pred == (|c: GuildChannelInfo| c.category_id == Some(category_id)),
            options@.len() == channels@.take(i as int).filter(pred).len(),
            forall|k: int|
                0 <= k < options@.len() ==> #[trigger] options@[k].label@ == channels@.take(i as int).filter(
                    pred,
                )[k].name@ && options@[k].value@ == decimal(
                    channels@.take(i as int).filter(pred)[k].id as nat,
                ),
        decreases channels.len() - i,
    {
        let channel = &channels[i];
        let ghost before = channels@.take(i as int);
        assert(channels@.take(i + 1) =~= before.push(channels@[i as int]));
        reveal_with_fuel(Seq::filter, 1);
        assert(before.push(channels@[i as int]).drop_last() =~= before);
        if channel.category_id == Some(category_id) {
            options.push(SelectMenuOption { label: channel.name.clone(), value: u64_to_decimal(channel.id) });
        }
        i = i + 1;
    }
    assert(channels@.take(channels.len() as int) =~= channels@);
    proof {
        let kept = channels_in(channels@, category_id);
        assert(kept == channels@.filter(pred));
        let labels = kept.map_values(|c: GuildChannelInfo| c.name@);
        let values = kept.map_values(|c: GuildChannelInfo| decimal(c.id as nat));
        assert forall|k: int| 0 <= k < labels.len() implies #[trigger] options@[k].label@ == labels[k]
            && options@[k].value@ == values[k] by {}
    }
    Response::Message(
        MessageData {
            content: Some(CHANNELS_TEXT.to_owned()),
            ephemeral: true,
            component: Some(
                Component::SelectMenu(
                    SelectMenu {
                        custom_id: HELP_SELECT_CHANNEL_ID.to_owned(),
                        placeholder: CHANNEL_PLACEHOLDER.to_owned(),
                        min_values: 1,
                        max_values: 1,
                        options,
                    },
                ),
            ),
        },
    )
}

} // verus!
