//! The command that sets the help channel and posts the help message there.

use vstd::prelude::*;
use crate::command::command::{
    ephemeral_text, is_button, is_ephemeral_text, is_option, make_button, ButtonStyle, Command,
    CommandOption, Component, MessageData, OptionKind, Permission, PermissionKind, Responder, Response,
};
use crate::command::channel_actions::ChannelAction;
use crate::command::templates::select_channel::administrator_only;
use crate::text::{channel_mention, channel_mention_text, concat3};

verus! {

pub const HELP_MESSAGE: &'static str = "help";
pub const HELP_BUTTON_CLICK_ID: &'static str = "help_button_click";

pub const CHANNEL_OPTION: &'static str = "channel";

pub const SET_HELP_CHANNEL_DESCRIPTION: &'static str = "Yardım kanalını ayarlar ve yardım mesajını yollar.";
pub const SET_HELP_CHANNEL_OPTION_DESCRIPTION: &'static str = "Ayarlanacak yardım kanalı.";

pub const NO_GUIDELINES_CHANNEL: &'static str = "Yönergeler kanalı mevcut değil, ``/set_guidelines_channel``komutunu kullanarak oluşturun.";
pub const NO_HELP_LOG_ANSWERED_CHANNEL: &'static str = "Help log bekleyen kanalı mevcut değil, ``/set_help_log_waiting_channel``komutunu kullanarak oluşturun.";
pub const NO_HELP_LOG_WAITING_CHANNEL: &'static str = "Help log çözümlenmiş kanalı mevcut değil, ``/set_help_answered_log_channel``komutunu kullanarak oluşturun.";

pub const HELP_TEXT_START: &'static str = "Organizasyonun daha kolay olması açısından yardım kanallarını dolaylı yoldan bot aracılığıyla kullanıyoruz. Soru sormadan veya birisinin sorusunu cevaplamadan önce ilk olarak ";
pub const HELP_TEXT_MIDDLE: &'static str = "'i okuduğunuzdan ve anladığınızdan emin olunuz. Sorulan her soru ";
pub const HELP_TEXT_END: &'static str = " kanalına gidecektir, buradan cevap almamış soruları takip edebilirsiniz.\n\nSorunuzu sorarken daha kolay cevap alabilmeniz açısından bazı önerilerimiz mevcut. Bunlar;\n**1 -** En uygun kategori ve kanala sorduğunuzdan emin olun.\n**2 -** Kolay anlaşılabilir bir dile sahip olmasına özen gösterin.\n**3 -** Yeterli miktarda kod paylaşın, sorununuzun bir başkası tarafından test edilebilir olmasını sağlayın. Eğer ki sorununuzun çözülmesi için size kodunuzla alakalı tekrar tekrar soru sorulup sizden ek bilgi/kod isteniyorsa eksik bilgi vermişsiniz demektir.\n**4 -** Alâkasız detayları atlayın. Sorunuz rahat anlaşılabilir olması bakımından olabildiğince sade olmalı. Bir şeyi neden yaptığınız, eğer ki sorununuzun anlaşılması için bir faydada bulunmuyorsa bunu söylemeyi tekrardan düşünün.\n**5 -** XY probleminden kaçının. Eğer ki yapmak istediğiniz şey X ise ve bunu Y ile çözebileceğinize inanıyorsanız kendinizi çok çabuk bir şekilde Y ile alakalı bir sıkıntıyı çözerken ve bunu sorarken bulabilirsiniz. Bu hatalı bir çıkarım olduğu vakit boşu boşuna Y'ye çözüm üretmeye vakit harcamış olursunuz.\n**6 -** En önemlisi size yardım eden kişinin dakikalarını çaldığınızı asla unutmayın. Eğer ki karşıdaki sizin sorununuzu çözmek için 15 dakika vaktini feda edebiliyorsa, siz o sorunu çözmek için en az bir 15 dakika, soracağınız soruyu hazırlamak için de ayrı bir 15 dakika harcamış olmalısınız.\n\nEğer ki yönergeler ve öneriler konusunda bir sıkıntı çekeceğinizi düşünmüyorsanız lütfen aşağıdaki butona tıklayarak sorunuzu sormaya devam ediniz.";

pub const SHOW_CATEGORIES_LABEL: &'static str = "Kategorileri Göster";

/// The help message, pointing first at the guidelines channel and then at
/// the channel where questions are followed.
pub open spec fn help_text(guidelines: nat, log_channel: nat) -> Seq<char> {
    HELP_TEXT_START@ + channel_mention(guidelines) + HELP_TEXT_MIDDLE@ + channel_mention(log_channel)
        + HELP_TEXT_END@
}

/// `m` is the public help message with its button.
pub open spec fn posts_help_text(m: MessageData, guidelines: nat, log_channel: nat) -> bool {
    &&& !m.ephemeral
    &&& m.content matches Some(c)
    &&& c@ == help_text(guidelines, log_channel)
    &&& m.component matches Some(Component::Button(b))
    &&& is_button(b, HELP_BUTTON_CLICK_ID@, SHOW_CATEGORIES_LABEL@, ButtonStyle::Primary)
}

/// The confirmation once the help channel is set.
pub open spec fn help_channel_reply_text(channel_id: nat) -> Seq<char> {
    "Yardım kanalı başarıyla "@ + channel_mention(channel_id) + " olarak ayarlandı."@
}

/// Builds the command that sets the help channel.
pub fn set_help_channel_fn(command: Command) -> (r: Command)
    ensures
        r.administrator_id == command.administrator_id,
        r.description matches Some(d) && d@ == SET_HELP_CHANNEL_DESCRIPTION@,
        r.default_permission == Some(false),
        r.options@ == command.options@.push(r.options@.last()),
        is_option(r.options@.last(), CHANNEL_OPTION@, OptionKind::Channel, true, SET_HELP_CHANNEL_OPTION_DESCRIPTION@),
        administrator_only(r.permission, command.administrator_id),
        r.response == Some(Responder::SetHelpChannel),
{
    let mut command = command;
    let administrator_id = command.administrator_id;
    command.description(SET_HELP_CHANNEL_DESCRIPTION);
    command.default_permission(false);
    command.create_option(
        CommandOption {
            name: CHANNEL_OPTION.to_owned(),
            kind: OptionKind::Channel,
            required: true,
            description: SET_HELP_CHANNEL_OPTION_DESCRIPTION.to_owned(),
        },
    );
    command.set_permissions(Permission { id: administrator_id, kind: PermissionKind::User, allowed: true });
    command.set_response(Responder::SetHelpChannel);
    command
}

/// What setting the help channel leads to, once the recorded channels are
/// known.
#[derive(Debug)]
pub enum HelpChannelPlan {
    /// A channel the help message needs is not set: answer this instead.
    Refuse(Response),
    /// Post this message in the help channel.
    Post(MessageData),
}

/// Decides from the recorded guidelines, answered-log and waiting-log
/// channels whether the help message can be posted, checking them in that
/// order; the message points at the guidelines channel and at the
/// answered-log channel.
pub fn help_channel_plan(
    guidelines: Option<u64>,
    help_log_answered: Option<u64>,
    help_log_waiting: Option<u64>,
) -> (r: HelpChannelPlan)
    ensures
        guidelines is None ==> (r matches HelpChannelPlan::Refuse(resp) && is_ephemeral_text(
            resp,
            NO_GUIDELINES_CHANNEL@,
        )),
        guidelines is Some && help_log_answered is None ==> (r matches HelpChannelPlan::Refuse(resp)
            && is_ephemeral_text(resp, NO_HELP_LOG_ANSWERED_CHANNEL@)),
        guidelines is Some && help_log_answered is Some && help_log_waiting is None ==> (
        r matches HelpChannelPlan::Refuse(resp) && is_ephemeral_text(resp, NO_HELP_LOG_WAITING_CHANNEL@)),
        guidelines is Some && help_log_answered is Some && help_log_waiting is Some ==> (
        r matches HelpChannelPlan::Post(m) && posts_help_text(
            m,
            guidelines->0 as nat,
            help_log_answered->0 as nat,
        )),
{
    let guidelines = match guidelines {
        Some(id) => id,
        None => return HelpChannelPlan::Refuse(ephemeral_text(NO_GUIDELINES_CHANNEL.to_owned())),
    };
    let answered = match help_log_answered {
        Some(id) => id,
        None => return HelpChannelPlan::Refuse(ephemeral_text(NO_HELP_LOG_ANSWERED_CHANNEL.to_owned())),
    };
    if help_log_waiting.is_none() {
        return HelpChannelPlan::Refuse(ephemeral_text(NO_HELP_LOG_WAITING_CHANNEL.to_owned()));
    }
    let g = channel_mention_text(guidelines);
    let a = channel_mention_text(answered);
    let mut text = concat3(HELP_TEXT_START, g.as_str(), HELP_TEXT_MIDDLE);
    text.append(a.as_str());
    text.append(HELP_TEXT_END);
    HelpChannelPlan::Post(
        MessageData {
            content: Some(text),
            ephemeral: false,
            component: Some(
                Component::Button(make_button(HELP_BUTTON_CLICK_ID, SHOW_CATEGORIES_LABEL, ButtonStyle::Primary)),
            ),
        },
    )
}

/// The confirmation once the help message is posted in `channel_id`.
pub fn help_channel_reply(channel_id: u64) -> (r: Response)
    ensures
        is_ephemeral_text(r, help_channel_reply_text(channel_id as nat)),
{
    let mention = channel_mention_text(channel_id);
    ephemeral_text(concat3("Yardım kanalı başarıyla ", mention.as_str(), " olarak ayarlandı."))
}

/// The refusal when one of the recorded channels the help message needs is
/// missing, checked in the order guidelines, answered log, waiting log.
pub open spec fn help_channel_refusal_text(
    guidelines: Option<u64>,
    help_log_answered: Option<u64>,
) -> Seq<char> {
    if guidelines is None {
        NO_GUIDELINES_CHANNEL@
    } else if help_log_answered is None {
        NO_HELP_LOG_ANSWERED_CHANNEL@
    } else {
        NO_HELP_LOG_WAITING_CHANNEL@
    }
}

/// `actions` are the steps of setting the help channel to `channel_id`:
/// the help message recorded before is deleted first; then, when all three
/// recorded channels are known, the help message is posted in `channel_id`
/// and recorded as the help message, and the command is confirmed;
/// otherwise the command is answered with the refusal.
pub open spec fn help_channel_steps(
    channel_id: u64,
    guidelines: Option<u64>,
    help_log_answered: Option<u64>,
    help_log_waiting: Option<u64>,
    actions: Seq<ChannelAction>,
) -> bool {
    &&& actions.len() >= 2
    &&& actions[0] == ChannelAction::DeleteRecordedMessage { key: HELP_MESSAGE }
    &&& if guidelines is Some && help_log_answered is Some && help_log_waiting is Some {
        &&& actions.len() == 3
        &&& actions[1] matches ChannelAction::PostMessage { channel_id: posted_in, message, record_key }
        &&& posted_in == channel_id
        &&& record_key == HELP_MESSAGE
        &&& posts_help_text(message, guidelines->0 as nat, help_log_answered->0 as nat)
        &&& actions[2] matches ChannelAction::Reply(resp)
        &&& is_ephemeral_text(resp, help_channel_reply_text(channel_id as nat))
    } else {
        &&& actions.len() == 2
        &&& actions[1] matches ChannelAction::Reply(resp)
        &&& is_ephemeral_text(resp, help_channel_refusal_text(guidelines, help_log_answered))
    }
}

/// The steps of setting the help channel to `channel_id`, once the recorded
/// guidelines, answered-log and waiting-log channels are known.
pub fn help_channel_actions(
    channel_id: u64,
    guidelines: Option<u64>,
    help_log_answered: Option<u64>,
    help_log_waiting: Option<u64>,
) -> (r: Vec<ChannelAction>)
    ensures
        help_channel_steps(channel_id, guidelines, help_log_answered, help_log_waiting, r@),
{
    let mut actions: Vec<ChannelAction> = Vec::new();
    actions.push(ChannelAction::DeleteRecordedMessage { key: HELP_MESSAGE });
    match help_channel_plan(guidelines, help_log_answered, help_log_waiting) {
        HelpChannelPlan::Refuse(resp) => {
            actions.push(ChannelAction::Reply(resp));
        },
        HelpChannelPlan::Post(message) => {
            actions.push(ChannelAction::PostMessage { channel_id, message, record_key: HELP_MESSAGE });
            actions.push(ChannelAction::Reply(help_channel_reply(channel_id)));
        },
    }
    actions
}

} // verus!
