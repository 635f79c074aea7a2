//! The command with which the author of a new help thread gives it a
//! title.

use vstd::prelude::*;
use vstd::utf8::encode_utf8;
use crate::cache::HelpCreationMessagesCache;
use crate::command::command::{
    ephemeral_text, is_ephemeral_text, is_option, Command, CommandOption, OptionKind, Responder, Response,
};
use crate::command::option::ChannelKind;
use crate::lru_cache::{lemma_without, lru_without};
use crate::text::{concat3, user_mention, user_mention_text};

verus! {

pub const TEXT_OPTION: &'static str = "text";
/// Shortest title, in bytes.
pub const TOPIC_MIN_LEN: usize = 2;
/// Longest title, in bytes.
pub const TOPIC_MAX_LEN: usize = 100;

pub const TOPIC_DESCRIPTION: &'static str = "Soru başlığı değiştirir.";
pub const TOPIC_OPTION_DESCRIPTION: &'static str = "Konulacak başlık. En az 2, en fazla 100 harf olabilir.";
pub const NOT_YOUR_QUESTION: &'static str = "Bu komutu sadece size ait sorular içinde tek sefaya mahsus kullanabilirsiniz.";
pub const BAD_TOPIC_LENGTH: &'static str = "Başlığınız çok kısa veya çok uzun, 2-100 harf arasında olmalı.";

/// The placeholder message's new text once the title is set.
pub open spec fn titled_question_text(user_id: nat, topic: Seq<char>) -> Seq<char> {
    user_mention(user_id) + " bir soru sordu: **"@ + topic + "**"@
}

/// The confirmation of the new title.
pub open spec fn topic_reply_text(topic: Seq<char>) -> Seq<char> {
    "Başlık ``"@ + topic + "`` olarak değiştirildi."@
}

/// Builds the command that sets a question's title.
pub fn topic_fn(command: Command) -> (r: Command)
    ensures
        r.administrator_id == command.administrator_id,
        r.description matches Some(d) && d@ == TOPIC_DESCRIPTION@,
        r.default_permission == command.default_permission,
        r.options@ == command.options@.push(r.options@.last()),
        is_option(r.options@.last(), TEXT_OPTION@, OptionKind::String, true, TOPIC_OPTION_DESCRIPTION@),
        r.permission == command.permission,
        r.response == Some(Responder::Topic),
{
    let mut command = command;
    command.description(TOPIC_DESCRIPTION);
    command.create_option(
        CommandOption {
            name: TEXT_OPTION.to_owned(),
            kind: OptionKind::String,
            required: true,
            description: TOPIC_OPTION_DESCRIPTION.to_owned(),
        },
    );
    command.set_response(Responder::Topic);
    command
}

/// What a title request leads to.
#[derive(Debug)]
pub enum TopicOutcome {
    /// Answer this and change nothing.
    Refuse(Response),
    /// Rewrite the placeholder message in `channel_id`, rename the thread,
    /// then answer `reply`.
    Rename {
        channel_id: u64,
        message_id: u64,
        message_content: String,
        thread_name: String,
        reply: Response,
    },
}

/// Decides a title request made by `user_id` in channel `thread_id` of
/// kind `thread_kind`: only the author of a help thread still waiting for
/// its title may set it, once, to a title of 2 to 100 bytes. The thread is
/// then forgotten, so that a second request is refused.
pub fn topic_step(
    messages: &mut HelpCreationMessagesCache,
    thread_kind: ChannelKind,
    thread_id: u64,
    user_id: u64,
    topic: String,
) -> (r: TopicOutcome)
    requires
        old(messages).wf(),
    ensures
        final(messages).wf(),
        final(messages).capacity() == old(messages).capacity(),
        ({
            let is_thread = thread_kind == ChannelKind::PublicThread || thread_kind
                == ChannelKind::PrivateThread;
            let placeholder = old(messages).message_of(thread_id, user_id);
            let len = encode_utf8(topic@).len() as usize;
            if !is_thread || placeholder is None {
                &&& r matches TopicOutcome::Refuse(resp)
                &&& is_ephemeral_text(resp, NOT_YOUR_QUESTION@)
                &&& final(messages).entries() == old(messages).entries()
            } else if !(TOPIC_MIN_LEN <= len <= TOPIC_MAX_LEN) {
                &&& r matches TopicOutcome::Refuse(resp)
                &&& is_ephemeral_text(resp, BAD_TOPIC_LENGTH@)
                &&& final(messages).entries() == old(messages).entries()
            } else {
                &&& r matches TopicOutcome::Rename { channel_id, message_id, message_content, thread_name, reply }
                &&& (channel_id, message_id) == placeholder->0
                &&& message_content@ == titled_question_text(user_id as nat, topic@)
                &&& thread_name@ == topic@
                &&& is_ephemeral_text(reply, topic_reply_text(topic@))
                &&& final(messages).entries() == lru_without(old(messages).entries(), thread_id)
            }
        }),
{
    if thread_kind != ChannelKind::PublicThread && thread_kind != ChannelKind::PrivateThread {
        return TopicOutcome::Refuse(ephemeral_text(NOT_YOUR_QUESTION.to_owned()));
    }
    let placeholder = messages.get_message(thread_id, user_id);
    let (channel_id, message_id) = match placeholder {
        Some(p) => p,
        None => return TopicOutcome::Refuse(ephemeral_text(NOT_YOUR_QUESTION.to_owned())),
    };
    let len = topic.as_str().len();
    if !(TOPIC_MIN_LEN <= len && len <= TOPIC_MAX_LEN) {
        return TopicOutcome::Refuse(ephemeral_text(BAD_TOPIC_LENGTH.to_owned()));
    }
    messages.remove(thread_id);
    let mention = user_mention_text(user_id);
    let mut message_content = concat3(mention.as_str(), " bir soru sordu: **", topic.as_str());
    message_content.append("**");
    let reply = ephemeral_text(concat3("Başlık ``", topic.as_str(), "`` olarak değiştirildi."));
    let thread_name = topic;
    TopicOutcome::Rename { channel_id, message_id, message_content, thread_name, reply }
}

/// A title is set once: after a rename, the thread has no placeholder left
/// for anybody, so every later title request in it is refused.
pub proof fn law_topic_set_once(
    before: HelpCreationMessagesCache,
    after: HelpCreationMessagesCache,
    thread_id: u64,
    user_id: u64,
)
    requires
        before.wf(),
        after.entries() == lru_without(before.entries(), thread_id),
    ensures
        after.message_of(thread_id, user_id) is None,
{
    lemma_without(before.entries(), thread_id);
}

} // verus!
