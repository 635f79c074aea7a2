//! The answer to the confirm button: open the help thread, at most once
//! every ten minutes per user.

use vstd::prelude::*;
use crate::cache::{elapsed_since, Caches, HelpCreationMessagesCache};
use crate::command::command::{ephemeral_text, is_ephemeral_text, MessageData, Response};
use crate::lru_cache::{lemma_after_put, lru_after_put, lru_lookup};
use crate::text::{
    channel_mention, channel_mention_text, concat2, concat3, decimal, u64_to_decimal, user_mention,
    user_mention_text,
};

verus! {

pub const NANOS_PER_SECOND: u64 = 1_000_000_000;
/// Ten minutes between two help threads of one user.
pub const BUTTON_COOLDOWN: u64 = 600_000_000_000;

pub const CHANNEL_FORGOTTEN: &'static str = "Kanal kaydınızı daha önce yaptığınız için cache'ten silinmiş, kanalı tekrar seçiniz veya süreci tekradan başlatınız.";
pub const WAIT_TEXT_START: &'static str = "Sıradaki sorunuzu ";
pub const WAIT_TEXT_END: &'static str = " sonra sorabilirsiniz.";
pub const INTRO_TEXT_END: &'static str = ", şu anda sorunuzun bir başlığı yok, sorunuza ``/topic`` komutunu kullanarak başlık ekleyebilirsiniz. Başlık eklediğinizde bu mesaj başlığa dönüşecektir.**";
pub const UNTITLED_THREAD_NAME: &'static str = "Başlıksız Soru";
pub const THREAD_CREATED_TEXT: &'static str = "Sorunuz oluşturuldu: ";

/// Whole seconds left of the cooldown after `elapsed` nanoseconds, rounded
/// up as the bot shows them (the truncated remainder plus one).
pub open spec fn remaining_seconds(elapsed: nat) -> nat {
    ((BUTTON_COOLDOWN - elapsed) / (NANOS_PER_SECOND as int) + 1) as nat
}

/// A wait of `secs` seconds in words: minutes and seconds, leaving out a
/// part that is zero.
pub open spec fn wait_text(secs: nat) -> Seq<char> {
    let minutes = secs / 60;
    let seconds = secs % 60;
    if minutes == 0 {
        decimal(seconds) + " saniye"@
    } else if seconds == 0 {
        decimal(minutes) + " dakika"@
    } else {
        decimal(minutes) + " dakika "@ + decimal(seconds) + " saniye"@
    }
}

/// Why a help thread cannot be opened, given the channel the user selected
/// and the time since their last thread; `None` when it can.
pub open spec fn help_thread_refusal(selected: Option<u64>, elapsed: Option<u64>) -> Option<Seq<char>> {
    if selected is None {
        Some(CHANNEL_FORGOTTEN@)
    } else if elapsed is Some && elapsed->0 < BUTTON_COOLDOWN {
        Some(WAIT_TEXT_START@ + wait_text(remaining_seconds(elapsed->0 as nat)) + WAIT_TEXT_END@)
    } else {
        None
    }
}

/// The placeholder message posted for the thread, asking for a title.
pub open spec fn intro_text(user_id: nat) -> Seq<char> {
    "**"@ + user_mention(user_id) + INTRO_TEXT_END@
}

/// Renders `wait_text(secs)`.
pub fn wait_time_text(secs: u64) -> (r: String)
    ensures
        r@ == wait_text(secs as nat),
{
    let minutes = secs / 60;
    let seconds = secs % 60;
    if minutes == 0 {
        let s = u64_to_decimal(seconds);
        concat2(s.as_str(), " saniye")
    } else if seconds == 0 {
        let m = u64_to_decimal(minutes);
        concat2(m.as_str(), " dakika")
    } else {
        let m = u64_to_decimal(minutes);
        let s = u64_to_decimal(seconds);
        let mut r = concat3(m.as_str(), " dakika ", s.as_str());
        r.append(" saniye");
        r
    }
}

/// What pressing the confirm button leads to.
#[derive(Debug)]
pub enum HelpThreadStep {
    /// Answer this and open nothing.
    Refuse(Response),
    /// Acknowledge with `ack`, post `intro` in `channel_id`, open a thread
    /// named `thread_name` on it.
    Start { channel_id: u64, ack: Response, intro: String, thread_name: String },
}

/// Decides whether `user_id` may open a help thread at time `now`: they
/// must still have a selected channel and must not have opened one in the
/// last ten minutes. When they may, `now` is recorded as their last time.
pub fn help_thread_step(caches: &mut Caches, user_id: u64, now: u64) -> (r: HelpThreadStep)
    requires
        old(caches).wf(),
    ensures
        final(caches).wf(),
        final(caches).selected_channels == old(caches).selected_channels,
        final(caches).help_creation_messages == old(caches).help_creation_messages,
        final(caches).cooldowns.capacity() == old(caches).cooldowns.capacity(),
        ({
            let selected = lru_lookup(old(caches).selected_channels.entries(), user_id);
            let elapsed = elapsed_since(old(caches).cooldowns.entries(), user_id, now);
            match help_thread_refusal(selected, elapsed) {
                Some(text) => {
                    &&& r matches HelpThreadStep::Refuse(resp)
                    &&& is_ephemeral_text(resp, text)
                    &&& final(caches).cooldowns.entries() == old(caches).cooldowns.entries()
                },
                None => {
                    &&& r matches HelpThreadStep::Start { channel_id, ack, intro, thread_name }
                    &&& channel_id == selected->0
                    &&& ack matches Response::DeferredMessage(d)
                    &&& d.ephemeral && d.content is None && d.component is None
                    &&& intro@ == intro_text(user_id as nat)
                    &&& thread_name@ == UNTITLED_THREAD_NAME@
                    &&& final(caches).cooldowns.entries() == lru_after_put(
                        old(caches).cooldowns.entries(),
                        old(caches).cooldowns.capacity(),
                        user_id,
                        now,
                    )
                },
            }
        }),
{
    let channel_id = match caches.selected_channels.get(user_id) {
        Some(c) => c,
        None => return HelpThreadStep::Refuse(ephemeral_text(CHANNEL_FORGOTTEN.to_owned())),
    };
    match caches.cooldowns.since(user_id, now) {
        Some(difference) => {
            if difference < BUTTON_COOLDOWN {
                let remaining = (BUTTON_COOLDOWN - difference) / NANOS_PER_SECOND + 1;
                let wait = wait_time_text(remaining);
                return HelpThreadStep::Refuse(
                    ephemeral_text(concat3(WAIT_TEXT_START, wait.as_str(), WAIT_TEXT_END)),
                );
            }
        },
        None => {},
    }
    caches.cooldowns.put(user_id, now);
    let ack = Response::DeferredMessage(MessageData { content: None, ephemeral: true, component: None });
    let mention = user_mention_text(user_id);
    let intro = concat3("**", mention.as_str(), INTRO_TEXT_END);
    HelpThreadStep::Start { channel_id, ack, intro, thread_name: UNTITLED_THREAD_NAME.to_owned() }
}

/// The follow-up once thread `thread_id` is open on the placeholder
/// `message_id` in `channel_id`.
pub open spec fn thread_created_text(thread_id: nat) -> Seq<char> {
    THREAD_CREATED_TEXT@ + channel_mention(thread_id)
}

/// Records who opened thread `thread_id` and where its placeholder is, and
/// gives the follow-up that links the new thread.
pub fn help_thread_created(
    messages: &mut HelpCreationMessagesCache,
    thread_id: u64,
    user_id: u64,
    channel_id: u64,
    message_id: u64,
) -> (r: MessageData)
    requires
        old(messages).wf(),
    ensures
        final(messages).wf(),
        final(messages).entries() == lru_after_put(
            old(messages).entries(),
            old(messages).capacity(),
            thread_id,
            (user_id, channel_id, message_id),
        ),
        final(messages).capacity() == old(messages).capacity(),
        r.ephemeral && r.component is None,
        r.content matches Some(c) && c@ == thread_created_text(thread_id as nat),
{
    messages.put(thread_id, user_id, channel_id, message_id);
    let mention = channel_mention_text(thread_id);
    MessageData { content: Some(concat2(THREAD_CREATED_TEXT, mention.as_str())), ephemeral: true, component: None }
}

/// The cooldown: once a user opened a help thread at `t`, every request of
/// theirs before `t` plus ten minutes is refused with the time left, which
/// is at least one second and at most ten minutes and one second.
pub proof fn law_cooldown_refuses_early_request(before: Caches, after: Caches, user_id: u64, t: u64, later: u64)
    requires
        before.wf(),
        before.cooldowns.capacity() > 0,
        help_thread_refusal(
            lru_lookup(before.selected_channels.entries(), user_id),
            elapsed_since(before.cooldowns.entries(), user_id, t),
        ) is None,
        after.selected_channels == before.selected_channels,
        after.cooldowns.entries() == lru_after_put(
            before.cooldowns.entries(),
            before.cooldowns.capacity(),
            user_id,
            t,
        ),
        t <= later,
        later < t + BUTTON_COOLDOWN,
    ensures
        help_thread_refusal(
            lru_lookup(after.selected_channels.entries(), user_id),
            elapsed_since(after.cooldowns.entries(), user_id, later),
        ) == Some(WAIT_TEXT_START@ + wait_text(remaining_seconds((later - t) as nat)) + WAIT_TEXT_END@),
        1 <= remaining_seconds((later - t) as nat) <= 601,
{
    lemma_after_put(before.cooldowns.entries(), before.cooldowns.capacity(), user_id, t);
    let d = (later - t) as nat;
    assert((BUTTON_COOLDOWN - d) / (NANOS_PER_SECOND as int) <= 600) by (nonlinear_arith)
        requires
            0 <= d < BUTTON_COOLDOWN,
            BUTTON_COOLDOWN == 600_000_000_000,
            NANOS_PER_SECOND == 1_000_000_000,
    ;
}

} // verus!
