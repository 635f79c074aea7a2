//! The bot's three bounded caches: when each user last opened a help
//! thread, which channel each user picked for a question, and which
//! placeholder message belongs to each new help thread.
//!
//! Times are nanoseconds from a fixed origin, chosen by the caller (the
//! application measures them from one `Instant`).

use vstd::prelude::*;
use lru::LruCache;
use crate::lru_cache::{
    lemma_after_put, lemma_lookup_cons, lemma_lookup_drop_last, lemma_without, lru_after_put, lru_lookup, lru_wf, lru_without,
    triple_lru_cap, triple_lru_entries, triple_lru_new, triple_lru_peek, triple_lru_pop,
    triple_lru_put, word_lru_cap, word_lru_entries, word_lru_new, word_lru_peek, word_lru_put,
};

verus! {

pub const COOLDOWNS_CAPACITY: usize = 1024;
pub const SELECTED_CHANNELS_CAPACITY: usize = 256;
pub const HELP_CREATION_MESSAGES_CAPACITY: usize = 128;

/// Time elapsed at `now` since the time recorded for `user_id` in `e`, zero
/// when `now` is earlier.
pub open spec fn elapsed_since(e: Seq<(u64, u64)>, user_id: u64, now: u64) -> Option<u64> {
    match lru_lookup(e, user_id) {
        Some(t) => Some(if now >= t { (now - t) as u64 } else { 0u64 }),
        None => None,
    }
}

/// When each user last started a help thread.
pub struct CooldownsCache {
    cache: LruCache<u64, u64>,
}

impl CooldownsCache {
    /// `(user id, time)` entries, most recently used first.
    pub closed spec fn entries(&self) -> Seq<(u64, u64)> {
        word_lru_entries(self.cache)
    }

    pub closed spec fn capacity(&self) -> nat {
        word_lru_cap(self.cache)
    }

    pub open spec fn wf(&self) -> bool {
        lru_wf(self.entries(), self.capacity())
    }

    pub(crate) fn new() -> (c: Self)
        ensures
            c.wf(),
            c.entries() == Seq::<(u64, u64)>::empty(),
            c.capacity() == COOLDOWNS_CAPACITY,
    {
        CooldownsCache { cache: word_lru_new(COOLDOWNS_CAPACITY) }
    }

    /// Records `time` for `user_id`; returns the time recorded before.
    pub fn put(&mut self, user_id: u64, time: u64) -> (r: Option<u64>)
        requires
            old(self).wf(),
        ensures
            final(self).wf(),
            r == lru_lookup(old(self).entries(), user_id),
            final(self).entries() == lru_after_put(
                old(self).entries(),
                old(self).capacity(),
                user_id,
                time,
            ),
            final(self).capacity() == old(self).capacity(),
    {
        proof {
            lemma_after_put(self.entries(), self.capacity(), user_id, time);
        }
        word_lru_put(&mut self.cache, user_id, time)
    }

    /// Time elapsed at `now` since the time recorded for `user_id`; zero when
    /// `now` is earlier, as `Instant::duration_since` saturates.
    pub fn since(&self, user_id: u64, now: u64) -> (r: Option<u64>)
        requires
            self.wf(),
        ensures
            r == elapsed_since(self.entries(), user_id, now),
    {
        match word_lru_peek(&self.cache, user_id) {
            Some(prev) => Some(now.saturating_sub(prev)),
            None => None,
        }
    }
}

/// Which channel each user selected for the question being prepared.
pub struct SelectedChannelsCache {
    cache: LruCache<u64, u64>,
}

impl SelectedChannelsCache {
    /// `(user id, channel id)` entries, most recently used first.
    pub closed spec fn entries(&self) -> Seq<(u64, u64)> {
        word_lru_entries(self.cache)
    }

    pub closed spec fn capacity(&self) -> nat {
        word_lru_cap(self.cache)
    }

    pub open spec fn wf(&self) -> bool {
        lru_wf(self.entries(), self.capacity())
    }

    pub(crate) fn new() -> (c: Self)
        ensures
            c.wf(),
            c.entries() == Seq::<(u64, u64)>::empty(),
            c.capacity() == SELECTED_CHANNELS_CAPACITY,
    {
        SelectedChannelsCache { cache: word_lru_new(SELECTED_CHANNELS_CAPACITY) }
    }

    /// Records the channel `user_id` selected; returns the previous one.
    pub fn put(&mut self, user_id: u64, channel_id: u64) -> (r: Option<u64>)
        requires
            old(self).wf(),
        ensures
            final(self).wf(),
            r == lru_lookup(old(self).entries(), user_id),
            final(self).entries() == lru_after_put(
                old(self).entries(),
                old(self).capacity(),
                user_id,
                channel_id,
            ),
            final(self).capacity() == old(self).capacity(),
    {
        proof {
            lemma_after_put(self.entries(), self.capacity(), user_id, channel_id);
        }
        word_lru_put(&mut self.cache, user_id, channel_id)
    }

    /// The channel `user_id` selected, if still cached.
    pub fn get(&self, user_id: u64) -> (r: Option<u64>)
        requires
            self.wf(),
        ensures
            r == lru_lookup(self.entries(), user_id),
    {
        word_lru_peek(&self.cache, user_id)
    }
}

/// The placeholder message posted when a help thread was opened.
#[derive(Debug)]
pub struct UserMessage {
    pub user_id: u64,
    pub message_id: u64,
    pub channel_id: u64,
}

/// A cached `(user, channel, message)` triple as a `UserMessage`.
pub open spec fn user_message_of(t: (u64, u64, u64)) -> UserMessage {
    UserMessage { user_id: t.0, channel_id: t.1, message_id: t.2 }
}

/// For each help thread, who opened it and where its placeholder message is.
pub struct HelpCreationMessagesCache {
    cache: LruCache<u64, (u64, u64, u64)>,
}

impl HelpCreationMessagesCache {
    /// `(thread id, (user id, channel id, message id))` entries, most
    /// recently used first.
    pub closed spec fn entries(&self) -> Seq<(u64, (u64, u64, u64))> {
        triple_lru_entries(self.cache)
    }

    pub closed spec fn capacity(&self) -> nat {
        triple_lru_cap(self.cache)
    }

    pub open spec fn wf(&self) -> bool {
        lru_wf(self.entries(), self.capacity())
    }

    /// What `get_message(thread_id, user_id)` answers on these entries.
    pub open spec fn message_of(&self, thread_id: u64, user_id: u64) -> Option<(u64, u64)> {
        match lru_lookup(self.entries(), thread_id) {
            Some(t) => if t.0 != user_id {
                None
            } else {
                Some((t.1, t.2))
            },
            None => None,
        }
    }

    pub(crate) fn new() -> (c: Self)
        ensures
            c.wf(),
            c.entries() == Seq::<(u64, (u64, u64, u64))>::empty(),
            c.capacity() == HELP_CREATION_MESSAGES_CAPACITY,
    {
        HelpCreationMessagesCache { cache: triple_lru_new(HELP_CREATION_MESSAGES_CAPACITY) }
    }

    /// Records who opened `thread_id` and where its placeholder message is;
    /// returns what was recorded for that thread before.
    pub fn put(&mut self, thread_id: u64, user_id: u64, channel_id: u64, message_id: u64) -> (r:
        Option<UserMessage>)
        requires
            old(self).wf(),
        ensures
            final(self).wf(),
            r == (match lru_lookup(old(self).entries(), thread_id) {
                Some(t) => Some(user_message_of(t)),
                None => None,
            }),
            final(self).entries() == lru_after_put(
                old(self).entries(),
                old(self).capacity(),
                thread_id,
                (user_id, channel_id, message_id),
            ),
            final(self).capacity() == old(self).capacity(),
    {
        proof {
            lemma_after_put(
                self.entries(),
                self.capacity(),
                thread_id,
                (user_id, channel_id, message_id),
            );
        }
        match triple_lru_put(&mut self.cache, thread_id, (user_id, channel_id, message_id)) {
            Some(t) => Some(UserMessage { user_id: t.0, channel_id: t.1, message_id: t.2 }),
            None => None,
        }
    }

    /// The `(channel id, message id)` of the placeholder of `thread_id`,
    /// only when `user_id` opened that thread.
    pub fn get_message(&self, thread_id: u64, user_id: u64) -> (r: Option<(u64, u64)>)
        requires
            self.wf(),
        ensures
            r == self.message_of(thread_id, user_id),
    {
        match triple_lru_peek(&self.cache, thread_id) {
            Some(t) => {
                if t.0 != user_id {
                    None
                } else {
                    Some((t.1, t.2))
                }
            },
            None => None,
        }
    }

    /// Forgets `thread_id`; returns what was recorded for it.
    pub fn remove(&mut self, thread_id: u64) -> (r: Option<UserMessage>)
        requires
            old(self).wf(),
        ensures
            final(self).wf(),
            r == (match lru_lookup(old(self).entries(), thread_id) {
                Some(t) => Some(user_message_of(t)),
                None => None,
            }),
            final(self).entries() == lru_without(old(self).entries(), thread_id),
            final(self).capacity() == old(self).capacity(),
    {
        proof {
            lemma_without(self.entries(), thread_id);
        }
        match triple_lru_pop(&mut self.cache, thread_id) {
            Some(t) => Some(UserMessage { user_id: t.0, channel_id: t.1, message_id: t.2 }),
            None => None,
        }
    }
}

/// The three caches, shared by every handler.
pub struct Caches {
    pub cooldowns: CooldownsCache,
    pub selected_channels: SelectedChannelsCache,
    pub help_creation_messages: HelpCreationMessagesCache,
}

impl Caches {
    pub open spec fn wf(&self) -> bool {
        self.cooldowns.wf() && self.selected_channels.wf() && self.help_creation_messages.wf()
    }

    pub fn new() -> (c: Self)
        ensures
            c.wf(),
            c.cooldowns.entries().len() == 0,
            c.cooldowns.capacity() == COOLDOWNS_CAPACITY,
            c.selected_channels.entries().len() == 0,
            c.selected_channels.capacity() == SELECTED_CHANNELS_CAPACITY,
            c.help_creation_messages.entries().len() == 0,
            c.help_creation_messages.capacity() == HELP_CREATION_MESSAGES_CAPACITY,
    {
        Caches {
            cooldowns: CooldownsCache::new(),
            selected_channels: SelectedChannelsCache::new(),
            help_creation_messages: HelpCreationMessagesCache::new(),
        }
    }
}

/// Read after write: once `put(k, v)` ran on a cache with room for at least
/// one entry, looking `k` up (`get`, `peek`, `since`) finds `v`.
pub proof fn law_read_after_put<V>(e: Seq<(u64, V)>, cap: nat, k: u64, v: V)
    requires
        lru_wf(e, cap),
        cap > 0,
    ensures
        lru_lookup(lru_after_put(e, cap, k, v), k) == Some(v),
        lru_wf(lru_after_put(e, cap, k, v), cap),
{
    lemma_after_put(e, cap, k, v);
}

/// A put never changes the value of another key: that key either keeps
/// its value or, only when a new key entered a full cache and it was the
/// least recently used one, is dropped; in every other case it keeps its
/// value.
pub proof fn law_put_keeps_other_keys<V>(e: Seq<(u64, V)>, cap: nat, k: u64, v: V, other: u64)
    requires
        lru_wf(e, cap),
        other != k,
    ensures
        lru_lookup(lru_after_put(e, cap, k, v), other) is Some ==> lru_lookup(
            lru_after_put(e, cap, k, v),
            other,
        ) == lru_lookup(e, other),
        (lru_lookup(e, k) is Some || e.len() < cap) ==> lru_lookup(
            lru_after_put(e, cap, k, v),
            other,
        ) == lru_lookup(e, other),
        (lru_lookup(e, k) is None && cap > 0 && e.len() == cap && other != e.last().0)
            ==> lru_lookup(lru_after_put(e, cap, k, v), other) == lru_lookup(e, other),
{
    lemma_after_put(e, cap, k, v);
    if lru_lookup(e, k) is None && cap > 0 && e.len() == cap && other != e.last().0 {
        lemma_lookup_drop_last(e);
        lemma_lookup_cons(e.drop_last(), k, v, other);
    }
}

/// Least-recently-used eviction: putting a new key into a full cache drops
/// exactly its least recently used entry, so the cache stays at capacity.
pub proof fn law_full_put_evicts_least_recent<V>(e: Seq<(u64, V)>, cap: nat, k: u64, v: V)
    requires
        lru_wf(e, cap),
        cap > 0,
        e.len() == cap,
        lru_lookup(e, k) is None,
    ensures
        lru_lookup(lru_after_put(e, cap, k, v), e.last().0) is None,
        lru_after_put(e, cap, k, v).len() == cap,
        lru_after_put(e, cap, k, v) == seq![(k, v)] + e.drop_last(),
{
    lemma_after_put(e, cap, k, v);
}

/// The placeholder of a new help thread is handed back to the user who
/// opened it, and to nobody else.
pub proof fn law_help_message_owner_only(
    c: HelpCreationMessagesCache,
    d: HelpCreationMessagesCache,
    thread_id: u64,
    user_id: u64,
    channel_id: u64,
    message_id: u64,
    other_user: u64,
)
    requires
        c.wf(),
        c.capacity() > 0,
        d.entries() == lru_after_put(
            c.entries(),
            c.capacity(),
            thread_id,
            (user_id, channel_id, message_id),
        ),
        other_user != user_id,
    ensures
        d.message_of(thread_id, user_id) == Some((channel_id, message_id)),
        d.message_of(thread_id, other_user) is None,
{
    lemma_after_put(c.entries(), c.capacity(), thread_id, (user_id, channel_id, message_id));
}

/// Once a help thread is removed, nobody gets its placeholder any more.
pub proof fn law_removed_help_message_is_gone(
    c: HelpCreationMessagesCache,
    d: HelpCreationMessagesCache,
    thread_id: u64,
    user_id: u64,
)
    requires
        c.wf(),
        d.entries() == lru_without(c.entries(), thread_id),
    ensures
        d.message_of(thread_id, user_id) is None,
{
    lemma_without(c.entries(), thread_id);
}

} // verus!
