use help_bot::cache::{Caches, HELP_CREATION_MESSAGES_CAPACITY, SELECTED_CHANNELS_CAPACITY};

#[test]
fn selected_channel_reads_back_what_was_put() {
    let mut caches = Caches::new();
    assert_eq!(caches.selected_channels.get(1), None);
    assert_eq!(caches.selected_channels.put(1, 100), None);
    assert_eq!(caches.selected_channels.get(1), Some(100));
    assert_eq!(caches.selected_channels.put(1, 200), Some(100));
    assert_eq!(caches.selected_channels.get(1), Some(200));
    assert_eq!(caches.selected_channels.get(2), None);
}

#[test]
fn cooldown_since_measures_elapsed_time() {
    let mut caches = Caches::new();
    assert_eq!(caches.cooldowns.since(5, 1_000), None);
    assert_eq!(caches.cooldowns.put(5, 1_000), None);
    assert_eq!(caches.cooldowns.since(5, 4_000), Some(3_000));
    assert_eq!(caches.cooldowns.since(5, 500), Some(0));
    assert_eq!(caches.cooldowns.put(5, 9_000), Some(1_000));
    assert_eq!(caches.cooldowns.since(5, 9_000), Some(0));
}

#[test]
fn full_cache_evicts_least_recently_used() {
    let mut caches = Caches::new();
    let cap = SELECTED_CHANNELS_CAPACITY as u64;
    for user in 0..cap {
        caches.selected_channels.put(user, user + 1000);
    }
    // Refreshing user 0 makes user 1 the least recently used.
    caches.selected_channels.put(0, 5);
    caches.selected_channels.put(cap, 77);
    assert_eq!(caches.selected_channels.get(1), None);
    assert_eq!(caches.selected_channels.get(0), Some(5));
    assert_eq!(caches.selected_channels.get(2), Some(1002));
    assert_eq!(caches.selected_channels.get(cap), Some(77));
}

#[test]
fn help_message_is_given_to_its_author_only() {
    let mut caches = Caches::new();
    let messages = &mut caches.help_creation_messages;
    assert!(messages.put(10, 1, 20, 30).is_none());
    assert_eq!(messages.get_message(10, 1), Some((20, 30)));
    assert_eq!(messages.get_message(10, 2), None);
    assert_eq!(messages.get_message(11, 1), None);
    let previous = messages.put(10, 3, 21, 31).unwrap();
    assert_eq!((previous.user_id, previous.channel_id, previous.message_id), (1, 20, 30));
    assert_eq!(messages.get_message(10, 1), None);
    assert_eq!(messages.get_message(10, 3), Some((21, 31)));
}

#[test]
fn removed_help_message_is_gone() {
    let mut caches = Caches::new();
    let messages = &mut caches.help_creation_messages;
    messages.put(10, 1, 20, 30);
    messages.put(11, 1, 22, 33);
    let removed = messages.remove(10).unwrap();
    assert_eq!((removed.user_id, removed.channel_id, removed.message_id), (1, 20, 30));
    assert_eq!(messages.get_message(10, 1), None);
    assert!(messages.remove(10).is_none());
    assert_eq!(messages.get_message(11, 1), Some((22, 33)));
}

#[test]
fn help_messages_cache_holds_at_most_its_capacity() {
    let mut caches = Caches::new();
    let cap = HELP_CREATION_MESSAGES_CAPACITY as u64;
    for thread in 0..=cap {
        caches.help_creation_messages.put(thread, thread, 0, 0);
    }
    assert_eq!(caches.help_creation_messages.get_message(0, 0), None);
    assert_eq!(caches.help_creation_messages.get_message(cap, cap), Some((0, 0)));
}
