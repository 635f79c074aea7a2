use help_bot::cache::Caches;
use help_bot::command::command::{ButtonStyle, Component, Response};
use help_bot::command::option::{ChannelKind, PartialChannel};
use help_bot::commands::add_help_category::{help_category_check, help_category_toggle, CategoryChange};
use help_bot::command::channel_actions::ChannelAction;
use help_bot::commands::set_help_channel::{help_channel_actions, help_channel_plan, help_channel_reply, HelpChannelPlan};
use help_bot::commands::topic::{topic_step, TopicOutcome};
use help_bot::interactions::create_help_thread::{help_thread_created, help_thread_step, wait_time_text, HelpThreadStep};
use help_bot::interactions::send_button_create::button_create_step;
use help_bot::interactions::send_categories::{categories_menu, CategoryRecord};
use help_bot::interactions::send_channels::{channels_menu, first_value_as_id, GuildChannelInfo};
use help_bot::interactions::twitch_toggle_role::{twitch_toggle, RoleChange};

const SECOND: u64 = 1_000_000_000;

fn text_of(r: &Response) -> String {
    match r {
        Response::Message(d) => {
            assert!(d.ephemeral);
            d.content.clone().unwrap()
        }
        Response::DeferredMessage(_) => panic!("deferred"),
    }
}

fn select_options(r: &Response) -> Vec<(String, String)> {
    match r {
        Response::Message(d) => match &d.component {
            Some(Component::SelectMenu(s)) => {
                assert_eq!((s.min_values, s.max_values), (1, 1));
                s.options.iter().map(|o| (o.label.clone(), o.value.clone())).collect()
            }
            _ => panic!("no menu"),
        },
        _ => panic!("deferred"),
    }
}

#[test]
fn help_channel_needs_all_three_channels() {
    match help_channel_plan(None, Some(2), Some(3)) {
        HelpChannelPlan::Refuse(r) => assert_eq!(
            text_of(&r),
            "Yönergeler kanalı mevcut değil, ``/set_guidelines_channel``komutunu kullanarak oluşturun."
        ),
        _ => panic!(),
    }
    match help_channel_plan(Some(1), None, Some(3)) {
        HelpChannelPlan::Refuse(r) => assert!(text_of(&r).starts_with("Help log bekleyen kanalı")),
        _ => panic!(),
    }
    match help_channel_plan(Some(1), Some(2), None) {
        HelpChannelPlan::Refuse(r) => assert!(text_of(&r).starts_with("Help log çözümlenmiş kanalı")),
        _ => panic!(),
    }
}

#[test]
fn help_message_points_at_guidelines_and_answered_log() {
    match help_channel_plan(Some(111), Some(222), Some(333)) {
        HelpChannelPlan::Post(m) => {
            assert!(!m.ephemeral);
            let text = m.content.unwrap();
            assert!(text.starts_with("Organizasyonun daha kolay olması"));
            assert!(text.contains("ilk olarak <#111>'i okuduğunuzdan"));
            assert!(text.contains("Sorulan her soru <#222> kanalına gidecektir"));
            assert!(!text.contains("333"));
            assert!(text.ends_with("sorunuzu sormaya devam ediniz."));
            match m.component {
                Some(Component::Button(b)) => {
                    assert_eq!(b.custom_id, "help_button_click");
                    assert_eq!(b.label, "Kategorileri Göster");
                    assert_eq!(b.style, ButtonStyle::Primary);
                }
                _ => panic!(),
            }
        }
        _ => panic!(),
    }
    assert_eq!(text_of(&help_channel_reply(5)), "Yardım kanalı başarıyla <#5> olarak ayarlandı.");
}

#[test]
fn setting_help_channel_deletes_old_message_then_posts_and_records_new_one() {
    let steps = help_channel_actions(9, Some(111), Some(222), Some(333));
    assert_eq!(steps.len(), 3);
    assert!(matches!(steps[0], ChannelAction::DeleteRecordedMessage { key: "help" }));
    match &steps[1] {
        ChannelAction::PostMessage { channel_id, message, record_key } => {
            assert_eq!(*channel_id, 9);
            assert_eq!(*record_key, "help");
            assert!(message.content.as_ref().unwrap().contains("ilk olarak <#111>'i"));
        }
        _ => panic!("expected the help message to be posted"),
    }
    match &steps[2] {
        ChannelAction::Reply(r) => assert_eq!(text_of(r), "Yardım kanalı başarıyla <#9> olarak ayarlandı."),
        _ => panic!("expected a reply"),
    }
}

#[test]
fn setting_help_channel_without_waiting_log_still_deletes_old_message() {
    let steps = help_channel_actions(9, Some(1), Some(2), None);
    assert_eq!(steps.len(), 2);
    assert!(matches!(steps[0], ChannelAction::DeleteRecordedMessage { key: "help" }));
    match &steps[1] {
        ChannelAction::Reply(r) => assert!(text_of(r).starts_with("Help log çözümlenmiş kanalı")),
        _ => panic!("expected a refusal"),
    }
}

#[test]
fn help_category_is_toggled() {
    let text_channel = PartialChannel { id: 4, name: "genel".into(), kind: ChannelKind::Text };
    assert_eq!(
        text_of(&help_category_check(&text_channel).unwrap()),
        "<#4> bir kategori değil, lütfen bir kategori seçiniz."
    );
    let category = PartialChannel { id: 9, name: "Yardımlaşma: Rust".into(), kind: ChannelKind::Category };
    assert!(help_category_check(&category).is_none());
    let (change, reply) = help_category_toggle(&category, false);
    match change {
        CategoryChange::Insert(id, name) => assert_eq!((id, name.as_str()), (9, "Rust")),
        _ => panic!(),
    }
    assert_eq!(text_of(&reply), "<#9> yardım kategorileri arasına eklendi.");
    let (change, reply) = help_category_toggle(&category, true);
    assert!(matches!(change, CategoryChange::Remove(9)));
    assert_eq!(text_of(&reply), "<#9> yardım kategorileri arasından çıkartıldı.");
}

#[test]
fn topic_is_set_once_by_the_author() {
    let mut caches = Caches::new();
    caches.help_creation_messages.put(50, 7, 60, 70);
    let not_yours = "Bu komutu sadece size ait sorular içinde tek sefaya mahsus kullanabilirsiniz.";
    match topic_step(&mut caches.help_creation_messages, ChannelKind::Text, 50, 7, "Başlık".into()) {
        TopicOutcome::Refuse(r) => assert_eq!(text_of(&r), not_yours),
        _ => panic!(),
    }
    match topic_step(&mut caches.help_creation_messages, ChannelKind::PublicThread, 50, 8, "Başlık".into()) {
        TopicOutcome::Refuse(r) => assert_eq!(text_of(&r), not_yours),
        _ => panic!(),
    }
    let bad = "Başlığınız çok kısa veya çok uzun, 2-100 harf arasında olmalı.";
    match topic_step(&mut caches.help_creation_messages, ChannelKind::PublicThread, 50, 7, "a".into()) {
        TopicOutcome::Refuse(r) => assert_eq!(text_of(&r), bad),
        _ => panic!(),
    }
    // 51 characters but 102 bytes: too long.
    match topic_step(&mut caches.help_creation_messages, ChannelKind::PrivateThread, 50, 7, "ş".repeat(51)) {
        TopicOutcome::Refuse(r) => assert_eq!(text_of(&r), bad),
        _ => panic!(),
    }
    assert_eq!(caches.help_creation_messages.get_message(50, 7), Some((60, 70)));
    match topic_step(&mut caches.help_creation_messages, ChannelKind::PublicThread, 50, 7, "Rust ömrü".into()) {
        TopicOutcome::Rename { channel_id, message_id, message_content, thread_name, reply } => {
            assert_eq!((channel_id, message_id), (60, 70));
            assert_eq!(message_content, "<@7> bir soru sordu: **Rust ömrü**");
            assert_eq!(thread_name, "Rust ömrü");
            assert_eq!(text_of(&reply), "Başlık ``Rust ömrü`` olarak değiştirildi.");
        }
        _ => panic!(),
    }
    match topic_step(&mut caches.help_creation_messages, ChannelKind::PublicThread, 50, 7, "Yeni".into()) {
        TopicOutcome::Refuse(r) => assert_eq!(text_of(&r), not_yours),
        _ => panic!(),
    }
}

#[test]
fn categories_menu_lists_every_category() {
    let records = vec![
        CategoryRecord { id: 905318437158682624, name: "Rust".into() },
        CategoryRecord { id: -5, name: "Go".into() },
    ];
    let r = categories_menu(&records);
    assert!(text_of(&r).starts_with("Aşağıdan önce sormak istediğiniz genel kategoriyi seçiniz."));
    assert_eq!(
        select_options(&r),
        vec![("Rust".to_string(), "905318437158682624".to_string()), ("Go".to_string(), "-5".to_string())]
    );
}

#[test]
fn channels_menu_lists_the_category_channels() {
    let channels = vec![
        GuildChannelInfo { id: 1, name: "rust".into(), category_id: Some(10) },
        GuildChannelInfo { id: 2, name: "go".into(), category_id: Some(11) },
        GuildChannelInfo { id: 3, name: "genel".into(), category_id: None },
        GuildChannelInfo { id: 4, name: "tokio".into(), category_id: Some(10) },
    ];
    let r = channels_menu(&channels, 10);
    assert_eq!(text_of(&r), "Sormak istediğiniz kanalı seçiniz.\n                    ");
    assert_eq!(
        select_options(&r),
        vec![("rust".to_string(), "1".to_string()), ("tokio".to_string(), "4".to_string())]
    );
    assert!(select_options(&channels_menu(&channels, 99)).is_empty());
}

#[test]
fn first_value_is_parsed_as_an_id() {
    assert_eq!(first_value_as_id(&vec!["123".into(), "x".into()]), Some(123));
    assert_eq!(first_value_as_id(&vec!["x".into()]), None);
    assert_eq!(first_value_as_id(&vec![]), None);
}

#[test]
fn chosen_channel_is_remembered_and_confirmed() {
    let mut caches = Caches::new();
    let r = button_create_step(&mut caches.selected_channels, 7, 300);
    assert_eq!(caches.selected_channels.get(7), Some(300));
    assert!(text_of(&r).starts_with("Sorunuzu <#300> kanalına sormak istediğinizden eminseniz"));
    match r {
        Response::Message(d) => match d.component {
            Some(Component::Button(b)) => {
                assert_eq!((b.custom_id.as_str(), b.label.as_str(), b.style), ("help_create_click", "Onaylıyorum, Sorumu Sor", ButtonStyle::Danger))
            }
            _ => panic!(),
        },
        _ => panic!(),
    }
}

#[test]
fn wait_time_is_written_in_minutes_and_seconds() {
    assert_eq!(wait_time_text(45), "45 saniye");
    assert_eq!(wait_time_text(120), "2 dakika");
    assert_eq!(wait_time_text(61), "1 dakika 1 saniye");
    assert_eq!(wait_time_text(601), "10 dakika 1 saniye");
}

#[test]
fn help_thread_needs_a_selected_channel() {
    let mut caches = Caches::new();
    match help_thread_step(&mut caches, 7, 0) {
        HelpThreadStep::Refuse(r) => assert!(text_of(&r).starts_with("Kanal kaydınızı daha önce yaptığınız için")),
        _ => panic!(),
    }
    assert_eq!(caches.cooldowns.since(7, 0), None);
}

#[test]
fn second_help_thread_waits_ten_minutes() {
    let mut caches = Caches::new();
    caches.selected_channels.put(7, 300);
    let t = 1_000 * SECOND;
    match help_thread_step(&mut caches, 7, t) {
        HelpThreadStep::Start { channel_id, ack, intro, thread_name } => {
            assert_eq!(channel_id, 300);
            match ack {
                Response::DeferredMessage(d) => assert!(d.ephemeral && d.content.is_none()),
                _ => panic!(),
            }
            assert!(intro.starts_with("**<@7>, şu anda sorunuzun bir başlığı yok"));
            assert_eq!(thread_name, "Başlıksız Soru");
        }
        _ => panic!(),
    }
    let expect = |elapsed: u64, wait: &str| {
        let mut c = Caches::new();
        c.selected_channels.put(7, 300);
        c.cooldowns.put(7, t);
        match help_thread_step(&mut c, 7, t + elapsed) {
            HelpThreadStep::Refuse(r) => assert_eq!(text_of(&r), format!("Sıradaki sorunuzu {} sonra sorabilirsiniz.", wait)),
            _ => panic!("not refused at {}", elapsed),
        }
    };
    expect(0, "10 dakika 1 saniye");
    expect(1, "10 dakika");
    expect(540 * SECOND, "1 dakika 1 saniye");
    expect(599 * SECOND + SECOND / 2, "1 saniye");
    match help_thread_step(&mut caches, 7, t + 600 * SECOND) {
        HelpThreadStep::Start { .. } => {}
        _ => panic!("still refused after ten minutes"),
    }
}

#[test]
fn created_thread_is_linked_and_remembered() {
    let mut caches = Caches::new();
    let m = help_thread_created(&mut caches.help_creation_messages, 900, 7, 300, 400);
    assert_eq!(m.content.as_deref(), Some("Sorunuz oluşturuldu: <#900>"));
    assert!(m.ephemeral);
    assert_eq!(caches.help_creation_messages.get_message(900, 7), Some((300, 400)));
}

#[test]
fn twitch_role_is_toggled() {
    let (change, reply) = twitch_toggle(&vec![1, 5, 9], 5);
    assert_eq!(change, RoleChange::Remove(5));
    assert!(text_of(&reply).contains("**vazgeçtiniz**"));
    let (change, reply) = twitch_toggle(&vec![1, 9], 5);
    assert_eq!(change, RoleChange::Add(5));
    assert!(text_of(&reply).contains("**haberdar edileceksiniz**"));
}
