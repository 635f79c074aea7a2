use help_bot::command::command::{
    ButtonStyle, Command, CommandOption, Component, MessageData, OptionKind, Permission, PermissionKind, Responder, Response,
};
use help_bot::command::channel_actions::{channel_actions, ChannelAction};
use help_bot::command::commands_handler::CommandsHandler;
use help_bot::command::option::{first_duplicate_name, ChannelKind, OptionValue, Options, PartialChannel, RawOption};
use help_bot::command::template::Template;
use help_bot::command::templates::select_channel::select_channel_reply;
use help_bot::command::templates::send_role_toggle_message::role_toggle_message;
use help_bot::command::templates::set_channel::set_channel_reply;
use help_bot::command::templates::{SelectChannelTemplate, SendRoleToggleMessage, SetChannelTemplate};
use help_bot::commands::{
    set_guidelines_channel_fn, set_help_channel_fn, set_help_log_answered_channel_fn, set_help_log_waiting_channel_fn,
    topic_fn,
};
use help_bot::config::{Config, RoleIds};
use help_bot::handler::{build_commands_handler, route_component, ComponentRoute};

fn config() -> Config {
    Config { application_id: 1, administrator_id: 99, db_path: "db.sqlite".to_string(), role_ids: RoleIds { twitch: 5 } }
}

fn text_of(r: &Response) -> (String, bool) {
    match r {
        Response::Message(d) => (d.content.clone().unwrap(), d.ephemeral),
        Response::DeferredMessage(_) => panic!("deferred"),
    }
}

fn channel_option(name: &str, id: u64) -> RawOption {
    RawOption {
        name: name.to_string(),
        resolved: Some(OptionValue::Channel(PartialChannel { id, name: "c".to_string(), kind: ChannelKind::Text })),
    }
}

#[test]
fn blank_command_then_builders() {
    let mut c = Command::new(&config());
    assert_eq!(c.administrator_id, 99);
    assert!(c.description.is_none() && c.default_permission.is_none() && c.options.is_empty());
    c.description("d");
    c.default_permission(false);
    c.create_option(CommandOption { name: "x".into(), kind: OptionKind::String, required: true, description: "y".into() });
    c.add_option(CommandOption { name: "z".into(), kind: OptionKind::Integer, required: false, description: "w".into() });
    c.set_permissions(Permission { id: 99, kind: PermissionKind::User, allowed: true });
    assert_eq!(c.description.as_deref(), Some("d"));
    assert_eq!(c.default_permission, Some(false));
    assert_eq!(c.options.len(), 2);
    c.set_options(Vec::new());
    assert!(c.options.is_empty());
    c.set_response(Responder::Topic);
    let (holder, response) = c.to_parts("topic".to_string());
    assert_eq!(holder.name, "topic");
    assert_eq!(response.name, "topic");
    assert!(matches!(response.response, Responder::Topic));
    assert_eq!(holder.permission, Some(Permission { id: 99, kind: PermissionKind::User, allowed: true }));
}

#[test]
fn templates_keep_their_names() {
    let t = set_guidelines_channel_fn();
    assert_eq!((t.channel_name, t.channel_id, t.uppercase_channel_name.as_str()), ("guidelines", "guidelines", "Guidelines"));
    let t = set_help_log_waiting_channel_fn();
    assert_eq!((t.channel_name, t.channel_id), ("help_log_waiting", "help log waiting"));
    assert_eq!(t.uppercase_channel_name, "Help_log_waiting");
    let t = set_help_log_answered_channel_fn();
    assert_eq!(t.uppercase_channel_display_name, "Help log answered");
    assert!(t.save_to_database);
    let t = SendRoleToggleMessage::new("msg", 5, "toggle", "twitch", "twitch");
    assert_eq!(t.role_id, 5);
    assert!(!t.select_channel.save_to_database);
    assert_eq!(t.select_channel.uppercase_channel_display_name, "Twitch");
}

#[test]
fn select_channel_template_builds_admin_command() {
    let t = SelectChannelTemplate::new("help_log_answered", "help log answered", true);
    let c = t.run(Command::new(&config()));
    assert_eq!(c.description.as_deref(), Some("Help log answered kanalını seçer."));
    assert_eq!(c.default_permission, Some(false));
    assert_eq!(c.options.len(), 1);
    assert_eq!(c.options[0].name, "channel");
    assert_eq!(c.options[0].kind, OptionKind::Channel);
    assert!(c.options[0].required);
    assert_eq!(c.options[0].description, "Seçilecek help log answered kanalı.");
    assert_eq!(c.permission, Some(Permission { id: 99, kind: PermissionKind::User, allowed: true }));
    match c.response {
        Some(Responder::SelectChannel { channel_name, uppercase_display_name, save_to_database }) => {
            assert_eq!(channel_name, "help_log_answered");
            assert_eq!(uppercase_display_name, "Help log answered");
            assert!(save_to_database);
        }
        _ => panic!("wrong responder"),
    }
    let (text, ephemeral) = text_of(&select_channel_reply("Help log answered", 123));
    assert_eq!(text, "Help log answered kanalı başarıyla <#123> olarak seçildi.");
    assert!(ephemeral);
}

#[test]
fn set_channel_template_builds_admin_command() {
    let t = SetChannelTemplate::new("guidelines", "guidelines");
    let c = t.run(Command::new(&config()));
    assert_eq!(c.description.as_deref(), Some("Guidelines kanalını ayarlar."));
    assert_eq!(c.options[0].description, "Ayarlanacak guidelines kanalı.");
    assert!(matches!(c.response, Some(Responder::SetChannel { channel_key: "guidelines", .. })));
    let (text, _) = text_of(&set_channel_reply("Guidelines", 7));
    assert_eq!(text, "Guidelines kanalı başarıyla <#7> olarak ayarlandı.");
}

#[test]
fn role_toggle_template_wraps_select_channel() {
    let t = SendRoleToggleMessage::new("Bildirim ister misin?", 5, "twitch_toggle", "twitch", "twitch");
    let c = t.run(Command::new(&config()));
    assert_eq!(c.description.as_deref(), Some("Twitch kanalını seçer."));
    match c.response {
        Some(Responder::RoleToggleMessage { channel_message, interaction_id, channel_name, inner }) => {
            assert_eq!((channel_message, interaction_id, channel_name), ("Bildirim ister misin?", "twitch_toggle", "twitch"));
            assert!(matches!(*inner, Responder::SelectChannel { save_to_database: false, .. }));
        }
        _ => panic!("wrong responder"),
    }
    let m = role_toggle_message("Bildirim ister misin?", "twitch_toggle");
    assert_eq!(m.content.as_deref(), Some("Bildirim ister misin?"));
    assert!(!m.ephemeral);
    match m.component {
        Some(Component::Button(b)) => {
            assert_eq!((b.custom_id.as_str(), b.label.as_str(), b.style), ("twitch_toggle", "Değiştir", ButtonStyle::Primary));
        }
        _ => panic!("no button"),
    }
}

#[test]
fn handler_registers_the_six_commands() {
    let h = build_commands_handler(config());
    let names: Vec<String> = h.register_commands().iter().map(|c| c.name.clone()).collect();
    assert_eq!(
        names,
        vec![
            "set_guidelines_channel",
            "set_help_log_answered_channel",
            "set_help_log_waiting_channel",
            "set_help_channel",
            "add_help_category",
            "topic"
        ]
    );
    assert!(matches!(h.response_for("topic"), Some(Responder::Topic)));
    assert!(matches!(h.response_for("set_help_channel"), Some(Responder::SetHelpChannel)));
    assert!(matches!(h.response_for("add_help_category"), Some(Responder::AddHelpCategory)));
    assert!(matches!(h.response_for("set_guidelines_channel"), Some(Responder::SetChannel { .. })));
    assert!(h.response_for("unknown").is_none());
}

#[test]
fn adding_a_name_twice_replaces_the_command() {
    let h = CommandsHandler::new(config()).add_command("x", set_help_channel_fn).add_command("y", topic_fn);
    let h = h.add_command("x", topic_fn);
    assert_eq!(h.register_commands().len(), 2);
    assert!(matches!(h.response_for("x"), Some(Responder::Topic)));
    assert_eq!(h.register_commands()[0].name, "x");
    assert!(h.register_commands()[0].permission.is_none());
}

#[test]
fn permissions_pair_ids_with_commands_in_order() {
    let h = build_commands_handler(config());
    let admin = Permission { id: 99, kind: PermissionKind::User, allowed: true };
    let targets = h.register_permissions(&vec![11, 12, 13, 14, 15, 16]);
    // Every command but `topic` is for the administrator only.
    assert_eq!(targets, vec![(11, admin), (12, admin), (13, admin), (14, admin), (15, admin)]);
    let targets = h.register_permissions(&vec![21, 22]);
    assert_eq!(targets, vec![(21, admin), (22, admin)]);
    assert!(h.register_permissions(&vec![]).is_empty());
}

#[test]
fn options_are_read_once_by_name() {
    let raw = vec![
        channel_option("channel", 42),
        RawOption { name: "text".to_string(), resolved: Some(OptionValue::String("hi".to_string())) },
        RawOption { name: "n".to_string(), resolved: None },
        RawOption { name: "i".to_string(), resolved: Some(OptionValue::Integer(-3)) },
        RawOption { name: "b".to_string(), resolved: Some(OptionValue::Boolean(true)) },
        RawOption { name: "u".to_string(), resolved: Some(OptionValue::User(8, false)) },
        RawOption { name: "r".to_string(), resolved: Some(OptionValue::Role(9)) },
    ];
    assert_eq!(first_duplicate_name(&raw), None);
    let mut options = Options::new(raw);
    assert_eq!(options.read_channel("channel").unwrap().id, 42);
    assert_eq!(options.read_string("text"), Some("hi".to_string()));
    assert_eq!(options.read_string("n"), None);
    assert_eq!(options.read_integer("i"), Some(-3));
    assert_eq!(options.read_boolean("b"), Some(true));
    assert_eq!(options.read_user("u"), Some((8, false)));
    assert_eq!(options.read_role("r"), Some(9));
}

#[test]
fn duplicate_option_names_are_found() {
    let raw = vec![channel_option("a", 1), channel_option("b", 2), channel_option("a", 3)];
    assert_eq!(first_duplicate_name(&raw), Some(2));
}

#[test]
fn components_are_routed_by_id() {
    assert_eq!(route_component("help_button_click"), Some(ComponentRoute::SendCategories));
    assert_eq!(route_component("help_select_category"), Some(ComponentRoute::SendChannels));
    assert_eq!(route_component("help_select_channel"), Some(ComponentRoute::SendButtonCreate));
    assert_eq!(route_component("help_create_click"), Some(ComponentRoute::CreateHelpThread));
    assert_eq!(route_component("twitch_toggle"), None);
}

#[test]
fn options_report_presence_and_type() {
    let options = Options::new(vec![channel_option("channel", 1), RawOption { name: "t".into(), resolved: None }]);
    assert!(options.contains("channel"));
    assert!(!options.contains("missing"));
    assert!(options.value_matches("channel", OptionKind::Channel));
    assert!(!options.value_matches("channel", OptionKind::String));
    assert!(options.value_matches("t", OptionKind::Integer));
}

#[test]
fn responses_wrap_message_data() {
    let data = MessageData { content: Some("x".into()), ephemeral: true, component: None };
    assert!(matches!(Response::message(data), Response::Message(ref d) if d.content.as_deref() == Some("x")));
    let data = MessageData { content: None, ephemeral: true, component: None };
    assert!(matches!(Response::deferred_message(data), Response::DeferredMessage(ref d) if d.ephemeral));
}

#[test]
fn channel_commands_take_their_steps_in_order() {
    let t = SelectChannelTemplate::new("help_log_answered", "help log answered", true);
    let c = t.run(Command::new(&config()));
    let actions = channel_actions(c.response.as_ref().unwrap(), 42);
    assert_eq!(actions.len(), 2);
    assert!(matches!(actions[0], ChannelAction::RecordChannel { key: "help_log_answered", channel_id: 42 }));
    match &actions[1] {
        ChannelAction::Reply(r) => assert_eq!(text_of(r).0, "Help log answered kanalı başarıyla <#42> olarak seçildi."),
        _ => panic!(),
    }

    let t = SetChannelTemplate::new("help_log_waiting", "help log waiting");
    let c = t.run(Command::new(&config()));
    let actions = channel_actions(c.response.as_ref().unwrap(), 7);
    assert!(matches!(actions[0], ChannelAction::RecordChannel { key: "help log waiting", channel_id: 7 }));
    assert_eq!(actions.len(), 2);

    let t = SendRoleToggleMessage::new("Bildirim?", 5, "twitch_toggle", "twitch", "twitch");
    let c = t.run(Command::new(&config()));
    let actions = channel_actions(c.response.as_ref().unwrap(), 9);
    assert_eq!(actions.len(), 3);
    assert!(matches!(actions[0], ChannelAction::DeleteRecordedMessage { key: "twitch" }));
    match &actions[1] {
        ChannelAction::PostMessage { channel_id, message, record_key } => {
            assert_eq!((*channel_id, *record_key), (9, "twitch"));
            assert_eq!(message.content.as_deref(), Some("Bildirim?"));
            assert!(!message.ephemeral);
        }
        _ => panic!(),
    }
    match &actions[2] {
        ChannelAction::Reply(r) => assert_eq!(text_of(r).0, "Twitch kanalı başarıyla <#9> olarak seçildi."),
        _ => panic!(),
    }
}

#[test]
fn adding_a_template_equals_adding_its_built_command() {
    let a = CommandsHandler::new(config()).add_template_command("g", set_guidelines_channel_fn);
    let b = CommandsHandler::new(config()).add_command("g", |c| set_guidelines_channel_fn().run(c));
    let (x, y) = (&a.register_commands()[0], &b.register_commands()[0]);
    assert_eq!(a.register_commands().len(), b.register_commands().len());
    assert_eq!((&x.name, &x.description, x.default_permission, x.permission), (&y.name, &y.description, y.default_permission, y.permission));
    assert_eq!(x.options.len(), y.options.len());
    assert_eq!(x.options[0].description, y.options[0].description);
    match (a.response_for("g"), b.response_for("g")) {
        (
            Some(Responder::SetChannel { channel_key: k1, uppercase_name: u1 }),
            Some(Responder::SetChannel { channel_key: k2, uppercase_name: u2 }),
        ) => assert_eq!((k1, u1), (k2, u2)),
        _ => panic!(),
    }
}
