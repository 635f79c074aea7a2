//! Slash commands as plain data: what the bot registers with Discord for a
//! command, and the replies it sends back.

use vstd::prelude::*;
use crate::config::Config;

verus! {

#[derive(Clone, Copy, Debug, PartialEq, Eq, Structural)]
pub enum ButtonStyle {
    Primary,
    Secondary,
    Success,
    Danger,
}

#[derive(Debug)]
pub struct Button {
    pub custom_id: String,
    pub label: String,
    pub style: ButtonStyle,
}

#[derive(Debug)]
pub struct SelectMenuOption {
    pub label: String,
    pub value: String,
}

#[derive(Debug)]
pub struct SelectMenu {
    pub custom_id: String,
    pub placeholder: String,
    pub min_values: u64,
    pub max_values: u64,
    pub options: Vec<SelectMenuOption>,
}

/// The single action row a message may carry.
#[derive(Debug)]
pub enum Component {
    Button(Button),
    SelectMenu(SelectMenu),
}

/// The content of a message the bot sends.
#[derive(Debug)]
pub struct MessageData {
    pub content: Option<String>,
    /// Shown only to the user who triggered the interaction.
    pub ephemeral: bool,
    pub component: Option<Component>,
}

/// How the bot answers an interaction.
#[derive(Debug)]
pub enum Response {
    /// Answers at once with a message.
    Message(MessageData),
    /// Acknowledges now and answers with a follow-up later.
    DeferredMessage(MessageData),
}

impl Response {
    pub fn message(data: MessageData) -> (r: Self)
        ensures
            r == Response::Message(data),
    {
        Response::Message(data)
    }

    pub fn deferred_message(data: MessageData) -> (r: Self)
        ensures
            r == Response::DeferredMessage(data),
    {
        Response::DeferredMessage(data)
    }
}

/// `r` answers at once with an ephemeral message holding exactly `text`.
pub open spec fn is_ephemeral_text(r: Response, text: Seq<char>) -> bool {
    &&& r matches Response::Message(d)
    &&& d.ephemeral
    &&& d.component is None
    &&& d.content matches Some(c)
    &&& c@ == text
}

/// An ephemeral message with `text` and no component.
pub fn ephemeral_text(text: String) -> (r: Response)
    ensures
        is_ephemeral_text(r, text@),
{
    Response::Message(MessageData { content: Some(text), ephemeral: true, component: None })
}

/// `b` is a button with this id, label and style.
pub open spec fn is_button(b: Button, custom_id: Seq<char>, label: Seq<char>, style: ButtonStyle) -> bool {
    b.custom_id@ == custom_id && b.label@ == label && b.style == style
}

pub fn make_button(custom_id: &str, label: &str, style: ButtonStyle) -> (b: Button)
    ensures
        is_button(b, custom_id@, label@, style),
{
    Button { custom_id: custom_id.to_owned(), label: label.to_owned(), style }
}

#[derive(Clone, Copy, Debug, PartialEq, Eq, Structural)]
pub enum OptionKind {
    SubCommand,
    SubCommandGroup,
    String,
    Integer,
    Boolean,
    User,
    Channel,
    Role,
    Mentionable,
    Number,
}

/// One option of a slash command.
#[derive(Debug)]
pub struct CommandOption {
    pub name: String,
    pub kind: OptionKind,
    pub required: bool,
    pub description: String,
}

/// `o` is an option with this name, kind, requirement and description.
pub open spec fn is_option(
    o: CommandOption,
    name: Seq<char>,
    kind: OptionKind,
    required: bool,
    description: Seq<char>,
) -> bool {
    o.name@ == name && o.kind == kind && o.required == required && o.description@ == description
}

#[derive(Clone, Copy, Debug, PartialEq, Eq, Structural)]
pub enum PermissionKind {
    Role,
    User,
}

/// A permission override of a command for one role or user.
#[derive(Clone, Copy, Debug, PartialEq, Eq, Structural)]
pub struct Permission {
    pub id: u64,
    pub kind: PermissionKind,
    pub allowed: bool,
}

/// Which response a command runs when it is invoked.
#[derive(Debug)]
pub enum Responder {
    /// Records the selected channel under `channel_name` when
    /// `save_to_database`, and confirms the selection.
    SelectChannel { channel_name: &'static str, uppercase_display_name: String, save_to_database: bool },
    /// Records the selected channel under `channel_key`, and confirms it.
    SetChannel { channel_key: &'static str, uppercase_name: String },
    /// Posts `channel_message` with a toggle button, records it under
    /// `channel_name`, then runs `inner`.
    RoleToggleMessage {
        channel_message: &'static str,
        interaction_id: &'static str,
        channel_name: &'static str,
        inner: Box<Responder>,
    },
    SetHelpChannel,
    AddHelpCategory,
    Topic,
}

/// The same text, compared by its characters.
pub open spec fn texts_alike(a: Option<String>, b: Option<String>) -> bool {
    match (a, b) {
        (Some(x), Some(y)) => x@ == y@,
        (None, None) => true,
        _ => false,
    }
}

/// The same option, its texts compared by their characters.
pub open spec fn option_alike(a: CommandOption, b: CommandOption) -> bool {
    a.name@ == b.name@ && a.kind == b.kind && a.required == b.required && a.description@ == b.description@
}

/// The same options in the same order.
pub open spec fn options_alike(a: Seq<CommandOption>, b: Seq<CommandOption>) -> bool {
    &&& a.len() == b.len()
    &&& forall|i: int| 0 <= i < a.len() ==> #[trigger] option_alike(a[i], b[i])
}

/// Adding alike options to alike options keeps them alike.
pub proof fn lemma_options_alike_push(a: Seq<CommandOption>, b: Seq<CommandOption>, x: CommandOption, y: CommandOption)
    requires
        options_alike(a, b),
        option_alike(x, y),
    ensures
        options_alike(a.push(x), b.push(y)),
{
    assert forall|i: int| 0 <= i < a.push(x).len() implies #[trigger] option_alike(a.push(x)[i], b.push(y)[i]) by {
        if i < a.len() {
            assert(option_alike(a[i], b[i]));
        }
    }
}

/// The same response, its texts compared by their characters.
pub open spec fn responders_alike(a: Responder, b: Responder) -> bool
    decreases a,
{
    match a {
        Responder::SelectChannel { channel_name, uppercase_display_name, save_to_database } => {
            &&& b matches Responder::SelectChannel { channel_name: n, uppercase_display_name: u, save_to_database: s }
            &&& n == channel_name
            &&& u@ == uppercase_display_name@
            &&& s == save_to_database
        },
        Responder::SetChannel { channel_key, uppercase_name } => {
            &&& b matches Responder::SetChannel { channel_key: k, uppercase_name: u }
            &&& k == channel_key
            &&& u@ == uppercase_name@
        },
        Responder::RoleToggleMessage { channel_message, interaction_id, channel_name, inner } => {
            match b {
                Responder::RoleToggleMessage { channel_message: m, interaction_id: i, channel_name: n, inner: bi } => {
                    &&& m == channel_message
                    &&& i == interaction_id
                    &&& n == channel_name
                    &&& responders_alike(*inner, *bi)
                },
                _ => false,
            }
        },
        Responder::SetHelpChannel => b is SetHelpChannel,
        Responder::AddHelpCategory => b is AddHelpCategory,
        Responder::Topic => b is Topic,
    }
}

/// Every response is alike to itself.
pub proof fn lemma_responders_alike_refl(r: Responder)
    ensures
        responders_alike(r, r),
    decreases r,
{
    match r {
        Responder::RoleToggleMessage { inner, .. } => lemma_responders_alike_refl(*inner),
        _ => {},
    }
}

/// Two built commands that register the same thing: the same
/// administrator, permission, description, default permission, options and
/// response, texts compared by their characters.
pub open spec fn commands_alike(a: Command, b: Command) -> bool {
    &&& a.administrator_id == b.administrator_id
    &&& a.permission == b.permission
    &&& texts_alike(a.description, b.description)
    &&& a.default_permission == b.default_permission
    &&& options_alike(a.options@, b.options@)
    &&& match (a.response, b.response) {
        (Some(x), Some(y)) => responders_alike(x, y),
        (None, None) => true,
        _ => false,
    }
}

/// A command being built.
#[derive(Debug)]
pub struct Command {
    pub administrator_id: u64,
    pub description: Option<String>,
    pub default_permission: Option<bool>,
    pub options: Vec<CommandOption>,
    pub response: Option<Responder>,
    pub permission: Option<Permission>,
}

impl Command {
    /// Nothing set yet but the administrator taken from the configuration.
    pub open spec fn is_blank(&self) -> bool {
        &&& self.description is None
        &&& self.default_permission is None
        &&& self.options@.len() == 0
        &&& self.response is None
        &&& self.permission is None
    }

    pub fn new(config: &Config) -> (c: Self)
        ensures
            c.is_blank(),
            c.administrator_id == config.administrator_id,
    {
        Command {
            administrator_id: config.administrator_id,
            description: None,
            default_permission: None,
            options: Vec::new(),
            response: None,
            permission: None,
        }
    }

    pub fn default_permission(&mut self, default_permission: bool)
        ensures
            *final(self) == (Command { default_permission: Some(default_permission), ..*old(self) }),
    {
        self.default_permission = Some(default_permission);
    }

    pub fn description(&mut self, description: &str)
        ensures
            final(self).description matches Some(d) && d@ == description@,
            final(self).administrator_id == old(self).administrator_id,
            final(self).default_permission == old(self).default_permission,
            final(self).options == old(self).options,
            final(self).response == old(self).response,
            final(self).permission == old(self).permission,
    {
        self.description = Some(description.to_owned());
    }

    pub fn create_option(&mut self, option: CommandOption)
        ensures
            final(self).options@ == old(self).options@.push(option),
            final(self).administrator_id == old(self).administrator_id,
            final(self).description == old(self).description,
            final(self).default_permission == old(self).default_permission,
            final(self).response == old(self).response,
            final(self).permission == old(self).permission,
    {
        self.options.push(option);
    }

    pub fn add_option(&mut self, option: CommandOption)
        ensures
            final(self).options@ == old(self).options@.push(option),
            final(self).administrator_id == old(self).administrator_id,
            final(self).description == old(self).description,
            final(self).default_permission == old(self).default_permission,
            final(self).response == old(self).response,
            final(self).permission == old(self).permission,
    {
        self.options.push(option);
    }

    pub fn set_options(&mut self, options: Vec<CommandOption>)
        ensures
            *final(self) == (Command { options: options, ..*old(self) }),
    {
        self.options = options;
    }

    pub fn set_response(&mut self, response: Responder)
        ensures
            *final(self) == (Command { response: Some(response), ..*old(self) }),
    {
        self.response = Some(response);
    }

    pub fn set_permissions(&mut self, permission: Permission)
        ensures
            *final(self) == (Command { permission: Some(permission), ..*old(self) }),
    {
        self.permission = Some(permission);
    }
}

impl Command {
    /// Splits a finished command into what is registered with Discord and
    /// what answers it, both under `name`.
    pub fn to_parts(self, name: String) -> (r: (CommandHolder, ResponseFnHolder))
        requires
            self.response is Some,
        ensures
            r.0.name@ == name@,
            r.1.name@ == name@,
            r.0.matches_command(self),
            r.1.response == self.response->0,
    {
        let response = match self.response {
            Some(response) => response,
            None => Responder::Topic,
        };
        (
            CommandHolder {
                name: name.clone(),
                permission: self.permission,
                description: self.description,
                default_permission: self.default_permission,
                options: self.options,
            },
            ResponseFnHolder { name, response },
        )
    }

    /// Builds a command with `command_fn` from a blank one and splits it
    /// under `name`.
    pub fn fn_to_parts<F: FnOnce(Command) -> Command>(name: String, command_fn: F, config: &Config) -> (r: (
        CommandHolder,
        ResponseFnHolder,
    ))
        requires
            forall|c: Command| #[trigger] call_requires(command_fn, (c,)),
            forall|c: Command, d: Command| #[trigger] call_ensures(command_fn, (c,), d) ==> d.response is Some,
        ensures
            r.0.name@ == name@,
            r.1.name@ == name@,
            exists|c: Command, d: Command|
                {
                    &&& c.is_blank()
                    &&& c.administrator_id == config.administrator_id
                    &&& #[trigger] call_ensures(command_fn, (c,), d)
                    &&& r.0.matches_command(d)
                    &&& r.1.response == d.response->0
                },
    {
        let blank = Command::new(config);
        let ghost c = blank;
        let built = command_fn(blank);
        let ghost d = built;
        let parts = built.to_parts(name);
        assert(call_ensures(command_fn, (c,), d));
        parts
    }
}

/// A command as it is registered with Discord.
#[derive(Debug)]
pub struct CommandHolder {
    pub name: String,
    pub permission: Option<Permission>,
    pub description: Option<String>,
    pub default_permission: Option<bool>,
    pub options: Vec<CommandOption>,
}

impl CommandHolder {
    /// Registers exactly what `c` describes.
    pub open spec fn matches_command(self, c: Command) -> bool {
        &&& self.permission == c.permission
        &&& self.description == c.description
        &&& self.default_permission == c.default_permission
        &&& self.options == c.options
    }
}

/// What answers a command when it is invoked.
#[derive(Debug)]
pub struct ResponseFnHolder {
    pub name: String,
    pub response: Responder,
}

} // verus!
