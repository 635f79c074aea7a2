pub mod command;
pub mod commands_handler;
pub mod template;
pub mod option;
pub mod templates;
pub mod channel_actions;
