pub mod send_categories;
pub mod send_channels;
pub mod send_button_create;
pub mod create_help_thread;
pub mod twitch_toggle_role;

pub use create_help_thread::help_thread_step;
pub use send_button_create::HELP_CREATE_CLICK_ID;
pub use send_categories::HELP_SELECT_CATEGORY_ID;
pub use send_channels::HELP_SELECT_CHANNEL_ID;
