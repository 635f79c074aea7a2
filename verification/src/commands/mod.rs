pub mod set_help_channel;
pub mod set_guidelines_channel;
pub mod add_help_category;
pub mod topic;
pub mod set_help_log_answered_channel;
pub mod set_help_log_waiting_channel;

pub use add_help_category::add_help_category_fn;
pub use set_guidelines_channel::set_guidelines_channel_fn;
pub use set_help_channel::{set_help_channel_fn, HELP_BUTTON_CLICK_ID};
pub use set_help_log_answered_channel::set_help_log_answered_channel_fn;
pub use set_help_log_waiting_channel::set_help_log_waiting_channel_fn;
pub use topic::topic_fn;
