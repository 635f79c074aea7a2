pub mod select_channel;
pub mod set_channel;
pub mod send_role_toggle_message;

pub use select_channel::SelectChannelTemplate;
pub use send_role_toggle_message::SendRoleToggleMessage;
pub use set_channel::SetChannelTemplate;
