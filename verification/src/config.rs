//! The bot's configuration, as read from its configuration file.

use vstd::prelude::*;

verus! {

#[derive(Debug)]
pub struct Config {
    pub application_id: u64,
    pub administrator_id: u64,
    pub db_path: String,
    pub role_ids: RoleIds,
}

#[derive(Clone, Copy, Debug)]
pub struct RoleIds {
    pub twitch: u64,
}

} // verus!
