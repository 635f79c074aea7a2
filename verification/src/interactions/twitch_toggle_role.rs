//! The answer to the Twitch notification button: toggle the role.

use vstd::prelude::*;
use crate::command::command::{ephemeral_text, is_ephemeral_text, Response};

verus! {

pub const TWITCH_TOGGLE_CLICK_ID: &'static str = "twitch_toggle";
pub const UNSUBSCRIBED_TEXT: &'static str = "Twitch yayını bildirimi aboneliğinizden **vazgeçtiniz**. Tekrar abone olmak isterseniz aynı butonu kullanabilirsiniz.";
pub const SUBSCRIBED_TEXT: &'static str = "Twitch yayını bildirimlerine abone oldunuz, artık Twitch yayınlarını olduğunda **haberdar edileceksiniz**. Aboneliğinizi iptal ettirmek isterseniz aynı butonu kullanabilirsiniz.";

/// The change to the member's roles.
#[derive(Debug, PartialEq, Eq, Structural)]
pub enum RoleChange {
    Add(u64),
    Remove(u64),
}

/// Takes the role away from a member who has it, gives it to one who does
/// not, and says which happened.
pub fn twitch_toggle(member_roles: &Vec<u64>, role_id: u64) -> (r: (RoleChange, Response))
    ensures
        member_roles@.contains(role_id) ==> r.0 == RoleChange::Remove(role_id) && is_ephemeral_text(
            r.1,
            UNSUBSCRIBED_TEXT@,
        ),
        !member_roles@.contains(role_id) ==> r.0 == RoleChange::Add(role_id) && is_ephemeral_text(
            r.1,
            SUBSCRIBED_TEXT@,
        ),
{
    let mut i: usize = 0;
    while i < member_roles.len()
        invariant
            i <= member_roles.len(),
            forall|k: int| 0 <= k < i ==> member_roles@[k] != role_id,
        decreases member_roles.len() - i,
    {
        if member_roles[i] == role_id {
            assert(member_roles@[i as int] == role_id);
            return (RoleChange::Remove(role_id), ephemeral_text(UNSUBSCRIBED_TEXT.to_owned()));
        }
        i = i + 1;
    }
    (RoleChange::Add(role_id), ephemeral_text(SUBSCRIBED_TEXT.to_owned()))
}

} // verus!
