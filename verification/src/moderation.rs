//! Moderation commands: what each one asks of the platform.

use vstd::prelude::*;

verus! {

/// How many days of the banned member's messages are removed with a ban.
pub const BAN_MESSAGE_CLEANUP_DAYS: u8 = 7;

/// What a moderator gives a moderation command: the member it is about and
/// the reason.
#[derive(Clone, Debug, PartialEq, Eq)]
pub struct ModerationParameters {
    pub user: u64,
    pub reason: String,
}

/// A ban to carry out: the member to ban from the guild, how many days of
/// their messages to remove, and the reason to put on record.
#[derive(Clone, Debug, PartialEq, Eq)]
pub struct BanOrder {
    pub guild: u64,
    pub user: u64,
    pub delete_message_days: u8,
    pub reason: String,
}

/// Plans the ban of a member from the guild the command was used in, along
/// with the cleanup of their messages. A ban needs a guild: the command cannot
/// be used in a direct message.
pub fn ban(params: &ModerationParameters, guild_id: Option<u64>) -> (order: BanOrder)
    requires
        guild_id is Some,
    ensures
        order.guild == guild_id->0,
        order.user == params.user,
        order.delete_message_days == BAN_MESSAGE_CLEANUP_DAYS,
        order.reason@ == params.reason@,
{
    BanOrder {
        guild: guild_id.unwrap(),
        user: params.user,
        delete_message_days: BAN_MESSAGE_CLEANUP_DAYS,
        reason: params.reason.clone(),
    }
}

} // verus!
