use vstd::prelude::*;
use crate::commands::ChatKind;

verus! {

/// Seconds between two housekeeping scans: one day.
pub const PRUNE_INTERVAL_SECS: u64 = 86400;

/// The bot's standing in a chat.
#[derive(Clone, Copy, Debug, PartialEq, Eq, Structural)]
pub enum Membership {
    Owner,
    Administrator,
    Member,
    Restricted,
    Left,
    Banned,
}

/// Whether the bot's membership has to be looked up for a chat of this
/// kind. A private chat has no members to leave; in groups and channels the
/// bot can be removed.
pub fn needs_membership(kind: ChatKind) -> (needed: bool)
    ensures
        needed == (kind != ChatKind::Private),
{
    match kind {
        ChatKind::Private => false,
        ChatKind::Group => true,
        ChatKind::Supergroup => true,
        ChatKind::Channel => true,
    }
}

/// Whether a subscriber is pruned: the bot has left its chat or is banned
/// from it.
pub fn is_gone(membership: Membership) -> (gone: bool)
    ensures
        gone == (membership == Membership::Left || membership == Membership::Banned),
{
    match membership {
        Membership::Left => true,
        Membership::Banned => true,
        _ => false,
    }
}

} // verus!
