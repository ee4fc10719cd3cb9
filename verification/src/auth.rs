//! The authorization model: resolves a verified caller identity against a
//! list's owner and an item's creator into the role it acts in.
//!
//! The host substrate has already checked the caller's signature; this
//! layer only decides which stored identity the caller matches. The flags
//! on an item model roles, not distinct persons: an identity that is both
//! the item's creator and the list's owner acts as the creator first and,
//! once the creator's flag is set, as the owner — so two of its calls can
//! confirm an item from both sides.

use crate::state::ItemView;
use crate::state::ListItem;
use crate::state::Pubkey;
use vstd::prelude::*;

verus! {

/// The role a caller acts in towards one item of one list.
#[derive(Clone, Copy, Debug, PartialEq, Eq, Structural)]
pub enum Role {
    /// Acting as the item's creator.
    Creator,
    /// Acting as the list's owner.
    Owner,
    /// The caller matches neither stored identity.
    Neither,
}

/// The role that `user` resolves to, testing the item creator first.
/// Transitions that do not read the confirmation flags admit any role
/// but `Neither`.
pub open spec fn spec_role(user: Pubkey, list_owner: Pubkey, item_creator: Pubkey) -> Role {
    if user == item_creator {
        Role::Creator
    } else if user == list_owner {
        Role::Owner
    } else {
        Role::Neither
    }
}

/// Whether `user` may act on the item at all: only the list owner or
/// the item creator may cancel it or confirm it as done.
pub open spec fn spec_may_act(user: Pubkey, list_owner: Pubkey, item_creator: Pubkey) -> bool {
    spec_role(user, list_owner, item_creator) != Role::Neither
}

/// The role a `finish` call by `user` acts in. A caller holding only one
/// of the two identities always acts in that identity's role. A caller
/// holding both acts as the creator until the creator's flag is set and
/// as the owner afterwards, so its own calls can satisfy both flags.
pub open spec fn spec_finish_role(item: ItemView, list_owner: Pubkey, user: Pubkey) -> Role {
    if user == item.creator && user == list_owner {
        if !item.creator_finished {
            Role::Creator
        } else {
            Role::Owner
        }
    } else if user == item.creator {
        Role::Creator
    } else if user == list_owner {
        Role::Owner
    } else {
        Role::Neither
    }
}

/// Resolves a verified caller identity to its role.
pub fn resolve_role(user: Pubkey, list_owner: Pubkey, item_creator: Pubkey) -> (r: Role)
    ensures
        r == spec_role(user, list_owner, item_creator),
{
    if user == item_creator {
        Role::Creator
    } else if user == list_owner {
        Role::Owner
    } else {
        Role::Neither
    }
}

/// Resolves the role a `finish` call by `user` acts in.
pub fn resolve_finish_role(item: &ListItem, list_owner: Pubkey, user: Pubkey) -> (r: Role)
    ensures
        r == spec_finish_role(item@, list_owner, user),
{
    if user == item.creator && user == list_owner {
        if !item.creator_finished {
            Role::Creator
        } else {
            Role::Owner
        }
    } else if user == item.creator {
        Role::Creator
    } else if user == list_owner {
        Role::Owner
    } else {
        Role::Neither
    }
}

} // verus!
