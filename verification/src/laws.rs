//! Properties that relate several transitions, proved over the same
//! spec-level model that the transitions' own contracts use.

use crate::auth::spec_finish_role;
use crate::state::ItemView;
use crate::state::ListView;
use crate::state::Pubkey;
use crate::transitions::lemma_remove_absent;
use crate::transitions::lemma_remove_not_contains;
use crate::transitions::lemma_remove_push;
use crate::transitions::spec_add_err;
use crate::transitions::spec_add_item;
use crate::transitions::spec_add_list;
use crate::transitions::spec_cancel_err;
use crate::transitions::spec_finish_closes;
use crate::transitions::spec_finish_err;
use crate::transitions::spec_finish_item;
use crate::transitions::spec_remove;
use vstd::prelude::*;

verus! {

/// An `add` followed immediately by a `cancel` of the same item, with
/// the correct refund recipient, is allowed, returns the list to its
/// pre-`add` open-items sequence, and refunds the whole bounty — escrow
/// plus storage deposit — to the creator.
///
/// The new item's account address is fresh: the host cannot allocate an
/// account at an address that an open item already occupies.
pub proof fn lemma_add_then_cancel(
    list: ListView,
    item_key: Pubkey,
    user: Pubkey,
    name: Seq<char>,
    bounty: u64,
    deposit_floor: u64,
)
    requires
        list.wf(),
        !list.lines.contains(item_key),
        spec_add_err(list, name, bounty, deposit_floor) is None,
    ensures
        ({
            let list1 = spec_add_list(list, item_key);
            let item = spec_add_item(user, name, bounty, deposit_floor);
            &&& spec_cancel_err(list1, item, item_key, item.creator, user) is None
            &&& spec_remove(list1.lines, item_key) == list.lines
            &&& item.escrow_balance + item.storage_deposit == bounty
        }),
{
    let list1 = spec_add_list(list, item_key);
    assert(list1.lines.contains(item_key)) by {
        assert(list1.lines[list1.lines.len() - 1] == item_key);
    }
    lemma_remove_push(list.lines, item_key, item_key);
    lemma_remove_absent(list.lines, item_key);
}

/// `finish` is idempotent per role: while the other side has not acted,
/// a second call by the same role-holder — any caller whose next call
/// still resolves to the same role — is allowed, leaves the item exactly
/// as the first call left it, and still does not close it (so the list
/// is untouched by both calls). A caller holding both identities is the
/// one caller whose second call acts in the other role instead.
pub proof fn lemma_finish_idempotent_per_role(
    list: ListView,
    item: ItemView,
    item_key: Pubkey,
    user: Pubkey,
)
    requires
        spec_finish_err(list, item, item_key, list.list_owner, user) is None,
        ({
            let role = spec_finish_role(item, list.list_owner, user);
            &&& !spec_finish_closes(item, role)
            &&& spec_finish_role(spec_finish_item(item, role), list.list_owner, user) == role
        }),
    ensures
        ({
            let role = spec_finish_role(item, list.list_owner, user);
            let item1 = spec_finish_item(item, role);
            &&& spec_finish_err(list, item1, item_key, list.list_owner, user) is None
            &&& spec_finish_item(item1, role) == item1
            &&& !spec_finish_closes(item1, role)
        }),
{
}

/// Dual `finish` closes the item whichever side confirms first: with a
/// freshly confirmable item, the first call — by the creator or by the
/// owner — leaves it open, and the second call by the other side is
/// allowed, makes both flags true, closes the item, and removes its
/// reference from the list.
///
/// The two callers may be one identity holding both roles: its first
/// call acts as the creator, its second as the owner, and its own two
/// calls close the item.
pub proof fn lemma_dual_finish(
    list: ListView,
    item: ItemView,
    item_key: Pubkey,
    user1: Pubkey,
    user2: Pubkey,
)
    requires
        !item.creator_finished,
        !item.list_owner_finished,
        list.lines.contains(item_key),
        (user1 == item.creator && user2 == list.list_owner) || (user1 == list.list_owner && user2
            == item.creator),
    ensures
        ({
            let role1 = spec_finish_role(item, list.list_owner, user1);
            let item1 = spec_finish_item(item, role1);
            let role2 = spec_finish_role(item1, list.list_owner, user2);
            let item2 = spec_finish_item(item1, role2);
            &&& spec_finish_err(list, item, item_key, list.list_owner, user1) is None
            &&& !spec_finish_closes(item, role1)
            &&& spec_finish_err(list, item1, item_key, list.list_owner, user2) is None
            &&& spec_finish_closes(item1, role2)
            &&& item2.creator_finished && item2.list_owner_finished
            &&& !spec_remove(list.lines, item_key).contains(item_key)
        }),
{
    lemma_remove_not_contains(list.lines, item_key);
}

} // verus!
