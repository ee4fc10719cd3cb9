//! The list/item state machine: the four transitions, the spec-level
//! model of their effects, and the errors they reject a request with.
//!
//! Each transition runs against records the host substrate has fetched
//! and caller identities it has verified. Every precondition is checked
//! before any mutation, so a rejected request leaves every record
//! unchanged. Value movements (escrow funding, refunds, payouts) are
//! reported as plain amounts for the host to perform.

use crate::auth::resolve_finish_role;
use crate::auth::resolve_role;
use crate::auth::spec_finish_role;
use crate::auth::spec_may_act;
use crate::auth::Role;
use crate::state::byte_len;
use crate::state::str_byte_len;
use crate::state::ItemView;
use crate::state::ListItem;
use crate::state::ListView;
use crate::state::Pubkey;
use crate::state::TodoList;
use crate::state::NAME_MAX;
use vstd::prelude::*;

verus! {

/// Why a transition was rejected. Every failure is surfaced to the caller
/// as one of these, and the rejected transition has no observable effect.
#[derive(Clone, Copy, Debug, PartialEq, Eq, Structural)]
pub enum TodoListError {
    /// A name longer than [`NAME_MAX`] bytes was supplied.
    NameTooLong,
    /// The list already holds as many open items as its capacity allows.
    ListFull,
    /// The offered bounty does not cover the item's storage reservation.
    BountyTooSmall,
    /// Only the list owner or the item creator may cancel an item.
    CancelPermissions,
    /// Only the list owner or the item creator may finish an item.
    FinishPermissions,
    /// The supplied list owner identity does not match the stored one.
    WrongListOwner,
    /// The supplied item creator identity does not match the stored one.
    WrongItemCreator,
    /// The referenced item is not among the list's open items.
    ItemNotFound,
}

// ---------------------------------------------------------------------
// Request records: the referenced records and verified identities each
// transition runs against.
// ---------------------------------------------------------------------

/// Request record for [`new_list`]: the host has verified `user`'s
/// signature; `user` funds the list's storage and becomes its owner.
pub struct NewList {
    /// Verified identity of the caller creating the list.
    pub user: Pubkey,
}

/// Request record for [`add`]: the host has allocated a fresh account for
/// the item, paying its storage reservation out of the offered bounty.
pub struct Add {
    /// The list the item is added to.
    pub list: TodoList,
    /// Address of the account the host reserved for the new item.
    pub item_key: Pubkey,
    /// The storage reservation floor the host consumed to allocate the
    /// item's account; the bounty must cover at least this much.
    pub deposit_floor: u64,
    /// Verified identity of the caller funding the bounty; becomes the
    /// item's creator.
    pub user: Pubkey,
}

/// Request record for [`cancel`]: closes an item early, refunding its
/// creator.
pub struct Cancel {
    /// The list the item belongs to.
    pub list: TodoList,
    /// The item to close.
    pub item: ListItem,
    /// Address of the item's account.
    pub item_key: Pubkey,
    /// Supplied refund recipient; must equal the stored item creator.
    pub item_creator: Pubkey,
    /// Verified identity of the caller.
    pub user: Pubkey,
}

/// Request record for [`finish`]: confirms an item as done in the
/// caller's role, closing it once both roles have confirmed.
pub struct Finish {
    /// The list the item belongs to.
    pub list: TodoList,
    /// The item being confirmed.
    pub item: ListItem,
    /// Address of the item's account.
    pub item_key: Pubkey,
    /// Supplied payout recipient; must equal the stored list owner.
    pub list_owner: Pubkey,
    /// Verified identity of the caller.
    pub user: Pubkey,
}

// ---------------------------------------------------------------------
// The spec-level model of the transitions.
// ---------------------------------------------------------------------

/// The sequence `lines` with every occurrence of `key` removed, order of
/// the rest kept.
pub open spec fn spec_remove(lines: Seq<Pubkey>, key: Pubkey) -> Seq<Pubkey>
    decreases lines.len(),
{
    if lines.len() == 0 {
        Seq::empty()
    } else {
        let rest = spec_remove(lines.drop_last(), key);
        if lines.last() == key {
            rest
        } else {
            rest.push(lines.last())
        }
    }
}

/// Which error `new_list` rejects a request with, if any.
pub open spec fn spec_new_list_err(name: Seq<char>) -> Option<TodoListError> {
    if byte_len(name) > NAME_MAX as int {
        Some(TodoListError::NameTooLong)
    } else {
        None
    }
}

/// The list that `new_list` creates: owned by the caller, empty.
pub open spec fn spec_new_list(user: Pubkey, name: Seq<char>, capacity: u16) -> ListView {
    ListView { list_owner: user, capacity, name, lines: Seq::empty() }
}

/// Which error `add` rejects a request with, if any, in the order the
/// preconditions are checked.
pub open spec fn spec_add_err(
    list: ListView,
    name: Seq<char>,
    bounty: u64,
    deposit_floor: u64,
) -> Option<TodoListError> {
    if byte_len(name) > NAME_MAX as int {
        Some(TodoListError::NameTooLong)
    } else if list.lines.len() >= list.capacity as int {
        Some(TodoListError::ListFull)
    } else if bounty < deposit_floor {
        Some(TodoListError::BountyTooSmall)
    } else {
        None
    }
}

/// The list after `add`: the new item's reference appended.
pub open spec fn spec_add_list(list: ListView, item_key: Pubkey) -> ListView {
    ListView { lines: list.lines.push(item_key), ..list }
}

/// The item that `add` creates: unconfirmed, escrowing what the bounty
/// offers above the storage reservation floor.
pub open spec fn spec_add_item(
    user: Pubkey,
    name: Seq<char>,
    bounty: u64,
    deposit_floor: u64,
) -> ItemView {
    ItemView {
        creator: user,
        creator_finished: false,
        list_owner_finished: false,
        name,
        escrow_balance: (bounty - deposit_floor) as u64,
        storage_deposit: deposit_floor,
    }
}

/// Which error `cancel` rejects a request with, if any, in the order the
/// preconditions are checked.
pub open spec fn spec_cancel_err(
    list: ListView,
    item: ItemView,
    item_key: Pubkey,
    item_creator: Pubkey,
    user: Pubkey,
) -> Option<TodoListError> {
    if item_creator != item.creator {
        Some(TodoListError::WrongItemCreator)
    } else if !spec_may_act(user, list.list_owner, item.creator) {
        Some(TodoListError::CancelPermissions)
    } else if !list.lines.contains(item_key) {
        Some(TodoListError::ItemNotFound)
    } else {
        None
    }
}

/// Which error `finish` rejects a request with, if any, in the order the
/// preconditions are checked.
pub open spec fn spec_finish_err(
    list: ListView,
    item: ItemView,
    item_key: Pubkey,
    list_owner: Pubkey,
    user: Pubkey,
) -> Option<TodoListError> {
    if list_owner != list.list_owner {
        Some(TodoListError::WrongListOwner)
    } else if !list.lines.contains(item_key) {
        Some(TodoListError::ItemNotFound)
    } else if !spec_may_act(user, list.list_owner, item.creator) {
        Some(TodoListError::FinishPermissions)
    } else {
        None
    }
}

/// The item after a `finish` call in the given role: that role's flag
/// set, everything else kept.
pub open spec fn spec_finish_item(item: ItemView, role: Role) -> ItemView {
    match role {
        Role::Creator => ItemView { creator_finished: true, ..item },
        Role::Owner => ItemView { list_owner_finished: true, ..item },
        Role::Neither => item,
    }
}

/// Whether a `finish` call in the given role closes the item: it does
/// exactly when both confirmation flags hold afterwards.
pub open spec fn spec_finish_closes(item: ItemView, role: Role) -> bool {
    spec_finish_item(item, role).creator_finished && spec_finish_item(
        item,
        role,
    ).list_owner_finished
}

// ---------------------------------------------------------------------
// Facts about spec_remove.
// ---------------------------------------------------------------------

/// Removing a key never lengthens the sequence.
pub proof fn lemma_remove_len(lines: Seq<Pubkey>, key: Pubkey)
    ensures
        spec_remove(lines, key).len() <= lines.len(),
    decreases lines.len(),
{
    if lines.len() > 0 {
        lemma_remove_len(lines.drop_last(), key);
    }
}

/// The removed key does not occur in the result.
pub proof fn lemma_remove_not_contains(lines: Seq<Pubkey>, key: Pubkey)
    ensures
        !spec_remove(lines, key).contains(key),
    decreases lines.len(),
{
    if lines.len() > 0 {
        lemma_remove_not_contains(lines.drop_last(), key);
    }
}

/// How removal acts on an appended element.
pub proof fn lemma_remove_push(lines: Seq<Pubkey>, key: Pubkey, e: Pubkey)
    ensures
        spec_remove(lines.push(e), key) == if e == key {
            spec_remove(lines, key)
        } else {
            spec_remove(lines, key).push(e)
        },
{
    assert(lines.push(e).drop_last() =~= lines);
    assert(lines.push(e).last() == e);
}

/// Removing a key that does not occur changes nothing.
pub proof fn lemma_remove_absent(lines: Seq<Pubkey>, key: Pubkey)
    requires
        !lines.contains(key),
    ensures
        spec_remove(lines, key) == lines,
    decreases lines.len(),
{
    if lines.len() == 0 {
        assert(lines =~= Seq::<Pubkey>::empty());
    } else {
        assert(lines.last() != key) by {
            if lines.last() == key {
                assert(lines[lines.len() - 1] == key);
            }
        }
        assert(!lines.drop_last().contains(key)) by {
            if lines.drop_last().contains(key) {
                let i = choose|i: int|
                    0 <= i < lines.drop_last().len() && lines.drop_last()[i] == key;
                assert(lines[i] == key);
            }
        }
        lemma_remove_absent(lines.drop_last(), key);
        assert(spec_remove(lines, key) =~= lines);
    }
}

// ---------------------------------------------------------------------
// Executable helpers on the open-items sequence.
// ---------------------------------------------------------------------

/// Whether `key` occurs among the list's open-item references.
fn contains_key(lines: &Vec<Pubkey>, key: Pubkey) -> (r: bool)
    ensures
        r == lines@.contains(key),
{
    let mut i: usize = 0;
    while i < lines.len()
        invariant
            i <= lines@.len(),
            forall|j: int| 0 <= j < i ==> lines@[j] != key,
        decreases lines@.len() - i,
    {
        if lines[i] == key {
            assert(lines@[i as int] == key);
            return true;
        }
        i += 1;
    }
    false
}

/// Removes every occurrence of `key`, keeping the order of the rest.
fn remove_key(lines: &mut Vec<Pubkey>, key: Pubkey)
    ensures
        final(lines)@ == spec_remove(old(lines)@, key),
{
    let ghost orig: Seq<Pubkey> = lines@;
    let mut kept: Vec<Pubkey> = Vec::new();
    let mut i: usize = 0;
    while i < lines.len()
        invariant
            lines@ == orig,
            i <= orig.len(),
            kept@ == spec_remove(orig.take(i as int), key),
        decreases orig.len() - i,
    {
        let k = lines[i];
        proof {
            assert(orig.take(i + 1) =~= orig.take(i as int).push(orig[i as int]));
            lemma_remove_push(orig.take(i as int), key, orig[i as int]);
        }
        if k != key {
            kept.push(k);
        }
        i += 1;
    }
    proof {
        assert(orig.take(orig.len() as int) =~= orig);
    }
    *lines = kept;
}

// ---------------------------------------------------------------------
// The transitions.
// ---------------------------------------------------------------------

/// Creates a new, empty list owned by the caller.
///
/// Succeeds, returning the created list, exactly when the name fits the
/// storage reserved for it; a longer name is rejected with
/// `NameTooLong` and nothing is created.
pub fn new_list(accounts: &NewList, name: String, capacity: u16) -> (r: Result<
    TodoList,
    TodoListError,
>)
    ensures
        match r {
            Ok(list) => {
                &&& spec_new_list_err(name@) is None
                &&& list@ == spec_new_list(accounts.user, name@, capacity)
                &&& list@.wf()
            },
            Err(e) => spec_new_list_err(name@) == Some(e),
        },
{
    if str_byte_len(&name) > NAME_MAX {
        return Err(TodoListError::NameTooLong);
    }
    let list = TodoList { list_owner: accounts.user, capacity, name, lines: Vec::new() };
    Ok(list)
}

/// Opens a new item on the list, escrowing the offered bounty.
///
/// Succeeds exactly when the name fits, the list is below capacity, and
/// the bounty covers the storage reservation floor; otherwise the
/// matching error is returned and the list is unchanged. On success the
/// item's reference is appended to the list, and the caller owes the
/// difference `bounty - deposit_floor` into the item's escrow — zero is
/// a no-op for the host, never an error.
pub fn add(accounts: &mut Add, name: String, bounty: u64) -> (r: Result<ListItem, TodoListError>)
    requires
        old(accounts).list@.wf(),
    ensures
        final(accounts).item_key == old(accounts).item_key,
        final(accounts).deposit_floor == old(accounts).deposit_floor,
        final(accounts).user == old(accounts).user,
        match r {
            Ok(item) => {
                &&& spec_add_err(old(accounts).list@, name@, bounty, old(accounts).deposit_floor)
                    is None
                &&& final(accounts).list@ == spec_add_list(
                    old(accounts).list@,
                    old(accounts).item_key,
                )
                &&& item@ == spec_add_item(
                    old(accounts).user,
                    name@,
                    bounty,
                    old(accounts).deposit_floor,
                )
                &&& item@.escrow_balance + item@.storage_deposit == bounty
                &&& final(accounts).list@.wf()
                &&& item@.wf()
            },
            Err(e) => {
                &&& spec_add_err(old(accounts).list@, name@, bounty, old(accounts).deposit_floor)
                    == Some(e)
                &&& final(accounts).list == old(accounts).list
            },
        },
{
    if str_byte_len(&name) > NAME_MAX {
        return Err(TodoListError::NameTooLong);
    }
    if accounts.list.lines.len() >= accounts.list.capacity as usize {
        return Err(TodoListError::ListFull);
    }
    if bounty < accounts.deposit_floor {
        return Err(TodoListError::BountyTooSmall);
    }
    let key = accounts.item_key;
    accounts.list.lines.push(key);
    let item = ListItem {
        creator: accounts.user,
        creator_finished: false,
        list_owner_finished: false,
        name,
        escrow_balance: bounty - accounts.deposit_floor,
        storage_deposit: accounts.deposit_floor,
    };
    Ok(item)
}

/// Closes an item early, refunding its whole value to its creator.
///
/// Succeeds exactly when the supplied refund recipient matches the
/// stored creator, the caller is the list owner or the item creator, and
/// the item is among the list's open items; otherwise the matching error
/// is returned and nothing changes. On success the item's reference is
/// removed from the list and the host owes the returned amount — the
/// storage deposit plus the whole escrow — to the creator; the item's
/// record is then deallocated.
pub fn cancel(accounts: &mut Cancel) -> (r: Result<u64, TodoListError>)
    requires
        old(accounts).list@.wf(),
        old(accounts).item@.wf(),
    ensures
        final(accounts).item == old(accounts).item,
        final(accounts).item_key == old(accounts).item_key,
        final(accounts).item_creator == old(accounts).item_creator,
        final(accounts).user == old(accounts).user,
        match r {
            Ok(refund) => {
                &&& spec_cancel_err(
                    old(accounts).list@,
                    old(accounts).item@,
                    old(accounts).item_key,
                    old(accounts).item_creator,
                    old(accounts).user,
                ) is None
                &&& refund == old(accounts).item@.escrow_balance
                    + old(accounts).item@.storage_deposit
                &&& final(accounts).list@.lines == spec_remove(
                    old(accounts).list@.lines,
                    old(accounts).item_key,
                )
                &&& !final(accounts).list@.lines.contains(old(accounts).item_key)
                &&& final(accounts).list@.list_owner == old(accounts).list@.list_owner
                &&& final(accounts).list@.capacity == old(accounts).list@.capacity
                &&& final(accounts).list@.name == old(accounts).list@.name
                &&& final(accounts).list@.wf()
            },
            Err(e) => {
                &&& spec_cancel_err(
                    old(accounts).list@,
                    old(accounts).item@,
                    old(accounts).item_key,
                    old(accounts).item_creator,
                    old(accounts).user,
                ) == Some(e)
                &&& final(accounts).list == old(accounts).list
            },
        },
{
    if accounts.item_creator != accounts.item.creator {
        return Err(TodoListError::WrongItemCreator);
    }
    let role = resolve_role(accounts.user, accounts.list.list_owner, accounts.item.creator);
    if role == Role::Neither {
        return Err(TodoListError::CancelPermissions);
    }
    if !contains_key(&accounts.list.lines, accounts.item_key) {
        return Err(TodoListError::ItemNotFound);
    }
    let key = accounts.item_key;
    remove_key(&mut accounts.list.lines, key);
    proof {
        lemma_remove_len(old(accounts).list@.lines, key);
        lemma_remove_not_contains(old(accounts).list@.lines, key);
    }
    Ok(accounts.item.escrow_balance + accounts.item.storage_deposit)
}

/// Confirms an item as done in the caller's role; closes it once both
/// roles have confirmed.
///
/// Succeeds exactly when the supplied payout recipient matches the
/// stored list owner, the item is among the list's open items, and the
/// caller resolves to the creator or the owner role; otherwise the
/// matching error is returned and nothing changes. A successful call
/// sets the flag of the role the caller acts in — setting it again is a
/// no-op, not an error. The flags model roles, not persons: a caller
/// holding both identities acts as the creator first and, once the
/// creator's flag is set, as the owner, so its own two calls confirm an
/// item from both sides. The call that makes both flags true also removes the
/// item from the list and returns `Ok(Some(amount))`: the host owes
/// that amount — storage deposit plus escrow — to the list owner, and
/// the item's record is deallocated; before that, `Ok(None)` and the
/// item stays open.
pub fn finish(accounts: &mut Finish) -> (r: Result<Option<u64>, TodoListError>)
    requires
        old(accounts).list@.wf(),
        old(accounts).item@.wf(),
    ensures
        final(accounts).item_key == old(accounts).item_key,
        final(accounts).list_owner == old(accounts).list_owner,
        final(accounts).user == old(accounts).user,
        match r {
            Ok(outcome) => ({
                let role = spec_finish_role(
                    old(accounts).item@,
                    old(accounts).list@.list_owner,
                    old(accounts).user,
                );
                &&& spec_finish_err(
                    old(accounts).list@,
                    old(accounts).item@,
                    old(accounts).item_key,
                    old(accounts).list_owner,
                    old(accounts).user,
                ) is None
                &&& role != Role::Neither
                &&& final(accounts).item@ == spec_finish_item(old(accounts).item@, role)
                &&& final(accounts).item@.wf()
                &&& if spec_finish_closes(old(accounts).item@, role) {
                    &&& outcome == Some(
                        (old(accounts).item@.escrow_balance
                            + old(accounts).item@.storage_deposit) as u64,
                    )
                    &&& final(accounts).list@.lines == spec_remove(
                        old(accounts).list@.lines,
                        old(accounts).item_key,
                    )
                    &&& !final(accounts).list@.lines.contains(old(accounts).item_key)
                    &&& final(accounts).list@.list_owner == old(accounts).list@.list_owner
                    &&& final(accounts).list@.capacity == old(accounts).list@.capacity
                    &&& final(accounts).list@.name == old(accounts).list@.name
                } else {
                    &&& outcome is None
                    &&& final(accounts).list == old(accounts).list
                }
                &&& final(accounts).list@.wf()
            }),
            Err(e) => {
                &&& spec_finish_err(
                    old(accounts).list@,
                    old(accounts).item@,
                    old(accounts).item_key,
                    old(accounts).list_owner,
                    old(accounts).user,
                ) == Some(e)
                &&& final(accounts).list == old(accounts).list
                &&& final(accounts).item == old(accounts).item
            },
        },
{
    if accounts.list_owner != accounts.list.list_owner {
        return Err(TodoListError::WrongListOwner);
    }
    if !contains_key(&accounts.list.lines, accounts.item_key) {
        return Err(TodoListError::ItemNotFound);
    }
    let role = resolve_finish_role(&accounts.item, accounts.list.list_owner, accounts.user);
    match role {
        Role::Creator => {
            accounts.item.creator_finished = true;
        },
        Role::Owner => {
            accounts.item.list_owner_finished = true;
        },
        Role::Neither => {
            return Err(TodoListError::FinishPermissions);
        },
    }
    if accounts.item.creator_finished && accounts.item.list_owner_finished {
        let key = accounts.item_key;
        remove_key(&mut accounts.list.lines, key);
        proof {
            lemma_remove_len(old(accounts).list@.lines, key);
            lemma_remove_not_contains(old(accounts).list@.lines, key);
        }
        Ok(Some(accounts.item.escrow_balance + accounts.item.storage_deposit))
    } else {
        Ok(None)
    }
}

} // verus!
