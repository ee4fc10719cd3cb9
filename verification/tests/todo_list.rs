use todo_list::Add;
use todo_list::Cancel;
use todo_list::Finish;
use todo_list::ListItem;
use todo_list::NewList;
use todo_list::Pubkey;
use todo_list::Role;
use todo_list::TodoList;
use todo_list::TodoListError;

fn pk(id: u64) -> Pubkey {
    Pubkey { id }
}

fn make_list(owner: u64, name: &str, capacity: u16) -> TodoList {
    todo_list::new_list(&NewList { user: pk(owner) }, name.to_string(), capacity).unwrap()
}

#[test]
fn new_list_creates_empty_owned_list() {
    let list = todo_list::new_list(&NewList { user: pk(1) }, "Groceries".to_string(), 2).unwrap();
    assert_eq!(list.list_owner, pk(1));
    assert_eq!(list.capacity, 2);
    assert_eq!(list.name, "Groceries");
    assert!(list.lines.is_empty());
}

#[test]
fn new_list_rejects_long_name() {
    let long = "x".repeat(61);
    let r = todo_list::new_list(&NewList { user: pk(1) }, long, 2);
    assert_eq!(r.unwrap_err(), TodoListError::NameTooLong);
}

#[test]
fn new_list_accepts_name_at_the_bound() {
    let name = "x".repeat(60);
    let list = todo_list::new_list(&NewList { user: pk(1) }, name.clone(), 2).unwrap();
    assert_eq!(list.name, name);
}

#[test]
fn list_space_is_exact() {
    // tag 8 + owner 32 + capacity 2 + name prefix 4 + "Groceries" 9
    // + lines prefix 4 + 2 * 32
    assert_eq!(TodoList::space("Groceries", 2), 123);
    assert_eq!(TodoList::space("", 0), 50);
}

#[test]
fn item_space_is_exact() {
    // tag 8 + creator 32 + flags 1 + 1 + name prefix 4 + "Milk" 4
    assert_eq!(ListItem::space("Milk"), 50);
    assert_eq!(ListItem::space(""), 46);
}

#[test]
fn add_escrows_bounty_above_the_floor() {
    let list = make_list(1, "Groceries", 2);
    let mut a = Add { list, item_key: pk(100), deposit_floor: 50, user: pk(2) };
    let item = todo_list::add(&mut a, "Milk".to_string(), 150).unwrap();
    assert_eq!(item.creator, pk(2));
    assert_eq!(item.name, "Milk");
    assert!(!item.creator_finished);
    assert!(!item.list_owner_finished);
    assert_eq!(item.escrow_balance, 100);
    assert_eq!(item.storage_deposit, 50);
    assert_eq!(a.list.lines, vec![pk(100)]);
}

#[test]
fn add_with_bounty_at_the_floor_escrows_nothing() {
    let list = make_list(1, "Groceries", 2);
    let mut a = Add { list, item_key: pk(100), deposit_floor: 50, user: pk(2) };
    let item = todo_list::add(&mut a, "Eggs".to_string(), 50).unwrap();
    assert_eq!(item.escrow_balance, 0);
    assert_eq!(item.storage_deposit, 50);
}

#[test]
fn add_rejects_bounty_below_the_floor() {
    let list = make_list(1, "Groceries", 2);
    let mut a = Add { list, item_key: pk(100), deposit_floor: 50, user: pk(2) };
    let r = todo_list::add(&mut a, "Milk".to_string(), 49);
    assert_eq!(r.unwrap_err(), TodoListError::BountyTooSmall);
    assert!(a.list.lines.is_empty());
}

#[test]
fn add_rejects_full_list() {
    let list = make_list(1, "Groceries", 1);
    let mut a = Add { list, item_key: pk(100), deposit_floor: 50, user: pk(2) };
    todo_list::add(&mut a, "Milk".to_string(), 60).unwrap();
    let mut b = Add { list: a.list, item_key: pk(101), deposit_floor: 50, user: pk(2) };
    let r = todo_list::add(&mut b, "Eggs".to_string(), 60);
    assert_eq!(r.unwrap_err(), TodoListError::ListFull);
    assert_eq!(b.list.lines, vec![pk(100)]);
}

#[test]
fn add_rejects_long_name() {
    let list = make_list(1, "Groceries", 2);
    let mut a = Add { list, item_key: pk(100), deposit_floor: 50, user: pk(2) };
    let r = todo_list::add(&mut a, "x".repeat(61), 1000);
    assert_eq!(r.unwrap_err(), TodoListError::NameTooLong);
    assert!(a.list.lines.is_empty());
}

fn list_with_one_item(owner: u64, creator: u64, bounty: u64) -> (TodoList, ListItem) {
    let list = make_list(owner, "Groceries", 2);
    let mut a = Add { list, item_key: pk(100), deposit_floor: 50, user: pk(creator) };
    let item = todo_list::add(&mut a, "Milk".to_string(), bounty).unwrap();
    (a.list, item)
}

#[test]
fn cancel_by_creator_refunds_whole_bounty_and_restores_list() {
    let (list, item) = list_with_one_item(1, 2, 150);
    let mut c = Cancel { list, item, item_key: pk(100), item_creator: pk(2), user: pk(2) };
    let refund = todo_list::cancel(&mut c).unwrap();
    // full escrow (100) plus storage deposit (50): the whole bounty
    assert_eq!(refund, 150);
    assert!(c.list.lines.is_empty());
}

#[test]
fn cancel_by_list_owner_still_refunds_the_creator() {
    let (list, item) = list_with_one_item(1, 2, 150);
    let mut c = Cancel { list, item, item_key: pk(100), item_creator: pk(2), user: pk(1) };
    let refund = todo_list::cancel(&mut c).unwrap();
    assert_eq!(refund, 150);
    assert!(c.list.lines.is_empty());
}

#[test]
fn cancel_rejects_wrong_item_creator() {
    let (list, item) = list_with_one_item(1, 2, 150);
    let mut c = Cancel { list, item, item_key: pk(100), item_creator: pk(9), user: pk(2) };
    assert_eq!(todo_list::cancel(&mut c).unwrap_err(), TodoListError::WrongItemCreator);
    assert_eq!(c.list.lines, vec![pk(100)]);
}

#[test]
fn cancel_rejects_a_stranger() {
    let (list, item) = list_with_one_item(1, 2, 150);
    let mut c = Cancel { list, item, item_key: pk(100), item_creator: pk(2), user: pk(9) };
    assert_eq!(todo_list::cancel(&mut c).unwrap_err(), TodoListError::CancelPermissions);
    assert_eq!(c.list.lines, vec![pk(100)]);
}

#[test]
fn cancel_rejects_item_absent_from_the_list() {
    let (list, item) = list_with_one_item(1, 2, 150);
    let mut c = Cancel { list, item, item_key: pk(101), item_creator: pk(2), user: pk(2) };
    assert_eq!(todo_list::cancel(&mut c).unwrap_err(), TodoListError::ItemNotFound);
    assert_eq!(c.list.lines, vec![pk(100)]);
}

#[test]
fn finish_by_one_side_keeps_the_item_open() {
    let (list, item) = list_with_one_item(1, 2, 150);
    let mut f = Finish { list, item, item_key: pk(100), list_owner: pk(1), user: pk(1) };
    let outcome = todo_list::finish(&mut f).unwrap();
    assert_eq!(outcome, None);
    assert!(f.item.list_owner_finished);
    assert!(!f.item.creator_finished);
    assert_eq!(f.list.lines, vec![pk(100)]);
}

#[test]
fn finish_is_idempotent_per_role() {
    let (list, item) = list_with_one_item(1, 2, 150);
    let mut f = Finish { list, item, item_key: pk(100), list_owner: pk(1), user: pk(1) };
    assert_eq!(todo_list::finish(&mut f).unwrap(), None);
    // the same role confirms again: nothing changes
    assert_eq!(todo_list::finish(&mut f).unwrap(), None);
    assert!(f.item.list_owner_finished);
    assert!(!f.item.creator_finished);
    assert_eq!(f.list.lines, vec![pk(100)]);
}

#[test]
fn dual_finish_owner_then_creator_closes_and_pays_the_owner() {
    let (list, item) = list_with_one_item(1, 2, 150);
    let mut f = Finish { list, item, item_key: pk(100), list_owner: pk(1), user: pk(1) };
    assert_eq!(todo_list::finish(&mut f).unwrap(), None);
    let mut g = Finish { list: f.list, item: f.item, item_key: pk(100), list_owner: pk(1), user: pk(2) };
    let payout = todo_list::finish(&mut g).unwrap();
    assert_eq!(payout, Some(150));
    assert!(g.list.lines.is_empty());
}

#[test]
fn dual_finish_creator_then_owner_closes_and_pays_the_owner() {
    let (list, item) = list_with_one_item(1, 2, 150);
    let mut f = Finish { list, item, item_key: pk(100), list_owner: pk(1), user: pk(2) };
    assert_eq!(todo_list::finish(&mut f).unwrap(), None);
    let mut g = Finish { list: f.list, item: f.item, item_key: pk(100), list_owner: pk(1), user: pk(1) };
    let payout = todo_list::finish(&mut g).unwrap();
    assert_eq!(payout, Some(150));
    assert!(g.list.lines.is_empty());
}

#[test]
fn finish_rejects_wrong_list_owner() {
    let (list, item) = list_with_one_item(1, 2, 150);
    let mut f = Finish { list, item, item_key: pk(100), list_owner: pk(9), user: pk(1) };
    assert_eq!(todo_list::finish(&mut f).unwrap_err(), TodoListError::WrongListOwner);
    assert!(!f.item.creator_finished);
    assert!(!f.item.list_owner_finished);
    assert_eq!(f.list.lines, vec![pk(100)]);
}

#[test]
fn finish_rejects_a_stranger() {
    let (list, item) = list_with_one_item(1, 2, 150);
    let mut f = Finish { list, item, item_key: pk(100), list_owner: pk(1), user: pk(9) };
    assert_eq!(todo_list::finish(&mut f).unwrap_err(), TodoListError::FinishPermissions);
    assert!(!f.item.creator_finished);
    assert!(!f.item.list_owner_finished);
}

#[test]
fn finish_rejects_item_absent_from_the_list() {
    let (list, item) = list_with_one_item(1, 2, 150);
    let mut f = Finish { list, item, item_key: pk(101), list_owner: pk(1), user: pk(1) };
    assert_eq!(todo_list::finish(&mut f).unwrap_err(), TodoListError::ItemNotFound);
    assert!(!f.item.list_owner_finished);
}

#[test]
fn roles_resolve_creator_first() {
    assert_eq!(todo_list::resolve_role(pk(2), pk(1), pk(2)), Role::Creator);
    assert_eq!(todo_list::resolve_role(pk(1), pk(1), pk(2)), Role::Owner);
    assert_eq!(todo_list::resolve_role(pk(9), pk(1), pk(2)), Role::Neither);
    // for gating, an identity holding both roles counts as the creator
    assert_eq!(todo_list::resolve_role(pk(1), pk(1), pk(1)), Role::Creator);
}

fn bare_item(creator: u64, creator_finished: bool, list_owner_finished: bool) -> ListItem {
    ListItem {
        creator: pk(creator),
        creator_finished,
        list_owner_finished,
        name: "Milk".to_string(),
        escrow_balance: 100,
        storage_deposit: 50,
    }
}

#[test]
fn finish_roles_follow_the_flags_for_a_dual_identity() {
    // one identity in a single role always acts in it
    assert_eq!(todo_list::resolve_finish_role(&bare_item(2, false, false), pk(1), pk(2)), Role::Creator);
    assert_eq!(todo_list::resolve_finish_role(&bare_item(2, true, false), pk(1), pk(2)), Role::Creator);
    assert_eq!(todo_list::resolve_finish_role(&bare_item(2, false, false), pk(1), pk(1)), Role::Owner);
    assert_eq!(todo_list::resolve_finish_role(&bare_item(2, false, false), pk(1), pk(9)), Role::Neither);
    // an identity holding both roles acts as the creator first, then as
    // the owner once the creator's flag is set
    assert_eq!(todo_list::resolve_finish_role(&bare_item(1, false, false), pk(1), pk(1)), Role::Creator);
    assert_eq!(todo_list::resolve_finish_role(&bare_item(1, true, false), pk(1), pk(1)), Role::Owner);
}

#[test]
fn dual_role_identity_closes_with_its_own_two_calls() {
    // the owner adds an item to their own list: owner and creator are
    // one identity, and its two confirmations close the item
    let (list, item) = list_with_one_item(1, 1, 150);
    let mut f = Finish { list, item, item_key: pk(100), list_owner: pk(1), user: pk(1) };
    assert_eq!(todo_list::finish(&mut f).unwrap(), None);
    assert!(f.item.creator_finished);
    assert!(!f.item.list_owner_finished);
    assert_eq!(f.list.lines, vec![pk(100)]);
    let mut g = Finish { list: f.list, item: f.item, item_key: pk(100), list_owner: pk(1), user: pk(1) };
    let payout = todo_list::finish(&mut g).unwrap();
    assert_eq!(payout, Some(150));
    assert!(g.list.lines.is_empty());
}
