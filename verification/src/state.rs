//! The persisted records of the store — lists and items — together with
//! their mathematical views, well-formedness conditions, and the storage
//! layout model that sizes each record at creation time.

use vstd::prelude::*;

verus! {

/// Longest name, in bytes of its UTF-8 encoding, that a list or an item
/// may carry.
pub const NAME_MAX: usize = 60;

/// The length in bytes of the UTF-8 encoding of a text value.
pub open spec fn byte_len(s: Seq<char>) -> nat {
    vstd::utf8::encode_utf8(s).len()
}

/// Relies on `String::len`: the length of the string in bytes of its
/// UTF-8 encoding. The length of a real string always fits `usize`,
/// which is what puts the result above vstd's own specification of
/// `str::len` (whose returned length is cast to `usize` unbounded).
#[verifier::external_body]
pub(crate) fn str_byte_len(s: &String) -> (r: usize)
    ensures
        r == byte_len(s@),
{
    s.len()
}

/// An account identity: an unforgeable reference to a caller or a record,
/// authenticated by the host substrate before a transition runs. The host's
/// full-width address is abstracted to an opaque identifier.
#[derive(Clone, Copy, Debug, Hash, PartialEq, Eq, Structural)]
pub struct Pubkey {
    pub id: u64,
}

/// One collaborative to-do list.
#[derive(Clone, Debug)]
pub struct TodoList {
    /// Identity of the creator of the list; immutable after creation.
    pub list_owner: Pubkey,
    /// Maximum number of simultaneously open items, fixed at creation.
    pub capacity: u16,
    /// Bounded-length text label.
    pub name: String,
    /// References to exactly the currently open items of this list.
    pub lines: Vec<Pubkey>,
}

/// The mathematical view of a [`TodoList`].
pub struct ListView {
    pub list_owner: Pubkey,
    pub capacity: u16,
    pub name: Seq<char>,
    pub lines: Seq<Pubkey>,
}

impl View for TodoList {
    type V = ListView;

    open spec fn view(&self) -> ListView {
        ListView {
            list_owner: self.list_owner,
            capacity: self.capacity,
            name: self.name@,
            lines: self.lines@,
        }
    }
}

impl ListView {
    /// A list never holds more open items than its capacity, and its name
    /// fits the storage reserved for it at creation.
    pub open spec fn wf(self) -> bool {
        &&& self.lines.len() <= self.capacity as int
        &&& byte_len(self.name) <= NAME_MAX as int
    }
}

impl TodoList {
    /// The exact storage footprint of a list record: a fixed header, the
    /// name, and room for `capacity` item references — reserved once, at
    /// creation, for the record's whole lifetime.
    pub fn space(name: &str, capacity: u16) -> (r: usize)
        requires
            byte_len(name@) <= NAME_MAX as int,
        ensures
            r == 8 + 32 + 2 + 4 + byte_len(name@) + 4 + 32 * (capacity as int),
    {
        // record tag + owner identity + capacity
        8 + 32 + 2
        // length-prefixed name
        + 4 + name.len()
        // length-prefixed sequence of 32-byte item references
        + 4 + 32 * (capacity as usize)
    }
}

/// One bounty-bearing unit of work, open until cancelled or
/// dual-confirmed finished.
#[derive(Clone, Debug)]
pub struct ListItem {
    /// Identity of the contributor who opened the item; immutable.
    pub creator: Pubkey,
    /// Whether the creator has confirmed the work as done.
    pub creator_finished: bool,
    /// Whether the list owner has confirmed the work as done.
    pub list_owner_finished: bool,
    /// Bounded-length text label.
    pub name: String,
    /// Value escrowed against the item above its storage deposit,
    /// released on close.
    pub escrow_balance: u64,
    /// Value consumed to reserve the item's storage, returned as a
    /// refundable deposit when the item is deallocated.
    pub storage_deposit: u64,
}

/// The mathematical view of a [`ListItem`].
pub struct ItemView {
    pub creator: Pubkey,
    pub creator_finished: bool,
    pub list_owner_finished: bool,
    pub name: Seq<char>,
    pub escrow_balance: u64,
    pub storage_deposit: u64,
}

impl View for ListItem {
    type V = ItemView;

    open spec fn view(&self) -> ItemView {
        ItemView {
            creator: self.creator,
            creator_finished: self.creator_finished,
            list_owner_finished: self.list_owner_finished,
            name: self.name@,
            escrow_balance: self.escrow_balance,
            storage_deposit: self.storage_deposit,
        }
    }
}

impl ItemView {
    /// The whole value held by an item — escrow plus storage deposit —
    /// is payable in one transfer, and its name fits its reserved storage.
    pub open spec fn wf(self) -> bool {
        &&& self.escrow_balance + self.storage_deposit <= u64::MAX
        &&& byte_len(self.name) <= NAME_MAX as int
    }
}

impl ListItem {
    /// The exact storage footprint of an item record: a fixed header, the
    /// creator identity, the two confirmation flags, and the name.
    pub fn space(name: &str) -> (r: usize)
        requires
            byte_len(name@) <= NAME_MAX as int,
        ensures
            r == 8 + 32 + 1 + 1 + 4 + byte_len(name@),
    {
        // record tag + creator identity + two flags + length-prefixed name
        8 + 32 + 1 + 1 + 4 + name.len()
    }
}

} // verus!
