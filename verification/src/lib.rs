//! A verified state-transition engine for collaborative to-do lists with
//! escrowed bounties.
//!
//! A list owner publishes a bounded list of work items; contributors open
//! bounty-bearing items; an item closes either early by `cancel` (refunding
//! its creator) or by dual-confirmed `finish` (paying the list owner).
//!
//! The host substrate that authenticates callers, applies each transition
//! atomically, and moves value between accounts is not part of this crate:
//! transitions take verified caller identities as plain values and report
//! the value movements the host must perform.

pub mod auth;
pub mod laws;
pub mod state;
pub mod transitions;

pub use auth::resolve_finish_role;
pub use auth::resolve_role;
pub use auth::spec_finish_role;
pub use auth::spec_may_act;
pub use auth::spec_role;
pub use auth::Role;
pub use state::byte_len;
pub use state::ItemView;
pub use state::ListItem;
pub use state::ListView;
pub use state::Pubkey;
pub use state::TodoList;
pub use state::NAME_MAX;
pub use transitions::add;
pub use transitions::cancel;
pub use transitions::finish;
pub use transitions::new_list;
pub use transitions::spec_add_err;
pub use transitions::spec_add_item;
pub use transitions::spec_add_list;
pub use transitions::spec_cancel_err;
pub use transitions::spec_finish_closes;
pub use transitions::spec_finish_err;
pub use transitions::spec_finish_item;
pub use transitions::spec_new_list;
pub use transitions::spec_new_list_err;
pub use transitions::spec_remove;
pub use transitions::Add;
pub use transitions::Cancel;
pub use transitions::Finish;
pub use transitions::NewList;
pub use transitions::TodoListError;
