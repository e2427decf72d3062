//! The comment rules of a federated link aggregator.
//!
//! Every request about comments is a small machine: it asks its surroundings
//! for one thing at a time (a row, a check, a message to be sent), is handed
//! the reply, and decides what comes next. The machines, the notifications
//! that go with a comment and the activities that announce a private message
//! are all verified; the surroundings do the waiting.

pub mod activity;
pub mod create;
pub mod delete;
pub mod edit;
pub mod laws;
pub mod like;
pub mod list;
pub mod mark_read;
pub mod notify;
pub mod private_message;
pub mod protocol;
pub mod remove;
pub mod rows;
pub mod save;
