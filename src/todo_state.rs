use vstd::prelude::*;

use crate::state::Addr;

verus! {

/// The owner of a to-do list.
#[derive(Clone, Debug, PartialEq, Eq)]
pub struct Config {
    pub owner: Addr,
}

/// One item of a to-do list, keyed by its id.
#[derive(Clone, Debug, PartialEq, Eq)]
pub struct Entry {
    pub id: u64,
    pub description: String,
    pub status: Status,
    pub priority: Priority,
}

/// How far an item has come.
#[derive(Clone, Copy, Debug, PartialEq, Eq, Structural)]
pub enum Status {
    ToDo,
    InProgress,
    Done,
    Cancelled,
}

/// How urgent an item is.
#[derive(Clone, Copy, Debug, PartialEq, Eq, Structural)]
pub enum Priority {
    /// No priority was given.
    Unset,
    Low,
    Medium,
    High,
}

} // verus!
