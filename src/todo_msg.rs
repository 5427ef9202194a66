use vstd::prelude::*;

use crate::todo_state::{Entry, Priority, Status};

verus! {

/// Creates a to-do list, owned by `owner` or else by its creator.
#[derive(Clone, Debug, PartialEq, Eq)]
pub struct InstantiateMsg {
    pub owner: Option<String>,
}

/// The changes to a to-do list.
#[derive(Clone, Debug, PartialEq, Eq)]
pub enum ExecuteMsg {
    NewEntry { description: String, priority: Option<Priority> },
    UpdateEntry {
        id: u64,
        description: Option<String>,
        status: Option<Status>,
        priority: Option<Priority>,
    },
    DeleteEntry { id: u64 },
    TransferOwnership { new_owner: String },
}

/// The reads of a to-do list.
#[derive(Clone, Debug, PartialEq, Eq)]
pub enum QueryMsg {
    QueryEntry { id: u64 },
    QueryList { start_after: Option<u64>, limit: Option<u32> },
}

/// One entry, as a query returns it.
#[derive(Clone, Debug, PartialEq, Eq)]
pub struct EntryResponse {
    pub id: u64,
    pub description: String,
    pub status: Status,
    pub priority: Priority,
}

/// A page of entries.
#[derive(Clone, Debug, PartialEq, Eq)]
pub struct ListResponse {
    pub entries: Vec<Entry>,
}

} // verus!
