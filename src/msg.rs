use vstd::prelude::*;

use crate::state::{Addr, Coin};

verus! {

/// The terms proposed when the option is created.
#[derive(Clone, Debug, PartialEq, Eq)]
pub struct InstantiateMsg {
    pub counter_offer: Vec<Coin>,
    pub expires: u64,
}

/// The operations on a live option.
#[derive(Clone, Debug, PartialEq, Eq)]
pub enum ExecuteMsg {
    /// The owner hands the right to execute to another account.
    Transfer { recipient: String },
    /// The owner pays the counter offer before expiry and receives the collateral.
    Execute {},
    /// After expiry, anyone returns the collateral to the creator.
    Burn {},
}

/// The read operations.
#[derive(Clone, Debug, PartialEq, Eq)]
pub enum QueryMsg {
    /// The current option record.
    Config {},
}

/// Who sent an operation, and the funds attached to it.
#[derive(Clone, Debug, PartialEq, Eq)]
pub struct MessageInfo {
    pub sender: Addr,
    pub funds: Vec<Coin>,
}

} // verus!
