//! A single-slot option escrow: a creator locks collateral, the holder of the
//! option may buy it for the counter offer before the expiry height, and after
//! expiry anyone may return the collateral to the creator. The operations are
//! proved against the state machine in `contract`, and its properties are
//! proved in `laws`.

pub mod contract;
pub mod error;
pub mod laws;
pub mod msg;
pub mod response;
pub mod state;
pub mod todo_msg;
pub mod todo_state;
