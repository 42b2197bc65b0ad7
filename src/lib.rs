//! A fixed-supply fungible-token ledger with direct transfers and delegated
//! allowances, verified to conserve its total supply.
pub mod account;
pub mod table;
pub mod token;

pub use account::AccountId;
pub use token::{Approval, Error, Event, Token, Transfer};
