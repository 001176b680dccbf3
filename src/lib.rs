//! A relay that checks the caller of a token transfer against one allowed
//! identity and turns the request into a ledger transfer instruction.
pub mod principal;
pub mod ledger;
pub mod relay;
