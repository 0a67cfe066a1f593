//! A contract state with one read-only method that greets an account.

pub mod account;
pub mod counter;

pub use counter::Counter;
