//! A counter that lives in a four-byte storage region and is driven by a
//! compact binary instruction format.

pub mod instruction;
pub mod transition;
pub mod account;

pub use account::GreetingAccount;
