//! Instruction processing for a token airdrop program.
//!
//! Every instruction arrives with an ordered list of accounts that the caller
//! chose freely. The handlers in [`processor`] check that list against the
//! rules of the program and, when every check passes, return the record that
//! has to be stored. Nothing is written here: a rejected instruction leaves no
//! trace, and an accepted one is described completely by the returned value.

pub mod address;
pub mod error;
pub mod account;
pub mod pda;
pub mod codec;
pub mod state;
pub mod instruction;
pub mod checks;
pub mod processor;
pub mod guarantees;
