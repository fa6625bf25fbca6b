//! What a handler can observe of an account passed with an instruction.

use vstd::prelude::*;
use crate::address::Address;
use crate::error::AirdropError;

verus! {

/// One account as the caller presented it: its address, the flags of the
/// transaction, the program that owns it, its balance and its stored bytes.
///
/// The value lives for one instruction. Flags and owner are whatever the
/// caller supplied, so every handler checks them anew.
#[derive(Clone, Debug, PartialEq, Eq)]
pub struct Account {
    pub key: Address,
    pub owner: Address,
    pub is_signer: bool,
    pub is_writable: bool,
    pub lamports: u64,
    pub data: Vec<u8>,
}

/// The account at position `index` of the list that came with the
/// instruction, or `ResourceExhausted` when the list is too short.
pub fn account_at(accounts: &[Account], index: usize) -> (found: Result<&Account, AirdropError>)
    ensures
        index < accounts@.len() ==> found == Ok::<&Account, AirdropError>(&accounts@[index as int]),
        index >= accounts@.len() ==> found == Err::<&Account, AirdropError>(
            AirdropError::ResourceExhausted,
        ),
{
    if index < accounts.len() {
        Ok(&accounts[index])
    } else {
        Err(AirdropError::ResourceExhausted)
    }
}

} // verus!
