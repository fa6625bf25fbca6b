//! The checks that handlers apply to the accounts they are given. Each one
//! looks at a single account and either passes or names what is wrong.

use vstd::prelude::*;
use crate::account::Account;
use crate::address::Address;
use crate::error::AirdropError;
use crate::pda::derived_view;

verus! {

/// Passes when the account signed the transaction.
pub fn assert_signer(acc: &Account) -> (checked: Result<(), AirdropError>)
    ensures
        acc.is_signer ==> checked == Ok::<(), AirdropError>(()),
        !acc.is_signer ==> checked == Err::<(), AirdropError>(AirdropError::SignerRequired),
{
    if acc.is_signer {
        Ok(())
    } else {
        Err(AirdropError::SignerRequired)
    }
}

/// Passes when the account was passed as writable.
pub fn assert_writeable(acc: &Account) -> (checked: Result<(), AirdropError>)
    ensures
        acc.is_writable ==> checked == Ok::<(), AirdropError>(()),
        !acc.is_writable ==> checked == Err::<(), AirdropError>(AirdropError::WriteableRequired),
{
    if acc.is_writable {
        Ok(())
    } else {
        Err(AirdropError::WriteableRequired)
    }
}

/// Passes when the account is owned by `expected_owner`.
pub fn assert_owned_by(acc: &Account, expected_owner: &Address) -> (checked: Result<
    (),
    AirdropError,
>)
    ensures
        acc.owner@ == expected_owner@ ==> checked == Ok::<(), AirdropError>(()),
        acc.owner@ != expected_owner@ ==> checked == Err::<(), AirdropError>(
            AirdropError::IllegalOwner,
        ),
{
    if acc.owner.equals(expected_owner) {
        Ok(())
    } else {
        Err(AirdropError::IllegalOwner)
    }
}

/// Passes when the account holds no balance, that is, has not been created.
pub fn assert_uninitialized(acc: &Account) -> (checked: Result<(), AirdropError>)
    ensures
        acc.lamports == 0 ==> checked == Ok::<(), AirdropError>(()),
        acc.lamports > 0 ==> checked == Err::<(), AirdropError>(AirdropError::AlreadyInitialized),
{
    if acc.lamports > 0 {
        Err(AirdropError::AlreadyInitialized)
    } else {
        Ok(())
    }
}

/// The bump seed of `derived` when `key` is the derived address, and
/// `PdaCheckFailed` when it is another address or nothing could be derived.
pub open spec fn spec_derived_bump(key: Seq<u8>, derived: Option<(Seq<u8>, u8)>) -> Result<
    u8,
    AirdropError,
> {
    match derived {
        Some((address, bump)) => if address == key {
            Ok(bump)
        } else {
            Err(AirdropError::PdaCheckFailed)
        },
        None => Err(AirdropError::PdaCheckFailed),
    }
}

/// Passes when the account sits at the address `derived`, and then returns
/// the bump seed that belongs to it.
pub fn assert_derived_address(acc: &Account, derived: &Option<(Address, u8)>) -> (checked: Result<
    u8,
    AirdropError,
>)
    ensures
        checked == spec_derived_bump(acc.key@, derived_view(*derived)),
{
    match derived {
        Some((address, bump)) => {
            if address.equals(&acc.key) {
                Ok(*bump)
            } else {
                Err(AirdropError::PdaCheckFailed)
            }
        },
        None => Err(AirdropError::PdaCheckFailed),
    }
}

} // verus!
