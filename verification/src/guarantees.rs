//! What the handlers guarantee to the campaigns and users of the program,
//! whatever accounts a caller passes.

use vstd::prelude::*;
use crate::account::Account;
use crate::address::Address;
use crate::error::AirdropError;
use crate::instruction::InitializeAirdropArgs;
use crate::pda::{spec_airdrop_user_data, spec_mint_authority};
use crate::processor::{
    MintOrderView, spec_initialized_config, spec_process_initialize_airdrop,
    spec_process_initialize_airdrop_user, spec_process_mint_one, spec_unclaimed_user_data,
};
use crate::state::{
    lemma_config_pack_unpack, lemma_user_data_pack_unpack, AirdropConfigView, AirdropUserDataView,
};

verus! {

/// Whether `key` is the address, with any bump seed, that was derived.
pub open spec fn is_derived(key: Seq<u8>, derived: Option<(Seq<u8>, u8)>) -> bool {
    derived matches Some(found) && found.0 == key
}

/// `InitializeAirdrop` accepts the mint authority account exactly when it
/// sits at the address derived from the config account.
///
/// Whenever the instruction is accepted, the two addresses agree. When the
/// config account is writable and owned by the program, any other address is
/// rejected with `PdaCheckFailed`. When in addition the fee payer signed and
/// the config account holds an unpopulated record, the derived address is
/// accepted.
pub proof fn lemma_mint_authority_decides(
    program_id: Address,
    accounts: Seq<Account>,
    args: InitializeAirdropArgs,
)
    requires
        accounts.len() >= 6,
    ensures
        spec_process_initialize_airdrop(program_id@, accounts, args@) is Ok ==> is_derived(
            accounts[2].key@,
            spec_mint_authority(accounts[0].key@, program_id@),
        ),
        accounts[0].is_writable && accounts[0].owner@ == program_id@ && !is_derived(
            accounts[2].key@,
            spec_mint_authority(accounts[0].key@, program_id@),
        ) ==> spec_process_initialize_airdrop(program_id@, accounts, args@) == Err::<
            AirdropConfigView,
            AirdropError,
        >(AirdropError::PdaCheckFailed),
        accounts[0].is_writable && accounts[0].owner@ == program_id@ && accounts[5].is_signer
            && (AirdropConfigView::spec_unpack(accounts[0].data@) matches Some(stored)
            && !stored.is_initialized) && is_derived(
            accounts[2].key@,
            spec_mint_authority(accounts[0].key@, program_id@),
        ) ==> spec_process_initialize_airdrop(program_id@, accounts, args@) is Ok,
{
}

/// `InitializeAirdropUser` accepts the user record account only at the
/// address derived from the config and user accounts.
///
/// Any other address is rejected with `PdaCheckFailed`, whatever else holds
/// of the accounts. When the remaining checks pass, the derived address is
/// accepted.
pub proof fn lemma_user_data_address_decides(program_id: Address, accounts: Seq<Account>)
    requires
        accounts.len() >= 5,
    ensures
        spec_process_initialize_airdrop_user(program_id@, accounts) is Ok ==> is_derived(
            accounts[0].key@,
            spec_airdrop_user_data(accounts[2].key@, accounts[1].key@, program_id@),
        ),
        !is_derived(
            accounts[0].key@,
            spec_airdrop_user_data(accounts[2].key@, accounts[1].key@, program_id@),
        ) ==> spec_process_initialize_airdrop_user(program_id@, accounts) == Err::<
            AirdropUserDataView,
            AirdropError,
        >(AirdropError::PdaCheckFailed),
        accounts[0].lamports == 0 && accounts[0].is_writable && accounts[2].owner@ == program_id@
            && accounts[2].is_writable && spec_initialized_config(accounts[2].data@) is Ok
            && accounts[4].is_signer && is_derived(
            accounts[0].key@,
            spec_airdrop_user_data(accounts[2].key@, accounts[1].key@, program_id@),
        ) ==> spec_process_initialize_airdrop_user(program_id@, accounts) is Ok,
{
}

/// A populated campaign is never populated again.
///
/// `InitializeAirdrop` is rejected on a config account that stores an
/// initialised record, with `AlreadyInitialized` when every check on the
/// accounts passes; so the stored amount and price stay as they are.
pub proof fn lemma_populated_config_is_kept(
    program_id: Address,
    accounts: Seq<Account>,
    args: InitializeAirdropArgs,
)
    requires
        AirdropConfigView::spec_unpack(accounts[0].data@) matches Some(stored)
            && stored.is_initialized,
    ensures
        spec_process_initialize_airdrop(program_id@, accounts, args@) is Err,
        accounts.len() >= 6 && accounts[0].is_writable && accounts[0].owner@ == program_id@
            && accounts[5].is_signer && is_derived(
            accounts[2].key@,
            spec_mint_authority(accounts[0].key@, program_id@),
        ) ==> spec_process_initialize_airdrop(program_id@, accounts, args@) == Err::<
            AirdropConfigView,
            AirdropError,
        >(AirdropError::AlreadyInitialized),
{
}

/// `InitializeAirdrop` cannot be applied twice.
///
/// Once the record that an accepted `InitializeAirdrop` returned is stored
/// in the config account, every later `InitializeAirdrop` on an account with
/// those bytes is rejected, whatever its arguments and other accounts.
pub proof fn lemma_initialize_airdrop_once(
    program_id: Address,
    accounts: Seq<Account>,
    args: InitializeAirdropArgs,
    later_program_id: Address,
    later_accounts: Seq<Account>,
    later_args: InitializeAirdropArgs,
)
    requires
        spec_process_initialize_airdrop(program_id@, accounts, args@) matches Ok(config)
            && later_accounts[0].data@ == config.spec_pack(),
    ensures
        spec_process_initialize_airdrop(later_program_id@, later_accounts, later_args@) is Err,
{
    let config = spec_process_initialize_airdrop(program_id@, accounts, args@)->Ok_0;
    assert(config.wf());
    lemma_config_pack_unpack(config, later_accounts[0].data@);
    lemma_populated_config_is_kept(later_program_id, later_accounts, later_args);
}

/// `InitializeAirdropUser` rejects a user record account that holds a
/// balance, whether or not its address is the derived one: with
/// `AlreadyInitialized` when the address is the derived one, and with
/// `PdaCheckFailed` when it is not.
pub proof fn lemma_funded_user_data_is_rejected(program_id: Address, accounts: Seq<Account>)
    requires
        accounts.len() >= 5,
        accounts[0].lamports > 0,
    ensures
        spec_process_initialize_airdrop_user(program_id@, accounts) is Err,
        is_derived(
            accounts[0].key@,
            spec_airdrop_user_data(accounts[2].key@, accounts[1].key@, program_id@),
        ) ==> spec_process_initialize_airdrop_user(program_id@, accounts) == Err::<
            AirdropUserDataView,
            AirdropError,
        >(AirdropError::AlreadyInitialized),
{
}

/// `accounts` with the signer flag of the account at `index` set.
pub open spec fn spec_signed_at(accounts: Seq<Account>, index: int) -> Seq<Account> {
    accounts.update(index, Account { is_signer: true, ..accounts[index] })
}

/// No handler accepts an instruction whose fee payer did not sign.
///
/// The missing signature is what the caller is told, `SignerRequired`,
/// whenever the instruction would have been accepted with the signature; an
/// account list that fails an earlier check is rejected for that check. As
/// handlers write nothing, no account has changed when the error is returned.
pub proof fn lemma_unsigned_fee_payer_is_rejected(
    program_id: Address,
    accounts: Seq<Account>,
    args: InitializeAirdropArgs,
)
    ensures
        accounts.len() >= 6 && !accounts[5].is_signer ==> {
            &&& spec_process_initialize_airdrop(program_id@, accounts, args@) is Err
            &&& spec_process_initialize_airdrop(program_id@, spec_signed_at(accounts, 5), args@)
                is Ok ==> spec_process_initialize_airdrop(program_id@, accounts, args@) == Err::<
                AirdropConfigView,
                AirdropError,
            >(AirdropError::SignerRequired)
        },
        accounts.len() >= 5 && !accounts[4].is_signer ==> {
            &&& spec_process_initialize_airdrop_user(program_id@, accounts) is Err
            &&& spec_process_initialize_airdrop_user(program_id@, spec_signed_at(accounts, 4))
                is Ok ==> spec_process_initialize_airdrop_user(program_id@, accounts) == Err::<
                AirdropUserDataView,
                AirdropError,
            >(AirdropError::SignerRequired)
        },
        accounts.len() >= 16 && !accounts[13].is_signer ==> {
            &&& spec_process_mint_one(program_id@, accounts) is Err
            &&& spec_process_mint_one(program_id@, spec_signed_at(accounts, 13)) is Ok
                ==> spec_process_mint_one(program_id@, accounts) == Err::<
                MintOrderView,
                AirdropError,
            >(AirdropError::SignerRequired)
        },
{
}

/// `MintOne` is accepted at most once for a user record: the record that an
/// accepted `MintOne` returns, once stored in the user record account, makes
/// every later `MintOne` on an account with those bytes fail.
pub proof fn lemma_mint_one_once(
    program_id: Address,
    accounts: Seq<Account>,
    later_program_id: Address,
    later_accounts: Seq<Account>,
)
    requires
        spec_process_mint_one(program_id@, accounts) matches Ok(order)
            && later_accounts[1].data@ == order.user_data.spec_pack(),
    ensures
        spec_process_mint_one(later_program_id@, later_accounts) is Err,
{
    let order = spec_process_mint_one(program_id@, accounts)->Ok_0;
    let stored = spec_unclaimed_user_data(accounts[1].data@)->Ok_0;
    lemma_user_data_pack_unpack(stored, accounts[1].data@);
    lemma_user_data_pack_unpack(order.user_data, later_accounts[1].data@);
}

} // verus!
