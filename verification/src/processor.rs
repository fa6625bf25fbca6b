//! The handlers of the three instructions and the dispatcher in front of
//! them.
//!
//! A handler takes the accounts in the order that its instruction fixes,
//! applies its checks in a fixed order and stops at the first that fails.
//! When all pass it returns the record to store. A handler never writes, so
//! a rejected instruction cannot leave a partial change behind.
//!
//! Each handler comes in two layers. `validate_*` takes the derived
//! addresses as arguments and decides everything else; `process_*` derives
//! the addresses and calls it.

use vstd::prelude::*;
use crate::account::{account_at, Account};
use crate::address::Address;
use crate::checks::{
    assert_derived_address, assert_owned_by, assert_signer, assert_uninitialized,
    assert_writeable, spec_derived_bump,
};
use crate::error::AirdropError;
use crate::instruction::{
    deserialize_instruction_data, spec_deserialize, AirdropInstruction, AirdropInstructionView,
    InitializeAirdropArgs, InitializeAirdropArgsView,
};
use crate::pda::{
    derived_view, find_airdrop_user_data, find_mint_authority, spec_airdrop_user_data,
    spec_mint_authority,
};
use crate::state::{AirdropConfig, AirdropConfigView, AirdropUserData, AirdropUserDataView};

verus! {

/// Accounts of `InitializeAirdrop`, in order: config, authority, mint
/// authority, revenue, rent sysvar, fee payer.
pub const INITIALIZE_AIRDROP_ACCOUNTS: usize = 6;

/// The record that populating a campaign stores in a config account whose
/// bytes are `stored`.
///
/// The account must hold a record that is not initialised yet; a populated
/// campaign is never overwritten.
pub open spec fn spec_initialize_airdrop_logic(
    stored: Seq<u8>,
    authority: Seq<u8>,
    mint_authority: Seq<u8>,
    revenue: Seq<u8>,
    args: InitializeAirdropArgsView,
    mint_authority_bump: u8,
) -> Result<AirdropConfigView, AirdropError> {
    match AirdropConfigView::spec_unpack(stored) {
        None => Err(AirdropError::DeserializationFailed),
        Some(current) => if current.is_initialized {
            Err(AirdropError::AlreadyInitialized)
        } else {
            Ok(
                AirdropConfigView {
                    is_initialized: true,
                    authority,
                    mint_authority,
                    revenue,
                    airdrop_amount: args.airdrop_amount,
                    metadata_prefix: args.metadata_prefix,
                    symbol: args.symbol,
                    price: args.price,
                    mint_authority_bump,
                },
            )
        },
    }
}

/// What `InitializeAirdrop` decides when `mint_authority_pda` is the derived
/// mint authority of the config account.
///
/// Checks, in order: enough accounts; config writable; config owned by the
/// program; mint authority at its derived address; fee payer signed. The
/// authority and revenue accounts are taken as given. Then the record is
/// populated.
pub open spec fn spec_initialize_airdrop(
    program_id: Seq<u8>,
    accounts: Seq<Account>,
    mint_authority_pda: Option<(Seq<u8>, u8)>,
    args: InitializeAirdropArgsView,
) -> Result<AirdropConfigView, AirdropError> {
    if accounts.len() < INITIALIZE_AIRDROP_ACCOUNTS {
        Err(AirdropError::ResourceExhausted)
    } else if !accounts[0].is_writable {
        Err(AirdropError::WriteableRequired)
    } else if accounts[0].owner@ != program_id {
        Err(AirdropError::IllegalOwner)
    } else {
        match spec_derived_bump(accounts[2].key@, mint_authority_pda) {
            Err(error) => Err(error),
            Ok(bump) => if !accounts[5].is_signer {
                Err(AirdropError::SignerRequired)
            } else {
                spec_initialize_airdrop_logic(
                    accounts[0].data@,
                    accounts[1].key@,
                    accounts[2].key@,
                    accounts[3].key@,
                    args,
                    bump,
                )
            },
        }
    }
}

/// What `InitializeAirdrop` decides.
pub open spec fn spec_process_initialize_airdrop(
    program_id: Seq<u8>,
    accounts: Seq<Account>,
    args: InitializeAirdropArgsView,
) -> Result<AirdropConfigView, AirdropError> {
    if accounts.len() < INITIALIZE_AIRDROP_ACCOUNTS {
        Err(AirdropError::ResourceExhausted)
    } else {
        spec_initialize_airdrop(
            program_id,
            accounts,
            spec_mint_authority(accounts[0].key@, program_id),
            args,
        )
    }
}

/// Populates the record of a campaign whose accounts have passed every check.
pub fn process_initialize_airdrop_logic(
    airdrop_account: &Account,
    airdrop_authority: &Account,
    mint_authority: &Account,
    revenues_account: &Account,
    args: &InitializeAirdropArgs,
    mint_authority_bump: u8,
) -> (populated: Result<AirdropConfig, AirdropError>)
    ensures
        match populated {
            Ok(config) => spec_initialize_airdrop_logic(
                airdrop_account.data@,
                airdrop_authority.key@,
                mint_authority.key@,
                revenues_account.key@,
                args@,
                mint_authority_bump,
            ) == Ok::<AirdropConfigView, AirdropError>(config@),
            Err(error) => spec_initialize_airdrop_logic(
                airdrop_account.data@,
                airdrop_authority.key@,
                mint_authority.key@,
                revenues_account.key@,
                args@,
                mint_authority_bump,
            ) == Err::<AirdropConfigView, AirdropError>(error),
        },
{
    let current = AirdropConfig::unpack(airdrop_account.data.as_slice())?;
    if current.is_initialized() {
        return Err(AirdropError::AlreadyInitialized);
    }
    Ok(
        AirdropConfig {
            is_initialized: true,
            authority: airdrop_authority.key,
            mint_authority: mint_authority.key,
            revenue: revenues_account.key,
            airdrop_amount: args.airdrop_amount,
            metadata_prefix: args.metadata_prefix,
            symbol: args.symbol,
            price: args.price,
            mint_authority_bump,
        },
    )
}

/// Handles `InitializeAirdrop` for a given derived mint authority.
pub fn validate_initialize_airdrop(
    program_id: &Address,
    accounts: &[Account],
    mint_authority_pda: &Option<(Address, u8)>,
    args: &InitializeAirdropArgs,
) -> (decided: Result<AirdropConfig, AirdropError>)
    ensures
        match decided {
            Ok(config) => spec_initialize_airdrop(
                program_id@,
                accounts@,
                derived_view(*mint_authority_pda),
                args@,
            ) == Ok::<AirdropConfigView, AirdropError>(config@),
            Err(error) => spec_initialize_airdrop(
                program_id@,
                accounts@,
                derived_view(*mint_authority_pda),
                args@,
            ) == Err::<AirdropConfigView, AirdropError>(error),
        },
{
    let airdrop_account = account_at(accounts, 0)?;
    let airdrop_authority = account_at(accounts, 1)?;
    let mint_authority = account_at(accounts, 2)?;
    let revenues_account = account_at(accounts, 3)?;
    let _rent = account_at(accounts, 4)?;
    let fee_payer = account_at(accounts, 5)?;

    assert_writeable(airdrop_account)?;
    assert_owned_by(airdrop_account, program_id)?;
    let mint_authority_bump = assert_derived_address(mint_authority, mint_authority_pda)?;
    assert_signer(fee_payer)?;

    process_initialize_airdrop_logic(
        airdrop_account,
        airdrop_authority,
        mint_authority,
        revenues_account,
        args,
        mint_authority_bump,
    )
}

/// Handles `InitializeAirdrop`: checks the accounts and returns the record
/// to store in the config account.
pub fn process_initialize_airdrop(
    program_id: &Address,
    accounts: &[Account],
    airdrop_amount: u64,
    metadata_prefix: [u8; 32],
    symbol: [u8; 8],
    price: u64,
) -> (decided: Result<AirdropConfig, AirdropError>)
    ensures
        match decided {
            Ok(config) => spec_process_initialize_airdrop(
                program_id@,
                accounts@,
                (InitializeAirdropArgs { airdrop_amount, metadata_prefix, symbol, price })@,
            ) == Ok::<AirdropConfigView, AirdropError>(config@),
            Err(error) => spec_process_initialize_airdrop(
                program_id@,
                accounts@,
                (InitializeAirdropArgs { airdrop_amount, metadata_prefix, symbol, price })@,
            ) == Err::<AirdropConfigView, AirdropError>(error),
        },
{
    let airdrop_account = account_at(accounts, 0)?;
    let mint_authority_pda = find_mint_authority(&airdrop_account.key, program_id);
    let args = InitializeAirdropArgs { airdrop_amount, metadata_prefix, symbol, price };
    validate_initialize_airdrop(program_id, accounts, &mint_authority_pda, &args)
}

/// Accounts of `InitializeAirdropUser`, in order: user record, user, config,
/// rent sysvar, fee payer.
pub const INITIALIZE_AIRDROP_USER_ACCOUNTS: usize = 5;

/// The record of a user who has not minted yet.
pub open spec fn spec_new_user_data(user: Seq<u8>, airdrop: Seq<u8>, bump: u8) -> AirdropUserDataView {
    AirdropUserDataView { is_initialized: true, user, airdrop, bump, claimed: false }
}

/// The campaign stored in `data`, which must be initialised.
pub open spec fn spec_initialized_config(data: Seq<u8>) -> Result<AirdropConfigView, AirdropError> {
    match AirdropConfigView::spec_unpack(data) {
        None => Err(AirdropError::DeserializationFailed),
        Some(config) => if config.is_initialized {
            Ok(config)
        } else {
            Err(AirdropError::Uninitialized)
        },
    }
}

/// What `InitializeAirdropUser` decides when `user_data_pda` is the derived
/// record address of the user in the campaign.
///
/// Checks, in order: enough accounts; user record at its derived address;
/// user record without balance, that is, not created yet; user record
/// writable; config owned by the program; config writable; config
/// initialised; fee payer signed. The user account is taken as given.
pub open spec fn spec_initialize_airdrop_user(
    program_id: Seq<u8>,
    accounts: Seq<Account>,
    user_data_pda: Option<(Seq<u8>, u8)>,
) -> Result<AirdropUserDataView, AirdropError> {
    if accounts.len() < INITIALIZE_AIRDROP_USER_ACCOUNTS {
        Err(AirdropError::ResourceExhausted)
    } else {
        match spec_derived_bump(accounts[0].key@, user_data_pda) {
            Err(error) => Err(error),
            Ok(bump) => if accounts[0].lamports > 0 {
                Err(AirdropError::AlreadyInitialized)
            } else if !accounts[0].is_writable {
                Err(AirdropError::WriteableRequired)
            } else if accounts[2].owner@ != program_id {
                Err(AirdropError::IllegalOwner)
            } else if !accounts[2].is_writable {
                Err(AirdropError::WriteableRequired)
            } else {
                match spec_initialized_config(accounts[2].data@) {
                    Err(error) => Err(error),
                    Ok(_) => if !accounts[4].is_signer {
                        Err(AirdropError::SignerRequired)
                    } else {
                        Ok(spec_new_user_data(accounts[1].key@, accounts[2].key@, bump))
                    },
                }
            },
        }
    }
}

/// What `InitializeAirdropUser` decides.
pub open spec fn spec_process_initialize_airdrop_user(
    program_id: Seq<u8>,
    accounts: Seq<Account>,
) -> Result<AirdropUserDataView, AirdropError> {
    if accounts.len() < INITIALIZE_AIRDROP_USER_ACCOUNTS {
        Err(AirdropError::ResourceExhausted)
    } else {
        spec_initialize_airdrop_user(
            program_id,
            accounts,
            spec_airdrop_user_data(accounts[2].key@, accounts[1].key@, program_id),
        )
    }
}

/// Reads the campaign of a config account and insists that it is initialised.
pub fn initialized_config(airdrop: &Account) -> (read: Result<AirdropConfig, AirdropError>)
    ensures
        match read {
            Ok(config) => spec_initialized_config(airdrop.data@) == Ok::<
                AirdropConfigView,
                AirdropError,
            >(config@),
            Err(error) => spec_initialized_config(airdrop.data@) == Err::<
                AirdropConfigView,
                AirdropError,
            >(error),
        },
{
    let config = AirdropConfig::unpack(airdrop.data.as_slice())?;
    if !config.is_initialized() {
        return Err(AirdropError::Uninitialized);
    }
    Ok(config)
}

/// The record to create for a user whose accounts have passed every check.
pub fn process_initialize_airdrop_user_account_logic(
    user: &Account,
    airdrop: &Account,
    user_data_account_bump: u8,
) -> (created: AirdropUserData)
    ensures
        created@ == spec_new_user_data(user.key@, airdrop.key@, user_data_account_bump),
{
    AirdropUserData {
        is_initialized: true,
        user: user.key,
        airdrop: airdrop.key,
        bump: user_data_account_bump,
        claimed: false,
    }
}

/// Handles `InitializeAirdropUser` for a given derived record address.
pub fn validate_initialize_airdrop_user(
    program_id: &Address,
    accounts: &[Account],
    user_data_pda: &Option<(Address, u8)>,
) -> (decided: Result<AirdropUserData, AirdropError>)
    ensures
        match decided {
            Ok(user_data) => spec_initialize_airdrop_user(
                program_id@,
                accounts@,
                derived_view(*user_data_pda),
            ) == Ok::<AirdropUserDataView, AirdropError>(user_data@),
            Err(error) => spec_initialize_airdrop_user(
                program_id@,
                accounts@,
                derived_view(*user_data_pda),
            ) == Err::<AirdropUserDataView, AirdropError>(error),
        },
{
    let user_data_account = account_at(accounts, 0)?;
    let user = account_at(accounts, 1)?;
    let airdrop = account_at(accounts, 2)?;
    let _rent = account_at(accounts, 3)?;
    let fee_payer = account_at(accounts, 4)?;

    let user_data_account_bump = assert_derived_address(user_data_account, user_data_pda)?;
    assert_uninitialized(user_data_account)?;
    assert_writeable(user_data_account)?;

    assert_owned_by(airdrop, program_id)?;
    assert_writeable(airdrop)?;
    let _config = initialized_config(airdrop)?;

    assert_signer(fee_payer)?;

    Ok(process_initialize_airdrop_user_account_logic(user, airdrop, user_data_account_bump))
}

/// Handles `InitializeAirdropUser`: checks the accounts and returns the
/// record to create at the user record's address.
pub fn process_initialize_airdrop_user(program_id: &Address, accounts: &[Account]) -> (decided:
    Result<AirdropUserData, AirdropError>)
    ensures
        match decided {
            Ok(user_data) => spec_process_initialize_airdrop_user(program_id@, accounts@) == Ok::<
                AirdropUserDataView,
                AirdropError,
            >(user_data@),
            Err(error) => spec_process_initialize_airdrop_user(program_id@, accounts@) == Err::<
                AirdropUserDataView,
                AirdropError,
            >(error),
        },
{
    let user = account_at(accounts, 1)?;
    let airdrop = account_at(accounts, 2)?;
    let user_data_pda = find_airdrop_user_data(&airdrop.key, &user.key, program_id);
    validate_initialize_airdrop_user(program_id, accounts, &user_data_pda)
}

/// Accounts of `MintOne`, in order: config, user record, mint, user, user's
/// token account, token metadata, mint authority, system program, clock
/// sysvar, rent sysvar, token program, associated token program, token
/// metadata program, fee payer, authority, revenue.
pub const MINT_ONE_ACCOUNTS: usize = 16;

/// A mint that has passed every check: the campaign it belongs to, and the
/// user's record as it has to be stored once the token is minted.
#[derive(Clone, Copy, Debug, PartialEq, Eq)]
pub struct MintOrder {
    pub config: AirdropConfig,
    pub user_data: AirdropUserData,
}

/// A [`MintOrder`] as plain values.
pub struct MintOrderView {
    pub config: AirdropConfigView,
    pub user_data: AirdropUserDataView,
}

impl View for MintOrder {
    type V = MintOrderView;

    open spec fn view(&self) -> MintOrderView {
        MintOrderView { config: self.config@, user_data: self.user_data@ }
    }
}

/// The user record stored in `data`, which must be initialised and must not
/// have been used for a mint.
pub open spec fn spec_unclaimed_user_data(data: Seq<u8>) -> Result<
    AirdropUserDataView,
    AirdropError,
> {
    match AirdropUserDataView::spec_unpack(data) {
        None => Err(AirdropError::DeserializationFailed),
        Some(user_data) => if !user_data.is_initialized {
            Err(AirdropError::Uninitialized)
        } else if user_data.claimed {
            Err(AirdropError::AlreadyClaimed)
        } else {
            Ok(user_data)
        },
    }
}

/// `user_data` after its one mint.
pub open spec fn spec_claimed(user_data: AirdropUserDataView) -> AirdropUserDataView {
    AirdropUserDataView { claimed: true, ..user_data }
}

/// What `MintOne` decides when `user_data_pda` is the derived record address
/// of the user in the campaign and `mint_authority_pda` the derived mint
/// authority of the campaign.
///
/// Checks, in order: enough accounts; user record at its derived address;
/// user record writable; user record owned by the program; config owned by
/// the program; config initialised; mint authority at its derived address;
/// user record initialised and not used yet; fee payer signed. The remaining
/// accounts are taken as given.
pub open spec fn spec_mint_one(
    program_id: Seq<u8>,
    accounts: Seq<Account>,
    user_data_pda: Option<(Seq<u8>, u8)>,
    mint_authority_pda: Option<(Seq<u8>, u8)>,
) -> Result<MintOrderView, AirdropError> {
    if accounts.len() < MINT_ONE_ACCOUNTS {
        Err(AirdropError::ResourceExhausted)
    } else if spec_derived_bump(accounts[1].key@, user_data_pda) is Err {
        Err(AirdropError::PdaCheckFailed)
    } else if !accounts[1].is_writable {
        Err(AirdropError::WriteableRequired)
    } else if accounts[1].owner@ != program_id {
        Err(AirdropError::IllegalOwner)
    } else if accounts[0].owner@ != program_id {
        Err(AirdropError::IllegalOwner)
    } else {
        match spec_initialized_config(accounts[0].data@) {
            Err(error) => Err(error),
            Ok(config) => if spec_derived_bump(accounts[6].key@, mint_authority_pda) is Err {
                Err(AirdropError::PdaCheckFailed)
            } else {
                match spec_unclaimed_user_data(accounts[1].data@) {
                    Err(error) => Err(error),
                    Ok(user_data) => if !accounts[13].is_signer {
                        Err(AirdropError::SignerRequired)
                    } else {
                        Ok(MintOrderView { config, user_data: spec_claimed(user_data) })
                    },
                }
            },
        }
    }
}

/// What `MintOne` decides.
pub open spec fn spec_process_mint_one(program_id: Seq<u8>, accounts: Seq<Account>) -> Result<
    MintOrderView,
    AirdropError,
> {
    if accounts.len() < MINT_ONE_ACCOUNTS {
        Err(AirdropError::ResourceExhausted)
    } else {
        spec_mint_one(
            program_id,
            accounts,
            spec_airdrop_user_data(accounts[0].key@, accounts[3].key@, program_id),
            spec_mint_authority(accounts[0].key@, program_id),
        )
    }
}

/// Reads the record of a user record account and insists that it is
/// initialised and has not been used for a mint.
pub fn unclaimed_user_data(user_data_account: &Account) -> (read: Result<
    AirdropUserData,
    AirdropError,
>)
    ensures
        match read {
            Ok(user_data) => spec_unclaimed_user_data(user_data_account.data@) == Ok::<
                AirdropUserDataView,
                AirdropError,
            >(user_data@),
            Err(error) => spec_unclaimed_user_data(user_data_account.data@) == Err::<
                AirdropUserDataView,
                AirdropError,
            >(error),
        },
{
    let user_data = AirdropUserData::unpack(user_data_account.data.as_slice())?;
    if !user_data.is_initialized() {
        return Err(AirdropError::Uninitialized);
    }
    if user_data.claimed {
        return Err(AirdropError::AlreadyClaimed);
    }
    Ok(user_data)
}

/// Handles `MintOne` for given derived addresses.
pub fn validate_mint_one(
    program_id: &Address,
    accounts: &[Account],
    user_data_pda: &Option<(Address, u8)>,
    mint_authority_pda: &Option<(Address, u8)>,
) -> (decided: Result<MintOrder, AirdropError>)
    ensures
        match decided {
            Ok(order) => spec_mint_one(
                program_id@,
                accounts@,
                derived_view(*user_data_pda),
                derived_view(*mint_authority_pda),
            ) == Ok::<MintOrderView, AirdropError>(order@),
            Err(error) => spec_mint_one(
                program_id@,
                accounts@,
                derived_view(*user_data_pda),
                derived_view(*mint_authority_pda),
            ) == Err::<MintOrderView, AirdropError>(error),
        },
{
    let airdrop_config = account_at(accounts, 0)?;
    let user_data_account = account_at(accounts, 1)?;
    let _mint_account = account_at(accounts, 2)?;
    let _user = account_at(accounts, 3)?;
    let _user_token_account = account_at(accounts, 4)?;
    let _token_metadata_account = account_at(accounts, 5)?;
    let mint_authority = account_at(accounts, 6)?;
    let _system_program = account_at(accounts, 7)?;
    let _clock_var = account_at(accounts, 8)?;
    let _rent_var = account_at(accounts, 9)?;
    let _token_program = account_at(accounts, 10)?;
    let _associated_token_program = account_at(accounts, 11)?;
    let _token_metadata_program = account_at(accounts, 12)?;
    let payer = account_at(accounts, 13)?;
    let _airdrop_authority = account_at(accounts, 14)?;
    let _revenue_wallet = account_at(accounts, 15)?;

    let _user_data_bump = assert_derived_address(user_data_account, user_data_pda)?;
    assert_writeable(user_data_account)?;
    assert_owned_by(user_data_account, program_id)?;

    assert_owned_by(airdrop_config, program_id)?;
    let config = initialized_config(airdrop_config)?;

    let _mint_authority_bump = assert_derived_address(mint_authority, mint_authority_pda)?;

    let user_data = unclaimed_user_data(user_data_account)?;

    assert_signer(payer)?;

    Ok(
        MintOrder {
            config,
            user_data: AirdropUserData {
                is_initialized: user_data.is_initialized,
                user: user_data.user,
                airdrop: user_data.airdrop,
                bump: user_data.bump,
                claimed: true,
            },
        },
    )
}

/// Handles `MintOne`: checks the accounts and returns the campaign together
/// with the user's record as it stands after the mint.
pub fn process_mint_one(program_id: &Address, accounts: &[Account]) -> (decided: Result<
    MintOrder,
    AirdropError,
>)
    ensures
        match decided {
            Ok(order) => spec_process_mint_one(program_id@, accounts@) == Ok::<
                MintOrderView,
                AirdropError,
            >(order@),
            Err(error) => spec_process_mint_one(program_id@, accounts@) == Err::<
                MintOrderView,
                AirdropError,
            >(error),
        },
{
    let airdrop_config = account_at(accounts, 0)?;
    let user = account_at(accounts, 3)?;
    let user_data_pda = find_airdrop_user_data(&airdrop_config.key, &user.key, program_id);
    let mint_authority_pda = find_mint_authority(&airdrop_config.key, program_id);
    validate_mint_one(program_id, accounts, &user_data_pda, &mint_authority_pda)
}

/// What an accepted instruction changes.
#[derive(Clone, Copy, Debug, PartialEq, Eq)]
pub enum StateChange {
    /// Store this record in the config account, the first of the list.
    StoreConfig(AirdropConfig),
    /// Create the user record account, the first of the list, with this
    /// record.
    CreateUserData(AirdropUserData),
    /// Mint one token, then store the order's user record in the user record
    /// account, the second of the list.
    MintOne(MintOrder),
}

/// A [`StateChange`] as plain values.
pub enum StateChangeView {
    StoreConfig(AirdropConfigView),
    CreateUserData(AirdropUserDataView),
    MintOne(MintOrderView),
}

impl View for StateChange {
    type V = StateChangeView;

    open spec fn view(&self) -> StateChangeView {
        match *self {
            StateChange::StoreConfig(config) => StateChangeView::StoreConfig(config@),
            StateChange::CreateUserData(user_data) => StateChangeView::CreateUserData(user_data@),
            StateChange::MintOne(order) => StateChangeView::MintOne(order@),
        }
    }
}

/// What the program decides on `instruction_data` with `accounts`: data that
/// encodes no instruction is rejected before any account is looked at, and
/// any other data is decided by the handler of its instruction.
pub open spec fn spec_process_instruction(
    program_id: Seq<u8>,
    accounts: Seq<Account>,
    instruction_data: Seq<u8>,
) -> Result<StateChangeView, AirdropError> {
    match spec_deserialize(instruction_data) {
        None => Err(AirdropError::DeserializationFailed),
        Some(AirdropInstructionView::InitializeAirdrop(args)) => match spec_process_initialize_airdrop(
            program_id,
            accounts,
            args,
        ) {
            Ok(config) => Ok(StateChangeView::StoreConfig(config)),
            Err(error) => Err(error),
        },
        Some(AirdropInstructionView::InitializeAirdropUser) => match spec_process_initialize_airdrop_user(
            program_id,
            accounts,
        ) {
            Ok(user_data) => Ok(StateChangeView::CreateUserData(user_data)),
            Err(error) => Err(error),
        },
        Some(AirdropInstructionView::MintOne) => match spec_process_mint_one(program_id, accounts) {
            Ok(order) => Ok(StateChangeView::MintOne(order)),
            Err(error) => Err(error),
        },
    }
}

/// Decodes an instruction and hands it to its handler.
pub fn process_instruction(program_id: &Address, accounts: &[Account], instruction_data: &[u8]) -> (decided:
    Result<StateChange, AirdropError>)
    ensures
        match decided {
            Ok(change) => spec_process_instruction(program_id@, accounts@, instruction_data@)
                == Ok::<StateChangeView, AirdropError>(change@),
            Err(error) => spec_process_instruction(program_id@, accounts@, instruction_data@)
                == Err::<StateChangeView, AirdropError>(error),
        },
{
    match deserialize_instruction_data(instruction_data)? {
        AirdropInstruction::InitializeAirdrop(args) => {
            let config = process_initialize_airdrop(
                program_id,
                accounts,
                args.airdrop_amount,
                args.metadata_prefix,
                args.symbol,
                args.price,
            )?;
            Ok(StateChange::StoreConfig(config))
        },
        AirdropInstruction::InitializeAirdropUser => {
            let user_data = process_initialize_airdrop_user(program_id, accounts)?;
            Ok(StateChange::CreateUserData(user_data))
        },
        AirdropInstruction::MintOne => {
            let order = process_mint_one(program_id, accounts)?;
            Ok(StateChange::MintOne(order))
        },
    }
}

} // verus!
