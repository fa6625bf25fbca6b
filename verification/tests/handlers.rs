use airdrop::account::{account_at, Account};
use airdrop::address::Address;
use airdrop::checks::{assert_owned_by, assert_signer, assert_uninitialized, assert_writeable};
use airdrop::error::AirdropError;
use airdrop::instruction::InitializeAirdropArgs;
use airdrop::pda::{find_airdrop_user_data, find_mint_authority};
use airdrop::processor::{
    initialized_config, process_initialize_airdrop, process_initialize_airdrop_logic,
    process_initialize_airdrop_user, process_initialize_airdrop_user_account_logic,
    process_instruction, process_mint_one, unclaimed_user_data, validate_initialize_airdrop,
    validate_initialize_airdrop_user, validate_mint_one, MintOrder, StateChange,
    INITIALIZE_AIRDROP_ACCOUNTS, INITIALIZE_AIRDROP_USER_ACCOUNTS, MINT_ONE_ACCOUNTS,
};
use airdrop::state::{AirdropConfig, AirdropUserData};
use solana_program::pubkey::Pubkey;

const PROGRAM: [u8; 32] = [7u8; 32];
const SYSTEM: [u8; 32] = [0u8; 32];
const CONFIG: [u8; 32] = [1u8; 32];
const AUTHORITY: [u8; 32] = [2u8; 32];
const REVENUE: [u8; 32] = [3u8; 32];
const RENT: [u8; 32] = [4u8; 32];
const PAYER: [u8; 32] = [5u8; 32];
const USER: [u8; 32] = [8u8; 32];
const SYMBOL: [u8; 8] = *b"TOKEN\0\0\0";

fn program() -> Address {
    Address::new(PROGRAM)
}

fn plain(key: [u8; 32]) -> Account {
    Account {
        key: Address::new(key),
        owner: Address::new(SYSTEM),
        is_signer: false,
        is_writable: false,
        lamports: 1,
        data: Vec::new(),
    }
}

fn mint_authority_key() -> (Address, u8) {
    find_mint_authority(&Address::new(CONFIG), &program()).unwrap()
}

fn user_data_key() -> (Address, u8) {
    find_airdrop_user_data(&Address::new(CONFIG), &Address::new(USER), &program()).unwrap()
}

fn stored_config() -> AirdropConfig {
    AirdropConfig {
        is_initialized: true,
        authority: Address::new(AUTHORITY),
        mint_authority: mint_authority_key().0,
        revenue: Address::new(REVENUE),
        airdrop_amount: 1_000_000,
        metadata_prefix: [0u8; 32],
        symbol: SYMBOL,
        price: 50_000,
        mint_authority_bump: mint_authority_key().1,
    }
}

fn stored_user_data() -> AirdropUserData {
    AirdropUserData {
        is_initialized: true,
        user: Address::new(USER),
        airdrop: Address::new(CONFIG),
        bump: user_data_key().1,
        claimed: false,
    }
}

fn args() -> InitializeAirdropArgs {
    InitializeAirdropArgs {
        airdrop_amount: 1_000_000,
        metadata_prefix: [0u8; 32],
        symbol: SYMBOL,
        price: 50_000,
    }
}

fn initialize_airdrop_data() -> Vec<u8> {
    let mut data = vec![0u8];
    data.extend_from_slice(&1_000_000u64.to_le_bytes());
    data.extend_from_slice(&[0u8; 32]);
    data.extend_from_slice(&SYMBOL);
    data.extend_from_slice(&50_000u64.to_le_bytes());
    data
}

fn initialize_airdrop_accounts() -> Vec<Account> {
    vec![
        Account {
            owner: program(),
            is_writable: true,
            lamports: 2_000_000,
            data: vec![0u8; 154],
            ..plain(CONFIG)
        },
        plain(AUTHORITY),
        Account { key: mint_authority_key().0, ..plain(SYSTEM) },
        plain(REVENUE),
        plain(RENT),
        Account { is_signer: true, is_writable: true, lamports: 10_000_000, ..plain(PAYER) },
    ]
}

fn initialize_airdrop_user_accounts() -> Vec<Account> {
    vec![
        Account { key: user_data_key().0, is_writable: true, lamports: 0, ..plain(SYSTEM) },
        plain(USER),
        Account {
            owner: program(),
            is_writable: true,
            lamports: 2_000_000,
            data: stored_config().pack(),
            ..plain(CONFIG)
        },
        plain(RENT),
        Account { is_signer: true, is_writable: true, lamports: 10_000_000, ..plain(PAYER) },
    ]
}

fn mint_one_accounts() -> Vec<Account> {
    vec![
        Account {
            owner: program(),
            lamports: 2_000_000,
            data: stored_config().pack(),
            ..plain(CONFIG)
        },
        Account {
            key: user_data_key().0,
            owner: program(),
            is_writable: true,
            lamports: 1_000_000,
            data: stored_user_data().pack(),
            ..plain(SYSTEM)
        },
        Account { is_writable: true, ..plain([10u8; 32]) },
        plain(USER),
        Account { is_writable: true, ..plain([11u8; 32]) },
        Account { is_writable: true, ..plain([12u8; 32]) },
        Account { key: mint_authority_key().0, ..plain(SYSTEM) },
        plain(SYSTEM),
        plain([13u8; 32]),
        plain(RENT),
        plain([14u8; 32]),
        plain([15u8; 32]),
        plain([16u8; 32]),
        Account { is_signer: true, is_writable: true, lamports: 10_000_000, ..plain(PAYER) },
        plain(AUTHORITY),
        Account { is_writable: true, ..plain(REVENUE) },
    ]
}

fn run_initialize_airdrop(accounts: &[Account]) -> Result<AirdropConfig, AirdropError> {
    process_initialize_airdrop(&program(), accounts, 1_000_000, [0u8; 32], SYMBOL, 50_000)
}

// Checks on single accounts

#[test]
fn signer_check() {
    assert_eq!(assert_signer(&Account { is_signer: true, ..plain(PAYER) }), Ok(()));
    assert_eq!(assert_signer(&plain(PAYER)), Err(AirdropError::SignerRequired));
}

#[test]
fn writable_check() {
    assert_eq!(assert_writeable(&Account { is_writable: true, ..plain(CONFIG) }), Ok(()));
    assert_eq!(assert_writeable(&plain(CONFIG)), Err(AirdropError::WriteableRequired));
}

#[test]
fn ownership_check() {
    let owned = Account { owner: program(), ..plain(CONFIG) };
    assert_eq!(assert_owned_by(&owned, &program()), Ok(()));
    assert_eq!(assert_owned_by(&plain(CONFIG), &program()), Err(AirdropError::IllegalOwner));
    let mut nearly = PROGRAM;
    nearly[31] ^= 1;
    assert_eq!(assert_owned_by(&owned, &Address::new(nearly)), Err(AirdropError::IllegalOwner));
}

#[test]
fn uninitialized_check() {
    assert_eq!(assert_uninitialized(&Account { lamports: 0, ..plain(USER) }), Ok(()));
    assert_eq!(
        assert_uninitialized(&Account { lamports: 1, ..plain(USER) }),
        Err(AirdropError::AlreadyInitialized)
    );
}

#[test]
fn account_access_fails_closed() {
    let accounts = vec![plain(CONFIG), plain(USER)];
    assert_eq!(account_at(&accounts, 0), Ok(&accounts[0]));
    assert_eq!(account_at(&accounts, 1), Ok(&accounts[1]));
    assert_eq!(account_at(&accounts, 2), Err(AirdropError::ResourceExhausted));
    assert_eq!(account_at(&[], 0), Err(AirdropError::ResourceExhausted));
}

// InitializeAirdrop

#[test]
fn initialize_airdrop_populates_the_config() {
    let accounts = initialize_airdrop_accounts();
    assert_eq!(accounts.len(), INITIALIZE_AIRDROP_ACCOUNTS);
    let config = run_initialize_airdrop(&accounts).unwrap();
    assert!(config.is_initialized());
    assert_eq!(config.airdrop_amount, 1_000_000);
    assert_eq!(config.price, 50_000);
    assert_eq!(config.symbol, SYMBOL);
    assert_eq!(config.metadata_prefix, [0u8; 32]);
    assert_eq!(config, stored_config());
}

#[test]
fn initialize_airdrop_through_the_dispatcher() {
    let accounts = initialize_airdrop_accounts();
    let change = process_instruction(&program(), &accounts, &initialize_airdrop_data());
    assert_eq!(change, Ok(StateChange::StoreConfig(stored_config())));
    match change {
        Ok(StateChange::StoreConfig(config)) => {
            assert!(config.is_initialized);
            assert_eq!(config.airdrop_amount, 1_000_000);
            assert_eq!(config.price, 50_000);
            let stored = AirdropConfig::unpack(&config.pack()).unwrap();
            assert!(stored.is_initialized());
            assert_eq!(stored.airdrop_amount, 1_000_000);
            assert_eq!(stored.price, 50_000);
        }
        other => panic!("decided {:?}", other),
    }
}

#[test]
fn initialize_airdrop_needs_a_writable_config() {
    let mut accounts = initialize_airdrop_accounts();
    accounts[0].is_writable = false;
    let before = accounts.clone();
    assert_eq!(run_initialize_airdrop(&accounts), Err(AirdropError::WriteableRequired));
    assert_eq!(
        process_instruction(&program(), &accounts, &initialize_airdrop_data()),
        Err(AirdropError::WriteableRequired)
    );
    assert_eq!(accounts, before);
    assert_eq!(accounts[0].data, vec![0u8; 154]);
}

#[test]
fn initialize_airdrop_needs_a_config_of_the_program() {
    let mut accounts = initialize_airdrop_accounts();
    accounts[0].owner = Address::new(SYSTEM);
    assert_eq!(run_initialize_airdrop(&accounts), Err(AirdropError::IllegalOwner));
}

#[test]
fn initialize_airdrop_accepts_only_the_derived_mint_authority() {
    let mut accounts = initialize_airdrop_accounts();
    assert!(run_initialize_airdrop(&accounts).is_ok());
    let derived = mint_authority_key().0.to_bytes();
    let mut flipped_low = derived;
    flipped_low[0] ^= 1;
    let mut flipped_high = derived;
    flipped_high[31] ^= 0x80;
    for key in [flipped_low, flipped_high, CONFIG, PROGRAM, SYSTEM, user_data_key().0.to_bytes()] {
        accounts[2].key = Address::new(key);
        assert_eq!(run_initialize_airdrop(&accounts), Err(AirdropError::PdaCheckFailed));
    }
    accounts[2].key = Address::new(derived);
    assert!(run_initialize_airdrop(&accounts).is_ok());
}

#[test]
fn initialize_airdrop_stores_the_bump_of_the_mint_authority() {
    let accounts = initialize_airdrop_accounts();
    let config = run_initialize_airdrop(&accounts).unwrap();
    let (expected, bump) =
        Pubkey::find_program_address(&[&CONFIG], &Pubkey::new_from_array(PROGRAM));
    assert_eq!(config.mint_authority.to_bytes(), expected.to_bytes());
    assert_eq!(config.mint_authority_bump, bump);
}

#[test]
fn initialize_airdrop_needs_the_fee_payer_to_sign() {
    let mut accounts = initialize_airdrop_accounts();
    accounts[5].is_signer = false;
    let before = accounts.clone();
    assert_eq!(run_initialize_airdrop(&accounts), Err(AirdropError::SignerRequired));
    assert_eq!(accounts, before);
}

#[test]
fn initialize_airdrop_checks_in_order() {
    let mut accounts = initialize_airdrop_accounts();
    accounts[5].is_signer = false;
    accounts[0].data = stored_config().pack();
    assert_eq!(run_initialize_airdrop(&accounts), Err(AirdropError::SignerRequired));
    accounts[2].key = Address::new(SYSTEM);
    assert_eq!(run_initialize_airdrop(&accounts), Err(AirdropError::PdaCheckFailed));
    accounts[0].owner = Address::new(SYSTEM);
    assert_eq!(run_initialize_airdrop(&accounts), Err(AirdropError::IllegalOwner));
    accounts[0].is_writable = false;
    assert_eq!(run_initialize_airdrop(&accounts), Err(AirdropError::WriteableRequired));
    accounts.truncate(5);
    assert_eq!(run_initialize_airdrop(&accounts), Err(AirdropError::ResourceExhausted));
}

#[test]
fn initialize_airdrop_takes_authority_and_revenue_as_given() {
    let mut accounts = initialize_airdrop_accounts();
    accounts[1] = Account { owner: Address::new([99u8; 32]), lamports: 0, ..plain([20u8; 32]) };
    accounts[3] = Account { owner: program(), is_writable: true, ..plain([21u8; 32]) };
    let config = run_initialize_airdrop(&accounts).unwrap();
    assert_eq!(config.authority, Address::new([20u8; 32]));
    assert_eq!(config.revenue, Address::new([21u8; 32]));
}

#[test]
fn initialize_airdrop_ignores_further_accounts() {
    let mut accounts = initialize_airdrop_accounts();
    accounts.push(plain([30u8; 32]));
    assert_eq!(run_initialize_airdrop(&accounts), Ok(stored_config()));
}

#[test]
fn initialize_airdrop_with_too_few_accounts() {
    let accounts = initialize_airdrop_accounts();
    for count in 0..INITIALIZE_AIRDROP_ACCOUNTS {
        assert_eq!(
            run_initialize_airdrop(&accounts[..count]),
            Err(AirdropError::ResourceExhausted)
        );
    }
}

#[test]
fn initialize_airdrop_twice_is_rejected() {
    let mut accounts = initialize_airdrop_accounts();
    let config = run_initialize_airdrop(&accounts).unwrap();
    accounts[0].data = config.pack();
    let again = process_initialize_airdrop(&program(), &accounts, 5, [1u8; 32], [2u8; 8], 6);
    assert_eq!(again, Err(AirdropError::AlreadyInitialized));
    let stored = AirdropConfig::unpack(&accounts[0].data).unwrap();
    assert_eq!(stored.airdrop_amount, 1_000_000);
    assert_eq!(stored.price, 50_000);
}

#[test]
fn initialize_airdrop_needs_room_for_the_record() {
    let mut accounts = initialize_airdrop_accounts();
    accounts[0].data = Vec::new();
    assert_eq!(run_initialize_airdrop(&accounts), Err(AirdropError::DeserializationFailed));
    accounts[0].data = vec![0u8; 155];
    assert_eq!(run_initialize_airdrop(&accounts), Err(AirdropError::DeserializationFailed));
    accounts[0].data = vec![0u8; 154];
    accounts[0].data[0] = 9;
    assert_eq!(run_initialize_airdrop(&accounts), Err(AirdropError::DeserializationFailed));
}

#[test]
fn initialize_airdrop_for_a_given_derivation() {
    let accounts = initialize_airdrop_accounts();
    let key = mint_authority_key().0;
    assert_eq!(
        validate_initialize_airdrop(&program(), &accounts, &Some((key, 12)), &args()),
        Ok(AirdropConfig { mint_authority_bump: 12, ..stored_config() })
    );
    assert_eq!(
        validate_initialize_airdrop(&program(), &accounts, &None, &args()),
        Err(AirdropError::PdaCheckFailed)
    );
    assert_eq!(
        validate_initialize_airdrop(
            &program(),
            &accounts,
            &Some((Address::new(CONFIG), 12)),
            &args()
        ),
        Err(AirdropError::PdaCheckFailed)
    );
}

#[test]
fn populating_a_record() {
    let accounts = initialize_airdrop_accounts();
    let populated = process_initialize_airdrop_logic(
        &accounts[0],
        &accounts[1],
        &accounts[2],
        &accounts[3],
        &args(),
        77,
    );
    assert_eq!(populated, Ok(AirdropConfig { mint_authority_bump: 77, ..stored_config() }));
    let taken = Account { data: stored_config().pack(), ..accounts[0].clone() };
    assert_eq!(
        process_initialize_airdrop_logic(
            &taken,
            &accounts[1],
            &accounts[2],
            &accounts[3],
            &args(),
            77
        ),
        Err(AirdropError::AlreadyInitialized)
    );
}

// InitializeAirdropUser

#[test]
fn initialize_airdrop_user_creates_the_record() {
    let accounts = initialize_airdrop_user_accounts();
    assert_eq!(accounts.len(), INITIALIZE_AIRDROP_USER_ACCOUNTS);
    assert_eq!(process_initialize_airdrop_user(&program(), &accounts), Ok(stored_user_data()));
    assert_eq!(
        process_instruction(&program(), &accounts, &[1]),
        Ok(StateChange::CreateUserData(stored_user_data()))
    );
}

#[test]
fn initialize_airdrop_user_accepts_only_the_derived_record_address() {
    let mut accounts = initialize_airdrop_user_accounts();
    let derived = user_data_key().0.to_bytes();
    let mut flipped = derived;
    flipped[17] ^= 4;
    for key in [flipped, CONFIG, USER, mint_authority_key().0.to_bytes()] {
        accounts[0].key = Address::new(key);
        assert_eq!(
            process_initialize_airdrop_user(&program(), &accounts),
            Err(AirdropError::PdaCheckFailed)
        );
    }
    accounts[0].key = Address::new(derived);
    assert!(process_initialize_airdrop_user(&program(), &accounts).is_ok());
}

#[test]
fn initialize_airdrop_user_rejects_a_flipped_bit_in_config_or_user() {
    let mut accounts = initialize_airdrop_user_accounts();
    let mut config = CONFIG;
    config[5] ^= 0x10;
    accounts[2].key = Address::new(config);
    assert_eq!(
        process_initialize_airdrop_user(&program(), &accounts),
        Err(AirdropError::PdaCheckFailed)
    );
    let mut accounts = initialize_airdrop_user_accounts();
    let mut user = USER;
    user[0] ^= 1;
    accounts[1].key = Address::new(user);
    assert_eq!(
        process_initialize_airdrop_user(&program(), &accounts),
        Err(AirdropError::PdaCheckFailed)
    );
}

#[test]
fn initialize_airdrop_user_rejects_the_address_of_another_bump() {
    let (_, bump) = user_data_key();
    let program_key = Pubkey::new_from_array(PROGRAM);
    let mut other = None;
    let mut candidate = bump;
    while other.is_none() && candidate > 0 {
        candidate -= 1;
        other = Pubkey::create_program_address(&[&CONFIG, &USER, &[candidate]], &program_key).ok();
    }
    let other = other.unwrap();
    let mut accounts = initialize_airdrop_user_accounts();
    accounts[0].key = Address::new(other.to_bytes());
    let before = accounts.clone();
    assert_eq!(
        process_initialize_airdrop_user(&program(), &accounts),
        Err(AirdropError::PdaCheckFailed)
    );
    assert_eq!(process_instruction(&program(), &accounts, &[1]), Err(AirdropError::PdaCheckFailed));
    assert_eq!(accounts, before);
}

#[test]
fn initialize_airdrop_user_rejects_a_funded_record() {
    let mut accounts = initialize_airdrop_user_accounts();
    accounts[0].lamports = 1;
    assert_eq!(
        process_initialize_airdrop_user(&program(), &accounts),
        Err(AirdropError::AlreadyInitialized)
    );
    accounts[0].lamports = u64::MAX;
    assert_eq!(
        process_initialize_airdrop_user(&program(), &accounts),
        Err(AirdropError::AlreadyInitialized)
    );
    accounts[0].key = Address::new(CONFIG);
    assert_eq!(
        process_initialize_airdrop_user(&program(), &accounts),
        Err(AirdropError::PdaCheckFailed)
    );
}

#[test]
fn initialize_airdrop_user_checks_in_order() {
    let mut accounts = initialize_airdrop_user_accounts();
    let run = |accounts: &[Account]| process_initialize_airdrop_user(&program(), accounts);
    accounts[4].is_signer = false;
    assert_eq!(run(&accounts), Err(AirdropError::SignerRequired));
    accounts[2].data = AirdropConfig { is_initialized: false, ..stored_config() }.pack();
    assert_eq!(run(&accounts), Err(AirdropError::Uninitialized));
    accounts[2].data = vec![1u8; 10];
    assert_eq!(run(&accounts), Err(AirdropError::DeserializationFailed));
    accounts[2].is_writable = false;
    assert_eq!(run(&accounts), Err(AirdropError::WriteableRequired));
    accounts[2].owner = Address::new(SYSTEM);
    assert_eq!(run(&accounts), Err(AirdropError::IllegalOwner));
    accounts[2].is_writable = true;
    accounts[0].is_writable = false;
    assert_eq!(run(&accounts), Err(AirdropError::WriteableRequired));
    accounts[0].lamports = 5;
    assert_eq!(run(&accounts), Err(AirdropError::AlreadyInitialized));
    accounts[0].key = Address::new(SYSTEM);
    assert_eq!(run(&accounts), Err(AirdropError::PdaCheckFailed));
    accounts.truncate(4);
    assert_eq!(run(&accounts), Err(AirdropError::ResourceExhausted));
}

#[test]
fn initialize_airdrop_user_takes_the_user_as_given() {
    let mut accounts = initialize_airdrop_user_accounts();
    accounts[1].owner = Address::new([99u8; 32]);
    accounts[1].data = vec![1, 2, 3];
    assert_eq!(process_initialize_airdrop_user(&program(), &accounts), Ok(stored_user_data()));
}

#[test]
fn initialize_airdrop_user_with_too_few_accounts() {
    let accounts = initialize_airdrop_user_accounts();
    for count in 0..INITIALIZE_AIRDROP_USER_ACCOUNTS {
        assert_eq!(
            process_initialize_airdrop_user(&program(), &accounts[..count]),
            Err(AirdropError::ResourceExhausted)
        );
    }
}

#[test]
fn initialize_airdrop_user_for_a_given_derivation() {
    let accounts = initialize_airdrop_user_accounts();
    let key = user_data_key().0;
    assert_eq!(
        validate_initialize_airdrop_user(&program(), &accounts, &Some((key, 3))),
        Ok(AirdropUserData { bump: 3, ..stored_user_data() })
    );
    assert_eq!(
        validate_initialize_airdrop_user(&program(), &accounts, &None),
        Err(AirdropError::PdaCheckFailed)
    );
}

#[test]
fn reading_an_initialised_config() {
    let accounts = initialize_airdrop_user_accounts();
    assert_eq!(initialized_config(&accounts[2]), Ok(stored_config()));
    assert_eq!(initialized_config(&accounts[1]), Err(AirdropError::DeserializationFailed));
    let blank = Account { data: vec![0u8; 154], ..accounts[2].clone() };
    assert_eq!(initialized_config(&blank), Err(AirdropError::Uninitialized));
}

#[test]
fn new_user_record() {
    let accounts = initialize_airdrop_user_accounts();
    assert_eq!(
        process_initialize_airdrop_user_account_logic(&accounts[1], &accounts[2], 200),
        AirdropUserData {
            is_initialized: true,
            user: Address::new(USER),
            airdrop: Address::new(CONFIG),
            bump: 200,
            claimed: false,
        }
    );
}

// MintOne

#[test]
fn mint_one_returns_the_claimed_record() {
    let accounts = mint_one_accounts();
    assert_eq!(accounts.len(), MINT_ONE_ACCOUNTS);
    let expected = MintOrder {
        config: stored_config(),
        user_data: AirdropUserData { claimed: true, ..stored_user_data() },
    };
    assert_eq!(process_mint_one(&program(), &accounts), Ok(expected));
    assert_eq!(process_instruction(&program(), &accounts, &[2]), Ok(StateChange::MintOne(expected)));
}

#[test]
fn mint_one_only_once() {
    let mut accounts = mint_one_accounts();
    let order = process_mint_one(&program(), &accounts).unwrap();
    accounts[1].data = order.user_data.pack();
    assert_eq!(process_mint_one(&program(), &accounts), Err(AirdropError::AlreadyClaimed));
}

#[test]
fn mint_one_checks_in_order() {
    let mut accounts = mint_one_accounts();
    let run = |accounts: &[Account]| process_mint_one(&program(), accounts);
    accounts[13].is_signer = false;
    let before = accounts.clone();
    assert_eq!(run(&accounts), Err(AirdropError::SignerRequired));
    assert_eq!(accounts, before);
    accounts[1].data = AirdropUserData { claimed: true, ..stored_user_data() }.pack();
    assert_eq!(run(&accounts), Err(AirdropError::AlreadyClaimed));
    accounts[1].data = AirdropUserData { is_initialized: false, ..stored_user_data() }.pack();
    assert_eq!(run(&accounts), Err(AirdropError::Uninitialized));
    accounts[1].data = Vec::new();
    assert_eq!(run(&accounts), Err(AirdropError::DeserializationFailed));
    accounts[6].key = Address::new(SYSTEM);
    assert_eq!(run(&accounts), Err(AirdropError::PdaCheckFailed));
    accounts[1].data = stored_user_data().pack();
    accounts[0].data = vec![0u8; 154];
    assert_eq!(run(&accounts), Err(AirdropError::Uninitialized));
    accounts[0].data = vec![0u8; 3];
    assert_eq!(run(&accounts), Err(AirdropError::DeserializationFailed));
    accounts[0].owner = Address::new(SYSTEM);
    assert_eq!(run(&accounts), Err(AirdropError::IllegalOwner));
    accounts[0].owner = program();
    accounts[0].data = stored_config().pack();
    accounts[6].key = mint_authority_key().0;
    accounts[13].is_signer = true;
    assert!(run(&accounts).is_ok());
    accounts[1].owner = Address::new(SYSTEM);
    assert_eq!(run(&accounts), Err(AirdropError::IllegalOwner));
    accounts[1].is_writable = false;
    assert_eq!(run(&accounts), Err(AirdropError::WriteableRequired));
    accounts[1].key = Address::new(SYSTEM);
    assert_eq!(run(&accounts), Err(AirdropError::PdaCheckFailed));
    accounts.truncate(15);
    assert_eq!(run(&accounts), Err(AirdropError::ResourceExhausted));
}

#[test]
fn mint_one_binds_the_record_to_config_and_user() {
    let mut accounts = mint_one_accounts();
    accounts[3].key = Address::new([9u8; 32]);
    assert_eq!(process_mint_one(&program(), &accounts), Err(AirdropError::PdaCheckFailed));
    let mut accounts = mint_one_accounts();
    accounts[0].key = Address::new([9u8; 32]);
    assert_eq!(process_mint_one(&program(), &accounts), Err(AirdropError::PdaCheckFailed));
}

#[test]
fn mint_one_with_too_few_accounts() {
    let accounts = mint_one_accounts();
    for count in 0..MINT_ONE_ACCOUNTS {
        assert_eq!(
            process_mint_one(&program(), &accounts[..count]),
            Err(AirdropError::ResourceExhausted)
        );
    }
}

#[test]
fn mint_one_for_given_derivations() {
    let accounts = mint_one_accounts();
    let user_data = Some(user_data_key());
    let mint_authority = Some(mint_authority_key());
    assert!(validate_mint_one(&program(), &accounts, &user_data, &mint_authority).is_ok());
    assert_eq!(
        validate_mint_one(&program(), &accounts, &None, &mint_authority),
        Err(AirdropError::PdaCheckFailed)
    );
    assert_eq!(
        validate_mint_one(&program(), &accounts, &user_data, &None),
        Err(AirdropError::PdaCheckFailed)
    );
    assert_eq!(
        validate_mint_one(&program(), &accounts, &mint_authority, &user_data),
        Err(AirdropError::PdaCheckFailed)
    );
}

#[test]
fn reading_an_unclaimed_record() {
    let accounts = mint_one_accounts();
    assert_eq!(unclaimed_user_data(&accounts[1]), Ok(stored_user_data()));
    assert_eq!(unclaimed_user_data(&accounts[0]), Err(AirdropError::DeserializationFailed));
    let claimed = Account {
        data: AirdropUserData { claimed: true, ..stored_user_data() }.pack(),
        ..accounts[1].clone()
    };
    assert_eq!(unclaimed_user_data(&claimed), Err(AirdropError::AlreadyClaimed));
    let blank = Account { data: vec![0u8; 67], ..accounts[1].clone() };
    assert_eq!(unclaimed_user_data(&blank), Err(AirdropError::Uninitialized));
}

// Dispatcher

#[test]
fn undecodable_data_is_rejected_before_any_account_is_read() {
    let accounts = initialize_airdrop_accounts();
    for data in [vec![], vec![3u8], vec![0u8], vec![1u8, 1], vec![0u8; 58]] {
        assert_eq!(
            process_instruction(&program(), &accounts, &data),
            Err(AirdropError::DeserializationFailed)
        );
        assert_eq!(
            process_instruction(&program(), &[], &data),
            Err(AirdropError::DeserializationFailed)
        );
    }
}

#[test]
fn every_instruction_needs_its_accounts() {
    assert_eq!(
        process_instruction(&program(), &[], &initialize_airdrop_data()),
        Err(AirdropError::ResourceExhausted)
    );
    assert_eq!(process_instruction(&program(), &[], &[1]), Err(AirdropError::ResourceExhausted));
    assert_eq!(process_instruction(&program(), &[], &[2]), Err(AirdropError::ResourceExhausted));
    let accounts = initialize_airdrop_user_accounts();
    assert_eq!(
        process_instruction(&program(), &accounts, &initialize_airdrop_data()),
        Err(AirdropError::ResourceExhausted)
    );
}

#[test]
fn every_handler_needs_the_fee_payer_to_sign() {
    let mut accounts = initialize_airdrop_accounts();
    accounts[5].is_signer = false;
    assert_eq!(
        process_instruction(&program(), &accounts, &initialize_airdrop_data()),
        Err(AirdropError::SignerRequired)
    );
    let mut accounts = initialize_airdrop_user_accounts();
    accounts[4].is_signer = false;
    assert_eq!(process_instruction(&program(), &accounts, &[1]), Err(AirdropError::SignerRequired));
    let mut accounts = mint_one_accounts();
    accounts[13].is_signer = false;
    assert_eq!(process_instruction(&program(), &accounts, &[2]), Err(AirdropError::SignerRequired));
}

#[test]
fn the_program_id_is_a_parameter() {
    let accounts = initialize_airdrop_accounts();
    let elsewhere = Address::new([9u8; 32]);
    assert_eq!(
        process_initialize_airdrop(&elsewhere, &accounts, 1, [0u8; 32], SYMBOL, 1),
        Err(AirdropError::IllegalOwner)
    );
    let mut accounts = initialize_airdrop_accounts();
    accounts[0].owner = elsewhere;
    assert_eq!(
        process_initialize_airdrop(&elsewhere, &accounts, 1, [0u8; 32], SYMBOL, 1),
        Err(AirdropError::PdaCheckFailed)
    );
    accounts[2].key = find_mint_authority(&Address::new(CONFIG), &elsewhere).unwrap().0;
    assert!(process_initialize_airdrop(&elsewhere, &accounts, 1, [0u8; 32], SYMBOL, 1).is_ok());
}
