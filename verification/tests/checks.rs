//! What the handlers decide before they call the token program, and how the
//! record slot is closed, on given accounts.

use escrow::account::Account;
use escrow::address::Address;
use escrow::custody::CustodyAuthority;
use escrow::error::EscrowError;
use escrow::exchange::ExchangePlan;
use escrow::processor::Processor;
use escrow::state::Escrow;
use escrow::token::{AuthorityKind, TokenCall};

const FLOOR: u64 = 1_000;

fn key(n: u8) -> Address {
    Address::new([n; 32])
}

fn token_program() -> Address {
    Address::new(spl_token::id().to_bytes())
}

fn account(n: u8, owner: Address, lamports: u64, data: Vec<u8>, is_signer: bool) -> Account {
    Account {
        key: key(n),
        owner,
        lamports,
        data,
        is_signer,
        is_writable: true,
        executable: false,
        rent_epoch: 0,
    }
}

fn initiate_accounts() -> Vec<Account> {
    vec![
        account(10, key(0), 5, vec![], true),
        account(11, token_program(), 5, vec![0u8; 165], false),
        account(12, token_program(), 5, vec![0u8; 165], false),
        account(13, key(7), FLOOR, vec![0u8; 105], false),
        Account {
            key: Address::new(solana_program::sysvar::rent::id().to_bytes()),
            ..account(14, key(0), 1, vec![], false)
        },
        account(15, key(0), 1, vec![], false),
    ]
}

fn record() -> Escrow {
    Escrow {
        is_initialized: true,
        initializer_pubkey: key(24),
        temp_token_account_pubkey: key(23),
        initializer_token_to_receive_account_pubkey: key(25),
        expected_amount: 50,
    }
}

fn slot(record: Escrow) -> Vec<u8> {
    let mut data = vec![0u8; 105];
    Escrow::pack(record, &mut data).unwrap();
    data
}

fn exchange_accounts() -> Vec<Account> {
    vec![
        account(20, key(0), 5, vec![], true),
        account(21, token_program(), 5, vec![0u8; 165], false),
        account(22, token_program(), 5, vec![0u8; 165], false),
        account(23, token_program(), 2_000, vec![0u8; 165], false),
        account(24, key(0), 300, vec![], false),
        account(25, token_program(), 5, vec![0u8; 165], false),
        account(26, key(7), 1_500, slot(record()), false),
        account(27, key(0), 1, vec![], false),
        account(28, key(0), 0, vec![], false),
    ]
}

fn custody() -> CustodyAuthority {
    CustodyAuthority { address: key(99), bump: 254 }
}

#[test]
fn check_init_gives_the_record_to_store() {
    assert_eq!(
        Processor::check_init_escrow(&initiate_accounts(), 50, Some(FLOOR)),
        Ok(Escrow {
            is_initialized: true,
            initializer_pubkey: key(10),
            temp_token_account_pubkey: key(11),
            initializer_token_to_receive_account_pubkey: key(12),
            expected_amount: 50,
        })
    );
}

#[test]
fn check_init_accepts_an_expected_amount_of_zero() {
    let r = Processor::check_init_escrow(&initiate_accounts(), 0, Some(FLOOR));
    assert_eq!(r.map(|record| record.expected_amount), Ok(0));
}

#[test]
fn check_init_needs_the_initializer_to_sign() {
    let mut accounts = initiate_accounts();
    accounts[0].is_signer = false;
    assert_eq!(
        Processor::check_init_escrow(&accounts, 50, Some(FLOOR)),
        Err(EscrowError::MissingRequiredSignature)
    );
}

#[test]
fn check_init_needs_the_receiving_account_to_belong_to_the_token_program() {
    let mut accounts = initiate_accounts();
    accounts[2].owner = key(0);
    assert_eq!(
        Processor::check_init_escrow(&accounts, 50, Some(FLOOR)),
        Err(EscrowError::IncorrectProgramId)
    );
}

#[test]
fn check_init_needs_a_readable_rent_reference() {
    assert_eq!(
        Processor::check_init_escrow(&initiate_accounts(), 50, None),
        Err(EscrowError::InvalidRentReference)
    );
}

#[test]
fn check_init_needs_the_hosts_rent_reference() {
    let mut accounts = initiate_accounts();
    accounts[4].key = key(14);
    assert_eq!(
        Processor::check_init_escrow(&accounts, 50, Some(FLOOR)),
        Err(EscrowError::InvalidRentReference)
    );
    accounts[3].lamports = 0;
    assert_eq!(
        Processor::check_init_escrow(&accounts, 50, Some(FLOOR)),
        Err(EscrowError::InvalidRentReference)
    );
}

#[test]
fn check_init_needs_the_slot_to_meet_the_rent_floor() {
    let mut accounts = initiate_accounts();
    accounts[3].lamports = FLOOR - 1;
    assert_eq!(
        Processor::check_init_escrow(&accounts, 50, Some(FLOOR)),
        Err(EscrowError::NotRentExempt)
    );
    accounts[3].lamports = FLOOR;
    assert!(Processor::check_init_escrow(&accounts, 50, Some(FLOOR)).is_ok());
    assert!(Processor::check_init_escrow(&accounts, 50, Some(0)).is_ok());
}

#[test]
fn check_init_needs_a_slot_of_the_records_size() {
    let mut accounts = initiate_accounts();
    accounts[3].data = vec![0u8; 104];
    assert_eq!(
        Processor::check_init_escrow(&accounts, 50, Some(FLOOR)),
        Err(EscrowError::InvalidAccountData)
    );
    accounts[3].data = vec![0u8; 105];
    accounts[3].data[0] = 3;
    assert_eq!(
        Processor::check_init_escrow(&accounts, 50, Some(FLOOR)),
        Err(EscrowError::InvalidAccountData)
    );
}

#[test]
fn check_init_refuses_a_live_slot() {
    let mut accounts = initiate_accounts();
    accounts[3].data = slot(record());
    assert_eq!(
        Processor::check_init_escrow(&accounts, 50, Some(FLOOR)),
        Err(EscrowError::AlreadyInitialized)
    );
}

#[test]
fn check_init_counts_the_accounts_as_it_reads_them() {
    let full = initiate_accounts();
    assert_eq!(
        Processor::check_init_escrow(&Vec::new(), 50, Some(FLOOR)),
        Err(EscrowError::NotEnoughAccountKeys)
    );
    for n in [1usize, 2, 3, 4] {
        let some: Vec<Account> = full.iter().take(n).cloned().collect();
        assert_eq!(
            Processor::check_init_escrow(&some, 50, Some(FLOOR)),
            Err(EscrowError::NotEnoughAccountKeys)
        );
    }
    let five: Vec<Account> = full.iter().take(5).cloned().collect();
    assert!(Processor::check_init_escrow(&five, 50, Some(FLOOR)).is_ok());
}

#[test]
fn check_init_reports_the_first_failure() {
    let mut accounts = initiate_accounts();
    accounts[0].is_signer = false;
    accounts[2].owner = key(0);
    accounts[3].lamports = 0;
    accounts[3].data = slot(record());
    assert_eq!(
        Processor::check_init_escrow(&accounts, 50, None),
        Err(EscrowError::MissingRequiredSignature)
    );
    accounts[0].is_signer = true;
    assert_eq!(
        Processor::check_init_escrow(&accounts, 50, None),
        Err(EscrowError::IncorrectProgramId)
    );
    accounts[2].owner = token_program();
    assert_eq!(
        Processor::check_init_escrow(&accounts, 50, None),
        Err(EscrowError::InvalidRentReference)
    );
    assert_eq!(
        Processor::check_init_escrow(&accounts, 50, Some(FLOOR)),
        Err(EscrowError::NotRentExempt)
    );
    accounts[3].lamports = FLOOR;
    assert_eq!(
        Processor::check_init_escrow(&accounts, 50, Some(FLOOR)),
        Err(EscrowError::AlreadyInitialized)
    );
    let two: Vec<Account> = accounts.iter().take(2).cloned().collect();
    assert_eq!(
        Processor::check_init_escrow(&two, 50, Some(FLOOR)),
        Err(EscrowError::NotEnoughAccountKeys)
    );
}

#[test]
fn plan_exchange_gives_the_three_calls() {
    assert_eq!(
        Processor::plan_exchange(&exchange_accounts(), 100, 100, &custody()),
        Ok(ExchangePlan {
            pay_initializer: TokenCall::Transfer {
                source: key(21),
                destination: key(25),
                authority: key(20),
                signer: key(20),
                amount: 50,
            },
            release_deposit: TokenCall::Transfer {
                source: key(23),
                destination: key(22),
                authority: key(99),
                signer: key(99),
                amount: 100,
            },
            close_deposit: TokenCall::CloseAccount {
                account: key(23),
                destination: key(24),
                authority: key(99),
                signer: key(99),
            },
        })
    );
}

#[test]
fn plan_exchange_needs_the_taker_to_sign() {
    let mut accounts = exchange_accounts();
    accounts[0].is_signer = false;
    assert_eq!(
        Processor::plan_exchange(&accounts, 100, 100, &custody()),
        Err(EscrowError::MissingRequiredSignature)
    );
}

#[test]
fn plan_exchange_binds_the_taker_to_the_balance() {
    assert_eq!(
        Processor::plan_exchange(&exchange_accounts(), 100, 90, &custody()),
        Err(EscrowError::ExpectedAmountMismatch)
    );
    assert_eq!(
        Processor::plan_exchange(&exchange_accounts(), 99, 100, &custody()),
        Err(EscrowError::ExpectedAmountMismatch)
    );
    assert!(Processor::plan_exchange(&exchange_accounts(), 0, 0, &custody()).is_ok());
}

#[test]
fn plan_exchange_checks_the_balance_before_the_record() {
    let mut accounts = exchange_accounts();
    accounts[6].data = vec![0u8; 3];
    assert_eq!(
        Processor::plan_exchange(&accounts, 100, 90, &custody()),
        Err(EscrowError::ExpectedAmountMismatch)
    );
    assert_eq!(
        Processor::plan_exchange(&accounts, 100, 100, &custody()),
        Err(EscrowError::InvalidAccountData)
    );
}

#[test]
fn plan_exchange_needs_a_live_record() {
    let mut accounts = exchange_accounts();
    accounts[6].data = vec![0u8; 105];
    assert_eq!(
        Processor::plan_exchange(&accounts, 100, 100, &custody()),
        Err(EscrowError::UninitializedAccount)
    );
    accounts[6].data = Vec::new();
    assert_eq!(
        Processor::plan_exchange(&accounts, 100, 100, &custody()),
        Err(EscrowError::InvalidAccountData)
    );
}

#[test]
fn plan_exchange_refuses_another_deposit_account() {
    let mut accounts = exchange_accounts();
    accounts[3].key = key(77);
    assert_eq!(
        Processor::plan_exchange(&accounts, 100, 100, &custody()),
        Err(EscrowError::InvalidAccountData)
    );
}

#[test]
fn plan_exchange_refuses_another_initializer() {
    let mut accounts = exchange_accounts();
    accounts[4].key = key(77);
    assert_eq!(
        Processor::plan_exchange(&accounts, 100, 100, &custody()),
        Err(EscrowError::InvalidAccountData)
    );
}

#[test]
fn plan_exchange_refuses_another_receiving_account() {
    let mut accounts = exchange_accounts();
    accounts[5].key = key(77);
    assert_eq!(
        Processor::plan_exchange(&accounts, 100, 100, &custody()),
        Err(EscrowError::InvalidAccountData)
    );
}

#[test]
fn plan_exchange_counts_the_accounts_as_it_reads_them() {
    let full = exchange_accounts();
    for n in [0usize, 1, 2, 3, 4, 5, 6, 7] {
        let some: Vec<Account> = full.iter().take(n).cloned().collect();
        assert_eq!(
            Processor::plan_exchange(&some, 100, 100, &custody()),
            Err(EscrowError::NotEnoughAccountKeys)
        );
    }
    let eight: Vec<Account> = full.iter().take(8).cloned().collect();
    assert!(Processor::plan_exchange(&eight, 100, 100, &custody()).is_ok());
    let six: Vec<Account> = full.iter().take(6).cloned().collect();
    assert_eq!(
        Processor::plan_exchange(&six, 100, 90, &custody()),
        Err(EscrowError::ExpectedAmountMismatch)
    );
}

#[test]
fn close_record_sweeps_the_slot_to_the_initializer() {
    let mut accounts = exchange_accounts();
    let before = exchange_accounts();
    assert_eq!(Processor::close_record(&mut accounts), Ok(()));
    assert_eq!(accounts[4].lamports, 1_800);
    assert_eq!(accounts[6].lamports, 0);
    assert_eq!(accounts[6].data, vec![0u8; 105]);
    assert_eq!(accounts[6].key, before[6].key);
    assert_eq!(accounts[6].owner, before[6].owner);
    assert_eq!(accounts[4].data, before[4].data);
    for i in [0usize, 1, 2, 3, 5, 7, 8] {
        assert_eq!(accounts[i], before[i]);
    }
}

#[test]
fn close_record_refuses_a_sum_that_does_not_fit() {
    let mut accounts = exchange_accounts();
    accounts[4].lamports = u64::MAX - 1_499;
    let before: Vec<Account> = accounts.to_vec();
    assert_eq!(Processor::close_record(&mut accounts), Err(EscrowError::AmountOverflow));
    assert_eq!(accounts, before);
    accounts[4].lamports = u64::MAX - 1_500;
    assert_eq!(Processor::close_record(&mut accounts), Ok(()));
    assert_eq!(accounts[4].lamports, u64::MAX);
    assert_eq!(accounts[6].lamports, 0);
}

#[test]
fn close_record_needs_the_slot_among_the_accounts() {
    let mut six: Vec<Account> = exchange_accounts().into_iter().take(6).collect();
    let before: Vec<Account> = six.to_vec();
    assert_eq!(Processor::close_record(&mut six), Err(EscrowError::NotEnoughAccountKeys));
    assert_eq!(six, before);
}

#[test]
fn a_closed_slot_can_take_a_new_offer() {
    let mut accounts = exchange_accounts();
    Processor::close_record(&mut accounts).unwrap();
    let mut again = initiate_accounts();
    again[3].data = accounts[6].data.clone();
    assert!(Processor::check_init_escrow(&again, 5, Some(FLOOR)).is_ok());
    assert_eq!(
        Processor::plan_exchange(&accounts, 100, 100, &custody()),
        Err(EscrowError::UninitializedAccount)
    );
}

#[test]
fn check_exchange_gives_the_record_that_is_taken() {
    assert_eq!(Processor::check_exchange(&exchange_accounts(), 100, 100), Ok(record()));
    assert_eq!(
        Processor::check_exchange(&exchange_accounts(), 100, 90),
        Err(EscrowError::ExpectedAmountMismatch)
    );
}

#[test]
fn plan_init_gives_the_call_that_hands_the_deposit_over() {
    assert_eq!(
        Processor::plan_init_escrow(&initiate_accounts(), &custody()),
        Ok(TokenCall::SetAuthority {
            account: key(11),
            new_authority: Some(key(99)),
            kind: AuthorityKind::AccountOwner,
            authority: key(10),
            signer: key(10),
        })
    );
    let five: Vec<Account> = initiate_accounts().into_iter().take(5).collect();
    assert_eq!(
        Processor::plan_init_escrow(&five, &custody()),
        Err(EscrowError::NotEnoughAccountKeys)
    );
}
