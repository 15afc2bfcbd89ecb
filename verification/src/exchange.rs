//! Exchange: a taker who has seen the deposit pays what the record asks for
//! and receives the deposit; the deposit account and the record slot are
//! closed in favour of the initializer. The handler asks for three calls,
//! one after the other, and closes the slot itself.

use vstd::prelude::*;
use crate::account::{views, Account, AccountView};
use crate::address::Address;
use crate::custody::{custody_of, CustodyAuthority};
use crate::error::{passed_on, EscrowError};
use crate::processor::{Processor, Verdict};
use crate::state::Escrow;
use crate::step::{HostCall, HostCallView, Pending, Step, StepView};
use crate::token::{token_account_amount, token_program_id, unpack_amount, TokenCall};

verus! {

/// Position of the taker, who has to sign.
pub const TAKER: usize = 0;

/// Position of the token account from which the taker pays.
pub const TAKER_SENDING: usize = 1;

/// Position of the token account on which the taker receives the deposit.
pub const TAKER_RECEIVING: usize = 2;

/// Position of the deposit: the token account that holds what is offered.
pub const DEPOSIT: usize = 3;

/// Position of the initializer's main account, which takes the refunds.
pub const INITIALIZER: usize = 4;

/// Position of the token account on which the initializer is paid.
pub const INITIALIZER_RECEIVING: usize = 5;

/// Position of the record slot.
pub const RECORD: usize = 6;

/// Position of the token program.
pub const TOKEN_PROGRAM: usize = 7;

/// Position of the account that stands for the custody address.
pub const CUSTODY: usize = 8;

/// Number of accounts that an exchange reads.
pub const ACCOUNTS: usize = 9;

/// The three calls of an exchange, in the order in which they are made.
#[derive(Clone, Copy, Debug, PartialEq, Eq)]
pub struct ExchangePlan {
    /// The taker pays the initializer what the record asks for.
    pub pay_initializer: TokenCall,
    /// The custody address hands the whole deposit to the taker.
    pub release_deposit: TokenCall,
    /// The custody address closes the deposit account in favour of the
    /// initializer.
    pub close_deposit: TokenCall,
}

/// The first of the opening checks of Exchange that fails, if one does: the
/// taker signed, and the deposit is among the accounts.
pub open spec fn opening_refusal(accounts: Seq<AccountView>) -> Option<EscrowError> {
    if accounts.len() <= TAKER {
        Some(EscrowError::NotEnoughAccountKeys)
    } else if !accounts[TAKER as int].is_signer {
        Some(EscrowError::MissingRequiredSignature)
    } else if accounts.len() <= DEPOSIT {
        Some(EscrowError::NotEnoughAccountKeys)
    } else {
        None
    }
}

/// What the checks of Exchange that are this program's own decide, given the
/// deposit's balance: the first that fails, or the record that is taken. In
/// order: the opening checks; the amount the taker named is the deposit's
/// balance; the slot stores a live record; the record names the deposit, the
/// initializer's main account and the initializer's receiving account that
/// were handed in; the token program is among the accounts. An account is
/// missed when the check that reads it is reached.
pub open spec fn exchange_check(accounts: Seq<AccountView>, amount: u64, balance: u64) -> Result<
    Escrow,
    EscrowError,
> {
    if opening_refusal(accounts) is Some {
        Err(opening_refusal(accounts)->0)
    } else if amount != balance {
        Err(EscrowError::ExpectedAmountMismatch)
    } else if accounts.len() <= RECORD {
        Err(EscrowError::NotEnoughAccountKeys)
    } else {
        match Escrow::parse_live(accounts[RECORD as int].data) {
            Err(e) => Err(e),
            Ok(record) => if record.temp_token_account_pubkey != accounts[DEPOSIT as int].key {
                Err(EscrowError::InvalidAccountData)
            } else if record.initializer_pubkey != accounts[INITIALIZER as int].key {
                Err(EscrowError::InvalidAccountData)
            } else if record.initializer_token_to_receive_account_pubkey
                != accounts[INITIALIZER_RECEIVING as int].key {
                Err(EscrowError::InvalidAccountData)
            } else if accounts.len() <= TOKEN_PROGRAM {
                Err(EscrowError::NotEnoughAccountKeys)
            } else {
                Ok(record)
            },
        }
    }
}

/// The three calls of an exchange on these accounts, for the record that the
/// slot stores, a deposit of `balance` units and this custody authority. The
/// taker's payment is made in the taker's name with the taker as signer; the
/// other two in the custody address's name with that address as signer.
pub open spec fn exchange_calls(
    accounts: Seq<AccountView>,
    record: Escrow,
    balance: u64,
    custody: CustodyAuthority,
) -> ExchangePlan {
    ExchangePlan {
        pay_initializer: TokenCall::Transfer {
            source: accounts[TAKER_SENDING as int].key,
            destination: accounts[INITIALIZER_RECEIVING as int].key,
            authority: accounts[TAKER as int].key,
            signer: accounts[TAKER as int].key,
            amount: record.expected_amount,
        },
        release_deposit: TokenCall::Transfer {
            source: accounts[DEPOSIT as int].key,
            destination: accounts[TAKER_RECEIVING as int].key,
            authority: custody.address,
            signer: custody.address,
            amount: balance,
        },
        close_deposit: TokenCall::CloseAccount {
            account: accounts[DEPOSIT as int].key,
            destination: accounts[INITIALIZER as int].key,
            authority: custody.address,
            signer: custody.address,
        },
    }
}

/// What the checks decide, with the calls to make where they pass.
pub open spec fn exchange_plan(
    accounts: Seq<AccountView>,
    amount: u64,
    balance: u64,
    custody: CustodyAuthority,
) -> Result<ExchangePlan, EscrowError> {
    match exchange_check(accounts, amount, balance) {
        Err(e) => Err(e),
        Ok(record) => Ok(exchange_calls(accounts, record, balance, custody)),
    }
}

/// What Exchange decides before it asks for a call. `balance` is what the
/// token program reads as the deposit's balance, `custody` what the
/// derivation finds. A missing custody address shows only where every check
/// has passed.
pub open spec fn exchange_verdict(
    accounts: Seq<AccountView>,
    amount: u64,
    balance: Option<u64>,
    custody: Option<CustodyAuthority>,
) -> Verdict<ExchangePlan> {
    match opening_refusal(accounts) {
        Some(e) => Verdict::Refuse(e),
        None => match balance {
            None => Verdict::RefuseOutside,
            Some(balance) => match exchange_check(accounts, amount, balance) {
                Err(e) => Verdict::Refuse(e),
                Ok(record) => match custody {
                    None => Verdict::Refuse(EscrowError::CustodyUnavailable),
                    Some(custody) => if accounts[TOKEN_PROGRAM as int].key@ != token_program_id() {
                        Verdict::RefuseOutside
                    } else {
                        Verdict::Proceed(exchange_calls(accounts, record, balance, custody))
                    },
                },
            },
        },
    }
}

/// The positions of the accounts that go with the taker's payment: the
/// taker's sending account, the initializer's receiving account, the taker,
/// the token program.
pub open spec fn payment_positions() -> Seq<usize> {
    seq![TAKER_SENDING, INITIALIZER_RECEIVING, TAKER, TOKEN_PROGRAM]
}

/// The positions of the accounts that go with the deposit's release: the
/// deposit, the taker's receiving account, the account that stands for the
/// custody address, the token program.
pub open spec fn release_positions() -> Seq<usize> {
    seq![DEPOSIT, TAKER_RECEIVING, CUSTODY, TOKEN_PROGRAM]
}

/// The positions of the accounts that go with the closing of the deposit:
/// the deposit, the initializer's main account, the account that stands for
/// the custody address, the token program.
pub open spec fn closing_positions() -> Seq<usize> {
    seq![DEPOSIT, INITIALIZER, CUSTODY, TOKEN_PROGRAM]
}

/// The first call of an exchange as it goes to the host: the taker's
/// payment, under the transaction's own signers.
pub open spec fn payment_call(plan: ExchangePlan, token_program: Address) -> HostCallView {
    HostCallView::of(plan.pay_initializer, token_program, payment_positions(), None)
}

/// The second call of an exchange as it goes to the host: the deposit's
/// release, with the custody address's seed and bump presented.
pub open spec fn release_call(
    plan: ExchangePlan,
    token_program: Address,
    custody: CustodyAuthority,
) -> HostCallView {
    HostCallView::of(
        plan.release_deposit,
        token_program,
        release_positions(),
        Some(custody.presented()),
    )
}

/// The third call of an exchange as it goes to the host: the closing of the
/// deposit, with the custody address's seed and bump presented.
pub open spec fn closing_call(
    plan: ExchangePlan,
    token_program: Address,
    custody: CustodyAuthority,
) -> HostCallView {
    HostCallView::of(
        plan.close_deposit,
        token_program,
        closing_positions(),
        Some(custody.presented()),
    )
}

/// A run of `n` zero bytes.
pub open spec fn zeros(n: nat) -> Seq<u8> {
    Seq::new(n, |i: int| 0u8)
}

/// The accounts after the record slot was closed in favour of the
/// initializer's main account: the slot's balance is added to the main
/// account's, the slot is left with no balance and with zeroed contents.
pub open spec fn record_closed(accounts: Seq<AccountView>) -> Seq<AccountView> {
    accounts.update(
        INITIALIZER as int,
        accounts[INITIALIZER as int].with_lamports(
            (accounts[INITIALIZER as int].lamports + accounts[RECORD as int].lamports) as u64,
        ),
    ).update(
        RECORD as int,
        accounts[RECORD as int].with_lamports(0).with_data(
            zeros(accounts[RECORD as int].data.len()),
        ),
    )
}

/// What holds of closing the record slot, with `before` and `after` the
/// accounts before and after it and `r` its result: the slot has to be among
/// the accounts, and the two balances have to add up within 64 bits;
/// otherwise nothing changes.
pub open spec fn close_record_post(
    before: Seq<AccountView>,
    after: Seq<AccountView>,
    r: Result<(), EscrowError>,
) -> bool {
    if before.len() <= RECORD {
        r == Err::<(), EscrowError>(EscrowError::NotEnoughAccountKeys) && after == before
    } else if before[INITIALIZER as int].lamports + before[RECORD as int].lamports > u64::MAX {
        r == Err::<(), EscrowError>(EscrowError::AmountOverflow) && after == before
    } else {
        r == Ok::<(), EscrowError>(()) && after == record_closed(before)
    }
}

/// What holds of the start of Exchange, with `before` and `after` the
/// accounts before and after it and `r` its result.
///
/// No account changes. Where Exchange refuses, the error is the one decided
/// on. Where it goes ahead, the first of the three calls decided on is asked
/// for: the taker's payment, under the transaction's own signers; the other
/// two follow when the handler is taken up again.
pub open spec fn exchange_post(
    before: Seq<AccountView>,
    amount: u64,
    program_id: Address,
    after: Seq<AccountView>,
    r: Result<Step, EscrowError>,
) -> bool {
    &&& after == before
    &&& match exchange_verdict(
        before,
        amount,
        token_account_amount(before[DEPOSIT as int].data),
        custody_of(program_id),
    ) {
        Verdict::Refuse(e) => r == Err::<Step, EscrowError>(e),
        Verdict::RefuseOutside => passed_on(r),
        Verdict::Proceed(plan) => {
            &&& r is Ok
            &&& r->Ok_0@ == StepView::Call(
                payment_call(plan, before[TOKEN_PROGRAM as int].key),
                Pending::Payment {
                    plan,
                    custody: custody_of(program_id)->0,
                    token_program: before[TOKEN_PROGRAM as int].key,
                },
            )
        },
    }
}

impl Processor {
    /// Checks what Exchange checks of its accounts, given the deposit's
    /// balance, and gives the record that is taken.
    ///
    /// That the taker pays in the asset that the initializer expects is not
    /// among the checks: the record does not name that asset.
    pub fn check_exchange(accounts: &Vec<Account>, amount: u64, balance: u64) -> (r: Result<
        Escrow,
        EscrowError,
    >)
        ensures
            r == exchange_check(views(accounts@), amount, balance),
    {
        if accounts.len() <= TAKER {
            return Err(EscrowError::NotEnoughAccountKeys);
        }
        if !accounts[TAKER].is_signer {
            return Err(EscrowError::MissingRequiredSignature);
        }
        if accounts.len() <= DEPOSIT {
            return Err(EscrowError::NotEnoughAccountKeys);
        }
        if amount != balance {
            return Err(EscrowError::ExpectedAmountMismatch);
        }
        if accounts.len() <= RECORD {
            return Err(EscrowError::NotEnoughAccountKeys);
        }
        let record: Escrow = match Escrow::unpack(accounts[RECORD].data.as_slice()) {
            Ok(record) => record,
            Err(e) => {
                return Err(e);
            },
        };
        if !record.temp_token_account_pubkey.same(&accounts[DEPOSIT].key) {
            return Err(EscrowError::InvalidAccountData);
        }
        if !record.initializer_pubkey.same(&accounts[INITIALIZER].key) {
            return Err(EscrowError::InvalidAccountData);
        }
        if !record.initializer_token_to_receive_account_pubkey.same(
            &accounts[INITIALIZER_RECEIVING].key,
        ) {
            return Err(EscrowError::InvalidAccountData);
        }
        if accounts.len() <= TOKEN_PROGRAM {
            return Err(EscrowError::NotEnoughAccountKeys);
        }
        Ok(record)
    }

    /// Checks what Exchange checks of its accounts, given the deposit's
    /// balance and the custody authority, and gives the calls to make.
    pub fn plan_exchange(
        accounts: &Vec<Account>,
        amount: u64,
        balance: u64,
        custody: &CustodyAuthority,
    ) -> (r: Result<ExchangePlan, EscrowError>)
        ensures
            r == exchange_plan(views(accounts@), amount, balance, *custody),
    {
        let record: Escrow = match Self::check_exchange(accounts, amount, balance) {
            Ok(record) => record,
            Err(e) => {
                return Err(e);
            },
        };
        Ok(
            ExchangePlan {
                pay_initializer: TokenCall::Transfer {
                    source: accounts[TAKER_SENDING].key,
                    destination: accounts[INITIALIZER_RECEIVING].key,
                    authority: accounts[TAKER].key,
                    signer: accounts[TAKER].key,
                    amount: record.expected_amount,
                },
                release_deposit: TokenCall::Transfer {
                    source: accounts[DEPOSIT].key,
                    destination: accounts[TAKER_RECEIVING].key,
                    authority: custody.address,
                    signer: custody.address,
                    amount: balance,
                },
                close_deposit: TokenCall::CloseAccount {
                    account: accounts[DEPOSIT].key,
                    destination: accounts[INITIALIZER].key,
                    authority: custody.address,
                    signer: custody.address,
                },
            },
        )
    }

    /// Closes the record slot in favour of the initializer's main account:
    /// the slot's balance goes to the main account, and the slot's contents
    /// are zeroed. Nothing changes where the two balances do not add up
    /// within 64 bits, or where the slot is not among the accounts.
    pub fn close_record(accounts: &mut Vec<Account>) -> (r: Result<(), EscrowError>)
        ensures
            close_record_post(views(old(accounts)@), views(final(accounts)@), r),
    {
        assert(views(accounts@) =~= views(old(accounts)@));
        if accounts.len() <= RECORD {
            return Err(EscrowError::NotEnoughAccountKeys);
        }
        let swept: u64 = match accounts[INITIALIZER].lamports.checked_add(
            accounts[RECORD].lamports,
        ) {
            Some(swept) => swept,
            None => {
                return Err(EscrowError::AmountOverflow);
            },
        };
        let len: usize = accounts[RECORD].data.len();
        let mut cleared: Vec<u8> = Vec::new();
        let mut i: usize = 0;
        while i < len
            invariant
                i <= len,
                cleared@ == zeros(i as nat),
            decreases len - i,
        {
            cleared.push(0);
            i += 1;
            assert(cleared@ =~= zeros(i as nat));
        }
        accounts[INITIALIZER].lamports = swept;
        accounts[RECORD].lamports = 0;
        accounts[RECORD].data = cleared;
        assert(views(accounts@) =~= record_closed(views(old(accounts)@)));
        Ok(())
    }

    /// Exchange: checks the offer against what the taker handed in and asks
    /// for the first of the three calls that swap the assets, the taker's
    /// payment.
    pub fn process_exchange(
        accounts: &mut Vec<Account>,
        amount_expected_by_taker: u64,
        program_id: &Address,
    ) -> (r: Result<Step, EscrowError>)
        ensures
            exchange_post(
                views(old(accounts)@),
                amount_expected_by_taker,
                *program_id,
                views(final(accounts)@),
                r,
            ),
    {
        assert(views(accounts@) =~= views(old(accounts)@));
        if accounts.len() <= TAKER {
            return Err(EscrowError::NotEnoughAccountKeys);
        }
        if !accounts[TAKER].is_signer {
            return Err(EscrowError::MissingRequiredSignature);
        }
        if accounts.len() <= DEPOSIT {
            return Err(EscrowError::NotEnoughAccountKeys);
        }
        let balance: u64 = match unpack_amount(accounts[DEPOSIT].data.as_slice()) {
            Ok(balance) => balance,
            Err(e) => {
                return Err(EscrowError::ExternalCall(e));
            },
        };
        match Self::check_exchange(accounts, amount_expected_by_taker, balance) {
            Ok(_) => {},
            Err(e) => {
                return Err(e);
            },
        }
        let custody: CustodyAuthority = match CustodyAuthority::derive(program_id) {
            Some(custody) => custody,
            None => {
                return Err(EscrowError::CustodyUnavailable);
            },
        };
        let plan: ExchangePlan = match Self::plan_exchange(
            accounts,
            amount_expected_by_taker,
            balance,
            &custody,
        ) {
            Ok(plan) => plan,
            Err(e) => {
                return Err(e);
            },
        };
        let token_program: Address = accounts[TOKEN_PROGRAM].key;
        let which: [usize; 4] = [TAKER_SENDING, INITIALIZER_RECEIVING, TAKER, TOKEN_PROGRAM];
        assert(which@ =~= payment_positions());
        match HostCall::prepare(plan.pay_initializer, &token_program, which.as_slice(), None) {
            Ok(call) => Ok(Step::Call(call, Pending::Payment { plan, custody, token_program })),
            Err(e) => Err(EscrowError::ExternalCall(e)),
        }
    }

    /// Exchange, once the taker has paid: asks for the deposit's release,
    /// made as the custody address. The account that stands for that address
    /// has to be among the accounts.
    pub(crate) fn release_deposit(
        accounts: &Vec<Account>,
        plan: ExchangePlan,
        custody: CustodyAuthority,
        token_program: Address,
    ) -> (r: Result<Step, EscrowError>)
        ensures
            if accounts@.len() <= CUSTODY {
                r == Err::<Step, EscrowError>(EscrowError::NotEnoughAccountKeys)
            } else if token_program@ != token_program_id() {
                passed_on(r)
            } else {
                r is Ok && r->Ok_0@ == StepView::Call(
                    release_call(plan, token_program, custody),
                    Pending::Release { plan, custody, token_program },
                )
            },
    {
        if accounts.len() <= CUSTODY {
            return Err(EscrowError::NotEnoughAccountKeys);
        }
        let which: [usize; 4] = [DEPOSIT, TAKER_RECEIVING, CUSTODY, TOKEN_PROGRAM];
        assert(which@ =~= release_positions());
        match HostCall::prepare(
            plan.release_deposit,
            &token_program,
            which.as_slice(),
            Some(custody.presentation()),
        ) {
            Ok(call) => Ok(Step::Call(call, Pending::Release { plan, custody, token_program })),
            Err(e) => Err(EscrowError::ExternalCall(e)),
        }
    }

    /// Exchange, once the deposit is released: asks for the closing of the
    /// deposit, made as the custody address.
    pub(crate) fn close_deposit(
        plan: ExchangePlan,
        custody: CustodyAuthority,
        token_program: Address,
    ) -> (r: Result<Step, EscrowError>)
        ensures
            if token_program@ != token_program_id() {
                passed_on(r)
            } else {
                r is Ok && r->Ok_0@ == StepView::Call(
                    closing_call(plan, token_program, custody),
                    Pending::Closing,
                )
            },
    {
        let which: [usize; 4] = [DEPOSIT, INITIALIZER, CUSTODY, TOKEN_PROGRAM];
        assert(which@ =~= closing_positions());
        match HostCall::prepare(
            plan.close_deposit,
            &token_program,
            which.as_slice(),
            Some(custody.presentation()),
        ) {
            Ok(call) => Ok(Step::Call(call, Pending::Closing)),
            Err(e) => Err(EscrowError::ExternalCall(e)),
        }
    }
}

} // verus!
