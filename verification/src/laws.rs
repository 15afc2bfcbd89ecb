//! What holds of the handlers as a whole, proved from their contracts.

use vstd::prelude::*;
use solana_program::program_error::ProgramError;
use crate::account::AccountView;
use crate::address::Address;
use crate::custody::{custody_of, custody_seed, CustodyAuthority};
use crate::error::EscrowError;
use crate::exchange;
use crate::exchange::{exchange_post, exchange_verdict, opening_refusal, zeros};
use crate::initiate;
use crate::initiate::{init_escrow_post, rent_sysvar_id};
use crate::processor::{resume_post, Verdict};
use crate::state::{parse_of_packed, Escrow};
use crate::step::{HostCallView, Pending, Step, StepView};
use crate::token::{token_account_amount, token_program_id, AuthorityKind, TokenCall};

verus! {

/// A successful Initiate leaves a live record in the slot whose four fields
/// are the initializer, the deposit, the receiving account and the amount
/// that were handed in, and changes no other account. It asks for one call:
/// the token program is to make the custody address the owner of the
/// deposit, in the initializer's name and with the initializer as signer;
/// the deposit, the initializer and the token program go with the call,
/// which is made under the transaction's own signers.
pub proof fn initiate_stores_the_offer(
    before: Seq<AccountView>,
    amount: u64,
    program_id: Address,
    rent_floor: Option<u64>,
    after: Seq<AccountView>,
    r: Result<Step, EscrowError>,
)
    requires
        init_escrow_post(before, amount, program_id, rent_floor, after, r),
        r is Ok,
    ensures
        Escrow::parse_live(after[initiate::RECORD as int].data) == Ok::<Escrow, EscrowError>(
            Escrow {
                is_initialized: true,
                initializer_pubkey: before[initiate::INITIALIZER as int].key,
                temp_token_account_pubkey: before[initiate::DEPOSIT as int].key,
                initializer_token_to_receive_account_pubkey: before[initiate::RECEIVING as int].key,
                expected_amount: amount,
            },
        ),
        after.len() == before.len(),
        forall|i: int| 0 <= i < before.len() && i != initiate::RECORD ==> after[i] == before[i],
        custody_of(program_id) is Some,
        r->Ok_0@ == StepView::Call(
            HostCallView::of(
                TokenCall::SetAuthority {
                    account: before[initiate::DEPOSIT as int].key,
                    new_authority: Some(custody_of(program_id)->0.address),
                    kind: AuthorityKind::AccountOwner,
                    authority: before[initiate::INITIALIZER as int].key,
                    signer: before[initiate::INITIALIZER as int].key,
                },
                before[initiate::TOKEN_PROGRAM as int].key,
                seq![initiate::DEPOSIT, initiate::INITIALIZER, initiate::TOKEN_PROGRAM],
                None,
            ),
            Pending::Initiate,
        ),
{
    parse_of_packed(initiate::offered_record(before, amount));
}

/// Initiate asks for no second call: once its call is made and accepted,
/// the instruction is done, and no account is changed on the way.
pub proof fn initiate_makes_one_call(
    accounts: Seq<AccountView>,
    after: Seq<AccountView>,
    r: Result<Step, EscrowError>,
)
    requires
        resume_post(Pending::Initiate, accounts, Ok::<(), ProgramError>(()), after, r),
    ensures
        r is Ok,
        r->Ok_0@ == StepView::Done,
        after == accounts,
{
}

/// Initiate never succeeds on a slot that stores a live record, asks for no
/// call, and leaves every account as it was. Where the preconditions that
/// are checked before the slot is read hold, the error is
/// `AlreadyInitialized`.
pub proof fn initiate_refuses_a_live_slot(
    before: Seq<AccountView>,
    amount: u64,
    program_id: Address,
    rent_floor: Option<u64>,
    after: Seq<AccountView>,
    r: Result<Step, EscrowError>,
)
    requires
        init_escrow_post(before, amount, program_id, rent_floor, after, r),
        before.len() > initiate::RECORD,
        Escrow::parse_live(before[initiate::RECORD as int].data) is Ok,
    ensures
        r is Err,
        after == before,
        before.len() > initiate::RENT && before[initiate::INITIALIZER as int].is_signer
            && before[initiate::RECEIVING as int].owner@ == token_program_id()
            && before[initiate::RENT as int].key@ == rent_sysvar_id() && rent_floor is Some
            && before[initiate::RECORD as int].lamports >= rent_floor->0 ==> r == Err::<
            Step,
            EscrowError,
        >(EscrowError::AlreadyInitialized),
{
}

/// Initiate with an initializer that did not sign fails with
/// `MissingRequiredSignature`, asks for no call, and leaves every account as
/// it was.
pub proof fn initiate_needs_the_initializer_to_sign(
    before: Seq<AccountView>,
    amount: u64,
    program_id: Address,
    rent_floor: Option<u64>,
    after: Seq<AccountView>,
    r: Result<Step, EscrowError>,
)
    requires
        init_escrow_post(before, amount, program_id, rent_floor, after, r),
        before.len() > initiate::INITIALIZER,
        !before[initiate::INITIALIZER as int].is_signer,
    ensures
        r == Err::<Step, EscrowError>(EscrowError::MissingRequiredSignature),
        after == before,
{
}

/// Where the taker signed and the deposit is a token account, Exchange with
/// another amount than the deposit's balance fails with
/// `ExpectedAmountMismatch`, whatever the record slot and the other accounts
/// hold; it asks for no call and leaves every account as it was.
pub proof fn exchange_binds_the_taker_to_the_balance(
    before: Seq<AccountView>,
    amount: u64,
    program_id: Address,
    after: Seq<AccountView>,
    r: Result<Step, EscrowError>,
)
    requires
        exchange_post(before, amount, program_id, after, r),
        opening_refusal(before) is None,
        token_account_amount(before[exchange::DEPOSIT as int].data) is Some,
        token_account_amount(before[exchange::DEPOSIT as int].data) != Some(amount),
    ensures
        r == Err::<Step, EscrowError>(EscrowError::ExpectedAmountMismatch),
        after == before,
{
}

/// Exchange never goes ahead on a slot that stores no live record: it
/// fails, asks for no call, and leaves every account as it was.
pub proof fn exchange_needs_a_live_record(
    before: Seq<AccountView>,
    amount: u64,
    program_id: Address,
    after: Seq<AccountView>,
    r: Result<Step, EscrowError>,
)
    requires
        exchange_post(before, amount, program_id, after, r),
        before.len() > exchange::RECORD ==> Escrow::parse_live(
            before[exchange::RECORD as int].data,
        ) is Err,
    ensures
        r is Err,
        after == before,
{
}

/// Exchange on a record that names another deposit, another initializer or
/// another receiving account than those handed in, be it only one of the
/// three, fails, asks for no call, and leaves every account as it was.
/// Where the taker signed and named the deposit's balance, the error is
/// `InvalidAccountData`.
pub proof fn exchange_refuses_substituted_accounts(
    before: Seq<AccountView>,
    amount: u64,
    program_id: Address,
    after: Seq<AccountView>,
    r: Result<Step, EscrowError>,
)
    requires
        exchange_post(before, amount, program_id, after, r),
        before.len() > exchange::RECORD,
        Escrow::parse_live(before[exchange::RECORD as int].data) is Ok,
        ({
            let record = Escrow::parse_live(before[exchange::RECORD as int].data)->Ok_0;
            ||| record.temp_token_account_pubkey != before[exchange::DEPOSIT as int].key
            ||| record.initializer_pubkey != before[exchange::INITIALIZER as int].key
            ||| record.initializer_token_to_receive_account_pubkey
                != before[exchange::INITIALIZER_RECEIVING as int].key
        }),
    ensures
        r is Err,
        after == before,
        !(exchange_verdict(
            before,
            amount,
            token_account_amount(before[exchange::DEPOSIT as int].data),
            custody_of(program_id),
        ) is Proceed),
        opening_refusal(before) is None && token_account_amount(
            before[exchange::DEPOSIT as int].data,
        ) == Some(amount) ==> r == Err::<Step, EscrowError>(EscrowError::InvalidAccountData),
{
}

/// An Exchange that goes ahead changes no account at its start and asks
/// for the taker's payment first: the record's expected amount, from the
/// taker's sending account to the initializer's receiving account, in the
/// taker's name and with the taker as signer; those three accounts and the
/// token program go with the call, which is made under the transaction's
/// own signers.
pub proof fn exchange_asks_for_the_payment_first(
    before: Seq<AccountView>,
    amount: u64,
    program_id: Address,
    after: Seq<AccountView>,
    r: Result<Step, EscrowError>,
)
    requires
        exchange_post(before, amount, program_id, after, r),
        r is Ok,
    ensures
        after == before,
        before.len() > exchange::TOKEN_PROGRAM,
        token_account_amount(before[exchange::DEPOSIT as int].data) == Some(amount),
        custody_of(program_id) is Some,
        Escrow::parse_live(before[exchange::RECORD as int].data) is Ok,
        r->Ok_0@ is Call,
        ({
            let record = Escrow::parse_live(before[exchange::RECORD as int].data)->Ok_0;
            r->Ok_0@->Call_0 == HostCallView::of(
                TokenCall::Transfer {
                    source: before[exchange::TAKER_SENDING as int].key,
                    destination: record.initializer_token_to_receive_account_pubkey,
                    authority: before[exchange::TAKER as int].key,
                    signer: before[exchange::TAKER as int].key,
                    amount: record.expected_amount,
                },
                before[exchange::TOKEN_PROGRAM as int].key,
                seq![
                    exchange::TAKER_SENDING,
                    exchange::INITIALIZER_RECEIVING,
                    exchange::TAKER,
                    exchange::TOKEN_PROGRAM,
                ],
                None,
            )
        }),
{
}

/// Once the taker's payment is made and accepted, an Exchange asks for the
/// deposit's release: the deposit's whole balance, which is the amount that
/// the taker named, from the deposit to the taker's receiving account, in
/// the custody address's name and with that address as signer. The deposit,
/// the taker's receiving account, the account that stands for the custody
/// address and the token program go with the call, and the fixed seed and
/// the derived bump are presented with it. The custody address is the
/// derived one, whatever key the account that stands for it has.
pub proof fn exchange_releases_the_deposit_second(
    before: Seq<AccountView>,
    amount: u64,
    program_id: Address,
    after: Seq<AccountView>,
    r: Result<Step, EscrowError>,
    paid: Seq<AccountView>,
    after_paid: Seq<AccountView>,
    r_paid: Result<Step, EscrowError>,
)
    requires
        exchange_post(before, amount, program_id, after, r),
        r is Ok,
        r->Ok_0@ is Call,
        resume_post(r->Ok_0@->Call_1, paid, Ok::<(), ProgramError>(()), after_paid, r_paid),
        paid.len() > exchange::CUSTODY,
    ensures
        after_paid == paid,
        r_paid is Ok,
        r_paid->Ok_0@ is Call,
        ({
            let record = Escrow::parse_live(before[exchange::RECORD as int].data)->Ok_0;
            let custody = custody_of(program_id)->0;
            r_paid->Ok_0@->Call_0 == HostCallView::of(
                TokenCall::Transfer {
                    source: record.temp_token_account_pubkey,
                    destination: before[exchange::TAKER_RECEIVING as int].key,
                    authority: custody.address,
                    signer: custody.address,
                    amount,
                },
                before[exchange::TOKEN_PROGRAM as int].key,
                seq![
                    exchange::DEPOSIT,
                    exchange::TAKER_RECEIVING,
                    exchange::CUSTODY,
                    exchange::TOKEN_PROGRAM,
                ],
                Some((custody_seed(), custody.bump)),
            )
        }),
{
}

/// Once the deposit's release is made and accepted, an Exchange asks for
/// the closing of the deposit in favour of the initializer's main account,
/// in the custody address's name and with that address as signer. The
/// deposit, the initializer's main account, the account that stands for the
/// custody address and the token program go with the call, and the same
/// seed and bump are presented as with the release. No call follows it.
pub proof fn exchange_closes_the_deposit_third(
    before: Seq<AccountView>,
    amount: u64,
    program_id: Address,
    after: Seq<AccountView>,
    r: Result<Step, EscrowError>,
    paid: Seq<AccountView>,
    after_paid: Seq<AccountView>,
    r_paid: Result<Step, EscrowError>,
    released: Seq<AccountView>,
    after_released: Seq<AccountView>,
    r_released: Result<Step, EscrowError>,
)
    requires
        exchange_post(before, amount, program_id, after, r),
        r is Ok,
        r->Ok_0@ is Call,
        resume_post(r->Ok_0@->Call_1, paid, Ok::<(), ProgramError>(()), after_paid, r_paid),
        r_paid is Ok,
        r_paid->Ok_0@ is Call,
        resume_post(
            r_paid->Ok_0@->Call_1,
            released,
            Ok::<(), ProgramError>(()),
            after_released,
            r_released,
        ),
    ensures
        after_released == released,
        r_released is Ok,
        r_released->Ok_0@ is Call,
        r_released->Ok_0@->Call_1 == Pending::Closing,
        ({
            let record = Escrow::parse_live(before[exchange::RECORD as int].data)->Ok_0;
            let custody = custody_of(program_id)->0;
            r_released->Ok_0@->Call_0 == HostCallView::of(
                TokenCall::CloseAccount {
                    account: record.temp_token_account_pubkey,
                    destination: record.initializer_pubkey,
                    authority: custody.address,
                    signer: custody.address,
                },
                before[exchange::TOKEN_PROGRAM as int].key,
                seq![
                    exchange::DEPOSIT,
                    exchange::INITIALIZER,
                    exchange::CUSTODY,
                    exchange::TOKEN_PROGRAM,
                ],
                Some((custody_seed(), custody.bump)),
            )
        }),
{
}

/// Once the closing of the deposit is made and accepted, an Exchange
/// closes the record slot and is done: where the slot is among the accounts
/// and the refund fits, the slot is left with no balance and zeroed
/// contents, the initializer's main account holds what it held after the
/// calls and what the slot held, and no other account changes. It fails
/// with `AmountOverflow` exactly where the two balances do not add up within
/// 64 bits, and then changes nothing.
pub proof fn exchange_closes_the_record(
    left: Seq<AccountView>,
    after: Seq<AccountView>,
    r: Result<Step, EscrowError>,
)
    requires
        resume_post(Pending::Closing, left, Ok::<(), ProgramError>(()), after, r),
        left.len() > exchange::RECORD,
    ensures
        r is Ok <==> left[exchange::INITIALIZER as int].lamports
            + left[exchange::RECORD as int].lamports <= u64::MAX,
        r is Err ==> r == Err::<Step, EscrowError>(EscrowError::AmountOverflow) && after == left,
        r is Ok ==> {
            &&& r->Ok_0@ == StepView::Done
            &&& after.len() == left.len()
            &&& after[exchange::RECORD as int].lamports == 0
            &&& after[exchange::RECORD as int].data == zeros(
                left[exchange::RECORD as int].data.len(),
            )
            &&& after[exchange::INITIALIZER as int].lamports
                == left[exchange::INITIALIZER as int].lamports
                + left[exchange::RECORD as int].lamports
            &&& forall|i: int|
                0 <= i < left.len() && i != exchange::RECORD && i != exchange::INITIALIZER
                    ==> after[i] == left[i]
        },
{
}

/// A zeroed slot of a record's size stores a record that is not live: a
/// closed slot stands as a slot that was never used.
pub proof fn a_closed_slot_is_not_live()
    ensures
        Escrow::parse(zeros(105)) is Ok,
        !Escrow::parse(zeros(105))->Ok_0.is_initialized,
        Escrow::parse_live(zeros(105)) == Err::<Escrow, EscrowError>(
            EscrowError::UninitializedAccount,
        ),
{
    assert(zeros(105)[0] == 0u8);
}

/// A call that the host or the token program refuses ends the instruction
/// with the error that came back, whatever the handler was waiting for, and
/// the handler changes no account.
pub proof fn a_refused_call_ends_the_instruction(
    pending: Pending,
    accounts: Seq<AccountView>,
    e: ProgramError,
    after: Seq<AccountView>,
    r: Result<Step, EscrowError>,
)
    requires
        resume_post(pending, accounts, Err::<(), ProgramError>(e), after, r),
    ensures
        r == Err::<Step, EscrowError>(EscrowError::ExternalCall(e)),
        after == accounts,
{
}

/// A handler that fails after a call changes no account: a record changes
/// only when it is stored and when its slot is closed.
pub proof fn a_failure_changes_nothing(
    pending: Pending,
    accounts: Seq<AccountView>,
    outcome: Result<(), ProgramError>,
    after: Seq<AccountView>,
    r: Result<Step, EscrowError>,
)
    requires
        resume_post(pending, accounts, outcome, after, r),
        r is Err,
    ensures
        after == accounts,
{
}

/// The address that Initiate makes the owner of a deposit and the address
/// in whose name Exchange releases and closes a deposit are one and the
/// same for one program: the derived custody address.
pub proof fn one_custody_address_serves_both_handlers(
    program_id: Address,
    offered: Seq<AccountView>,
    offer_amount: u64,
    rent_floor: Option<u64>,
    after_offer: Seq<AccountView>,
    r_offer: Result<Step, EscrowError>,
    taken: Seq<AccountView>,
    take_amount: u64,
    after_take: Seq<AccountView>,
    r_take: Result<Step, EscrowError>,
)
    requires
        init_escrow_post(offered, offer_amount, program_id, rent_floor, after_offer, r_offer),
        r_offer is Ok,
        exchange_post(taken, take_amount, program_id, after_take, r_take),
        r_take is Ok,
    ensures
        r_offer->Ok_0@ is Call,
        r_offer->Ok_0@->Call_0.call is SetAuthority,
        r_take->Ok_0@ is Call,
        r_take->Ok_0@->Call_1 is Payment,
        ({
            let custody = custody_of(program_id)->0;
            let plan = r_take->Ok_0@->Call_1->Payment_plan;
            &&& r_offer->Ok_0@->Call_0.call->SetAuthority_new_authority == Some(custody.address)
            &&& r_take->Ok_0@->Call_1->Payment_custody == custody
            &&& plan.release_deposit->Transfer_authority == custody.address
            &&& plan.close_deposit->CloseAccount_authority == custody.address
        }),
{
}

/// Deriving the custody authority twice for one program gives one and the
/// same address and bump.
pub proof fn derivation_is_repeatable(
    program_id: Address,
    first: Option<CustodyAuthority>,
    second: Option<CustodyAuthority>,
)
    requires
        first == custody_of(program_id),
        second == custody_of(program_id),
    ensures
        first == second,
{
}

} // verus!
