//! Initiate: an initializer stores an offer in a record slot and asks the
//! token program to hand its deposit account over to the custody address.

use vstd::prelude::*;
use crate::account::{views, Account, AccountView};
use crate::address::Address;
use crate::custody::{custody_of, CustodyAuthority};
use crate::error::{passed_on, EscrowError};
use crate::processor::{Processor, Verdict};
use crate::state::Escrow;
use crate::step::{HostCall, HostCallView, Pending, Step, StepView};
use crate::token::{token_program, token_program_id, AuthorityKind, TokenCall};

verus! {

/// Position of the initializer, who has to sign.
pub const INITIALIZER: usize = 0;

/// Position of the deposit: the token account that holds what is offered.
pub const DEPOSIT: usize = 1;

/// Position of the token account on which the initializer wants to be paid.
pub const RECEIVING: usize = 2;

/// Position of the record slot.
pub const RECORD: usize = 3;

/// Position of the host's rent reference.
pub const RENT: usize = 4;

/// Position of the token program.
pub const TOKEN_PROGRAM: usize = 5;

/// The address of the account in which the host keeps its rent parameters,
/// as bytes: what `solana_program::sysvar::rent::id` gives.
pub open spec fn rent_sysvar_id() -> Seq<u8> {
    seq![
        6u8, 167u8, 213u8, 23u8, 25u8, 44u8, 92u8, 81u8,
        33u8, 140u8, 201u8, 76u8, 61u8, 74u8, 241u8, 127u8,
        88u8, 218u8, 238u8, 8u8, 155u8, 161u8, 253u8, 68u8,
        227u8, 219u8, 217u8, 138u8, 0u8, 0u8, 0u8, 0u8,
    ]
}

/// The address of the account in which the host keeps its rent parameters.
pub fn rent_sysvar() -> (id: Address)
    ensures
        id@ == rent_sysvar_id(),
{
    let bytes: [u8; 32] = [
        6, 167, 213, 23, 25, 44, 92, 81,
        33, 140, 201, 76, 61, 74, 241, 127,
        88, 218, 238, 8, 155, 161, 253, 68,
        227, 219, 217, 138, 0, 0, 0, 0,
    ];
    assert(bytes@ =~= rent_sysvar_id());
    Address { bytes }
}

/// The record that Initiate stores: live, with the initializer, the deposit
/// and the receiving account that were handed in, and the amount asked for.
pub open spec fn offered_record(accounts: Seq<AccountView>, amount: u64) -> Escrow {
    Escrow {
        is_initialized: true,
        initializer_pubkey: accounts[INITIALIZER as int].key,
        temp_token_account_pubkey: accounts[DEPOSIT as int].key,
        initializer_token_to_receive_account_pubkey: accounts[RECEIVING as int].key,
        expected_amount: amount,
    }
}

/// The first precondition of Initiate that fails, if one does. In order:
/// the initializer signed; the receiving account belongs to the token
/// program; the rent reference is the host's and readable, and the record
/// slot's balance meets the floor it gives; the slot stores a record that is
/// not live. An account is missed when the check that reads it is reached.
pub open spec fn init_refusal(accounts: Seq<AccountView>, rent_floor: Option<u64>) -> Option<
    EscrowError,
> {
    if accounts.len() <= INITIALIZER {
        Some(EscrowError::NotEnoughAccountKeys)
    } else if !accounts[INITIALIZER as int].is_signer {
        Some(EscrowError::MissingRequiredSignature)
    } else if accounts.len() <= RECEIVING {
        Some(EscrowError::NotEnoughAccountKeys)
    } else if accounts[RECEIVING as int].owner@ != token_program_id() {
        Some(EscrowError::IncorrectProgramId)
    } else if accounts.len() <= RENT {
        Some(EscrowError::NotEnoughAccountKeys)
    } else if accounts[RENT as int].key@ != rent_sysvar_id() || rent_floor is None {
        Some(EscrowError::InvalidRentReference)
    } else if accounts[RECORD as int].lamports < rent_floor->0 {
        Some(EscrowError::NotRentExempt)
    } else {
        match Escrow::parse(accounts[RECORD as int].data) {
            Err(e) => Some(e),
            Ok(record) => if record.is_initialized {
                Some(EscrowError::AlreadyInitialized)
            } else {
                None
            },
        }
    }
}

/// The call that hands the deposit account over: the token program is asked,
/// in the initializer's name and with the initializer as signer, to make the
/// custody address the owner of the deposit.
pub open spec fn init_call(accounts: Seq<AccountView>, custody: CustodyAuthority) -> TokenCall {
    TokenCall::SetAuthority {
        account: accounts[DEPOSIT as int].key,
        new_authority: Some(custody.address),
        kind: AuthorityKind::AccountOwner,
        authority: accounts[INITIALIZER as int].key,
        signer: accounts[INITIALIZER as int].key,
    }
}

/// That call, or the error of looking for the token program among too few
/// accounts.
pub open spec fn init_plan(accounts: Seq<AccountView>, custody: CustodyAuthority) -> Result<
    TokenCall,
    EscrowError,
> {
    if accounts.len() <= TOKEN_PROGRAM {
        Err(EscrowError::NotEnoughAccountKeys)
    } else {
        Ok(init_call(accounts, custody))
    }
}

/// The positions of the accounts that go with Initiate's call: the deposit,
/// the initializer, the token program.
pub open spec fn init_positions() -> Seq<usize> {
    seq![DEPOSIT, INITIALIZER, TOKEN_PROGRAM]
}

/// Initiate's call as it goes to the host: under the transaction's own
/// signers, with no seed and bump.
pub open spec fn init_host_call(
    accounts: Seq<AccountView>,
    custody: CustodyAuthority,
) -> HostCallView {
    HostCallView::of(
        init_call(accounts, custody),
        accounts[TOKEN_PROGRAM as int].key,
        init_positions(),
        None,
    )
}

/// What Initiate decides before it changes anything or asks for a call: the
/// preconditions, then that a custody address exists and that the account
/// at the token program's position is the token program.
pub open spec fn init_verdict(
    accounts: Seq<AccountView>,
    rent_floor: Option<u64>,
    custody: Option<CustodyAuthority>,
) -> Verdict<TokenCall> {
    match init_refusal(accounts, rent_floor) {
        Some(e) => Verdict::Refuse(e),
        None => match custody {
            None => Verdict::Refuse(EscrowError::CustodyUnavailable),
            Some(custody) => match init_plan(accounts, custody) {
                Err(e) => Verdict::Refuse(e),
                Ok(call) => if accounts[TOKEN_PROGRAM as int].key@ != token_program_id() {
                    Verdict::RefuseOutside
                } else {
                    Verdict::Proceed(call)
                },
            },
        },
    }
}

/// The accounts with the offer stored in the record slot.
pub open spec fn offer_stored(accounts: Seq<AccountView>, amount: u64) -> Seq<AccountView> {
    accounts.update(
        RECORD as int,
        accounts[RECORD as int].with_data(offered_record(accounts, amount).packed()),
    )
}

/// What holds of Initiate, with `before` and `after` the accounts before and
/// after it and `r` its result.
///
/// Where it refuses, the error is the one decided on and no account has
/// changed. Where it goes ahead, the offer is stored in the record slot,
/// no other account has changed, and the one call decided on is asked for:
/// with the deposit, the initializer and the token program handed over,
/// under the transaction's own signers. Nothing is left to do once that call
/// is made.
pub open spec fn init_escrow_post(
    before: Seq<AccountView>,
    amount: u64,
    program_id: Address,
    rent_floor: Option<u64>,
    after: Seq<AccountView>,
    r: Result<Step, EscrowError>,
) -> bool {
    match init_verdict(before, rent_floor, custody_of(program_id)) {
        Verdict::Refuse(e) => r == Err::<Step, EscrowError>(e) && after == before,
        Verdict::RefuseOutside => passed_on(r) && after == before,
        Verdict::Proceed(_) => {
            &&& after == offer_stored(before, amount)
            &&& r is Ok
            &&& r->Ok_0@ == StepView::Call(
                init_host_call(before, custody_of(program_id)->0),
                Pending::Initiate,
            )
        },
    }
}

impl Processor {
    /// Checks the preconditions of Initiate and gives the record to store.
    ///
    /// Any amount is accepted, zero too.
    pub fn check_init_escrow(accounts: &Vec<Account>, amount: u64, rent_floor: Option<u64>) -> (r:
        Result<Escrow, EscrowError>)
        ensures
            r == match init_refusal(views(accounts@), rent_floor) {
                Some(e) => Err::<Escrow, EscrowError>(e),
                None => Ok::<Escrow, EscrowError>(offered_record(views(accounts@), amount)),
            },
    {
        if accounts.len() <= INITIALIZER {
            return Err(EscrowError::NotEnoughAccountKeys);
        }
        if !accounts[INITIALIZER].is_signer {
            return Err(EscrowError::MissingRequiredSignature);
        }
        if accounts.len() <= RECEIVING {
            return Err(EscrowError::NotEnoughAccountKeys);
        }
        let token_program: Address = token_program();
        if !accounts[RECEIVING].owner.same(&token_program) {
            return Err(EscrowError::IncorrectProgramId);
        }
        if accounts.len() <= RENT {
            return Err(EscrowError::NotEnoughAccountKeys);
        }
        let rent_sysvar: Address = rent_sysvar();
        if !accounts[RENT].key.same(&rent_sysvar) {
            return Err(EscrowError::InvalidRentReference);
        }
        let floor: u64 = match rent_floor {
            Some(floor) => floor,
            None => {
                return Err(EscrowError::InvalidRentReference);
            },
        };
        if accounts[RECORD].lamports < floor {
            return Err(EscrowError::NotRentExempt);
        }
        let stored: Escrow = match Escrow::unpack_unchecked(accounts[RECORD].data.as_slice()) {
            Ok(stored) => stored,
            Err(e) => {
                return Err(e);
            },
        };
        if stored.is_initialized() {
            return Err(EscrowError::AlreadyInitialized);
        }
        Ok(
            Escrow {
                is_initialized: true,
                initializer_pubkey: accounts[INITIALIZER].key,
                temp_token_account_pubkey: accounts[DEPOSIT].key,
                initializer_token_to_receive_account_pubkey: accounts[RECEIVING].key,
                expected_amount: amount,
            },
        )
    }

    /// Gives the call that hands the deposit over to `custody`.
    pub fn plan_init_escrow(accounts: &Vec<Account>, custody: &CustodyAuthority) -> (r: Result<
        TokenCall,
        EscrowError,
    >)
        ensures
            r == init_plan(views(accounts@), *custody),
    {
        if accounts.len() <= TOKEN_PROGRAM {
            return Err(EscrowError::NotEnoughAccountKeys);
        }
        Ok(
            TokenCall::SetAuthority {
                account: accounts[DEPOSIT].key,
                new_authority: Some(custody.address),
                kind: AuthorityKind::AccountOwner,
                authority: accounts[INITIALIZER].key,
                signer: accounts[INITIALIZER].key,
            },
        )
    }

    /// Initiate: stores the offer in the record slot and asks for the call
    /// that hands the deposit account over to the custody address.
    ///
    /// `rent_floor` is the least balance at which the host leaves the
    /// record slot alone, as the rent reference gives it for the slot's
    /// size, or `None` where the contents of that account are not the
    /// host's rent parameters.
    pub fn process_init_escrow(
        accounts: &mut Vec<Account>,
        amount: u64,
        program_id: &Address,
        rent_floor: Option<u64>,
    ) -> (r: Result<Step, EscrowError>)
        ensures
            init_escrow_post(
                views(old(accounts)@),
                amount,
                *program_id,
                rent_floor,
                views(final(accounts)@),
                r,
            ),
    {
        assert(views(accounts@) =~= views(old(accounts)@));
        let record: Escrow = match Self::check_init_escrow(accounts, amount, rent_floor) {
            Ok(record) => record,
            Err(e) => {
                return Err(e);
            },
        };
        let custody: CustodyAuthority = match CustodyAuthority::derive(program_id) {
            Some(custody) => custody,
            None => {
                return Err(EscrowError::CustodyUnavailable);
            },
        };
        let call: TokenCall = match Self::plan_init_escrow(accounts, &custody) {
            Ok(call) => call,
            Err(e) => {
                return Err(e);
            },
        };
        let which: [usize; 3] = [DEPOSIT, INITIALIZER, TOKEN_PROGRAM];
        assert(which@ =~= init_positions());
        let host_call: HostCall = match HostCall::prepare(
            call,
            &accounts[TOKEN_PROGRAM].key,
            which.as_slice(),
            None,
        ) {
            Ok(host_call) => host_call,
            Err(e) => {
                return Err(EscrowError::ExternalCall(e));
            },
        };
        match Escrow::pack(record, &mut accounts[RECORD].data) {
            Ok(()) => {},
            Err(e) => {
                return Err(e);
            },
        }
        assert(views(accounts@) =~= offer_stored(views(old(accounts)@), amount));
        Ok(Step::Call(host_call, Pending::Initiate))
    }
}

} // verus!
