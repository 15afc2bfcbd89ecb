//! The instruction processor: it decodes an instruction, starts the handler
//! that the instruction names, and takes a handler up again when a call
//! that it asked for has been made.

use vstd::prelude::*;
use solana_program::program_error::ProgramError;
use crate::account::{views, Account, AccountView};
use crate::address::Address;
use crate::error::{passed_on, EscrowError};
use crate::exchange::{close_record_post, closing_call, exchange_post, release_call, CUSTODY};
use crate::initiate::init_escrow_post;
use crate::instruction::EscrowInstruction;
use crate::step::{Pending, Step, StepView};
use crate::token::token_program_id;

verus! {

/// What a handler decides before it changes anything or asks for a call.
pub enum Verdict<T> {
    /// Every check passed; what is to be asked of the token program is this.
    Proceed(T),
    /// A check of this program failed, with this error.
    Refuse(EscrowError),
    /// The token program's own code refused an account or an address; the
    /// error is the one it gave.
    RefuseOutside,
}

/// What holds of `Processor::process`, with `before` and `after` the
/// accounts before and after it and `r` its result: bytes that spell no
/// instruction are refused and nothing changes; otherwise what holds of the
/// handler that the instruction names.
pub open spec fn process_post(
    before: Seq<AccountView>,
    program_id: Address,
    instruction_data: Seq<u8>,
    rent_floor: Option<u64>,
    after: Seq<AccountView>,
    r: Result<Step, EscrowError>,
) -> bool {
    match EscrowInstruction::decode(instruction_data) {
        None => r == Err::<Step, EscrowError>(EscrowError::InvalidInstruction) && after == before,
        Some(EscrowInstruction::InitEscrow { amount }) => init_escrow_post(
            before,
            amount,
            program_id,
            rent_floor,
            after,
            r,
        ),
        Some(EscrowInstruction::Exchange { amount }) => exchange_post(
            before,
            amount,
            program_id,
            after,
            r,
        ),
    }
}

/// What holds of `Processor::resume`, with `before` the accounts as they
/// were read after the call, `outcome` what the host said of the call,
/// `after` the accounts afterwards and `r` the result.
///
/// A call that the host refused ends the instruction with the host's error.
/// After Initiate's call nothing is left to do. After the taker's payment
/// the deposit's release is asked for, made as the custody address, for
/// which the account that stands for that address has to be there; after
/// the release, the closing of the deposit, made as the custody address
/// too; after the closing, the record slot is closed. Only that last step
/// changes an account.
pub open spec fn resume_post(
    pending: Pending,
    before: Seq<AccountView>,
    outcome: Result<(), ProgramError>,
    after: Seq<AccountView>,
    r: Result<Step, EscrowError>,
) -> bool {
    match outcome {
        Err(e) => r == Err::<Step, EscrowError>(EscrowError::ExternalCall(e)) && after == before,
        Ok(_) => match pending {
            Pending::Initiate => r is Ok && r->Ok_0@ == StepView::Done && after == before,
            Pending::Payment { plan, custody, token_program } => {
                &&& after == before
                &&& if before.len() <= CUSTODY {
                    r == Err::<Step, EscrowError>(EscrowError::NotEnoughAccountKeys)
                } else if token_program@ != token_program_id() {
                    passed_on(r)
                } else {
                    r is Ok && r->Ok_0@ == StepView::Call(
                        release_call(plan, token_program, custody),
                        Pending::Release { plan, custody, token_program },
                    )
                }
            },
            Pending::Release { plan, custody, token_program } => {
                &&& after == before
                &&& if token_program@ != token_program_id() {
                    passed_on(r)
                } else {
                    r is Ok && r->Ok_0@ == StepView::Call(
                        closing_call(plan, token_program, custody),
                        Pending::Closing,
                    )
                }
            },
            Pending::Closing => {
                &&& close_record_post(
                    before,
                    after,
                    match r {
                        Ok(_) => Ok(()),
                        Err(e) => Err(e),
                    },
                )
                &&& r is Ok ==> r->Ok_0@ == StepView::Done
            },
        },
    }
}

/// The escrow program's instruction processor.
pub struct Processor;

impl Processor {
    /// Decodes `instruction_data` and starts the handler it names on
    /// `accounts`, for the program `program_id`. The handler runs up to the
    /// first call that it needs made on the host.
    ///
    /// `rent_floor` is the least balance at which the host leaves the
    /// record slot of Initiate alone, as the rent reference among the
    /// accounts gives it for the slot's size, or `None` where the contents
    /// of that account are not the host's rent parameters. Only Initiate
    /// reads it.
    pub fn process(
        program_id: &Address,
        accounts: &mut Vec<Account>,
        instruction_data: &[u8],
        rent_floor: Option<u64>,
    ) -> (r: Result<Step, EscrowError>)
        ensures
            process_post(
                views(old(accounts)@),
                *program_id,
                instruction_data@,
                rent_floor,
                views(final(accounts)@),
                r,
            ),
    {
        match EscrowInstruction::unpack(instruction_data) {
            Err(e) => {
                assert(views(accounts@) =~= views(old(accounts)@));
                Err(e)
            },
            Ok(EscrowInstruction::InitEscrow { amount }) => Self::process_init_escrow(
                accounts,
                amount,
                program_id,
                rent_floor,
            ),
            Ok(EscrowInstruction::Exchange { amount }) => Self::process_exchange(
                accounts,
                amount,
                program_id,
            ),
        }
    }

    /// Takes a handler up again after the call that it asked for: `pending`
    /// is where it stood, `accounts` are the accounts as read after the
    /// call, `outcome` is what the host said of the call.
    pub fn resume(
        pending: Pending,
        accounts: &mut Vec<Account>,
        outcome: Result<(), ProgramError>,
    ) -> (r: Result<Step, EscrowError>)
        ensures
            resume_post(pending, views(old(accounts)@), outcome, views(final(accounts)@), r),
    {
        assert(views(accounts@) =~= views(old(accounts)@));
        match outcome {
            Err(e) => {
                return Err(EscrowError::ExternalCall(e));
            },
            Ok(()) => {},
        }
        match pending {
            Pending::Initiate => Ok(Step::Done),
            Pending::Payment { plan, custody, token_program } => Self::release_deposit(
                accounts,
                plan,
                custody,
                token_program,
            ),
            Pending::Release { plan, custody, token_program } => Self::close_deposit(
                plan,
                custody,
                token_program,
            ),
            Pending::Closing => match Self::close_record(accounts) {
                Ok(()) => Ok(Step::Done),
                Err(e) => Err(e),
            },
        }
    }
}

} // verus!
