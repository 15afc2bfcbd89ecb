//! What the program asks of the host, one call at a time. A handler runs
//! until it needs a call made, and says which; the caller makes the call on
//! the host's own accounts, reads the accounts anew, and comes back with the
//! outcome.

use vstd::prelude::*;
use vstd::slice::slice_to_vec;
use solana_program::program_error::ProgramError;
use crate::address::Address;
use crate::custody::{CustodyAuthority, CustodyProof};
use crate::exchange::ExchangePlan;
use crate::token::{built, token_program_id, HostInstruction, HostInstructionView, TokenCall};

verus! {

/// One call to make on the host.
#[derive(Debug, PartialEq, Eq)]
pub struct HostCall {
    /// What is asked of the token program.
    pub call: TokenCall,
    /// The instruction that asks it.
    pub instruction: HostInstruction,
    /// The positions of the accounts to hand over with it, in order.
    pub accounts: Vec<usize>,
    /// Nothing where the call goes out under the transaction's own signers;
    /// the seed and the bump to present where it is made as the custody
    /// address.
    pub signer: Option<CustodyProof>,
}

/// What a `HostCall` holds, with sequences for its lists.
pub struct HostCallView {
    pub call: TokenCall,
    pub instruction: HostInstructionView,
    pub accounts: Seq<usize>,
    pub signer: Option<(Seq<u8>, u8)>,
}

/// The seed and the bump that go with a call, if any do.
pub open spec fn presented_with(signer: Option<CustodyProof>) -> Option<(Seq<u8>, u8)> {
    match signer {
        Some(proof) => Some(proof@),
        None => None,
    }
}

impl View for HostCall {
    type V = HostCallView;

    open spec fn view(&self) -> HostCallView {
        HostCallView {
            call: self.call,
            instruction: self.instruction@,
            accounts: self.accounts@,
            signer: presented_with(self.signer),
        }
    }
}

impl HostCallView {
    /// The call on the host that asks `call` of the program at
    /// `token_program`, with the accounts at these positions handed over and
    /// this seed and bump presented.
    pub open spec fn of(
        call: TokenCall,
        token_program: Address,
        accounts: Seq<usize>,
        signer: Option<(Seq<u8>, u8)>,
    ) -> HostCallView {
        HostCallView { call, instruction: built(call, token_program)->0, accounts, signer }
    }
}

impl HostCall {
    /// Makes a call on the host ready: builds the instruction that asks
    /// `call` of the program at `token_program`, which the token program's
    /// builders do for no other address than the token program's.
    pub fn prepare(
        call: TokenCall,
        token_program: &Address,
        accounts: &[usize],
        signer: Option<CustodyProof>,
    ) -> (r: Result<HostCall, ProgramError>)
        ensures
            r is Ok <==> token_program@ == token_program_id(),
            r is Ok ==> r->Ok_0@ == HostCallView::of(
                call,
                *token_program,
                accounts@,
                presented_with(signer),
            ),
    {
        match call.instruction(token_program) {
            Ok(instruction) => Ok(
                HostCall { call, instruction, accounts: slice_to_vec(accounts), signer },
            ),
            Err(e) => Err(e),
        }
    }
}

/// Where a handler stands while a call is out.
#[derive(Clone, Copy, Debug, PartialEq, Eq)]
pub enum Pending {
    /// Initiate: the call that hands the deposit over is out.
    Initiate,
    /// Exchange: the taker's payment is out; the deposit's release and the
    /// closing of the deposit are still to come.
    Payment { plan: ExchangePlan, custody: CustodyAuthority, token_program: Address },
    /// Exchange: the deposit's release is out; the closing of the deposit is
    /// still to come.
    Release { plan: ExchangePlan, custody: CustodyAuthority, token_program: Address },
    /// Exchange: the closing of the deposit is out; the record slot is still
    /// to be closed.
    Closing,
}

/// What a handler needs next.
#[derive(Debug, PartialEq, Eq)]
pub enum Step {
    /// This call made on the host; the handler then goes on from where the
    /// second value says.
    Call(HostCall, Pending),
    /// Nothing: the instruction is done.
    Done,
}

/// What a `Step` holds, with the call by its view.
pub enum StepView {
    Call(HostCallView, Pending),
    Done,
}

impl View for Step {
    type V = StepView;

    open spec fn view(&self) -> StepView {
        match self {
            Step::Call(call, pending) => StepView::Call(call@, *pending),
            Step::Done => StepView::Done,
        }
    }
}

} // verus!
