//! The token program as this program uses it: its identity, the balance of
//! a token account, and the three calls that move a deposit, each with the
//! instruction that the token program's own builder makes of it.

use vstd::prelude::*;
use solana_program::program_error::ProgramError;
use solana_program::program_pack::Pack;
use solana_program::pubkey::Pubkey;
use spl_token::instruction::{close_account, set_authority, transfer, AuthorityType};
use crate::address::Address;

verus! {

/// The token program's address, as bytes: what `spl_token::id` gives.
pub open spec fn token_program_id() -> Seq<u8> {
    seq![
        6u8, 221u8, 246u8, 225u8, 215u8, 101u8, 161u8, 147u8,
        217u8, 203u8, 225u8, 70u8, 206u8, 235u8, 121u8, 172u8,
        28u8, 180u8, 133u8, 237u8, 95u8, 91u8, 55u8, 145u8,
        58u8, 140u8, 245u8, 133u8, 126u8, 255u8, 0u8, 169u8,
    ]
}

/// The token program's address.
pub fn token_program() -> (id: Address)
    ensures
        id@ == token_program_id(),
{
    let bytes: [u8; 32] = [
        6, 221, 246, 225, 215, 101, 161, 147,
        217, 203, 225, 70, 206, 235, 121, 172,
        28, 180, 133, 237, 95, 91, 55, 145,
        58, 140, 245, 133, 126, 255, 0, 169,
    ];
    assert(bytes@ =~= token_program_id());
    Address { bytes }
}

/// Which authority over a mint or a token account a call changes.
#[derive(Clone, Copy, Debug, PartialEq, Eq)]
pub enum AuthorityKind {
    /// The right to mint new tokens.
    MintTokens,
    /// The right to freeze accounts of a mint.
    FreezeAccount,
    /// The ownership of a token account.
    AccountOwner,
    /// The right to close a token account.
    CloseAccount,
}

/// A call that this program makes on the token program. In each, `authority`
/// is the account in whose name the call is made, and `signer` the one
/// account that the instruction names as its signer.
#[derive(Clone, Copy, Debug, PartialEq, Eq)]
pub enum TokenCall {
    /// Give the authority `kind` over `account` to `new_authority`, or to
    /// nobody.
    SetAuthority {
        account: Address,
        new_authority: Option<Address>,
        kind: AuthorityKind,
        authority: Address,
        signer: Address,
    },
    /// Move `amount` units from `source` to `destination`.
    Transfer {
        source: Address,
        destination: Address,
        authority: Address,
        signer: Address,
        amount: u64,
    },
    /// Close the token account `account` and send what it holds of the host's
    /// currency to `destination`.
    CloseAccount { account: Address, destination: Address, authority: Address, signer: Address },
}

/// One account that an instruction names, with the rights it asks for.
#[derive(Clone, Copy, Debug, PartialEq, Eq)]
pub struct AccountMeta {
    /// The account's address.
    pub pubkey: Address,
    /// Whether the account has to sign.
    pub is_signer: bool,
    /// Whether the account may be changed.
    pub is_writable: bool,
}

/// An instruction for another program, as plain values: the program, the
/// accounts it names, and its bytes.
#[derive(Debug, PartialEq, Eq)]
pub struct HostInstruction {
    /// The program that is to run the instruction.
    pub program_id: Address,
    /// The accounts that the instruction names, in order.
    pub accounts: Vec<AccountMeta>,
    /// The instruction's bytes.
    pub data: Vec<u8>,
}

/// What a `HostInstruction` holds, with sequences for its lists.
pub struct HostInstructionView {
    pub program_id: Address,
    pub accounts: Seq<AccountMeta>,
    pub data: Seq<u8>,
}

impl View for HostInstruction {
    type V = HostInstructionView;

    open spec fn view(&self) -> HostInstructionView {
        HostInstructionView {
            program_id: self.program_id,
            accounts: self.accounts@,
            data: self.data@,
        }
    }
}

/// The balance that the token program reads from the contents of a token
/// account, or nothing where it does not accept the contents as a token
/// account in use. It depends on these bytes alone.
pub uninterp spec fn token_account_amount(data: Seq<u8>) -> Option<u64>;

/// The instruction that the token program's builder makes of a call that
/// sets an authority, or nothing where it refuses. It depends on these
/// values alone.
pub uninterp spec fn set_authority_instruction(
    token_program: Seq<u8>,
    account: Seq<u8>,
    new_authority: Option<Seq<u8>>,
    kind: AuthorityKind,
    authority: Seq<u8>,
    signer: Seq<u8>,
) -> Option<HostInstructionView>;

/// The instruction that the token program's builder makes of a transfer, or
/// nothing where it refuses. It depends on these values alone.
pub uninterp spec fn transfer_instruction(
    token_program: Seq<u8>,
    source: Seq<u8>,
    destination: Seq<u8>,
    authority: Seq<u8>,
    signer: Seq<u8>,
    amount: u64,
) -> Option<HostInstructionView>;

/// The instruction that the token program's builder makes of the closing of
/// an account, or nothing where it refuses. It depends on these values alone.
pub uninterp spec fn close_account_instruction(
    token_program: Seq<u8>,
    account: Seq<u8>,
    destination: Seq<u8>,
    authority: Seq<u8>,
    signer: Seq<u8>,
) -> Option<HostInstructionView>;

/// The bytes of an address, if there is one.
pub open spec fn bytes_of(address: Option<Address>) -> Option<Seq<u8>> {
    match address {
        Some(address) => Some(address@),
        None => None,
    }
}

/// The instruction that the token program's builders make of `call` for the
/// program at `token_program`, or nothing where they refuse.
pub open spec fn built(call: TokenCall, token_program: Address) -> Option<HostInstructionView> {
    match call {
        TokenCall::SetAuthority {
            account,
            new_authority,
            kind,
            authority,
            signer,
        } => set_authority_instruction(
            token_program@,
            account@,
            bytes_of(new_authority),
            kind,
            authority@,
            signer@,
        ),
        TokenCall::Transfer {
            source,
            destination,
            authority,
            signer,
            amount,
        } => transfer_instruction(
            token_program@,
            source@,
            destination@,
            authority@,
            signer@,
            amount,
        ),
        TokenCall::CloseAccount {
            account,
            destination,
            authority,
            signer,
        } => close_account_instruction(
            token_program@,
            account@,
            destination@,
            authority@,
            signer@,
        ),
    }
}

/// Reads the balance of a token account from its contents, through
/// `spl_token::state::Account::unpack`.
///
/// The balance, or the refusal, is that function's on these bytes, which
/// this library names `token_account_amount`.
#[verifier::external_body]
pub(crate) fn unpack_amount(data: &[u8]) -> (r: Result<u64, ProgramError>)
    ensures
        match r {
            Ok(amount) => token_account_amount(data@) == Some(amount),
            Err(_) => token_account_amount(data@) is None,
        },
{
    spl_token::state::Account::unpack(data).map(|account| account.amount)
}

/// Builds the instruction that sets an authority, through
/// `spl_token::instruction::set_authority`, with `signer` as its list of
/// signers. The instruction comes back field by field as plain values.
///
/// The instruction, or the refusal, is that function's on these values,
/// which this library names `set_authority_instruction`. Beyond that it is
/// claimed when the builder succeeds: exactly when `token_program` is the
/// token program's address.
#[verifier::external_body]
fn build_set_authority(
    token_program: &Address,
    account: &Address,
    new_authority: &Option<Address>,
    kind: AuthorityKind,
    authority: &Address,
    signer: &Address,
) -> (r: Result<HostInstruction, ProgramError>)
    ensures
        r is Ok <==> token_program@ == token_program_id(),
        match r {
            Ok(instruction) => set_authority_instruction(
                token_program@,
                account@,
                bytes_of(*new_authority),
                kind,
                authority@,
                signer@,
            ) == Some(instruction@),
            Err(_) => set_authority_instruction(
                token_program@,
                account@,
                bytes_of(*new_authority),
                kind,
                authority@,
                signer@,
            ) is None,
        },
{
    let kind = match kind {
        AuthorityKind::MintTokens => AuthorityType::MintTokens,
        AuthorityKind::FreezeAccount => AuthorityType::FreezeAccount,
        AuthorityKind::AccountOwner => AuthorityType::AccountOwner,
        AuthorityKind::CloseAccount => AuthorityType::CloseAccount,
    };
    let signer: Pubkey = signer.bytes.into();
    set_authority(&token_program.bytes.into(), &account.bytes.into(),
        new_authority.map(|a| Pubkey::from(a.bytes)).as_ref(), kind, &authority.bytes.into(), &[&signer]).map(|i| HostInstruction {
        program_id: Address { bytes: i.program_id.to_bytes() },
        accounts: i.accounts.iter().map(|m| AccountMeta {
            pubkey: Address { bytes: m.pubkey.to_bytes() }, is_signer: m.is_signer, is_writable: m.is_writable,
        }).collect(),
        data: i.data })
}

/// Builds the instruction that moves tokens, through
/// `spl_token::instruction::transfer`, with `signer` as its list of signers.
/// The instruction comes back field by field as plain values.
///
/// The instruction, or the refusal, is that function's on these values,
/// which this library names `transfer_instruction`. Beyond that it is
/// claimed when the builder succeeds: exactly when `token_program` is the
/// token program's address.
#[verifier::external_body]
fn build_transfer(
    token_program: &Address,
    source: &Address,
    destination: &Address,
    authority: &Address,
    signer: &Address,
    amount: u64,
) -> (r: Result<HostInstruction, ProgramError>)
    ensures
        r is Ok <==> token_program@ == token_program_id(),
        match r {
            Ok(instruction) => transfer_instruction(
                token_program@,
                source@,
                destination@,
                authority@,
                signer@,
                amount,
            ) == Some(instruction@),
            Err(_) => transfer_instruction(
                token_program@,
                source@,
                destination@,
                authority@,
                signer@,
                amount,
            ) is None,
        },
{
    let signer: Pubkey = signer.bytes.into();
    transfer(&token_program.bytes.into(), &source.bytes.into(), &destination.bytes.into(),
        &authority.bytes.into(), &[&signer], amount).map(|i| HostInstruction {
        program_id: Address { bytes: i.program_id.to_bytes() },
        accounts: i.accounts.iter().map(|m| AccountMeta {
            pubkey: Address { bytes: m.pubkey.to_bytes() }, is_signer: m.is_signer, is_writable: m.is_writable,
        }).collect(),
        data: i.data })
}

/// Builds the instruction that closes a token account, through
/// `spl_token::instruction::close_account`, with `signer` as its list of
/// signers. The instruction comes back field by field as plain values.
///
/// The instruction, or the refusal, is that function's on these values,
/// which this library names `close_account_instruction`. Beyond that it is
/// claimed when the builder succeeds: exactly when `token_program` is the
/// token program's address.
#[verifier::external_body]
fn build_close_account(
    token_program: &Address,
    account: &Address,
    destination: &Address,
    authority: &Address,
    signer: &Address,
) -> (r: Result<HostInstruction, ProgramError>)
    ensures
        r is Ok <==> token_program@ == token_program_id(),
        match r {
            Ok(instruction) => close_account_instruction(
                token_program@,
                account@,
                destination@,
                authority@,
                signer@,
            ) == Some(instruction@),
            Err(_) => close_account_instruction(
                token_program@,
                account@,
                destination@,
                authority@,
                signer@,
            ) is None,
        },
{
    let signer: Pubkey = signer.bytes.into();
    close_account(&token_program.bytes.into(), &account.bytes.into(),
        &destination.bytes.into(), &authority.bytes.into(), &[&signer]).map(|i| HostInstruction {
        program_id: Address { bytes: i.program_id.to_bytes() },
        accounts: i.accounts.iter().map(|m| AccountMeta {
            pubkey: Address { bytes: m.pubkey.to_bytes() }, is_signer: m.is_signer, is_writable: m.is_writable,
        }).collect(),
        data: i.data })
}

impl TokenCall {
    /// Builds the instruction that makes this call on the program at
    /// `token_program`. The token program's own builders refuse any other
    /// address than the token program's.
    pub fn instruction(&self, token_program: &Address) -> (r: Result<
        HostInstruction,
        ProgramError,
    >)
        ensures
            r is Ok <==> token_program@ == token_program_id(),
            match r {
                Ok(instruction) => built(*self, *token_program) == Some(instruction@),
                Err(_) => built(*self, *token_program) is None,
            },
    {
        match self {
            TokenCall::SetAuthority {
                account,
                new_authority,
                kind,
                authority,
                signer,
            } => build_set_authority(
                token_program,
                account,
                new_authority,
                *kind,
                authority,
                signer,
            ),
            TokenCall::Transfer {
                source,
                destination,
                authority,
                signer,
                amount,
            } => build_transfer(token_program, source, destination, authority, signer, *amount),
            TokenCall::CloseAccount {
                account,
                destination,
                authority,
                signer,
            } => build_close_account(token_program, account, destination, authority, signer),
        }
    }
}

} // verus!
