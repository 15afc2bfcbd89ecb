//! Accounts as the program sees them during one instruction.

use vstd::prelude::*;
use crate::address::Address;

verus! {

/// One account handed to an instruction, as plain values.
///
/// Each position of an account list is a value of its own: where one account
/// stands at two positions, what is changed at one does not show at the
/// other.
#[derive(Debug, PartialEq, Eq)]
pub struct Account {
    /// The account's address.
    pub key: Address,
    /// The program that owns the account.
    pub owner: Address,
    /// The account's balance in the host's own currency.
    pub lamports: u64,
    /// The account's contents.
    pub data: Vec<u8>,
    /// Whether the account signed the transaction.
    pub is_signer: bool,
    /// Whether the transaction may change the account.
    pub is_writable: bool,
    /// Whether the account holds a program.
    pub executable: bool,
    /// The epoch at which the account next owes rent.
    pub rent_epoch: u64,
}

/// What an `Account` holds, field by field, with the contents as a sequence
/// of bytes.
pub struct AccountView {
    pub key: Address,
    pub owner: Address,
    pub lamports: u64,
    pub data: Seq<u8>,
    pub is_signer: bool,
    pub is_writable: bool,
    pub executable: bool,
    pub rent_epoch: u64,
}

impl View for Account {
    type V = AccountView;

    open spec fn view(&self) -> AccountView {
        AccountView {
            key: self.key,
            owner: self.owner,
            lamports: self.lamports,
            data: self.data@,
            is_signer: self.is_signer,
            is_writable: self.is_writable,
            executable: self.executable,
            rent_epoch: self.rent_epoch,
        }
    }
}

impl Clone for Account {
    fn clone(&self) -> (copy: Account)
        ensures
            copy@ == self@,
    {
        Account {
            key: self.key,
            owner: self.owner,
            lamports: self.lamports,
            data: self.data.clone(),
            is_signer: self.is_signer,
            is_writable: self.is_writable,
            executable: self.executable,
            rent_epoch: self.rent_epoch,
        }
    }
}

/// The accounts of a list, each by its view.
pub open spec fn views(accounts: Seq<Account>) -> Seq<AccountView> {
    Seq::new(accounts.len(), |i: int| accounts[i]@)
}

impl AccountView {
    /// The same account with another balance.
    pub open spec fn with_lamports(self, lamports: u64) -> AccountView {
        AccountView { lamports, ..self }
    }

    /// The same account with other contents.
    pub open spec fn with_data(self, data: Seq<u8>) -> AccountView {
        AccountView { data, ..self }
    }
}

} // verus!
