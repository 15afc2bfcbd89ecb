//! A two-party token escrow as a program on a ledger of accounts: an
//! initializer locks a deposit under an address that only this program can
//! sign for and names the amount it expects in return; a taker later
//! completes the swap in one step, or the swap does not happen.
//!
//! - `instruction` decodes what a caller asks for, `state` is the record of
//!   one offer as its slot stores it, `wire` and `address` are the bytes
//!   under both.
//! - `account` is an account as plain values; `custody` derives the address
//!   under which deposits are held.
//! - `initiate` and `exchange` are the two handlers. A handler does not call
//!   the token program itself: it runs until it needs a call made on the
//!   host, says which (`step`), and is taken up again with the outcome.
//!   `processor` decodes, starts a handler and takes it up again; `laws`
//!   states what holds of the handlers as a whole.
//! - `token` holds what is taken from the token program's own code: the
//!   balance it reads from an account, and the instructions it builds.
//!
//! Everything is verified but the bodies of the functions that call into the
//! token program's and the host's code: of each of them, its contract says
//! what is taken on trust.

pub mod account;
pub mod address;
pub mod custody;
pub mod error;
pub mod exchange;
pub mod initiate;
pub mod instruction;
pub mod laws;
pub mod processor;
pub mod state;
pub mod step;
pub mod token;
pub mod wire;
