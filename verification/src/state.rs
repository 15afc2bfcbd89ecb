//! The escrow record: one outstanding offer, as it is stored in its slot.

use vstd::prelude::*;
use crate::address::{from_seq_of_view, from_seq_view, Address};
use crate::error::EscrowError;
use crate::wire::{
    le_bytes, le_bytes_of_le_value, le_value, le_value_fits, le_value_of_le_bytes, read_u64,
    write_u64,
};

verus! {

/// Number of bytes a stored record takes: a flag, three addresses, an amount.
pub const ESCROW_LEN: usize = 105;

/// One outstanding offer.
#[derive(Clone, Copy, Debug, PartialEq, Eq)]
pub struct Escrow {
    /// Whether the slot holds a live record.
    pub is_initialized: bool,
    /// Who made the offer.
    pub initializer_pubkey: Address,
    /// The token account that holds the deposit.
    pub temp_token_account_pubkey: Address,
    /// The token account on which the initializer wants to be paid.
    pub initializer_token_to_receive_account_pubkey: Address,
    /// How much the initializer wants to be paid.
    pub expected_amount: u64,
}

impl Escrow {
    /// The 105 bytes that store the record: the flag as 0 or 1, the three
    /// addresses in the order of the fields, the amount little-endian.
    pub open spec fn packed(self) -> Seq<u8> {
        seq![if self.is_initialized { 1u8 } else { 0u8 }] + self.initializer_pubkey@
            + self.temp_token_account_pubkey@ + self.initializer_token_to_receive_account_pubkey@
            + le_bytes(self.expected_amount)
    }

    /// The record that `data` stores, live or not. `data` stores one if it
    /// has 105 bytes and its flag is 0 or 1.
    pub open spec fn parse(data: Seq<u8>) -> Result<Escrow, EscrowError> {
        if data.len() != ESCROW_LEN || data[0] > 1 {
            Err(EscrowError::InvalidAccountData)
        } else {
            Ok(
                Escrow {
                    is_initialized: data[0] == 1,
                    initializer_pubkey: Address::from_seq(data.subrange(1, 33)),
                    temp_token_account_pubkey: Address::from_seq(data.subrange(33, 65)),
                    initializer_token_to_receive_account_pubkey: Address::from_seq(
                        data.subrange(65, 97),
                    ),
                    expected_amount: le_value(data.subrange(97, 105)) as u64,
                },
            )
        }
    }

    /// The live record that `data` stores.
    pub open spec fn parse_live(data: Seq<u8>) -> Result<Escrow, EscrowError> {
        match Self::parse(data) {
            Ok(record) => if record.is_initialized {
                Ok(record)
            } else {
                Err(EscrowError::UninitializedAccount)
            },
            Err(e) => Err(e),
        }
    }

    /// Whether the record is live.
    pub fn is_initialized(&self) -> (b: bool)
        ensures
            b == self.is_initialized,
    {
        self.is_initialized
    }

    /// Reads the record that a slot stores, live or not.
    pub fn unpack_unchecked(input: &[u8]) -> (r: Result<Escrow, EscrowError>)
        ensures
            r == Self::parse(input@),
    {
        if input.len() != ESCROW_LEN {
            return Err(EscrowError::InvalidAccountData);
        }
        let is_initialized: bool = match input[0] {
            0 => false,
            1 => true,
            _ => {
                return Err(EscrowError::InvalidAccountData);
            },
        };
        Ok(
            Escrow {
                is_initialized,
                initializer_pubkey: Address::read(input, 1),
                temp_token_account_pubkey: Address::read(input, 33),
                initializer_token_to_receive_account_pubkey: Address::read(input, 65),
                expected_amount: read_u64(input, 97),
            },
        )
    }

    /// Reads the live record that a slot stores.
    pub fn unpack(input: &[u8]) -> (r: Result<Escrow, EscrowError>)
        ensures
            r == Self::parse_live(input@),
    {
        let record: Escrow = Self::unpack_unchecked(input)?;
        if record.is_initialized {
            Ok(record)
        } else {
            Err(EscrowError::UninitializedAccount)
        }
    }

    /// Stores the record in `dst`, which has to be a slot of 105 bytes.
    pub fn pack(src: Escrow, dst: &mut Vec<u8>) -> (r: Result<(), EscrowError>)
        ensures
            old(dst)@.len() == ESCROW_LEN ==> r == Ok::<(), EscrowError>(()) && final(dst)@
                == src.packed(),
            old(dst)@.len() != ESCROW_LEN ==> r == Err::<(), EscrowError>(
                EscrowError::InvalidAccountData,
            ) && final(dst)@ == old(dst)@,
    {
        if dst.len() != ESCROW_LEN {
            return Err(EscrowError::InvalidAccountData);
        }
        dst[0] = if src.is_initialized { 1 } else { 0 };
        src.initializer_pubkey.write(dst, 1);
        src.temp_token_account_pubkey.write(dst, 33);
        src.initializer_token_to_receive_account_pubkey.write(dst, 65);
        write_u64(dst, 97, src.expected_amount);
        proof {
            let d = dst@;
            assert(d.subrange(1, 33) == src.initializer_pubkey@) by {
                assert(d.subrange(1, 33) =~= src.initializer_pubkey@);
            }
            assert(d.subrange(33, 65) =~= src.temp_token_account_pubkey@);
            assert(d.subrange(65, 97) =~= src.initializer_token_to_receive_account_pubkey@);
            packed_parts(src);
            assert(d =~= src.packed());
        }
        Ok(())
    }
}

/// Where the fields of a record stand in its stored form.
pub proof fn packed_parts(record: Escrow)
    ensures
        record.packed().len() == 105,
        record.packed()[0] == (if record.is_initialized { 1u8 } else { 0u8 }),
        record.packed().subrange(1, 33) == record.initializer_pubkey@,
        record.packed().subrange(33, 65) == record.temp_token_account_pubkey@,
        record.packed().subrange(65, 97) == record.initializer_token_to_receive_account_pubkey@,
        record.packed().subrange(97, 105) == le_bytes(record.expected_amount),
{
    let p = record.packed();
    assert(p.subrange(1, 33) =~= record.initializer_pubkey@);
    assert(p.subrange(33, 65) =~= record.temp_token_account_pubkey@);
    assert(p.subrange(65, 97) =~= record.initializer_token_to_receive_account_pubkey@);
    assert(p.subrange(97, 105) =~= le_bytes(record.expected_amount));
}

/// A stored record reads back as the record that was stored.
pub proof fn parse_of_packed(record: Escrow)
    ensures
        Escrow::parse(record.packed()) == Ok::<Escrow, EscrowError>(record),
{
    packed_parts(record);
    from_seq_of_view(record.initializer_pubkey);
    from_seq_of_view(record.temp_token_account_pubkey);
    from_seq_of_view(record.initializer_token_to_receive_account_pubkey);
    le_value_of_le_bytes(record.expected_amount);
}

/// Bytes that store a record are the stored form of the record they store.
pub proof fn packed_of_parse(data: Seq<u8>)
    requires
        Escrow::parse(data) is Ok,
    ensures
        Escrow::parse(data)->Ok_0.packed() == data,
{
    let record = Escrow::parse(data)->Ok_0;
    from_seq_view(data.subrange(1, 33));
    from_seq_view(data.subrange(33, 65));
    from_seq_view(data.subrange(65, 97));
    le_value_fits(data.subrange(97, 105));
    le_bytes_of_le_value(data.subrange(97, 105));
    assert(record.packed() =~= data);
}

} // verus!
