//! The instruction codec: one opcode byte, then a little-endian amount.

use vstd::prelude::*;
use crate::error::EscrowError;
use crate::wire::{le_value, read_u64};

verus! {

/// Number of bytes that an instruction needs: the opcode and the amount.
pub const INSTRUCTION_LEN: usize = 9;

/// What a caller asks of the program.
#[derive(Clone, Copy, Debug, PartialEq, Eq)]
pub enum EscrowInstruction {
    /// Lock the deposit and offer it for `amount` units in return.
    InitEscrow { amount: u64 },
    /// Take the offer, having seen `amount` units in the deposit.
    Exchange { amount: u64 },
}

impl EscrowInstruction {
    /// The instruction that `input` spells, if it spells one: opcode 0 or 1
    /// in the first byte, the amount in the eight bytes after it. Bytes
    /// beyond the ninth are not read.
    pub open spec fn decode(input: Seq<u8>) -> Option<EscrowInstruction> {
        if input.len() < INSTRUCTION_LEN {
            None
        } else if input[0] == 0 {
            Some(
                EscrowInstruction::InitEscrow {
                    amount: le_value(input.subrange(1, INSTRUCTION_LEN as int)) as u64,
                },
            )
        } else if input[0] == 1 {
            Some(
                EscrowInstruction::Exchange {
                    amount: le_value(input.subrange(1, INSTRUCTION_LEN as int)) as u64,
                },
            )
        } else {
            None
        }
    }

    /// Decodes an instruction from its bytes.
    pub fn unpack(input: &[u8]) -> (r: Result<EscrowInstruction, EscrowError>)
        ensures
            match Self::decode(input@) {
                Some(instruction) => r == Ok::<EscrowInstruction, EscrowError>(instruction),
                None => r == Err::<EscrowInstruction, EscrowError>(EscrowError::InvalidInstruction),
            },
    {
        if input.len() == 0 {
            return Err(EscrowError::InvalidInstruction);
        }
        let tag: u8 = input[0];
        if tag > 1 || input.len() < INSTRUCTION_LEN {
            return Err(EscrowError::InvalidInstruction);
        }
        let amount: u64 = read_u64(input, 1);
        if tag == 0 {
            Ok(EscrowInstruction::InitEscrow { amount })
        } else {
            Ok(EscrowInstruction::Exchange { amount })
        }
    }
}

} // verus!
