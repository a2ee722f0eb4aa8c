//! The two transitions of an escrow, and the payload that selects one.

pub mod exchange;
pub mod initialize;

use crate::error::EscrowError;
use vstd::bytes::{
    lemma_auto_spec_u64_to_from_le_bytes,
    spec_u64_from_le_bytes,
    spec_u64_to_le_bytes,
    u64_from_le_bytes,
    u64_to_le_bytes,
};
use vstd::prelude::*;
use vstd::slice::slice_subrange;

verus! {

/// What a caller asks of the program.
#[derive(Clone, Copy, Debug, PartialEq, Eq, Structural)]
pub enum EscrowInstruction {
    /// The maker locks `sell_amount` and asks for `buy_amount`.
    InitEscrow { sell_amount: u64, buy_amount: u64 },
    /// The taker pays `sell_amount` and expects `buy_amount`.
    Exchange { sell_amount: u64, buy_amount: u64 },
}

/// The number of bytes of a payload: a tag and two amounts.
pub const INSTRUCTION_LEN: usize = 17;

impl EscrowInstruction {
    /// The payload: the tag, 0 or 1, then the two amounts in little-endian.
    pub open spec fn layout(self) -> Seq<u8> {
        match self {
            EscrowInstruction::InitEscrow { sell_amount, buy_amount } => seq![0u8]
                + spec_u64_to_le_bytes(sell_amount) + spec_u64_to_le_bytes(buy_amount),
            EscrowInstruction::Exchange { sell_amount, buy_amount } => seq![1u8]
                + spec_u64_to_le_bytes(sell_amount) + spec_u64_to_le_bytes(buy_amount),
        }
    }

    /// The instruction that a payload selects, where it selects one: it must have
    /// the exact length, and a tag of 0 or 1.
    pub open spec fn parse(data: Seq<u8>) -> Option<EscrowInstruction> {
        if data.len() != INSTRUCTION_LEN {
            None
        } else if data[0] == 0 {
            Some(
                EscrowInstruction::InitEscrow {
                    sell_amount: spec_u64_from_le_bytes(data.subrange(1, 9)),
                    buy_amount: spec_u64_from_le_bytes(data.subrange(9, 17)),
                },
            )
        } else if data[0] == 1 {
            Some(
                EscrowInstruction::Exchange {
                    sell_amount: spec_u64_from_le_bytes(data.subrange(1, 9)),
                    buy_amount: spec_u64_from_le_bytes(data.subrange(9, 17)),
                },
            )
        } else {
            None
        }
    }

    /// An instruction that is encoded and decoded is the same instruction.
    pub proof fn lemma_round_trip(self)
        ensures
            EscrowInstruction::parse(self.layout()) == Some(self),
    {
        lemma_auto_spec_u64_to_from_le_bytes();
        let data = self.layout();
        match self {
            EscrowInstruction::InitEscrow { sell_amount, buy_amount } => {
                assert(data.subrange(1, 9) =~= spec_u64_to_le_bytes(sell_amount));
                assert(data.subrange(9, 17) =~= spec_u64_to_le_bytes(buy_amount));
            },
            EscrowInstruction::Exchange { sell_amount, buy_amount } => {
                assert(data.subrange(1, 9) =~= spec_u64_to_le_bytes(sell_amount));
                assert(data.subrange(9, 17) =~= spec_u64_to_le_bytes(buy_amount));
            },
        }
    }

    /// The payload of the instruction.
    pub fn to_bytes(&self) -> (data: Vec<u8>)
        ensures
            data@ == self.layout(),
    {
        let mut data: Vec<u8> = Vec::new();
        let (tag, sell_amount, buy_amount) = match *self {
            EscrowInstruction::InitEscrow { sell_amount, buy_amount } => (
                0u8,
                sell_amount,
                buy_amount,
            ),
            EscrowInstruction::Exchange { sell_amount, buy_amount } => (1u8, sell_amount, buy_amount),
        };
        data.push(tag);
        let mut sell = u64_to_le_bytes(sell_amount);
        data.append(&mut sell);
        let mut buy = u64_to_le_bytes(buy_amount);
        data.append(&mut buy);
        assert(data@ =~= self.layout());
        data
    }

    /// Decodes a payload. One of another length, or with an unknown tag, is
    /// refused.
    pub fn try_from_slice(data: &[u8]) -> (r: Result<EscrowInstruction, EscrowError>)
        ensures
            match EscrowInstruction::parse(data@) {
                Some(instruction) => r == Ok::<EscrowInstruction, EscrowError>(instruction),
                None => r == Err::<EscrowInstruction, EscrowError>(EscrowError::DecodeFailed),
            },
    {
        if data.len() != INSTRUCTION_LEN {
            return Err(EscrowError::DecodeFailed);
        }
        let tag = data[0];
        let sell_amount = u64_from_le_bytes(slice_subrange(data, 1, 9));
        let buy_amount = u64_from_le_bytes(slice_subrange(data, 9, 17));
        if tag == 0 {
            Ok(EscrowInstruction::InitEscrow { sell_amount, buy_amount })
        } else if tag == 1 {
            Ok(EscrowInstruction::Exchange { sell_amount, buy_amount })
        } else {
            Err(EscrowError::DecodeFailed)
        }
    }
}

} // verus!
