//! The record of one open offer, and its stored form.

use crate::error::EscrowError;
use crate::identity::Identity;
use vstd::bytes::{
    lemma_auto_spec_u64_to_from_le_bytes,
    spec_u64_from_le_bytes,
    spec_u64_to_le_bytes,
    u64_from_le_bytes,
    u64_to_le_bytes,
};
use vstd::prelude::*;
use vstd::slice::slice_subrange;

verus! {

/// One open offer: the maker's terms, fixed when the escrow is created.
#[derive(Clone, Copy, Debug, PartialEq, Eq)]
pub struct Escrow {
    /// Set once the slot holds a record.
    pub is_initialized: bool,
    /// The maker.
    pub authority: Identity,
    /// The asset that the maker sells and the escrow holds.
    pub sell_mint: Identity,
    /// The asset that the maker is paid in.
    pub buy_mint: Identity,
    /// How much the maker locked.
    pub sell_amount: u64,
    /// How much the maker asks for.
    pub buy_amount: u64,
    /// The account that the payment must go to.
    pub receive_account: Identity,
    /// The bump of the escrow address.
    pub bump: u8,
}

/// The number of bytes of a stored record.
pub const ESCROW_LEN: usize = 146;

impl Escrow {
    pub fn new(
        is_initialized: bool,
        authority: Identity,
        sell_mint: Identity,
        buy_mint: Identity,
        sell_amount: u64,
        buy_amount: u64,
        receive_account: Identity,
        bump: u8,
    ) -> (escrow: Escrow)
        ensures
            escrow == (Escrow {
                is_initialized,
                authority,
                sell_mint,
                buy_mint,
                sell_amount,
                buy_amount,
                receive_account,
                bump,
            }),
    {
        Escrow {
            is_initialized,
            authority,
            sell_mint,
            buy_mint,
            sell_amount,
            buy_amount,
            receive_account,
            bump,
        }
    }

    /// The size of a stored record: a flag, three identities, two amounts, an
    /// identity and the bump.
    pub fn len() -> (n: usize)
        ensures
            n == ESCROW_LEN,
            n == 1 + 32 + 32 + 32 + 8 + 8 + 32 + 1,
    {
        ESCROW_LEN
    }

    /// The stored form: the fields in their order, the flag as 0 or 1, the
    /// amounts in little-endian.
    pub open spec fn layout(self) -> Seq<u8> {
        seq![if self.is_initialized { 1u8 } else { 0u8 }] + self.authority@ + self.sell_mint@
            + self.buy_mint@ + spec_u64_to_le_bytes(self.sell_amount) + spec_u64_to_le_bytes(
            self.buy_amount,
        ) + self.receive_account@ + seq![self.bump]
    }

    /// The record that `data` stores, where it stores one: it must have the
    /// exact length, and a flag of 0 or 1.
    pub open spec fn parse(data: Seq<u8>) -> Option<Escrow> {
        if data.len() == ESCROW_LEN && data[0] <= 1 {
            Some(
                Escrow {
                    is_initialized: data[0] == 1,
                    authority: Identity::of(data.subrange(1, 33)),
                    sell_mint: Identity::of(data.subrange(33, 65)),
                    buy_mint: Identity::of(data.subrange(65, 97)),
                    sell_amount: spec_u64_from_le_bytes(data.subrange(97, 105)),
                    buy_amount: spec_u64_from_le_bytes(data.subrange(105, 113)),
                    receive_account: Identity::of(data.subrange(113, 145)),
                    bump: data[145],
                },
            )
        } else {
            None
        }
    }

    /// Every stored record has the same length.
    pub proof fn lemma_layout_len(self)
        ensures
            self.layout().len() == ESCROW_LEN,
    {
        lemma_auto_spec_u64_to_from_le_bytes();
    }

    /// A record that is stored and read back is the same record, field by field.
    pub proof fn lemma_round_trip(self)
        ensures
            Escrow::parse(self.layout()) == Some(self),
    {
        lemma_auto_spec_u64_to_from_le_bytes();
        let data = self.layout();
        assert(data.len() == ESCROW_LEN);
        assert(data.subrange(1, 33) =~= self.authority@);
        assert(data.subrange(33, 65) =~= self.sell_mint@);
        assert(data.subrange(65, 97) =~= self.buy_mint@);
        assert(data.subrange(97, 105) =~= spec_u64_to_le_bytes(self.sell_amount));
        assert(data.subrange(105, 113) =~= spec_u64_to_le_bytes(self.buy_amount));
        assert(data.subrange(113, 145) =~= self.receive_account@);
        self.authority.lemma_of_view();
        self.sell_mint.lemma_of_view();
        self.buy_mint.lemma_of_view();
        self.receive_account.lemma_of_view();
    }

    /// Data that stores a record is, byte for byte, the stored form of that record.
    pub proof fn lemma_parse_exact(data: Seq<u8>)
        requires
            Escrow::parse(data) is Some,
        ensures
            Escrow::parse(data)->Some_0.layout() == data,
    {
        lemma_auto_spec_u64_to_from_le_bytes();
        let escrow = Escrow::parse(data)->Some_0;
        Identity::lemma_of(data.subrange(1, 33));
        Identity::lemma_of(data.subrange(33, 65));
        Identity::lemma_of(data.subrange(65, 97));
        Identity::lemma_of(data.subrange(113, 145));
        assert(spec_u64_to_le_bytes(escrow.sell_amount) == data.subrange(97, 105));
        assert(spec_u64_to_le_bytes(escrow.buy_amount) == data.subrange(105, 113));
        assert(escrow.layout() =~= data);
    }

    /// The stored form of the record.
    pub fn to_bytes(&self) -> (data: Vec<u8>)
        ensures
            data@ == self.layout(),
    {
        let mut data: Vec<u8> = Vec::new();
        data.push(if self.is_initialized { 1u8 } else { 0u8 });
        self.authority.append_to(&mut data);
        self.sell_mint.append_to(&mut data);
        self.buy_mint.append_to(&mut data);
        let mut sell = u64_to_le_bytes(self.sell_amount);
        data.append(&mut sell);
        let mut buy = u64_to_le_bytes(self.buy_amount);
        data.append(&mut buy);
        self.receive_account.append_to(&mut data);
        data.push(self.bump);
        assert(data@ =~= self.layout());
        data
    }

    /// Reads a record from its stored form. Data of another length, or with a
    /// flag that is neither 0 nor 1, is refused.
    pub fn try_from_slice(data: &[u8]) -> (r: Result<Escrow, EscrowError>)
        ensures
            match Escrow::parse(data@) {
                Some(escrow) => r == Ok::<Escrow, EscrowError>(escrow),
                None => r == Err::<Escrow, EscrowError>(EscrowError::DecodeFailed),
            },
    {
        if data.len() != ESCROW_LEN {
            return Err(EscrowError::DecodeFailed);
        }
        let flag = data[0];
        if flag > 1 {
            return Err(EscrowError::DecodeFailed);
        }
        let authority = Identity::from_slice(data, 1);
        let sell_mint = Identity::from_slice(data, 33);
        let buy_mint = Identity::from_slice(data, 65);
        let sell_amount = u64_from_le_bytes(slice_subrange(data, 97, 105));
        let buy_amount = u64_from_le_bytes(slice_subrange(data, 105, 113));
        let receive_account = Identity::from_slice(data, 113);
        let bump = data[145];
        Ok(
            Escrow {
                is_initialized: flag == 1,
                authority,
                sell_mint,
                buy_mint,
                sell_amount,
                buy_amount,
                receive_account,
                bump,
            },
        )
    }
}

} // verus!
