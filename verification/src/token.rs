//! The token service: what the library reads of its accounts, and the
//! instructions it is asked to carry out.

use crate::error::EscrowError;
use crate::identity::Identity;
use crate::ledger::{AccountMeta, Instruction, InstructionView};
use solana_program::program_error::ProgramError;
use solana_program::program_pack::Pack;
use solana_program::pubkey::Pubkey;
use vstd::bytes::{spec_u64_from_le_bytes, spec_u64_to_le_bytes};
use vstd::prelude::*;

verus! {

/// The address of the token program.
pub open spec fn token_program_id() -> Seq<u8> {
    seq![
        6u8, 221u8, 246u8, 225u8, 215u8, 101u8, 161u8, 147u8,
        217u8, 203u8, 225u8, 70u8, 206u8, 235u8, 121u8, 172u8,
        28u8, 180u8, 133u8, 237u8, 95u8, 91u8, 55u8, 145u8,
        58u8, 140u8, 245u8, 133u8, 126u8, 255u8, 0u8, 169u8,
    ]
}

/// The token program.
pub fn token_program() -> (id: Identity)
    ensures
        id@ == token_program_id(),
{
    let id = Identity {
        bytes: [
            6u8, 221u8, 246u8, 225u8, 215u8, 101u8, 161u8, 147u8,
            217u8, 203u8, 225u8, 70u8, 206u8, 235u8, 121u8, 172u8,
            28u8, 180u8, 133u8, 237u8, 95u8, 91u8, 55u8, 145u8,
            58u8, 140u8, 245u8, 133u8, 126u8, 255u8, 0u8, 169u8,
        ],
    };
    assert(id@ =~= token_program_id());
    id
}

/// The four bytes at `at` are the tag of an optional field: 0 or 1, little-endian.
pub open spec fn option_tag_at(data: Seq<u8>, at: int) -> bool {
    &&& data[at] <= 1
    &&& data[at + 1] == 0
    &&& data[at + 2] == 0
    &&& data[at + 3] == 0
}

/// The data of a mint is well formed: 82 bytes, with the tags of the two
/// optional authorities at 0 and 46 and the initialization flag at 45.
pub open spec fn mint_well_formed(data: Seq<u8>) -> bool {
    &&& data.len() == 82
    &&& option_tag_at(data, 0)
    &&& data[45] <= 1
    &&& option_tag_at(data, 46)
}

/// The number of decimals that the data of a mint records, at offset 44.
pub open spec fn mint_decimals(data: Seq<u8>) -> Result<u8, EscrowError> {
    if !mint_well_formed(data) {
        Err(EscrowError::InvalidAccountData)
    } else if data[45] == 0 {
        Err(EscrowError::UninitializedAccount)
    } else {
        Ok(data[44])
    }
}

/// `Mint::unpack`, of which the number of decimals is kept. Data that is not 82
/// bytes long, or holds another tag or flag than 0 and 1, is invalid; a mint
/// whose flag is 0 is uninitialized.
#[verifier::external_body]
pub(crate) fn unpack_mint_decimals(data: &[u8]) -> (r: Result<u8, EscrowError>)
    ensures
        r == mint_decimals(data@),
{
    match spl_token::state::Mint::unpack(data) {
        Ok(mint) => Ok(mint.decimals),
        Err(ProgramError::UninitializedAccount) => Err(EscrowError::UninitializedAccount),
        Err(_) => Err(EscrowError::InvalidAccountData),
    }
}

/// What the library reads of a token account: who owns it and how much it holds.
#[derive(Clone, Copy, Debug, PartialEq, Eq)]
pub struct TokenAccount {
    pub owner: Identity,
    pub amount: u64,
}

/// The data of a token account is well formed: 165 bytes, with the tags of its
/// optional fields at 72, 109 and 129 and a state of 0, 1 or 2 at 108.
pub open spec fn token_account_well_formed(data: Seq<u8>) -> bool {
    &&& data.len() == 165
    &&& option_tag_at(data, 72)
    &&& data[108] <= 2
    &&& option_tag_at(data, 109)
    &&& option_tag_at(data, 129)
}

/// The owner, at offset 32, and the amount, at offset 64, that the data of a
/// token account records.
pub open spec fn token_account(data: Seq<u8>) -> Result<TokenAccount, EscrowError> {
    if !token_account_well_formed(data) {
        Err(EscrowError::InvalidAccountData)
    } else if data[108] == 0 {
        Err(EscrowError::UninitializedAccount)
    } else {
        Ok(
            TokenAccount {
                owner: Identity::of(data.subrange(32, 64)),
                amount: spec_u64_from_le_bytes(data.subrange(64, 72)),
            },
        )
    }
}

/// `Account::unpack` of the token program, of which owner and amount are kept.
/// Data that is not 165 bytes long, or holds a tag or state out of range, is
/// invalid; an account in state 0 is uninitialized.
#[verifier::external_body]
pub(crate) fn unpack_token_account(data: &[u8]) -> (r: Result<TokenAccount, EscrowError>)
    ensures
        r == token_account(data@),
{
    match spl_token::state::Account::unpack(data) {
        Ok(account) => Ok(TokenAccount { owner: Identity { bytes: account.owner.to_bytes() }, amount: account.amount }),
        Err(ProgramError::UninitializedAccount) => Err(EscrowError::UninitializedAccount),
        Err(_) => Err(EscrowError::InvalidAccountData),
    }
}

/// The instruction that moves `amount` of the asset `mint` from `source` to
/// `destination` on the word of `authority`, who is also named as its signer.
pub open spec fn transfer_checked_instruction(
    token_program: Identity,
    source: Identity,
    mint: Identity,
    destination: Identity,
    authority: Identity,
    amount: u64,
    decimals: u8,
) -> InstructionView {
    InstructionView {
        program_id: token_program,
        accounts: seq![
            AccountMeta { key: source, is_signer: false, is_writable: true },
            AccountMeta { key: mint, is_signer: false, is_writable: false },
            AccountMeta { key: destination, is_signer: false, is_writable: true },
            AccountMeta { key: authority, is_signer: false, is_writable: false },
            AccountMeta { key: authority, is_signer: true, is_writable: false },
        ],
        data: seq![12u8] + spec_u64_to_le_bytes(amount) + seq![decimals],
    }
}

/// `spl_token::instruction::transfer_checked`, called with the authority as its
/// one signer. It refuses any program but the token program; else it lists
/// source, mint, destination, the authority and the signer, and encodes the
/// tag 12, the amount and the decimals.
#[verifier::external_body]
pub(crate) fn transfer_checked(
    token_program: &Identity,
    source: &Identity,
    mint: &Identity,
    destination: &Identity,
    authority: &Identity,
    amount: u64,
    decimals: u8,
) -> (r: Result<Instruction, EscrowError>)
    ensures
        match r {
            Ok(instruction) => token_program@ == token_program_id() && instruction@
                == transfer_checked_instruction(
                *token_program,
                *source,
                *mint,
                *destination,
                *authority,
                amount,
                decimals,
            ),
            Err(e) => token_program@ != token_program_id() && e == EscrowError::IncorrectProgramId,
        },
{
    let signer = Pubkey::new_from_array(authority.bytes);
    let keys = [token_program, source, mint, destination].map(|k| Pubkey::new_from_array(k.bytes));
    match spl_token::instruction::transfer_checked(&keys[0], &keys[1], &keys[2], &keys[3], &signer, &[&signer], amount, decimals) {
        Ok(built) => Ok(Instruction {
            program_id: Identity { bytes: built.program_id.to_bytes() },
            accounts: built.accounts.iter().map(|m| AccountMeta { key: Identity { bytes: m.pubkey.to_bytes() }, is_signer: m.is_signer, is_writable: m.is_writable }).collect(),
            data: built.data,
        }),
        Err(_) => Err(EscrowError::IncorrectProgramId),
    }
}

/// The instruction that closes the token account `account` on the word of
/// `owner`, who is also named as its signer, and sends what balance it has to
/// `destination`.
pub open spec fn close_account_instruction(
    token_program: Identity,
    account: Identity,
    destination: Identity,
    owner: Identity,
) -> InstructionView {
    InstructionView {
        program_id: token_program,
        accounts: seq![
            AccountMeta { key: account, is_signer: false, is_writable: true },
            AccountMeta { key: destination, is_signer: false, is_writable: true },
            AccountMeta { key: owner, is_signer: false, is_writable: false },
            AccountMeta { key: owner, is_signer: true, is_writable: false },
        ],
        data: seq![9u8],
    }
}

/// `spl_token::instruction::close_account`, called with the owner as its one
/// signer. It refuses any program but the token program; else it lists the
/// account, the destination, the owner and the signer, and encodes the tag 9.
#[verifier::external_body]
pub(crate) fn close_account(
    token_program: &Identity,
    account: &Identity,
    destination: &Identity,
    owner: &Identity,
) -> (r: Result<Instruction, EscrowError>)
    ensures
        match r {
            Ok(instruction) => token_program@ == token_program_id() && instruction@
                == close_account_instruction(*token_program, *account, *destination, *owner),
            Err(e) => token_program@ != token_program_id() && e == EscrowError::IncorrectProgramId,
        },
{
    let signer = Pubkey::new_from_array(owner.bytes);
    let keys = [token_program, account, destination].map(|k| Pubkey::new_from_array(k.bytes));
    match spl_token::instruction::close_account(&keys[0], &keys[1], &keys[2], &signer, &[&signer]) {
        Ok(built) => Ok(Instruction {
            program_id: Identity { bytes: built.program_id.to_bytes() },
            accounts: built.accounts.iter().map(|m| AccountMeta { key: Identity { bytes: m.pubkey.to_bytes() }, is_signer: m.is_signer, is_writable: m.is_writable }).collect(),
            data: built.data,
        }),
        Err(_) => Err(EscrowError::IncorrectProgramId),
    }
}

} // verus!
