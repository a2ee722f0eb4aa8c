//! The ledger's own services: creating an account, and creating the token
//! account that belongs to an owner and an asset.

use crate::authority::{address_of, find_address, seed_bytes};
use crate::identity::Identity;
use crate::ledger::{AccountMeta, Instruction, InstructionView};
use solana_program::pubkey::Pubkey;
use vstd::bytes::spec_u64_to_le_bytes;
use vstd::prelude::*;

verus! {

/// The address of the system program: 32 zero bytes.
pub open spec fn system_program_id() -> Seq<u8> {
    Seq::new(32, |i: int| 0u8)
}

/// The address of the associated-account program.
pub open spec fn associated_program_id() -> Seq<u8> {
    seq![
        140u8, 151u8, 37u8, 143u8, 78u8, 36u8, 137u8, 241u8,
        187u8, 61u8, 16u8, 41u8, 20u8, 142u8, 13u8, 131u8,
        11u8, 90u8, 19u8, 153u8, 218u8, 255u8, 16u8, 132u8,
        4u8, 142u8, 123u8, 216u8, 219u8, 233u8, 248u8, 89u8,
    ]
}

/// The instruction that creates the account `to`, paid for by `from`, with the
/// given balance and size, owned by the program `owner`.
pub open spec fn create_account_instruction(
    from: Identity,
    to: Identity,
    lamports: u64,
    space: u64,
    owner: Identity,
) -> InstructionView {
    InstructionView {
        program_id: Identity::of(system_program_id()),
        accounts: seq![
            AccountMeta { key: from, is_signer: true, is_writable: true },
            AccountMeta { key: to, is_signer: true, is_writable: true },
        ],
        data: seq![0u8, 0u8, 0u8, 0u8] + spec_u64_to_le_bytes(lamports) + spec_u64_to_le_bytes(
            space,
        ) + owner@,
    }
}

/// `system_instruction::create_account`: an instruction to the system program
/// that lists payer and new account, both signing, and encodes the tag 0 in
/// four bytes, the balance, the size and the owner.
#[verifier::external_body]
pub(crate) fn create_account(
    from: &Identity,
    to: &Identity,
    lamports: u64,
    space: u64,
    owner: &Identity,
) -> (instruction: Instruction)
    ensures
        instruction@ == create_account_instruction(*from, *to, lamports, space, *owner),
{
    let keys = [from, to, owner].map(|k| Pubkey::new_from_array(k.bytes));
    let built = solana_program::system_instruction::create_account(&keys[0], &keys[1], lamports, space, &keys[2]);
    Instruction {
        program_id: Identity { bytes: built.program_id.to_bytes() },
        accounts: built.accounts.iter().map(|m| AccountMeta { key: Identity { bytes: m.pubkey.to_bytes() }, is_signer: m.is_signer, is_writable: m.is_writable }).collect(),
        data: built.data,
    }
}

/// The seeds of the token account that belongs to `wallet` for the asset `mint`.
pub open spec fn associated_seeds(wallet: Identity, mint: Identity, token_program: Identity) -> Seq<
    Seq<u8>,
> {
    seq![wallet@, token_program@, mint@]
}

/// The address of the token account that belongs to `wallet` for the asset
/// `mint`, where one can be derived.
pub open spec fn associated_address(wallet: Identity, mint: Identity, token_program: Identity) -> Option<
    (Identity, u8),
> {
    address_of(
        associated_seeds(wallet, mint, token_program),
        Identity::of(associated_program_id()),
    )
}

/// The associated-account program.
pub fn associated_program() -> (id: Identity)
    ensures
        id == Identity::of(associated_program_id()),
{
    let id = Identity {
        bytes: [
            140u8, 151u8, 37u8, 143u8, 78u8, 36u8, 137u8, 241u8,
            187u8, 61u8, 16u8, 41u8, 20u8, 142u8, 13u8, 131u8,
            11u8, 90u8, 19u8, 153u8, 218u8, 255u8, 16u8, 132u8,
            4u8, 142u8, 123u8, 216u8, 219u8, 233u8, 248u8, 89u8,
        ],
    };
    proof {
        assert(id@ =~= associated_program_id());
        id.lemma_of_view();
    }
    id
}

/// Derives the address of the token account that belongs to `wallet` for the
/// asset `mint`.
pub fn find_associated_address(wallet: &Identity, mint: &Identity, token_program: &Identity) -> (r:
    Option<(Identity, u8)>)
    ensures
        r == associated_address(*wallet, *mint, *token_program),
{
    let mut seeds: Vec<Vec<u8>> = Vec::new();
    seeds.push(wallet.to_vec());
    seeds.push(token_program.to_vec());
    seeds.push(mint.to_vec());
    assert(seed_bytes(seeds@) =~= associated_seeds(*wallet, *mint, *token_program));
    find_address(&seeds, &associated_program())
}

/// The instruction that creates the token account of `wallet` for the asset
/// `mint`, paid for by `funding`.
pub open spec fn create_associated_account_instruction(
    funding: Identity,
    wallet: Identity,
    mint: Identity,
    token_program: Identity,
) -> InstructionView {
    InstructionView {
        program_id: Identity::of(associated_program_id()),
        accounts: seq![
            AccountMeta { key: funding, is_signer: true, is_writable: true },
            AccountMeta {
                key: associated_address(wallet, mint, token_program)->Some_0.0,
                is_signer: false,
                is_writable: true,
            },
            AccountMeta { key: wallet, is_signer: false, is_writable: false },
            AccountMeta { key: mint, is_signer: false, is_writable: false },
            AccountMeta {
                key: Identity::of(system_program_id()),
                is_signer: false,
                is_writable: false,
            },
            AccountMeta { key: token_program, is_signer: false, is_writable: false },
        ],
        data: seq![0u8],
    }
}

/// `create_associated_token_account`: an instruction to the associated-account
/// program that lists the payer, the derived token account, its owner, the
/// asset, the system program and the token program, and encodes the tag 0. The
/// outside function derives the address itself and stops where there is none.
#[verifier::external_body]
pub(crate) fn create_associated_token_account(
    funding: &Identity,
    wallet: &Identity,
    mint: &Identity,
    token_program: &Identity,
) -> (instruction: Instruction)
    requires
        associated_address(*wallet, *mint, *token_program) is Some,
    ensures
        instruction@ == create_associated_account_instruction(
            *funding,
            *wallet,
            *mint,
            *token_program,
        ),
{
    let keys = [funding, wallet, mint, token_program].map(|k| Pubkey::new_from_array(k.bytes));
    let built = spl_associated_token_account::instruction::create_associated_token_account(&keys[0], &keys[1], &keys[2], &keys[3]);
    Instruction {
        program_id: Identity { bytes: built.program_id.to_bytes() },
        accounts: built.accounts.iter().map(|m| AccountMeta { key: Identity { bytes: m.pubkey.to_bytes() }, is_signer: m.is_signer, is_writable: m.is_writable }).collect(),
        data: built.data,
    }
}

} // verus!
