//! Initialize: the maker opens an escrow.
//!
//! The transition has four legs, each asked of the ledger in turn: create the
//! escrow storage account at its derived address, store the record in it,
//! create the custody account that the escrow owns, and move the maker's asset
//! into custody.

use crate::authority::{check_escrow_address, checked_bump, escrow_address, EscrowSeeds};
use crate::error::{ErrorKind, EscrowError};
use crate::identity::Identity;
use crate::ledger::{decided, Account, Action, ActionView, Step};
use crate::state::{Escrow, ESCROW_LEN};
use crate::system::{
    associated_address,
    create_account,
    create_account_instruction,
    create_associated_account_instruction,
    create_associated_token_account,
    find_associated_address,
};
use crate::token::{
    mint_decimals,
    token_program_id,
    transfer_checked,
    transfer_checked_instruction,
    unpack_mint_decimals,
};
use vstd::prelude::*;

verus! {

/// The place of the asset on offer in the account list.
pub const SELL_MINT: usize = 0;

/// The place of the asset asked for.
pub const BUY_MINT: usize = 1;

/// The place of the maker, who signs.
pub const MAKER: usize = 2;

/// The place of the maker's account of the asset on offer.
pub const MAKER_SOURCE: usize = 3;

/// The place of the account that the maker is to be paid into.
pub const MAKER_RECEIVE: usize = 4;

/// The place of the escrow storage account.
pub const ESCROW: usize = 5;

/// The place of the escrow custody account.
pub const CUSTODY: usize = 6;

/// The place of the rent oracle.
pub const RENT: usize = 7;

/// The place of the system program.
pub const SYSTEM_PROGRAM: usize = 8;

/// The place of the token program.
pub const TOKEN_PROGRAM: usize = 9;

/// The place of the associated-account program.
pub const ASSOCIATED_PROGRAM: usize = 10;

/// The addresses that Initialize is called with, by their roles.
#[derive(Clone, Copy, Debug, PartialEq, Eq)]
pub struct InitEscrowAccount {
    pub sell_mint: Identity,
    pub buy_mint: Identity,
    pub authority: Identity,
    pub authority_sell_mint_ata: Identity,
    pub authority_buy_mint_ata: Identity,
    pub escrow_account: Identity,
    pub escrow_token_account: Identity,
    pub rent: Identity,
    pub system_program: Identity,
    pub token_program: Identity,
    pub associated_program: Identity,
}

impl InitEscrowAccount {
    pub fn new(
        sell_mint: Identity,
        buy_mint: Identity,
        authority: Identity,
        authority_sell_mint_ata: Identity,
        authority_buy_mint_ata: Identity,
        escrow_account: Identity,
        escrow_token_account: Identity,
        rent: Identity,
        system_program: Identity,
        token_program: Identity,
        associated_program: Identity,
    ) -> (keys: InitEscrowAccount)
        ensures
            keys == (InitEscrowAccount {
                sell_mint,
                buy_mint,
                authority,
                authority_sell_mint_ata,
                authority_buy_mint_ata,
                escrow_account,
                escrow_token_account,
                rent,
                system_program,
                token_program,
                associated_program,
            }),
    {
        InitEscrowAccount {
            sell_mint,
            buy_mint,
            authority,
            authority_sell_mint_ata,
            authority_buy_mint_ata,
            escrow_account,
            escrow_token_account,
            rent,
            system_program,
            token_program,
            associated_program,
        }
    }

    /// The addresses of a full account list, each under its role.
    pub open spec fn of(accounts: Seq<Account>) -> InitEscrowAccount {
        InitEscrowAccount {
            sell_mint: accounts[SELL_MINT as int].key,
            buy_mint: accounts[BUY_MINT as int].key,
            authority: accounts[MAKER as int].key,
            authority_sell_mint_ata: accounts[MAKER_SOURCE as int].key,
            authority_buy_mint_ata: accounts[MAKER_RECEIVE as int].key,
            escrow_account: accounts[ESCROW as int].key,
            escrow_token_account: accounts[CUSTODY as int].key,
            rent: accounts[RENT as int].key,
            system_program: accounts[SYSTEM_PROGRAM as int].key,
            token_program: accounts[TOKEN_PROGRAM as int].key,
            associated_program: accounts[ASSOCIATED_PROGRAM as int].key,
        }
    }

    /// Reads the addresses of an account list by their roles. A list that is
    /// too short for all of them is refused.
    pub fn from_accounts(accounts: &[Account]) -> (r: Result<InitEscrowAccount, EscrowError>)
        ensures
            r == (if accounts.len() > ASSOCIATED_PROGRAM {
                Ok::<InitEscrowAccount, EscrowError>(InitEscrowAccount::of(accounts@))
            } else {
                Err::<InitEscrowAccount, EscrowError>(EscrowError::NotEnoughAccountKeys)
            }),
    {
        if accounts.len() <= ASSOCIATED_PROGRAM {
            return Err(EscrowError::NotEnoughAccountKeys);
        }
        Ok(
            InitEscrowAccount::new(
                accounts[SELL_MINT].key,
                accounts[BUY_MINT].key,
                accounts[MAKER].key,
                accounts[MAKER_SOURCE].key,
                accounts[MAKER_RECEIVE].key,
                accounts[ESCROW].key,
                accounts[CUSTODY].key,
                accounts[RENT].key,
                accounts[SYSTEM_PROGRAM].key,
                accounts[TOKEN_PROGRAM].key,
                accounts[ASSOCIATED_PROGRAM].key,
            ),
        )
    }
}

/// How far an Initialize has come.
#[derive(Clone, Copy, Debug, PartialEq, Eq)]
pub enum InitStage {
    /// Nothing has been asked of the ledger yet. `rent` is the rent oracle's
    /// answer for an account of the size of a record: the least balance that
    /// keeps it, or `None` where the oracle could not be read.
    Start { rent: Option<u64> },
    /// The storage account has been created.
    Created { bump: u8, rent_minimum: u64 },
    /// The record has been stored.
    Recorded,
    /// The custody account has been created.
    CustodyReady { decimals: u8 },
}

/// The record that an Initialize stores.
pub open spec fn opened_record(
    keys: InitEscrowAccount,
    sell_amount: u64,
    buy_amount: u64,
    bump: u8,
) -> Escrow {
    Escrow {
        is_initialized: true,
        authority: keys.authority,
        sell_mint: keys.sell_mint,
        buy_mint: keys.buy_mint,
        sell_amount,
        buy_amount,
        receive_account: keys.authority_buy_mint_ata,
        bump,
    }
}

/// The first leg. In this order: the maker must have signed, the rent oracle
/// must have answered, and the escrow account must stand at the address derived
/// for the maker and the asset. Then the storage account is created there: of
/// the size of a record, funded to the rent-exempt minimum, owned by the
/// program, and signed for by the derived seeds.
pub open spec fn init_start(
    accounts: Seq<Account>,
    program_id: Identity,
    rent_minimum: Option<u64>,
) -> Result<(ActionView, Option<InitStage>), EscrowError> {
    let keys = InitEscrowAccount::of(accounts);
    let bump = checked_bump(
        keys.escrow_account,
        escrow_address(keys.authority, keys.sell_mint, program_id),
    );
    if accounts.len() <= MAKER {
        Err(EscrowError::NotEnoughAccountKeys)
    } else if !accounts[MAKER as int].is_signer {
        Err(EscrowError::MissingRequiredSignature)
    } else if accounts.len() <= RENT {
        Err(EscrowError::NotEnoughAccountKeys)
    } else if rent_minimum is None {
        Err(EscrowError::InvalidArgument)
    } else if accounts.len() <= ASSOCIATED_PROGRAM {
        Err(EscrowError::NotEnoughAccountKeys)
    } else if bump is Err {
        Err(EscrowError::InvalidSeeds)
    } else {
        Ok(
            (
                ActionView::Invoke {
                    instruction: create_account_instruction(
                        keys.authority,
                        keys.escrow_account,
                        rent_minimum->Some_0,
                        ESCROW_LEN as u64,
                        program_id,
                    ),
                    accounts: seq![MAKER, ESCROW, SYSTEM_PROGRAM],
                    signer: Some(
                        EscrowSeeds {
                            maker: keys.authority,
                            sell_mint: keys.sell_mint,
                            bump: bump->Ok_0,
                        },
                    ),
                },
                Some(InitStage::Created { bump: bump->Ok_0, rent_minimum: rent_minimum->Some_0 }),
            ),
        )
    }
}

/// The second leg. The storage account must hold the rent-exempt minimum and
/// a slot that decodes and is not yet taken. Then the record is stored in it,
/// whole.
pub open spec fn init_created(
    accounts: Seq<Account>,
    sell_amount: u64,
    buy_amount: u64,
    bump: u8,
    rent_minimum: u64,
) -> Result<(ActionView, Option<InitStage>), EscrowError> {
    let slot = Escrow::parse(accounts[ESCROW as int].data@);
    if accounts.len() <= ASSOCIATED_PROGRAM {
        Err(EscrowError::NotEnoughAccountKeys)
    } else if accounts[ESCROW as int].lamports < rent_minimum {
        Err(EscrowError::NotRentExempt)
    } else if slot is None {
        Err(EscrowError::DecodeFailed)
    } else if slot->Some_0.is_initialized {
        Err(EscrowError::AccountAlreadyInitialized)
    } else {
        Ok(
            (
                ActionView::Store {
                    account: ESCROW,
                    data: opened_record(
                        InitEscrowAccount::of(accounts),
                        sell_amount,
                        buy_amount,
                        bump,
                    ).layout(),
                },
                Some(InitStage::Recorded),
            ),
        )
    }
}

/// The third leg. The asset on offer must be a mint, and the escrow must have a
/// token account address for it. Then that custody account is created, paid
/// for by the maker and owned by the escrow.
pub open spec fn init_recorded(accounts: Seq<Account>) -> Result<
    (ActionView, Option<InitStage>),
    EscrowError,
> {
    let keys = InitEscrowAccount::of(accounts);
    let decimals = mint_decimals(accounts[SELL_MINT as int].data@);
    if accounts.len() <= ASSOCIATED_PROGRAM {
        Err(EscrowError::NotEnoughAccountKeys)
    } else if decimals is Err {
        Err(decimals->Err_0)
    } else if associated_address(keys.escrow_account, keys.sell_mint, keys.token_program) is None {
        Err(EscrowError::InvalidSeeds)
    } else {
        Ok(
            (
                ActionView::Invoke {
                    instruction: create_associated_account_instruction(
                        keys.authority,
                        keys.escrow_account,
                        keys.sell_mint,
                        keys.token_program,
                    ),
                    accounts: seq![
                        MAKER,
                        ESCROW,
                        CUSTODY,
                        SELL_MINT,
                        TOKEN_PROGRAM,
                        SYSTEM_PROGRAM,
                        ASSOCIATED_PROGRAM,
                    ],
                    signer: None,
                },
                Some(InitStage::CustodyReady { decimals: decimals->Ok_0 }),
            ),
        )
    }
}

/// The last leg. The token service must be the token program. Then
/// `sell_amount` of the asset on offer moves from the maker's account into
/// custody, on the maker's own signature.
pub open spec fn init_custody_ready(accounts: Seq<Account>, sell_amount: u64, decimals: u8) -> Result<
    (ActionView, Option<InitStage>),
    EscrowError,
> {
    let keys = InitEscrowAccount::of(accounts);
    if accounts.len() <= ASSOCIATED_PROGRAM {
        Err(EscrowError::NotEnoughAccountKeys)
    } else if keys.token_program@ != token_program_id() {
        Err(EscrowError::IncorrectProgramId)
    } else {
        Ok(
            (
                ActionView::Invoke {
                    instruction: transfer_checked_instruction(
                        keys.token_program,
                        keys.authority_sell_mint_ata,
                        keys.sell_mint,
                        keys.escrow_token_account,
                        keys.authority,
                        sell_amount,
                        decimals,
                    ),
                    accounts: seq![TOKEN_PROGRAM, MAKER_SOURCE, SELL_MINT, CUSTODY, MAKER],
                    signer: None,
                },
                None,
            ),
        )
    }
}

/// What Initialize decides at `stage`, on the accounts as they stand: the
/// action to perform and the stage that follows it, or the refusal.
pub open spec fn init_escrow_step(
    accounts: Seq<Account>,
    sell_amount: u64,
    buy_amount: u64,
    program_id: Identity,
    stage: InitStage,
) -> Result<(ActionView, Option<InitStage>), EscrowError> {
    match stage {
        InitStage::Start { rent } => init_start(accounts, program_id, rent),
        InitStage::Created { bump, rent_minimum } => init_created(
            accounts,
            sell_amount,
            buy_amount,
            bump,
            rent_minimum,
        ),
        InitStage::Recorded => init_recorded(accounts),
        InitStage::CustodyReady { decimals } => init_custody_ready(accounts, sell_amount, decimals),
    }
}

/// An escrow has one address: two Initialize calls of one maker for one asset
/// that both pass the first leg name the same storage account, and sign for
/// it with the same seeds.
pub proof fn lemma_one_address_per_offer(
    first: Seq<Account>,
    second: Seq<Account>,
    program_id: Identity,
    first_rent: Option<u64>,
    second_rent: Option<u64>,
)
    requires
        first[MAKER as int].key == second[MAKER as int].key,
        first[SELL_MINT as int].key == second[SELL_MINT as int].key,
        init_start(first, program_id, first_rent) is Ok,
        init_start(second, program_id, second_rent) is Ok,
    ensures
        first[ESCROW as int].key == second[ESCROW as int].key,
        init_start(first, program_id, first_rent)->Ok_0.0->Invoke_signer == init_start(
            second,
            program_id,
            second_rent,
        )->Ok_0.0->Invoke_signer,
{
}

/// While an escrow is open its slot cannot be taken again. Where the storage
/// account holds what an Initialize stored, a second Initialize on that
/// account is refused with `AccountAlreadyInitialized`, a state error,
/// whatever amounts it names.
pub proof fn lemma_open_slot_is_refused(
    first: Seq<Account>,
    first_sell: u64,
    first_buy: u64,
    first_bump: u8,
    first_rent: u64,
    second: Seq<Account>,
    second_sell: u64,
    second_buy: u64,
    second_bump: u8,
    second_rent: u64,
)
    requires
        init_created(first, first_sell, first_buy, first_bump, first_rent) matches Ok(
            (ActionView::Store { data, .. }, _),
        ) && second[ESCROW as int].data@ == data,
        second.len() > ASSOCIATED_PROGRAM,
        second[ESCROW as int].lamports >= second_rent,
    ensures
        init_created(second, second_sell, second_buy, second_bump, second_rent) == Err::<
            (ActionView, Option<InitStage>),
            EscrowError,
        >(EscrowError::AccountAlreadyInitialized),
        EscrowError::AccountAlreadyInitialized.kind() == ErrorKind::State,
{
    opened_record(InitEscrowAccount::of(first), first_sell, first_buy, first_bump).lemma_round_trip();
}

/// Once the record is gone the slot is free again. On a storage account that
/// was created anew, with the zero bytes of a record's length and the
/// rent-exempt minimum, Initialize stores its record.
pub proof fn lemma_fresh_slot_is_taken(
    accounts: Seq<Account>,
    sell_amount: u64,
    buy_amount: u64,
    bump: u8,
    rent_minimum: u64,
)
    requires
        accounts.len() > ASSOCIATED_PROGRAM,
        accounts[ESCROW as int].lamports >= rent_minimum,
        accounts[ESCROW as int].data@ == Seq::new(ESCROW_LEN as nat, |i: int| 0u8),
    ensures
        init_created(accounts, sell_amount, buy_amount, bump, rent_minimum) == Ok::<
            (ActionView, Option<InitStage>),
            EscrowError,
        >(
            (
                ActionView::Store {
                    account: ESCROW,
                    data: opened_record(
                        InitEscrowAccount::of(accounts),
                        sell_amount,
                        buy_amount,
                        bump,
                    ).layout(),
                },
                Some(InitStage::Recorded),
            ),
        ),
{
}

/// The legs of an Initialize come in one order: the storage account, the
/// record, the custody account, and the transfer into custody, which ends the
/// transition. The record that is stored is marked as initialized and holds
/// the amounts of the call.
pub proof fn lemma_init_order(
    accounts: Seq<Account>,
    sell_amount: u64,
    buy_amount: u64,
    program_id: Identity,
    stage: InitStage,
)
    requires
        init_escrow_step(accounts, sell_amount, buy_amount, program_id, stage) is Ok,
    ensures
        ({
            let (action, next) = init_escrow_step(
                accounts,
                sell_amount,
                buy_amount,
                program_id,
                stage,
            )->Ok_0;
            match stage {
                InitStage::Start { .. } => action is Invoke && next is Some && next->Some_0 is Created,
                InitStage::Created { .. } => {
                    &&& next == Some(InitStage::Recorded)
                    &&& action is Store
                    &&& Escrow::parse(action->Store_data) matches Some(record)
                    &&& record.is_initialized
                    &&& record.sell_amount == sell_amount
                    &&& record.buy_amount == buy_amount
                },
                InitStage::Recorded => action is Invoke && next is Some && next->Some_0 is CustodyReady,
                InitStage::CustodyReady { .. } => action is Invoke && next is None,
            }
        }),
{
    match stage {
        InitStage::Created { bump, .. } => {
            opened_record(
                InitEscrowAccount::of(accounts),
                sell_amount,
                buy_amount,
                bump,
            ).lemma_round_trip();
        },
        _ => {},
    }
}

fn start(accounts: &[Account], program_id: &Identity, rent_minimum: Option<u64>) -> (r: Result<
    Step<InitStage>,
    EscrowError,
>)
    ensures
        decided(r, init_start(accounts@, *program_id, rent_minimum)),
{
    if accounts.len() <= MAKER {
        return Err(EscrowError::NotEnoughAccountKeys);
    }
    if !accounts[MAKER].is_signer {
        return Err(EscrowError::MissingRequiredSignature);
    }
    if accounts.len() <= RENT {
        return Err(EscrowError::NotEnoughAccountKeys);
    }
    let minimum = match rent_minimum {
        Some(minimum) => minimum,
        None => { return Err(EscrowError::InvalidArgument); },
    };
    let keys = match InitEscrowAccount::from_accounts(accounts) {
        Ok(keys) => keys,
        Err(e) => { return Err(e); },
    };
    let bump = match check_escrow_address(
        &keys.escrow_account,
        &keys.authority,
        &keys.sell_mint,
        program_id,
    ) {
        Ok(bump) => bump,
        Err(_) => { return Err(EscrowError::InvalidSeeds); },
    };
    let instruction = create_account(
        &keys.authority,
        &keys.escrow_account,
        minimum,
        ESCROW_LEN as u64,
        program_id,
    );
    let places: Vec<usize> = vec![MAKER, ESCROW, SYSTEM_PROGRAM];
    assert(places@ =~= seq![MAKER, ESCROW, SYSTEM_PROGRAM]);
    Ok(
        Step {
            action: Action::Invoke {
                instruction,
                accounts: places,
                signer: Some(
                    EscrowSeeds { maker: keys.authority, sell_mint: keys.sell_mint, bump },
                ),
            },
            next: Some(InitStage::Created { bump, rent_minimum: minimum }),
        },
    )
}

fn created(
    accounts: &[Account],
    sell_amount: u64,
    buy_amount: u64,
    bump: u8,
    rent_minimum: u64,
) -> (r: Result<Step<InitStage>, EscrowError>)
    ensures
        decided(r, init_created(accounts@, sell_amount, buy_amount, bump, rent_minimum)),
{
    let keys = match InitEscrowAccount::from_accounts(accounts) {
        Ok(keys) => keys,
        Err(e) => { return Err(e); },
    };
    if accounts[ESCROW].lamports < rent_minimum {
        return Err(EscrowError::NotRentExempt);
    }
    let slot = match Escrow::try_from_slice(accounts[ESCROW].data.as_slice()) {
        Ok(slot) => slot,
        Err(e) => { return Err(e); },
    };
    if slot.is_initialized {
        return Err(EscrowError::AccountAlreadyInitialized);
    }
    let record = Escrow::new(
        true,
        keys.authority,
        keys.sell_mint,
        keys.buy_mint,
        sell_amount,
        buy_amount,
        keys.authority_buy_mint_ata,
        bump,
    );
    Ok(
        Step {
            action: Action::Store { account: ESCROW, data: record.to_bytes() },
            next: Some(InitStage::Recorded),
        },
    )
}

fn recorded(accounts: &[Account]) -> (r: Result<Step<InitStage>, EscrowError>)
    ensures
        decided(r, init_recorded(accounts@)),
{
    let keys = match InitEscrowAccount::from_accounts(accounts) {
        Ok(keys) => keys,
        Err(e) => { return Err(e); },
    };
    let decimals = match unpack_mint_decimals(accounts[SELL_MINT].data.as_slice()) {
        Ok(decimals) => decimals,
        Err(e) => { return Err(e); },
    };
    if find_associated_address(&keys.escrow_account, &keys.sell_mint, &keys.token_program).is_none() {
        return Err(EscrowError::InvalidSeeds);
    }
    let instruction = create_associated_token_account(
        &keys.authority,
        &keys.escrow_account,
        &keys.sell_mint,
        &keys.token_program,
    );
    let places: Vec<usize> = vec![
        MAKER,
        ESCROW,
        CUSTODY,
        SELL_MINT,
        TOKEN_PROGRAM,
        SYSTEM_PROGRAM,
        ASSOCIATED_PROGRAM,
    ];
    assert(places@ =~= seq![
        MAKER,
        ESCROW,
        CUSTODY,
        SELL_MINT,
        TOKEN_PROGRAM,
        SYSTEM_PROGRAM,
        ASSOCIATED_PROGRAM,
    ]);
    Ok(
        Step {
            action: Action::Invoke { instruction, accounts: places, signer: None },
            next: Some(InitStage::CustodyReady { decimals }),
        },
    )
}

fn custody_ready(accounts: &[Account], sell_amount: u64, decimals: u8) -> (r: Result<
    Step<InitStage>,
    EscrowError,
>)
    ensures
        decided(r, init_custody_ready(accounts@, sell_amount, decimals)),
{
    let keys = match InitEscrowAccount::from_accounts(accounts) {
        Ok(keys) => keys,
        Err(e) => { return Err(e); },
    };
    let instruction = match transfer_checked(
        &keys.token_program,
        &keys.authority_sell_mint_ata,
        &keys.sell_mint,
        &keys.escrow_token_account,
        &keys.authority,
        sell_amount,
        decimals,
    ) {
        Ok(instruction) => instruction,
        Err(e) => { return Err(e); },
    };
    let places: Vec<usize> = vec![TOKEN_PROGRAM, MAKER_SOURCE, SELL_MINT, CUSTODY, MAKER];
    assert(places@ =~= seq![TOKEN_PROGRAM, MAKER_SOURCE, SELL_MINT, CUSTODY, MAKER]);
    Ok(Step { action: Action::Invoke { instruction, accounts: places, signer: None }, next: None })
}

/// Decides the next leg of an Initialize that locks `sell_amount` and asks for
/// `buy_amount`, on the accounts as they stand at `stage`. A refusal asks
/// nothing of the ledger.
pub fn process_init_escrow(
    accounts: &[Account],
    sell_amount: u64,
    buy_amount: u64,
    program_id: &Identity,
    stage: &InitStage,
) -> (r: Result<Step<InitStage>, EscrowError>)
    ensures
        decided(r, init_escrow_step(accounts@, sell_amount, buy_amount, *program_id, *stage)),
{
    match *stage {
        InitStage::Start { rent } => start(accounts, program_id, rent),
        InitStage::Created { bump, rent_minimum } => created(
            accounts,
            sell_amount,
            buy_amount,
            bump,
            rent_minimum,
        ),
        InitStage::Recorded => recorded(accounts),
        InitStage::CustodyReady { decimals } => custody_ready(accounts, sell_amount, decimals),
    }
}

} // verus!
