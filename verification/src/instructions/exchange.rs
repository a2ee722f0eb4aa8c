//! Exchange: a taker completes the swap.
//!
//! The transition has four legs, each asked of the ledger in turn: the taker
//! pays the maker, the escrow pays the taker out of custody, the custody
//! account is closed, and the record is removed and its balance returned to the
//! maker. Nothing is asked before every check on amounts, accounts and
//! ownership has passed.

use crate::authority::EscrowSeeds;
use crate::error::{ErrorKind, EscrowError};
use crate::identity::Identity;
use crate::ledger::{decided, Account, Action, ActionView, Step};
use crate::state::Escrow;
use crate::token::{
    close_account,
    close_account_instruction,
    mint_decimals,
    token_account,
    token_program_id,
    transfer_checked,
    transfer_checked_instruction,
    unpack_mint_decimals,
    unpack_token_account,
};
use crate::validate::{
    amounts_agree,
    check_exchange_amounts,
    check_ownership,
    check_receive_target,
};
use vstd::bytes::{lemma_auto_spec_u64_to_from_le_bytes, spec_u64_to_le_bytes};
use vstd::prelude::*;

verus! {

/// The place of the maker, to whom reclaimed balances return.
pub const MAKER: usize = 0;

/// The place of the taker, who signs.
pub const TAKER: usize = 1;

/// The place of the asset that the taker pays in.
pub const TAKER_SELL_MINT: usize = 2;

/// The place of the asset that the taker receives.
pub const TAKER_BUY_MINT: usize = 3;

/// The place of the taker's account of the asset paid.
pub const TAKER_SOURCE: usize = 4;

/// The place of the taker's account of the asset received.
pub const TAKER_DESTINATION: usize = 5;

/// The place of the account that the maker is paid into.
pub const MAKER_RECEIVE: usize = 6;

/// The place of the escrow storage account.
pub const ESCROW: usize = 7;

/// The place of the escrow custody account.
pub const CUSTODY: usize = 8;

/// The place of the token program.
pub const TOKEN_PROGRAM: usize = 9;

/// The place of the system program.
pub const SYSTEM_PROGRAM: usize = 10;

/// How far an Exchange has come.
#[derive(Clone, Copy, Debug, PartialEq, Eq)]
pub enum ExchangeStage {
    /// Nothing has been asked of the ledger yet.
    Start,
    /// The taker has paid the maker. `seeds` are those of the escrow, read from
    /// its record before the payment.
    MakerPaid { seeds: EscrowSeeds },
    /// The escrow has paid the taker.
    TakerPaid { seeds: EscrowSeeds },
    /// The custody account has been closed.
    CustodyClosed,
}

/// The first leg. In this order: the taker must have signed; the maker's
/// receive account and the custody account must be token accounts; the custody
/// account must hold exactly the `buy_amount` that the taker expects; the
/// record must decode and ask for exactly the `sell_amount` that the taker
/// offers; the receive account must be the one that the record names, and must
/// belong to the maker of the record; the asset paid must be a mint and the
/// token service the token program. Then `sell_amount` moves from the taker's
/// account to the maker's receive account, on the taker's signature.
pub open spec fn exchange_start(accounts: Seq<Account>, sell_amount: u64, buy_amount: u64) -> Result<
    (ActionView, Option<ExchangeStage>),
    EscrowError,
> {
    let receive = token_account(accounts[MAKER_RECEIVE as int].data@);
    let custody = token_account(accounts[CUSTODY as int].data@);
    let record = Escrow::parse(accounts[ESCROW as int].data@);
    let decimals = mint_decimals(accounts[TAKER_SELL_MINT as int].data@);
    if accounts.len() <= TAKER {
        Err(EscrowError::NotEnoughAccountKeys)
    } else if !accounts[TAKER as int].is_signer {
        Err(EscrowError::MissingRequiredSignature)
    } else if accounts.len() <= MAKER_RECEIVE {
        Err(EscrowError::NotEnoughAccountKeys)
    } else if receive is Err {
        Err(receive->Err_0)
    } else if accounts.len() <= CUSTODY {
        Err(EscrowError::NotEnoughAccountKeys)
    } else if custody is Err {
        Err(custody->Err_0)
    } else if accounts.len() <= SYSTEM_PROGRAM {
        Err(EscrowError::NotEnoughAccountKeys)
    } else if buy_amount != custody->Ok_0.amount {
        Err(EscrowError::ExpectedAmountMismatch)
    } else if record is None {
        Err(EscrowError::DecodeFailed)
    } else if record->Some_0.buy_amount != sell_amount {
        Err(EscrowError::ExpectedAmountMismatch)
    } else if record->Some_0.receive_account != accounts[MAKER_RECEIVE as int].key {
        Err(EscrowError::InvalidAccountData)
    } else if record->Some_0.authority != receive->Ok_0.owner {
        Err(EscrowError::InvalidAccountData)
    } else if decimals is Err {
        Err(decimals->Err_0)
    } else if accounts[TOKEN_PROGRAM as int].key@ != token_program_id() {
        Err(EscrowError::IncorrectProgramId)
    } else {
        Ok(
            (
                ActionView::Invoke {
                    instruction: transfer_checked_instruction(
                        accounts[TOKEN_PROGRAM as int].key,
                        accounts[TAKER_SOURCE as int].key,
                        accounts[TAKER_SELL_MINT as int].key,
                        accounts[MAKER_RECEIVE as int].key,
                        accounts[TAKER as int].key,
                        sell_amount,
                        decimals->Ok_0,
                    ),
                    accounts: seq![TAKER_SOURCE, TAKER_SELL_MINT, MAKER_RECEIVE, TAKER, TOKEN_PROGRAM],
                    signer: None,
                },
                Some(
                    ExchangeStage::MakerPaid {
                        seeds: EscrowSeeds {
                            maker: accounts[MAKER as int].key,
                            sell_mint: record->Some_0.sell_mint,
                            bump: record->Some_0.bump,
                        },
                    },
                ),
            ),
        )
    }
}

/// The second leg. The asset received must be a mint and the token service the
/// token program. Then `buy_amount` moves out of custody to the taker's
/// account, on the escrow's word, signed for by its seeds.
pub open spec fn exchange_maker_paid(accounts: Seq<Account>, buy_amount: u64, seeds: EscrowSeeds) -> Result<
    (ActionView, Option<ExchangeStage>),
    EscrowError,
> {
    let decimals = mint_decimals(accounts[TAKER_BUY_MINT as int].data@);
    if accounts.len() <= SYSTEM_PROGRAM {
        Err(EscrowError::NotEnoughAccountKeys)
    } else if decimals is Err {
        Err(decimals->Err_0)
    } else if accounts[TOKEN_PROGRAM as int].key@ != token_program_id() {
        Err(EscrowError::IncorrectProgramId)
    } else {
        Ok(
            (
                ActionView::Invoke {
                    instruction: transfer_checked_instruction(
                        accounts[TOKEN_PROGRAM as int].key,
                        accounts[CUSTODY as int].key,
                        accounts[TAKER_BUY_MINT as int].key,
                        accounts[TAKER_DESTINATION as int].key,
                        accounts[ESCROW as int].key,
                        buy_amount,
                        decimals->Ok_0,
                    ),
                    accounts: seq![CUSTODY, TAKER_BUY_MINT, TAKER_DESTINATION, ESCROW, TOKEN_PROGRAM],
                    signer: Some(seeds),
                },
                Some(ExchangeStage::TakerPaid { seeds }),
            ),
        )
    }
}

/// The third leg. The custody account is closed on the escrow's word, signed
/// for by its seeds, and what balance it had goes to the maker.
pub open spec fn exchange_taker_paid(accounts: Seq<Account>, seeds: EscrowSeeds) -> Result<
    (ActionView, Option<ExchangeStage>),
    EscrowError,
> {
    if accounts.len() <= SYSTEM_PROGRAM {
        Err(EscrowError::NotEnoughAccountKeys)
    } else if accounts[TOKEN_PROGRAM as int].key@ != token_program_id() {
        Err(EscrowError::IncorrectProgramId)
    } else {
        Ok(
            (
                ActionView::Invoke {
                    instruction: close_account_instruction(
                        accounts[TOKEN_PROGRAM as int].key,
                        accounts[CUSTODY as int].key,
                        accounts[MAKER as int].key,
                        accounts[ESCROW as int].key,
                    ),
                    accounts: seq![CUSTODY, ESCROW, MAKER, TOKEN_PROGRAM],
                    signer: Some(seeds),
                },
                Some(ExchangeStage::CustodyClosed),
            ),
        )
    }
}

/// The last leg. The balance of the storage account is added to the maker's,
/// and the storage account is left with no balance and no data. A sum that
/// does not fit is refused, never wrapped.
pub open spec fn exchange_custody_closed(accounts: Seq<Account>) -> Result<
    (ActionView, Option<ExchangeStage>),
    EscrowError,
> {
    if accounts.len() <= SYSTEM_PROGRAM {
        Err(EscrowError::NotEnoughAccountKeys)
    } else if accounts[MAKER as int].lamports + accounts[ESCROW as int].lamports > u64::MAX {
        Err(EscrowError::AmountOverflow)
    } else {
        Ok(
            (
                ActionView::Reclaim {
                    from: ESCROW,
                    to: MAKER,
                    lamports: (accounts[MAKER as int].lamports
                        + accounts[ESCROW as int].lamports) as u64,
                },
                None,
            ),
        )
    }
}

/// What Exchange decides at `stage`, on the accounts as they stand: the action
/// to perform and the stage that follows it, or the refusal.
pub open spec fn exchange_step(
    accounts: Seq<Account>,
    sell_amount: u64,
    buy_amount: u64,
    stage: ExchangeStage,
) -> Result<(ActionView, Option<ExchangeStage>), EscrowError> {
    match stage {
        ExchangeStage::Start => exchange_start(accounts, sell_amount, buy_amount),
        ExchangeStage::MakerPaid { seeds } => exchange_maker_paid(accounts, buy_amount, seeds),
        ExchangeStage::TakerPaid { seeds } => exchange_taker_paid(accounts, seeds),
        ExchangeStage::CustodyClosed => exchange_custody_closed(accounts),
    }
}

/// An Exchange is exact. It takes its first step only where the record
/// decodes and asks for exactly the `sell_amount` offered, the custody account
/// holds exactly the `buy_amount` expected, and the account in the place of
/// the receive account is the one that the record names. The payment it then
/// asks for is of the amount that the record asks for, into that account.
pub proof fn lemma_exchange_is_exact(accounts: Seq<Account>, sell_amount: u64, buy_amount: u64)
    requires
        exchange_start(accounts, sell_amount, buy_amount) is Ok,
    ensures
        ({
            let record = Escrow::parse(accounts[ESCROW as int].data@);
            let custody = token_account(accounts[CUSTODY as int].data@);
            let action = exchange_start(accounts, sell_amount, buy_amount)->Ok_0.0;
            &&& record is Some
            &&& custody is Ok
            &&& record->Some_0.buy_amount == sell_amount
            &&& custody->Ok_0.amount == buy_amount
            &&& record->Some_0.receive_account == accounts[MAKER_RECEIVE as int].key
            &&& action is Invoke
            &&& action->Invoke_instruction.accounts[2].key == record->Some_0.receive_account
            &&& action->Invoke_instruction.data.subrange(1, 9) == spec_u64_to_le_bytes(
                record->Some_0.buy_amount,
            )
        }),
{
    lemma_auto_spec_u64_to_from_le_bytes();
    let instruction = exchange_start(accounts, sell_amount, buy_amount)->Ok_0.0->Invoke_instruction;
    assert(instruction.data.subrange(1, 9) =~= spec_u64_to_le_bytes(sell_amount));
}

/// An amount that is off, by one or by more, in either direction, is refused
/// as a validation error: for a signed call on a full account list whose token
/// accounts and record can be read, an Exchange whose amounts do not agree with
/// the custody balance and the record fails with `ExpectedAmountMismatch`.
pub proof fn lemma_mismatch_is_refused(accounts: Seq<Account>, sell_amount: u64, buy_amount: u64)
    requires
        accounts.len() > SYSTEM_PROGRAM,
        accounts[TAKER as int].is_signer,
        token_account(accounts[MAKER_RECEIVE as int].data@) is Ok,
        token_account(accounts[CUSTODY as int].data@) is Ok,
        Escrow::parse(accounts[ESCROW as int].data@) is Some,
        !amounts_agree(
            buy_amount,
            token_account(accounts[CUSTODY as int].data@)->Ok_0.amount,
            Escrow::parse(accounts[ESCROW as int].data@)->Some_0.buy_amount,
            sell_amount,
        ),
    ensures
        exchange_start(accounts, sell_amount, buy_amount) == Err::<
            (ActionView, Option<ExchangeStage>),
            EscrowError,
        >(EscrowError::ExpectedAmountMismatch),
        EscrowError::ExpectedAmountMismatch.kind() == ErrorKind::Validation,
{
}

/// The payment is bound to the account that the maker registered. With any
/// other account in the place of the receive account, an Exchange fails with
/// `InvalidAccountData`, a validation error, even where all amounts agree.
pub proof fn lemma_receive_account_is_bound(
    accounts: Seq<Account>,
    sell_amount: u64,
    buy_amount: u64,
)
    requires
        accounts.len() > SYSTEM_PROGRAM,
        accounts[TAKER as int].is_signer,
        token_account(accounts[MAKER_RECEIVE as int].data@) is Ok,
        token_account(accounts[CUSTODY as int].data@) is Ok,
        Escrow::parse(accounts[ESCROW as int].data@) is Some,
        amounts_agree(
            buy_amount,
            token_account(accounts[CUSTODY as int].data@)->Ok_0.amount,
            Escrow::parse(accounts[ESCROW as int].data@)->Some_0.buy_amount,
            sell_amount,
        ),
        Escrow::parse(accounts[ESCROW as int].data@)->Some_0.receive_account
            != accounts[MAKER_RECEIVE as int].key,
    ensures
        exchange_start(accounts, sell_amount, buy_amount) == Err::<
            (ActionView, Option<ExchangeStage>),
            EscrowError,
        >(EscrowError::InvalidAccountData),
        EscrowError::InvalidAccountData.kind() == ErrorKind::Validation,
{
}

/// The legs of an Exchange come in one order, and every check on what the
/// taker declares comes before the first of them: the later stages ask for
/// the payout, the closing and the reclaim, and only the reclaim ends the
/// transition.
pub proof fn lemma_exchange_order(
    accounts: Seq<Account>,
    sell_amount: u64,
    buy_amount: u64,
    stage: ExchangeStage,
)
    requires
        exchange_step(accounts, sell_amount, buy_amount, stage) is Ok,
    ensures
        ({
            let (action, next) = exchange_step(accounts, sell_amount, buy_amount, stage)->Ok_0;
            match stage {
                ExchangeStage::Start => action is Invoke && next is Some && next->Some_0 is MakerPaid,
                ExchangeStage::MakerPaid { seeds } => action is Invoke && next == Some(
                    ExchangeStage::TakerPaid { seeds },
                ),
                ExchangeStage::TakerPaid { .. } => action is Invoke && next == Some(
                    ExchangeStage::CustodyClosed,
                ),
                ExchangeStage::CustodyClosed => action is Reclaim && next is None,
            }
        }),
{
}

fn start(accounts: &[Account], sell_amount: u64, buy_amount: u64) -> (r: Result<
    Step<ExchangeStage>,
    EscrowError,
>)
    ensures
        decided(r, exchange_start(accounts@, sell_amount, buy_amount)),
{
    if accounts.len() <= TAKER {
        return Err(EscrowError::NotEnoughAccountKeys);
    }
    if !accounts[TAKER].is_signer {
        return Err(EscrowError::MissingRequiredSignature);
    }
    if accounts.len() <= MAKER_RECEIVE {
        return Err(EscrowError::NotEnoughAccountKeys);
    }
    let receive = match unpack_token_account(accounts[MAKER_RECEIVE].data.as_slice()) {
        Ok(receive) => receive,
        Err(e) => { return Err(e); },
    };
    if accounts.len() <= CUSTODY {
        return Err(EscrowError::NotEnoughAccountKeys);
    }
    let custody = match unpack_token_account(accounts[CUSTODY].data.as_slice()) {
        Ok(custody) => custody,
        Err(e) => { return Err(e); },
    };
    if accounts.len() <= SYSTEM_PROGRAM {
        return Err(EscrowError::NotEnoughAccountKeys);
    }
    let record = match Escrow::try_from_slice(accounts[ESCROW].data.as_slice()) {
        Ok(record) => record,
        Err(e) => {
            // A custody balance that differs is reported before a slot that
            // does not decode.
            if buy_amount != custody.amount {
                return Err(EscrowError::ExpectedAmountMismatch);
            }
            return Err(e);
        },
    };
    if check_exchange_amounts(buy_amount, custody.amount, record.buy_amount, sell_amount).is_err() {
        return Err(EscrowError::ExpectedAmountMismatch);
    }
    if check_receive_target(&record.receive_account, &accounts[MAKER_RECEIVE].key).is_err() {
        return Err(EscrowError::InvalidAccountData);
    }
    if check_ownership(&record.authority, &receive.owner).is_err() {
        return Err(EscrowError::InvalidAccountData);
    }
    let decimals = match unpack_mint_decimals(accounts[TAKER_SELL_MINT].data.as_slice()) {
        Ok(decimals) => decimals,
        Err(e) => { return Err(e); },
    };
    let instruction = match transfer_checked(
        &accounts[TOKEN_PROGRAM].key,
        &accounts[TAKER_SOURCE].key,
        &accounts[TAKER_SELL_MINT].key,
        &accounts[MAKER_RECEIVE].key,
        &accounts[TAKER].key,
        sell_amount,
        decimals,
    ) {
        Ok(instruction) => instruction,
        Err(e) => { return Err(e); },
    };
    let places: Vec<usize> = vec![TAKER_SOURCE, TAKER_SELL_MINT, MAKER_RECEIVE, TAKER, TOKEN_PROGRAM];
    assert(places@ =~= seq![TAKER_SOURCE, TAKER_SELL_MINT, MAKER_RECEIVE, TAKER, TOKEN_PROGRAM]);
    let seeds = EscrowSeeds {
        maker: accounts[MAKER].key,
        sell_mint: record.sell_mint,
        bump: record.bump,
    };
    Ok(
        Step {
            action: Action::Invoke { instruction, accounts: places, signer: None },
            next: Some(ExchangeStage::MakerPaid { seeds }),
        },
    )
}

fn maker_paid(accounts: &[Account], buy_amount: u64, seeds: EscrowSeeds) -> (r: Result<
    Step<ExchangeStage>,
    EscrowError,
>)
    ensures
        decided(r, exchange_maker_paid(accounts@, buy_amount, seeds)),
{
    if accounts.len() <= SYSTEM_PROGRAM {
        return Err(EscrowError::NotEnoughAccountKeys);
    }
    let decimals = match unpack_mint_decimals(accounts[TAKER_BUY_MINT].data.as_slice()) {
        Ok(decimals) => decimals,
        Err(e) => { return Err(e); },
    };
    let instruction = match transfer_checked(
        &accounts[TOKEN_PROGRAM].key,
        &accounts[CUSTODY].key,
        &accounts[TAKER_BUY_MINT].key,
        &accounts[TAKER_DESTINATION].key,
        &accounts[ESCROW].key,
        buy_amount,
        decimals,
    ) {
        Ok(instruction) => instruction,
        Err(e) => { return Err(e); },
    };
    let places: Vec<usize> = vec![CUSTODY, TAKER_BUY_MINT, TAKER_DESTINATION, ESCROW, TOKEN_PROGRAM];
    assert(places@ =~= seq![CUSTODY, TAKER_BUY_MINT, TAKER_DESTINATION, ESCROW, TOKEN_PROGRAM]);
    Ok(
        Step {
            action: Action::Invoke { instruction, accounts: places, signer: Some(seeds) },
            next: Some(ExchangeStage::TakerPaid { seeds }),
        },
    )
}

fn taker_paid(accounts: &[Account], seeds: EscrowSeeds) -> (r: Result<
    Step<ExchangeStage>,
    EscrowError,
>)
    ensures
        decided(r, exchange_taker_paid(accounts@, seeds)),
{
    if accounts.len() <= SYSTEM_PROGRAM {
        return Err(EscrowError::NotEnoughAccountKeys);
    }
    let instruction = match close_account(
        &accounts[TOKEN_PROGRAM].key,
        &accounts[CUSTODY].key,
        &accounts[MAKER].key,
        &accounts[ESCROW].key,
    ) {
        Ok(instruction) => instruction,
        Err(e) => { return Err(e); },
    };
    let places: Vec<usize> = vec![CUSTODY, ESCROW, MAKER, TOKEN_PROGRAM];
    assert(places@ =~= seq![CUSTODY, ESCROW, MAKER, TOKEN_PROGRAM]);
    Ok(
        Step {
            action: Action::Invoke { instruction, accounts: places, signer: Some(seeds) },
            next: Some(ExchangeStage::CustodyClosed),
        },
    )
}

fn custody_closed(accounts: &[Account]) -> (r: Result<Step<ExchangeStage>, EscrowError>)
    ensures
        decided(r, exchange_custody_closed(accounts@)),
{
    if accounts.len() <= SYSTEM_PROGRAM {
        return Err(EscrowError::NotEnoughAccountKeys);
    }
    match accounts[MAKER].lamports.checked_add(accounts[ESCROW].lamports) {
        Some(lamports) => Ok(
            Step { action: Action::Reclaim { from: ESCROW, to: MAKER, lamports }, next: None },
        ),
        None => Err(EscrowError::AmountOverflow),
    }
}

/// Decides the next leg of an Exchange in which the taker pays `sell_amount`
/// and expects `buy_amount`, on the accounts as they stand at `stage`. A
/// refusal asks nothing of the ledger. The escrow signs by the seeds that its
/// record holds, so nothing is derived from `program_id` here.
pub fn process_exchange(
    accounts: &[Account],
    sell_amount: u64,
    buy_amount: u64,
    program_id: &Identity,
    stage: &ExchangeStage,
) -> (r: Result<Step<ExchangeStage>, EscrowError>)
    ensures
        decided(r, exchange_step(accounts@, sell_amount, buy_amount, *stage)),
{
    match *stage {
        ExchangeStage::Start => start(accounts, sell_amount, buy_amount),
        ExchangeStage::MakerPaid { seeds } => maker_paid(accounts, buy_amount, seeds),
        ExchangeStage::TakerPaid { seeds } => taker_paid(accounts, seeds),
        ExchangeStage::CustodyClosed => custody_closed(accounts),
    }
}

} // verus!
