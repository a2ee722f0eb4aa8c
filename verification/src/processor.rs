//! The dispatcher: decodes a payload and routes it to its transition.

use crate::error::EscrowError;
use crate::identity::Identity;
use crate::instructions::exchange::{exchange_step, process_exchange, ExchangeStage};
use crate::instructions::initialize::{init_escrow_step, process_init_escrow, InitStage};
use crate::instructions::EscrowInstruction;
use crate::ledger::{decided, Account, ActionView, Step};
use vstd::prelude::*;

verus! {

/// A transition under way: which one, with what amounts, and how far it has come.
#[allow(inconsistent_fields)]
#[derive(Clone, Copy, Debug, PartialEq, Eq)]
pub enum Progress {
    Initialize { sell_amount: u64, buy_amount: u64, stage: InitStage },
    Exchange { sell_amount: u64, buy_amount: u64, stage: ExchangeStage },
}

impl Progress {
    /// The transition that an instruction selects, at its start.
    pub open spec fn opening(instruction: EscrowInstruction, rent_minimum: Option<u64>) -> Progress {
        match instruction {
            EscrowInstruction::InitEscrow { sell_amount, buy_amount } => Progress::Initialize {
                sell_amount,
                buy_amount,
                stage: InitStage::Start { rent: rent_minimum },
            },
            EscrowInstruction::Exchange { sell_amount, buy_amount } => Progress::Exchange {
                sell_amount,
                buy_amount,
                stage: ExchangeStage::Start,
            },
        }
    }

    /// The same transition at another stage, or none where it is complete.
    pub open spec fn at_init(self, next: Option<InitStage>) -> Option<Progress> {
        match (self, next) {
            (Progress::Initialize { sell_amount, buy_amount, .. }, Some(stage)) => Some(
                Progress::Initialize { sell_amount, buy_amount, stage },
            ),
            _ => None,
        }
    }

    /// The same transition at another stage, or none where it is complete.
    pub open spec fn at_exchange(self, next: Option<ExchangeStage>) -> Option<Progress> {
        match (self, next) {
            (Progress::Exchange { sell_amount, buy_amount, .. }, Some(stage)) => Some(
                Progress::Exchange { sell_amount, buy_amount, stage },
            ),
            _ => None,
        }
    }

    /// What the transition under way decides on the accounts as they stand: the
    /// step of Initialize or of Exchange, with its amounts carried along.
    pub open spec fn step(self, program_id: Identity, accounts: Seq<Account>) -> Result<
        (ActionView, Option<Progress>),
        EscrowError,
    > {
        match self {
            Progress::Initialize { sell_amount, buy_amount, stage } => match init_escrow_step(
                accounts,
                sell_amount,
                buy_amount,
                program_id,
                stage,
            ) {
                Ok((action, next)) => Ok((action, self.at_init(next))),
                Err(e) => Err(e),
            },
            Progress::Exchange { sell_amount, buy_amount, stage } => match exchange_step(
                accounts,
                sell_amount,
                buy_amount,
                stage,
            ) {
                Ok((action, next)) => Ok((action, self.at_exchange(next))),
                Err(e) => Err(e),
            },
        }
    }
}

/// Decides the next leg of the transition under way, on the accounts as they
/// stand.
pub fn resume(program_id: &Identity, accounts: &[Account], progress: &Progress) -> (r: Result<
    Step<Progress>,
    EscrowError,
>)
    ensures
        decided(r, progress.step(*program_id, accounts@)),
{
    match *progress {
        Progress::Initialize { sell_amount, buy_amount, stage } => {
            match process_init_escrow(accounts, sell_amount, buy_amount, program_id, &stage) {
                Ok(step) => {
                    let next = match step.next {
                        Some(stage) => Some(Progress::Initialize { sell_amount, buy_amount, stage }),
                        None => None,
                    };
                    Ok(Step { action: step.action, next })
                },
                Err(e) => Err(e),
            }
        },
        Progress::Exchange { sell_amount, buy_amount, stage } => {
            match process_exchange(accounts, sell_amount, buy_amount, program_id, &stage) {
                Ok(step) => {
                    let next = match step.next {
                        Some(stage) => Some(Progress::Exchange { sell_amount, buy_amount, stage }),
                        None => None,
                    };
                    Ok(Step { action: step.action, next })
                },
                Err(e) => Err(e),
            }
        },
    }
}

/// What the program decides when it is called with a payload: a payload that
/// does not decode is refused before any transition runs; else the selected
/// transition takes its first step.
pub open spec fn instruction_step(
    program_id: Identity,
    accounts: Seq<Account>,
    instruction_data: Seq<u8>,
    rent_minimum: Option<u64>,
) -> Result<(ActionView, Option<Progress>), EscrowError> {
    match EscrowInstruction::parse(instruction_data) {
        None => Err(EscrowError::DecodeFailed),
        Some(instruction) => Progress::opening(instruction, rent_minimum).step(program_id, accounts),
    }
}

/// Decodes the payload and takes the first step of the transition it selects.
/// `rent_minimum` is the rent oracle's answer for an account of the size of a
/// record, or `None` where the oracle could not be read; only Initialize asks
/// for it.
pub fn process_instruction(
    program_id: &Identity,
    accounts: &[Account],
    instruction_data: &[u8],
    rent_minimum: Option<u64>,
) -> (r: Result<Step<Progress>, EscrowError>)
    ensures
        decided(r, instruction_step(*program_id, accounts@, instruction_data@, rent_minimum)),
{
    let instruction = match EscrowInstruction::try_from_slice(instruction_data) {
        Ok(instruction) => instruction,
        Err(e) => { return Err(e); },
    };
    let progress = match instruction {
        EscrowInstruction::InitEscrow { sell_amount, buy_amount } => Progress::Initialize {
            sell_amount,
            buy_amount,
            stage: InitStage::Start { rent: rent_minimum },
        },
        EscrowInstruction::Exchange { sell_amount, buy_amount } => Progress::Exchange {
            sell_amount,
            buy_amount,
            stage: ExchangeStage::Start,
        },
    };
    resume(program_id, accounts, &progress)
}

} // verus!
