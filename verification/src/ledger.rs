//! What the library sees of the ledger, and what it asks of it.

use crate::authority::EscrowSeeds;
use crate::error::EscrowError;
use crate::identity::Identity;
use vstd::prelude::*;

verus! {

/// One account of the list that a transition is called with, as it stands when
/// a step is decided.
#[derive(Clone, Debug, PartialEq, Eq)]
pub struct Account {
    pub key: Identity,
    pub is_signer: bool,
    pub lamports: u64,
    pub data: Vec<u8>,
}

/// An account named by an instruction, with the rights the instruction claims on it.
#[derive(Clone, Copy, Debug, PartialEq, Eq)]
pub struct AccountMeta {
    pub key: Identity,
    pub is_signer: bool,
    pub is_writable: bool,
}

/// A request to another program of the ledger.
#[derive(Clone, Debug, PartialEq, Eq)]
pub struct Instruction {
    pub program_id: Identity,
    pub accounts: Vec<AccountMeta>,
    pub data: Vec<u8>,
}

pub struct InstructionView {
    pub program_id: Identity,
    pub accounts: Seq<AccountMeta>,
    pub data: Seq<u8>,
}

impl View for Instruction {
    type V = InstructionView;

    open spec fn view(&self) -> InstructionView {
        InstructionView { program_id: self.program_id, accounts: self.accounts@, data: self.data@ }
    }
}

/// The one thing that a step asks the ledger to do. Accounts are named by their
/// place in the list that the transition was called with.
#[derive(Clone, Debug, PartialEq, Eq)]
pub enum Action {
    /// Hand `instruction` to its program, together with the listed accounts. With
    /// `signer`, the escrow address signs, by the seeds it was derived from.
    Invoke { instruction: Instruction, accounts: Vec<usize>, signer: Option<EscrowSeeds> },
    /// Replace the data of `account` with `data`.
    Store { account: usize, data: Vec<u8> },
    /// Set the balance of `to` to `lamports`, the balance of `from` to zero, and
    /// empty the data of `from`.
    Reclaim { from: usize, to: usize, lamports: u64 },
}

pub enum ActionView {
    Invoke { instruction: InstructionView, accounts: Seq<usize>, signer: Option<EscrowSeeds> },
    Store { account: usize, data: Seq<u8> },
    Reclaim { from: usize, to: usize, lamports: u64 },
}

impl View for Action {
    type V = ActionView;

    open spec fn view(&self) -> ActionView {
        match *self {
            Action::Invoke { instruction, accounts, signer } => ActionView::Invoke {
                instruction: instruction@,
                accounts: accounts@,
                signer,
            },
            Action::Store { account, data } => ActionView::Store { account, data: data@ },
            Action::Reclaim { from, to, lamports } => ActionView::Reclaim { from, to, lamports },
        }
    }
}

/// What a transition decided: the action to perform now, and the stage to call
/// the transition with once the ledger has performed it. Without a next stage
/// the transition is complete after the action.
#[derive(Clone, Debug, PartialEq, Eq)]
pub struct Step<S> {
    pub action: Action,
    pub next: Option<S>,
}

/// The step that was decided is the one that was to be decided: the same
/// action and next stage, or the same refusal.
pub open spec fn decided<S>(
    r: Result<Step<S>, EscrowError>,
    expected: Result<(ActionView, Option<S>), EscrowError>,
) -> bool {
    match (r, expected) {
        (Ok(step), Ok((action, next))) => step.action@ == action && step.next == next,
        (Err(e), Err(refusal)) => e == refusal,
        _ => false,
    }
}

} // verus!
