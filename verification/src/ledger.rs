//! The engine's interface to the external value-transfer ledger.
//!
//! The engine never moves value itself. An operation that moves value
//! returns a `TransferInstruction`; the surrounding environment executes
//! it against the custody accounts atomically with the operation, and
//! discards the operation's state change if the transfer cannot be
//! executed. All of the engine's checks precede the instruction, so no
//! externally visible side effect ever happens before the check that
//! gates it.

use vstd::prelude::*;

use crate::identity::Identity;

verus! {

/// An atomic balance movement for the external ledger to execute.
#[derive(Clone, Copy, Debug, PartialEq, Eq, Structural)]
pub struct TransferInstruction {
    /// Custody account the amount leaves.
    pub from: Identity,
    /// Custody account the amount reaches.
    pub to: Identity,
    /// Amount to move.
    pub amount: u64,
    /// Identity on whose authority the ledger acts: the payer itself for a
    /// direct payment, the delegated agent for a delegated payment, the
    /// custodian for an approved request.
    pub authorized_by: Identity,
}

} // verus!
