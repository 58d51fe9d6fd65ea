//! The failure modes of the engine's operations.

use vstd::prelude::*;

verus! {

/// Why an operation was refused.
///
/// Every refused operation leaves all entities exactly as they were before
/// the call: no state mutation, no event, no transfer instruction.
#[derive(Clone, Copy, Debug, PartialEq, Eq, Structural)]
pub enum ErrorCode {
    /// The caller is not the agent's custodian where a custodian-only
    /// action was required.
    UnauthorizedCustodian,
    /// The caller is not the agent's delegated identity where an agent-only
    /// action was required.
    UnauthorizedAgent,
    /// The action was attempted on a deactivated agent.
    AgentInactive,
    /// The delegated payment would exceed the rolling daily cap.
    DailyLimitExceeded,
    /// Approval or rejection was attempted on a request that is not
    /// pending.
    RequestNotPending,
    /// The free-text purpose exceeds the 200-character bound.
    PurposeTooLong,
    /// A creation collided with an already existing key.
    DuplicateKey,
}

} // verus!
