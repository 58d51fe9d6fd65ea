//! Domain events. Each state-changing operation appends exactly one event
//! to the engine's log after its checks pass; the log is an append-only
//! output channel the engine writes and never reads.

use vstd::prelude::*;

use crate::identity::Identity;
use crate::state::RequestKey;

verus! {

/// A new delegation was registered.
#[derive(Clone, Copy, Debug, PartialEq, Eq, Structural)]
pub struct AgentRegistered {
    pub custodian: Identity,
    pub agent_identity: Identity,
    pub daily_limit: u64,
    pub timestamp: u64,
}

/// A delegation's daily cap was changed.
#[derive(Clone, Copy, Debug, PartialEq, Eq, Structural)]
pub struct AgentLimitUpdated {
    pub agent_identity: Identity,
    pub new_limit: u64,
    pub timestamp: u64,
}

/// A delegation was irreversibly deactivated.
#[derive(Clone, Copy, Debug, PartialEq, Eq, Structural)]
pub struct AgentDeactivated {
    pub agent_identity: Identity,
    pub timestamp: u64,
}

/// A third party paid an agent directly.
#[derive(Clone, Copy, Debug, PartialEq, Eq, Structural)]
pub struct PaymentMade {
    pub from: Identity,
    pub to_agent: Identity,
    pub to_custodian: Identity,
    pub amount: u64,
    pub timestamp: u64,
}

/// An agent moved value under its delegated daily cap.
#[derive(Clone, Copy, Debug, PartialEq, Eq, Structural)]
pub struct AgentPaymentMade {
    pub agent: Identity,
    pub recipient: Identity,
    pub amount: u64,
    /// The spend counter after this payment was accounted.
    pub daily_spent: u64,
    pub timestamp: u64,
}

/// An agent asked for a custodian-approved payment.
#[derive(Clone, Copy, Debug, PartialEq, Eq, Structural)]
pub struct PaymentRequested {
    pub request_id: RequestKey,
    pub agent: Identity,
    pub recipient: Identity,
    pub amount: u64,
    pub timestamp: u64,
}

/// A custodian approved a payment request.
#[derive(Clone, Copy, Debug, PartialEq, Eq, Structural)]
pub struct PaymentApproved {
    pub request_id: RequestKey,
    pub agent: Identity,
    pub recipient: Identity,
    pub amount: u64,
    pub timestamp: u64,
}

/// A custodian rejected a payment request.
#[derive(Clone, Copy, Debug, PartialEq, Eq, Structural)]
pub struct PaymentRejected {
    pub request_id: RequestKey,
    pub timestamp: u64,
}

/// One entry of the engine's event log.
#[derive(Clone, Copy, Debug, PartialEq, Eq, Structural)]
pub enum Event {
    AgentRegistered(AgentRegistered),
    AgentLimitUpdated(AgentLimitUpdated),
    AgentDeactivated(AgentDeactivated),
    PaymentMade(PaymentMade),
    AgentPaymentMade(AgentPaymentMade),
    PaymentRequested(PaymentRequested),
    PaymentApproved(PaymentApproved),
    PaymentRejected(PaymentRejected),
}

} // verus!
