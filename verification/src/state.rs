//! The persisted entities of the engine and the specification of how each
//! operation acts on a single entity.

use vstd::prelude::*;

use crate::errors::ErrorCode;
use crate::identity::Identity;

verus! {

/// Length of the rolling spending window, in time units.
pub const DAILY_WINDOW: u64 = 86400;

/// Upper bound on the length of a payment request's purpose, in characters.
pub const MAX_PURPOSE_CHARS: usize = 200;

/// The process-wide registry: who created the engine's scope and what has
/// happened in it overall.
#[derive(Clone, Copy, Debug, PartialEq, Eq, Structural)]
pub struct Registry {
    /// The identity that created the registry.
    pub authority: Identity,
    /// Number of agents registered so far; it only ever grows.
    pub agent_count: u64,
    /// Cumulative amount moved through direct payments; it only ever grows.
    pub total_volume: u64,
}

/// Per-(custodian, agent identity) delegation record.
#[derive(Clone, Copy, Debug, PartialEq, Eq, Structural)]
pub struct Agent {
    /// The owning identity; fixed at registration.
    pub custodian: Identity,
    /// The delegated identity; fixed at registration.
    pub agent_identity: Identity,
    /// Maximum amount the agent may move per rolling daily window.
    pub daily_limit: u64,
    /// Amount already moved in the current window.
    pub daily_spent: u64,
    /// Start of the current window.
    pub last_reset: u64,
    /// Once false, all agent operations are refused; irreversible.
    pub is_active: bool,
    /// Lifetime amount received through direct payments.
    pub total_received: u64,
    /// Lifetime amount sent through delegated payments.
    pub total_sent: u64,
}

impl Agent {
    /// The record a successful registration creates.
    pub open spec fn registered(
        custodian: Identity,
        agent_identity: Identity,
        daily_limit: u64,
        now: u64,
    ) -> Agent {
        Agent {
            custodian,
            agent_identity,
            daily_limit,
            daily_spent: 0,
            last_reset: now,
            is_active: true,
            total_received: 0,
            total_sent: 0,
        }
    }

    /// Whether two records address the same delegation.
    pub open spec fn same_key(self, other: Agent) -> bool {
        self.custodian == other.custodian && self.agent_identity == other.agent_identity
    }

    /// Whether a delegated payment at time `now` starts a fresh window:
    /// the elapsed time since `last_reset` reaches or exceeds the window
    /// length.
    pub open spec fn rolls_over(self, now: u64) -> bool {
        now >= self.last_reset + DAILY_WINDOW
    }

    /// The spend that counts against the cap at time `now`: zero when a
    /// fresh window starts, the recorded spend otherwise.
    pub open spec fn effective_spent(self, now: u64) -> u64 {
        if self.rolls_over(now) {
            0
        } else {
            self.daily_spent
        }
    }

    /// Whether `caller` may act as this delegation's agent at all: the
    /// record is active and the caller is the delegated identity.
    pub open spec fn agent_authorized(self, caller: Identity) -> bool {
        self.is_active && caller == self.agent_identity
    }

    /// Whether a delegated payment of `amount` at time `now` by `caller`
    /// goes through: the caller is authorized and the amount fits under the
    /// cap of the window in force at `now`.
    pub open spec fn spend_allowed(self, caller: Identity, amount: u64, now: u64) -> bool {
        self.agent_authorized(caller) && self.effective_spent(now) + amount <= self.daily_limit
    }

    /// The error a refused delegated payment reports. Inactivity is
    /// checked first, then the caller's identity, then the cap.
    pub open spec fn spend_error(self, caller: Identity, amount: u64, now: u64) -> ErrorCode {
        if !self.is_active {
            ErrorCode::AgentInactive
        } else if caller != self.agent_identity {
            ErrorCode::UnauthorizedAgent
        } else {
            ErrorCode::DailyLimitExceeded
        }
    }

    /// The record after a delegated payment attempt: on success the spend
    /// counters grow and a fresh window is committed where one started;
    /// a refused attempt changes nothing. The lifetime counter saturates
    /// in this specification; the executable operation refuses by
    /// precondition the inputs on which it would.
    pub open spec fn spend_outcome(self, caller: Identity, amount: u64, now: u64) -> Agent {
        if self.spend_allowed(caller, amount, now) {
            Agent {
                daily_spent: (self.effective_spent(now) + amount) as u64,
                last_reset: if self.rolls_over(now) {
                    now
                } else {
                    self.last_reset
                },
                total_sent: if self.total_sent + amount <= u64::MAX {
                    (self.total_sent + amount) as u64
                } else {
                    u64::MAX
                },
                ..self
            }
        } else {
            self
        }
    }
}

/// Lifecycle state of a payment request: a one-way transition from
/// `Pending` to exactly one of the terminal states.
#[derive(Clone, Copy, Debug, PartialEq, Eq, Structural)]
pub enum PaymentStatus {
    Pending,
    Approved,
    Rejected,
}

/// The key that addresses one payment request. The nonce is
/// caller-supplied and makes several concurrent requests per delegation
/// possible.
#[derive(Clone, Copy, Debug, PartialEq, Eq, Structural)]
pub struct RequestKey {
    pub custodian: Identity,
    pub agent_identity: Identity,
    pub nonce: i64,
}

/// An agent-initiated ask for a custodian-approved payment.
#[derive(Clone, Debug, PartialEq, Eq)]
#[verifier::ext_equal]
pub struct PaymentRequest {
    /// Custodian of the delegation the request belongs to.
    pub custodian: Identity,
    /// Delegated identity that raised the request.
    pub agent_identity: Identity,
    /// Caller-supplied distinguisher of this request.
    pub nonce: i64,
    /// Identity the payment would go to.
    pub recipient: Identity,
    /// Amount the payment would move.
    pub amount: u64,
    /// Free-text purpose, at most `MAX_PURPOSE_CHARS` characters.
    pub purpose: String,
    /// Where the request stands in its lifecycle.
    pub status: PaymentStatus,
    /// When the request was created.
    pub requested_at: u64,
    /// When the request reached a terminal state; absent while pending.
    pub processed_at: Option<u64>,
}

impl PaymentRequest {
    /// The key this request is addressed by.
    pub open spec fn key(self) -> RequestKey {
        RequestKey {
            custodian: self.custodian,
            agent_identity: self.agent_identity,
            nonce: self.nonce,
        }
    }

    /// Internal consistency of a stored request: the purpose is within its
    /// bound and the processing timestamp is present exactly on the
    /// terminal states.
    pub open spec fn wf(self) -> bool {
        &&& self.purpose@.len() <= MAX_PURPOSE_CHARS
        &&& self.status == PaymentStatus::Pending <==> self.processed_at is None
    }

    /// Whether `caller` may settle this request: only the custodian may,
    /// and only while the request is pending.
    pub open spec fn decision_allowed(self, caller: Identity) -> bool {
        caller == self.custodian && self.status == PaymentStatus::Pending
    }

    /// The error a refused settlement reports. The caller's identity is
    /// checked before the lifecycle state.
    pub open spec fn decision_error(self, caller: Identity) -> ErrorCode {
        if caller != self.custodian {
            ErrorCode::UnauthorizedCustodian
        } else {
            ErrorCode::RequestNotPending
        }
    }

    /// The request after a successful approval at time `now`.
    pub open spec fn approved(self, now: u64) -> PaymentRequest {
        PaymentRequest { status: PaymentStatus::Approved, processed_at: Some(now), ..self }
    }

    /// The request after a successful rejection at time `now`.
    pub open spec fn rejected(self, now: u64) -> PaymentRequest {
        PaymentRequest { status: PaymentStatus::Rejected, processed_at: Some(now), ..self }
    }
}

} // verus!
