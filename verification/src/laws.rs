//! The engine's laws: properties that relate several operations or whole
//! call sequences, proved over the same specification functions the
//! operations' contracts use.

use vstd::prelude::*;

use crate::engine::agent_keyed;
use crate::engine::has_agent;
use crate::errors::ErrorCode;
use crate::identity::Identity;
use crate::state::Agent;
use crate::state::PaymentRequest;
use crate::state::DAILY_WINDOW;

verus! {

/// The agent record after a whole sequence of delegated-payment attempts,
/// each given as (caller, amount, now).
pub open spec fn spend_many(a: Agent, calls: Seq<(Identity, u64, u64)>) -> Agent
    decreases calls.len(),
{
    if calls.len() == 0 {
        a
    } else {
        spend_many(a.spend_outcome(calls[0].0, calls[0].1, calls[0].2), calls.drop_first())
    }
}

/// A single delegated payment that goes through lands under the cap, and
/// one that is refused changes nothing.
pub proof fn lemma_spend_keeps_cap(a: Agent, caller: Identity, amount: u64, now: u64)
    ensures
        a.spend_allowed(caller, amount, now) ==> a.spend_outcome(
            caller,
            amount,
            now,
        ).daily_spent <= a.spend_outcome(caller, amount, now).daily_limit,
        !a.spend_allowed(caller, amount, now) ==> a.spend_outcome(caller, amount, now) == a,
{
}

/// For every agent within its cap, any sequence of delegated-payment
/// attempts leaves `daily_spent <= daily_limit`: each attempt either goes
/// through and lands under the cap, or is refused and changes nothing.
pub proof fn lemma_daily_cap_after_spend_sequence(a: Agent, calls: Seq<(Identity, u64, u64)>)
    requires
        a.daily_spent <= a.daily_limit,
    ensures
        spend_many(a, calls).daily_spent <= spend_many(a, calls).daily_limit,
    decreases calls.len(),
{
    if calls.len() > 0 {
        let next = a.spend_outcome(calls[0].0, calls[0].1, calls[0].2);
        assert(next.daily_spent <= next.daily_limit);
        lemma_daily_cap_after_spend_sequence(next, calls.drop_first());
    }
}

/// Rollover: where the elapsed time since the window's start reaches the
/// window length, the spend that counts is zero before the cap is
/// evaluated, a payment goes through exactly when its amount alone fits
/// the cap, and a payment that goes through starts the new window at `now`
/// with the new amount as its whole spend.
pub proof fn lemma_rollover_resets_before_check(a: Agent, caller: Identity, amount: u64, now: u64)
    requires
        now >= a.last_reset + DAILY_WINDOW,
    ensures
        a.effective_spent(now) == 0,
        a.spend_allowed(caller, amount, now) <==> (a.is_active && caller == a.agent_identity
            && amount <= a.daily_limit),
        a.spend_allowed(caller, amount, now) ==> a.spend_outcome(caller, amount, now).daily_spent
            == amount && a.spend_outcome(caller, amount, now).last_reset == now,
{
}

/// A delegated payment invoked by an identity other than the delegated one
/// is refused as `UnauthorizedAgent` and changes nothing, whatever the
/// amount and the time.
pub proof fn lemma_agent_authorization(a: Agent, caller: Identity, amount: u64, now: u64)
    requires
        a.is_active,
        caller != a.agent_identity,
    ensures
        !a.spend_allowed(caller, amount, now),
        a.spend_error(caller, amount, now) == ErrorCode::UnauthorizedAgent,
        a.spend_outcome(caller, amount, now) == a,
{
}

/// A settlement of a request invoked by an identity other than the
/// request's custodian is refused as `UnauthorizedCustodian`, whatever the
/// request's state.
pub proof fn lemma_custodian_authorization(r: PaymentRequest, caller: Identity)
    requires
        caller != r.custodian,
    ensures
        !r.decision_allowed(caller),
        r.decision_error(caller) == ErrorCode::UnauthorizedCustodian,
{
}

/// The request lifecycle is monotonic: once a request was approved or
/// rejected, no identity may settle it again, and for the custodian the
/// refusal reads `RequestNotPending`.
pub proof fn lemma_request_monotonic(r: PaymentRequest, now: u64, later: Identity)
    ensures
        !r.approved(now).decision_allowed(later),
        !r.rejected(now).decision_allowed(later),
        later == r.custodian ==> r.approved(now).decision_error(later)
            == ErrorCode::RequestNotPending,
        later == r.custodian ==> r.rejected(now).decision_error(later)
            == ErrorCode::RequestNotPending,
{
}

/// After a successful registration the pair is stored, so a second
/// registration of the same (custodian, agent_identity) pair finds the key
/// taken and is refused.
pub proof fn lemma_registration_guard(
    agents: Seq<Agent>,
    custodian: Identity,
    agent_identity: Identity,
    daily_limit: u64,
    now: u64,
)
    ensures
        has_agent(
            agents.push(Agent::registered(custodian, agent_identity, daily_limit, now)),
            custodian,
            agent_identity,
        ),
{
    let pushed = agents.push(Agent::registered(custodian, agent_identity, daily_limit, now));
    assert(agent_keyed(pushed[agents.len() as int], custodian, agent_identity));
}

} // verus!
