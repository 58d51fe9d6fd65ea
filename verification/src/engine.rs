//! The authorization engine: one value that holds the registry, the agent
//! records, the payment requests and the event log, with one method per
//! operation.
//!
//! Every operation is a single atomic state transition: it validates
//! authorization and invariants, then either mutates the state, appends one
//! event and (where value moves) returns the transfer instruction for the
//! external ledger, or refuses with an error and changes nothing at all.
//!
//! The environment owns everything the engine does not: it authenticates
//! callers and hands in their identity, reads the clock and hands in `now`,
//! executes returned transfer instructions against the custody accounts,
//! and serializes conflicting operations.

use vstd::prelude::*;

use crate::errors::ErrorCode;
use crate::events::AgentDeactivated;
use crate::events::AgentLimitUpdated;
use crate::events::AgentPaymentMade;
use crate::events::AgentRegistered;
use crate::events::Event;
use crate::events::PaymentApproved;
use crate::events::PaymentMade;
use crate::events::PaymentRejected;
use crate::events::PaymentRequested;
use crate::identity::Identity;
use crate::ledger::TransferInstruction;
use crate::state::Agent;
use crate::state::PaymentRequest;
use crate::state::PaymentStatus;
use crate::state::Registry;
use crate::state::RequestKey;
use crate::state::DAILY_WINDOW;
use crate::state::MAX_PURPOSE_CHARS;

verus! {

/// Whether `a` is the record of the delegation (custodian, agent_identity).
pub open spec fn agent_keyed(a: Agent, custodian: Identity, agent_identity: Identity) -> bool {
    a.custodian == custodian && a.agent_identity == agent_identity
}

/// Whether some record of the delegation (custodian, agent_identity) is
/// stored.
pub open spec fn has_agent(
    agents: Seq<Agent>,
    custodian: Identity,
    agent_identity: Identity,
) -> bool {
    exists|i: int|
        0 <= i < agents.len() && agent_keyed(#[trigger] agents[i], custodian, agent_identity)
}

/// The position of the delegation's record. Meaningful only where
/// `has_agent` holds; unique where the keys are pairwise distinct.
pub open spec fn agent_index(
    agents: Seq<Agent>,
    custodian: Identity,
    agent_identity: Identity,
) -> int {
    choose|i: int|
        0 <= i < agents.len() && agent_keyed(#[trigger] agents[i], custodian, agent_identity)
}

/// Pairwise distinctness of the agents' keys.
pub open spec fn agents_unique(agents: Seq<Agent>) -> bool {
    forall|i: int, j: int|
        0 <= i < agents.len() && 0 <= j < agents.len() && i != j ==> !(#[trigger] agents[i]).same_key(
            #[trigger] agents[j],
        )
}

/// Whether some request with the given key is stored.
pub open spec fn has_request(requests: Seq<PaymentRequest>, key: RequestKey) -> bool {
    exists|i: int| 0 <= i < requests.len() && (#[trigger] requests[i]).key() == key
}

/// The position of the request with the given key. Meaningful only where
/// `has_request` holds; unique where the keys are pairwise distinct.
pub open spec fn request_index(requests: Seq<PaymentRequest>, key: RequestKey) -> int {
    choose|i: int| 0 <= i < requests.len() && (#[trigger] requests[i]).key() == key
}

/// Pairwise distinctness of the requests' keys.
pub open spec fn requests_unique(requests: Seq<PaymentRequest>) -> bool {
    forall|i: int, j: int|
        0 <= i < requests.len() && 0 <= j < requests.len() && i != j ==> (
        #[trigger] requests[i]).key() != (#[trigger] requests[j]).key()
}

proof fn lemma_agent_index_is(
    agents: Seq<Agent>,
    custodian: Identity,
    agent_identity: Identity,
    i: int,
)
    requires
        agents_unique(agents),
        0 <= i < agents.len(),
        agent_keyed(agents[i], custodian, agent_identity),
    ensures
        has_agent(agents, custodian, agent_identity),
        agent_index(agents, custodian, agent_identity) == i,
{
    assert(has_agent(agents, custodian, agent_identity));
    let j = agent_index(agents, custodian, agent_identity);
    assert(agent_keyed(agents[j], custodian, agent_identity));
    if i != j {
        assert(agents[i].same_key(agents[j]));
        assert(false);
    }
}

proof fn lemma_request_index_is(requests: Seq<PaymentRequest>, key: RequestKey, i: int)
    requires
        requests_unique(requests),
        0 <= i < requests.len(),
        requests[i].key() == key,
    ensures
        has_request(requests, key),
        request_index(requests, key) == i,
{
    assert(has_request(requests, key));
    let j = request_index(requests, key);
    assert(requests[j].key() == key);
    if i != j {
        assert(false);
    }
}

proof fn lemma_agents_push_unique(agents: Seq<Agent>, a: Agent)
    requires
        agents_unique(agents),
        !has_agent(agents, a.custodian, a.agent_identity),
    ensures
        agents_unique(agents.push(a)),
{
    let pushed = agents.push(a);
    assert forall|i: int, j: int|
        0 <= i < pushed.len() && 0 <= j < pushed.len() && i != j implies !(
    #[trigger] pushed[i]).same_key(#[trigger] pushed[j]) by {
        if i < agents.len() && j < agents.len() {
            assert(!agents[i].same_key(agents[j]));
        } else if j == agents.len() {
            assert(!agent_keyed(agents[i], a.custodian, a.agent_identity));
        } else {
            assert(!agent_keyed(agents[j], a.custodian, a.agent_identity));
        }
    }
}

proof fn lemma_agents_update_unique(agents: Seq<Agent>, i: int, a: Agent)
    requires
        agents_unique(agents),
        0 <= i < agents.len(),
        a.same_key(agents[i]),
    ensures
        agents_unique(agents.update(i, a)),
{
    let updated = agents.update(i, a);
    assert forall|p: int, q: int|
        0 <= p < updated.len() && 0 <= q < updated.len() && p != q implies !(
    #[trigger] updated[p]).same_key(#[trigger] updated[q]) by {
        assert(!agents[p].same_key(agents[q]));
    }
}

proof fn lemma_requests_push_unique(requests: Seq<PaymentRequest>, r: PaymentRequest)
    requires
        requests_unique(requests),
        !has_request(requests, r.key()),
    ensures
        requests_unique(requests.push(r)),
{
    let pushed = requests.push(r);
    assert forall|i: int, j: int|
        0 <= i < pushed.len() && 0 <= j < pushed.len() && i != j implies (
    #[trigger] pushed[i]).key() != (#[trigger] pushed[j]).key() by {
        if i < requests.len() && j < requests.len() {
            assert(requests[i].key() != requests[j].key());
        } else if j == requests.len() {
            assert(requests[i].key() != r.key());
        } else {
            assert(requests[j].key() != r.key());
        }
    }
}

proof fn lemma_requests_update_unique(requests: Seq<PaymentRequest>, i: int, r: PaymentRequest)
    requires
        requests_unique(requests),
        0 <= i < requests.len(),
        r.key() == requests[i].key(),
    ensures
        requests_unique(requests.update(i, r)),
{
    let updated = requests.update(i, r);
    assert forall|p: int, q: int|
        0 <= p < updated.len() && 0 <= q < updated.len() && p != q implies (
    #[trigger] updated[p]).key() != (#[trigger] updated[q]).key() by {
        assert(requests[p].key() != requests[q].key());
    }
}

/// The whole state the engine acts on.
#[derive(Clone, Debug)]
#[verifier::ext_equal]
pub struct Engine {
    /// The singleton registry; absent until `initialize_registry` ran.
    pub registry: Option<Registry>,
    /// One record per registered delegation, keyed by
    /// (custodian, agent_identity). Never removed; deactivation is the
    /// terminal soft delete.
    pub agents: Vec<Agent>,
    /// One record per payment request, keyed by
    /// (custodian, agent_identity, nonce). Never removed.
    pub requests: Vec<PaymentRequest>,
    /// Append-only log of the domain events the operations emitted.
    pub events: Vec<Event>,
}

impl Engine {
    /// The engine's invariant: entity keys are unique, the registry's
    /// counter agrees with the stored records, and every stored request is
    /// internally consistent. Established by `new` and preserved by every
    /// operation.
    pub open spec fn wf(self) -> bool {
        &&& agents_unique(self.agents@)
        &&& requests_unique(self.requests@)
        &&& match self.registry {
            Some(r) => r.agent_count == self.agents@.len(),
            None => self.agents@.len() == 0,
        }
        &&& forall|i: int| 0 <= i < self.requests@.len() ==> (#[trigger] self.requests@[i]).wf()
    }

    /// An engine over an empty scope: no registry, no agents, no requests,
    /// no events.
    pub fn new() -> (e: Engine)
        ensures
            e.wf(),
            e.registry is None,
            e.agents@.len() == 0,
            e.requests@.len() == 0,
            e.events@.len() == 0,
    {
        Engine { registry: None, agents: Vec::new(), requests: Vec::new(), events: Vec::new() }
    }

    /// Looks the delegation (custodian, agent_identity) up in the stored
    /// records.
    fn find_agent(&self, custodian: Identity, agent_identity: Identity) -> (r: Option<usize>)
        ensures
            match r {
                Some(i) => i < self.agents@.len() && agent_keyed(
                    self.agents@[i as int],
                    custodian,
                    agent_identity,
                ),
                None => !has_agent(self.agents@, custodian, agent_identity),
            },
    {
        let mut i: usize = 0;
        while i < self.agents.len()
            invariant
                i <= self.agents@.len(),
                forall|j: int|
                    0 <= j < i ==> !agent_keyed(
                        #[trigger] self.agents@[j],
                        custodian,
                        agent_identity,
                    ),
            decreases self.agents@.len() - i,
        {
            if self.agents[i].custodian == custodian && self.agents[i].agent_identity
                == agent_identity {
                return Some(i);
            }
            i = i + 1;
        }
        None
    }

    /// Looks the request with the given key up in the stored records.
    fn find_request(&self, key: RequestKey) -> (r: Option<usize>)
        ensures
            match r {
                Some(i) => i < self.requests@.len() && self.requests@[i as int].key() == key,
                None => !has_request(self.requests@, key),
            },
    {
        let mut i: usize = 0;
        while i < self.requests.len()
            invariant
                i <= self.requests@.len(),
                forall|j: int| 0 <= j < i ==> (#[trigger] self.requests@[j]).key() != key,
            decreases self.requests@.len() - i,
        {
            let stored = &self.requests[i];
            if stored.custodian == key.custodian && stored.agent_identity == key.agent_identity
                && stored.nonce == key.nonce {
                return Some(i);
            }
            i = i + 1;
        }
        None
    }

    /// Creates the singleton registry with `caller` as its authority and
    /// zeroed counters. Refused when the registry already exists.
    pub fn initialize_registry(&mut self, caller: Identity) -> (r: Result<(), ErrorCode>)
        requires
            old(self).wf(),
        ensures
            final(self).wf(),
            old(self).registry is Some ==> r == Err::<(), ErrorCode>(ErrorCode::DuplicateKey)
                && *final(self) == *old(self),
            old(self).registry is None ==> {
                &&& r == Ok::<(), ErrorCode>(())
                &&& final(self).registry == Some(
                    Registry { authority: caller, agent_count: 0, total_volume: 0 },
                )
                &&& final(self).agents == old(self).agents
                &&& final(self).requests == old(self).requests
                &&& final(self).events == old(self).events
            },
    {
        if self.registry.is_some() {
            return Err(ErrorCode::DuplicateKey);
        }
        self.registry = Some(Registry { authority: caller, agent_count: 0, total_volume: 0 });
        Ok(())
    }

    /// Registers the delegation (caller, agent_identity) with the given
    /// daily cap: the caller is its custodian. Refused when the pair is
    /// already registered. On success the registry's agent counter grows by
    /// one and `AgentRegistered` is emitted.
    pub fn register_agent(
        &mut self,
        caller: Identity,
        agent_identity: Identity,
        daily_limit: u64,
        now: u64,
    ) -> (r: Result<(), ErrorCode>)
        requires
            old(self).wf(),
            old(self).registry is Some,
        ensures
            final(self).wf(),
            has_agent(old(self).agents@, caller, agent_identity) ==> r == Err::<(), ErrorCode>(
                ErrorCode::DuplicateKey,
            ) && *final(self) == *old(self),
            !has_agent(old(self).agents@, caller, agent_identity) ==> {
                &&& r == Ok::<(), ErrorCode>(())
                &&& final(self).agents@ == old(self).agents@.push(
                    Agent::registered(caller, agent_identity, daily_limit, now),
                )
                &&& final(self).registry == Some(
                    Registry {
                        agent_count: (old(self).registry.unwrap().agent_count + 1) as u64,
                        ..old(self).registry.unwrap()
                    },
                )
                &&& final(self).requests == old(self).requests
                &&& final(self).events@ == old(self).events@.push(
                    Event::AgentRegistered(
                        AgentRegistered {
                            custodian: caller,
                            agent_identity,
                            daily_limit,
                            timestamp: now,
                        },
                    ),
                )
            },
    {
        if self.find_agent(caller, agent_identity).is_some() {
            return Err(ErrorCode::DuplicateKey);
        }
        let reg = self.registry.unwrap();
        let record = Agent {
            custodian: caller,
            agent_identity,
            daily_limit,
            daily_spent: 0,
            last_reset: now,
            is_active: true,
            total_received: 0,
            total_sent: 0,
        };
        proof {
            lemma_agents_push_unique(self.agents@, record);
        }
        self.agents.push(record);
        let count = self.agents.len();
        self.registry = Some(
            Registry {
                authority: reg.authority,
                agent_count: count as u64,
                total_volume: reg.total_volume,
            },
        );
        self.events.push(
            Event::AgentRegistered(
                AgentRegistered { custodian: caller, agent_identity, daily_limit, timestamp: now },
            ),
        );
        Ok(())
    }

    /// Sets the delegation's daily cap to `new_limit`. Only the custodian
    /// may; no floor or ceiling is enforced, a cap below the current spend
    /// simply blocks further delegated spend until the next window. On
    /// success `AgentLimitUpdated` is emitted.
    pub fn update_agent_limit(
        &mut self,
        caller: Identity,
        custodian: Identity,
        agent_identity: Identity,
        new_limit: u64,
        now: u64,
    ) -> (r: Result<(), ErrorCode>)
        requires
            old(self).wf(),
            has_agent(old(self).agents@, custodian, agent_identity),
        ensures
            final(self).wf(),
            caller != custodian ==> r == Err::<(), ErrorCode>(ErrorCode::UnauthorizedCustodian)
                && *final(self) == *old(self),
            caller == custodian ==> {
                let i = agent_index(old(self).agents@, custodian, agent_identity);
                &&& r == Ok::<(), ErrorCode>(())
                &&& final(self).agents@ == old(self).agents@.update(
                    i,
                    Agent { daily_limit: new_limit, ..old(self).agents@[i] },
                )
                &&& final(self).registry == old(self).registry
                &&& final(self).requests == old(self).requests
                &&& final(self).events@ == old(self).events@.push(
                    Event::AgentLimitUpdated(
                        AgentLimitUpdated { agent_identity, new_limit, timestamp: now },
                    ),
                )
            },
    {
        let idx = self.find_agent(custodian, agent_identity).unwrap();
        proof {
            lemma_agent_index_is(self.agents@, custodian, agent_identity, idx as int);
        }
        let a = self.agents[idx];
        if caller != a.custodian {
            return Err(ErrorCode::UnauthorizedCustodian);
        }
        let updated = Agent { daily_limit: new_limit, ..a };
        proof {
            lemma_agents_update_unique(self.agents@, idx as int, updated);
        }
        self.agents[idx] = updated;
        self.events.push(
            Event::AgentLimitUpdated(AgentLimitUpdated { agent_identity, new_limit, timestamp: now }),
        );
        Ok(())
    }

    /// Turns the delegation off for good: no operation acts for an
    /// inactive agent afterwards, and no reactivation exists. Only the
    /// custodian may. On success `AgentDeactivated` is emitted.
    pub fn deactivate_agent(
        &mut self,
        caller: Identity,
        custodian: Identity,
        agent_identity: Identity,
        now: u64,
    ) -> (r: Result<(), ErrorCode>)
        requires
            old(self).wf(),
            has_agent(old(self).agents@, custodian, agent_identity),
        ensures
            final(self).wf(),
            caller != custodian ==> r == Err::<(), ErrorCode>(ErrorCode::UnauthorizedCustodian)
                && *final(self) == *old(self),
            caller == custodian ==> {
                let i = agent_index(old(self).agents@, custodian, agent_identity);
                &&& r == Ok::<(), ErrorCode>(())
                &&& final(self).agents@ == old(self).agents@.update(
                    i,
                    Agent { is_active: false, ..old(self).agents@[i] },
                )
                &&& final(self).registry == old(self).registry
                &&& final(self).requests == old(self).requests
                &&& final(self).events@ == old(self).events@.push(
                    Event::AgentDeactivated(AgentDeactivated { agent_identity, timestamp: now }),
                )
            },
    {
        let idx = self.find_agent(custodian, agent_identity).unwrap();
        proof {
            lemma_agent_index_is(self.agents@, custodian, agent_identity, idx as int);
        }
        let a = self.agents[idx];
        if caller != a.custodian {
            return Err(ErrorCode::UnauthorizedCustodian);
        }
        let updated = Agent { is_active: false, ..a };
        proof {
            lemma_agents_update_unique(self.agents@, idx as int, updated);
        }
        self.agents[idx] = updated;
        self.events.push(
            Event::AgentDeactivated(AgentDeactivated { agent_identity, timestamp: now }),
        );
        Ok(())
    }

    /// A third party `caller` pays the agent: the amount moves from the
    /// caller's custody account to the custodian's, on the caller's own
    /// authority, and the lifetime counters grow. This path never touches
    /// the daily cap; it is the agent being paid, not spending. Requires an
    /// active agent. On success `PaymentMade` is emitted and the transfer
    /// instruction is returned for the ledger to execute.
    pub fn pay_agent(
        &mut self,
        caller: Identity,
        custodian: Identity,
        agent_identity: Identity,
        amount: u64,
        now: u64,
    ) -> (r: Result<TransferInstruction, ErrorCode>)
        requires
            old(self).wf(),
            old(self).registry is Some,
            has_agent(old(self).agents@, custodian, agent_identity),
            old(self).agents@[agent_index(old(self).agents@, custodian, agent_identity)].is_active
                ==> {
                &&& old(self).agents@[agent_index(old(self).agents@, custodian, agent_identity)]
                    .total_received + amount <= u64::MAX
                &&& old(self).registry.unwrap().total_volume + amount <= u64::MAX
            },
        ensures
            final(self).wf(),
            ({
                let i = agent_index(old(self).agents@, custodian, agent_identity);
                let a = old(self).agents@[i];
                if a.is_active {
                    &&& r == Ok::<TransferInstruction, ErrorCode>(
                        TransferInstruction {
                            from: caller,
                            to: custodian,
                            amount,
                            authorized_by: caller,
                        },
                    )
                    &&& final(self).agents@ == old(self).agents@.update(
                        i,
                        Agent { total_received: (a.total_received + amount) as u64, ..a },
                    )
                    &&& final(self).registry == Some(
                        Registry {
                            total_volume: (old(self).registry.unwrap().total_volume + amount) as u64,
                            ..old(self).registry.unwrap()
                        },
                    )
                    &&& final(self).requests == old(self).requests
                    &&& final(self).events@ == old(self).events@.push(
                        Event::PaymentMade(
                            PaymentMade {
                                from: caller,
                                to_agent: agent_identity,
                                to_custodian: custodian,
                                amount,
                                timestamp: now,
                            },
                        ),
                    )
                } else {
                    r == Err::<TransferInstruction, ErrorCode>(ErrorCode::AgentInactive) && *final(self)
                        == *old(self)
                }
            }),
    {
        let idx = self.find_agent(custodian, agent_identity).unwrap();
        proof {
            lemma_agent_index_is(self.agents@, custodian, agent_identity, idx as int);
        }
        let a = self.agents[idx];
        if !a.is_active {
            return Err(ErrorCode::AgentInactive);
        }
        let reg = self.registry.unwrap();
        let updated = Agent { total_received: a.total_received + amount, ..a };
        proof {
            lemma_agents_update_unique(self.agents@, idx as int, updated);
        }
        self.agents[idx] = updated;
        self.registry = Some(
            Registry {
                authority: reg.authority,
                agent_count: reg.agent_count,
                total_volume: reg.total_volume + amount,
            },
        );
        self.events.push(
            Event::PaymentMade(
                PaymentMade {
                    from: caller,
                    to_agent: agent_identity,
                    to_custodian: custodian,
                    amount,
                    timestamp: now,
                },
            ),
        );
        Ok(TransferInstruction { from: caller, to: custodian, amount, authorized_by: caller })
    }

    /// The agent spends under its delegated cap: the amount moves from the
    /// custodian's custody account to the recipient, on the delegated
    /// agent's authority. Requires an active agent and the caller to be the
    /// delegated identity; where the elapsed time since `last_reset`
    /// reaches the window length, the window rolls over before the cap is
    /// evaluated. A payment over the cap is refused with no state change.
    /// On success the spend counters grow, `AgentPaymentMade` is emitted
    /// with the post-update spend, and the transfer instruction is returned
    /// for the ledger to execute.
    pub fn agent_pay(
        &mut self,
        caller: Identity,
        custodian: Identity,
        agent_identity: Identity,
        recipient: Identity,
        amount: u64,
        now: u64,
    ) -> (r: Result<TransferInstruction, ErrorCode>)
        requires
            old(self).wf(),
            has_agent(old(self).agents@, custodian, agent_identity),
            old(self).agents@[agent_index(old(self).agents@, custodian, agent_identity)]
                .spend_allowed(caller, amount, now) ==> old(self).agents@[agent_index(
                old(self).agents@,
                custodian,
                agent_identity,
            )].total_sent + amount <= u64::MAX,
        ensures
            final(self).wf(),
            ({
                let i = agent_index(old(self).agents@, custodian, agent_identity);
                let a = old(self).agents@[i];
                if a.spend_allowed(caller, amount, now) {
                    &&& r == Ok::<TransferInstruction, ErrorCode>(
                        TransferInstruction {
                            from: custodian,
                            to: recipient,
                            amount,
                            authorized_by: agent_identity,
                        },
                    )
                    &&& final(self).agents@ == old(self).agents@.update(
                        i,
                        a.spend_outcome(caller, amount, now),
                    )
                    &&& final(self).agents@[i].daily_spent <= final(self).agents@[i].daily_limit
                    &&& final(self).registry == old(self).registry
                    &&& final(self).requests == old(self).requests
                    &&& final(self).events@ == old(self).events@.push(
                        Event::AgentPaymentMade(
                            AgentPaymentMade {
                                agent: agent_identity,
                                recipient,
                                amount,
                                daily_spent: a.spend_outcome(caller, amount, now).daily_spent,
                                timestamp: now,
                            },
                        ),
                    )
                } else {
                    r == Err::<TransferInstruction, ErrorCode>(
                        a.spend_error(caller, amount, now),
                    ) && *final(self) == *old(self)
                }
            }),
    {
        let idx = self.find_agent(custodian, agent_identity).unwrap();
        proof {
            lemma_agent_index_is(self.agents@, custodian, agent_identity, idx as int);
        }
        let a = self.agents[idx];
        if !a.is_active {
            return Err(ErrorCode::AgentInactive);
        }
        if caller != a.agent_identity {
            return Err(ErrorCode::UnauthorizedAgent);
        }
        let rolls = now >= a.last_reset && now - a.last_reset >= DAILY_WINDOW;
        let effective: u64 = if rolls {
            0
        } else {
            a.daily_spent
        };
        if !(effective <= a.daily_limit && amount <= a.daily_limit - effective) {
            return Err(ErrorCode::DailyLimitExceeded);
        }
        let updated = Agent {
            daily_spent: effective + amount,
            last_reset: if rolls {
                now
            } else {
                a.last_reset
            },
            total_sent: a.total_sent + amount,
            ..a
        };
        proof {
            lemma_agents_update_unique(self.agents@, idx as int, updated);
        }
        self.agents[idx] = updated;
        self.events.push(
            Event::AgentPaymentMade(
                AgentPaymentMade {
                    agent: agent_identity,
                    recipient,
                    amount,
                    daily_spent: updated.daily_spent,
                    timestamp: now,
                },
            ),
        );
        Ok(TransferInstruction { from: custodian, to: recipient, amount, authorized_by: agent_identity })
    }

    /// The agent asks for a custodian-approved payment outside its cap.
    /// Requires an active agent, the caller to be the delegated identity,
    /// a purpose within the character bound, and a nonce that makes the
    /// request's key fresh. On success a pending request is stored and
    /// `PaymentRequested` is emitted; nothing moves yet.
    pub fn request_payment(
        &mut self,
        caller: Identity,
        custodian: Identity,
        agent_identity: Identity,
        recipient: Identity,
        amount: u64,
        purpose: String,
        nonce: i64,
        now: u64,
    ) -> (r: Result<(), ErrorCode>)
        requires
            old(self).wf(),
            has_agent(old(self).agents@, custodian, agent_identity),
        ensures
            final(self).wf(),
            ({
                let a = old(self).agents@[agent_index(old(self).agents@, custodian, agent_identity)];
                let key = RequestKey { custodian, agent_identity, nonce };
                if !a.is_active {
                    r == Err::<(), ErrorCode>(ErrorCode::AgentInactive) && *final(self) == *old(self)
                } else if caller != agent_identity {
                    r == Err::<(), ErrorCode>(ErrorCode::UnauthorizedAgent) && *final(self) == *old(self)
                } else if purpose@.len() > MAX_PURPOSE_CHARS {
                    r == Err::<(), ErrorCode>(ErrorCode::PurposeTooLong) && *final(self) == *old(self)
                } else if has_request(old(self).requests@, key) {
                    r == Err::<(), ErrorCode>(ErrorCode::DuplicateKey) && *final(self) == *old(self)
                } else {
                    &&& r == Ok::<(), ErrorCode>(())
                    &&& final(self).requests@ == old(self).requests@.push(
                        PaymentRequest {
                            custodian,
                            agent_identity,
                            nonce,
                            recipient,
                            amount,
                            purpose,
                            status: PaymentStatus::Pending,
                            requested_at: now,
                            processed_at: None,
                        },
                    )
                    &&& final(self).agents == old(self).agents
                    &&& final(self).registry == old(self).registry
                    &&& final(self).events@ == old(self).events@.push(
                        Event::PaymentRequested(
                            PaymentRequested {
                                request_id: key,
                                agent: agent_identity,
                                recipient,
                                amount,
                                timestamp: now,
                            },
                        ),
                    )
                }
            }),
    {
        let idx = self.find_agent(custodian, agent_identity).unwrap();
        proof {
            lemma_agent_index_is(self.agents@, custodian, agent_identity, idx as int);
        }
        let a = self.agents[idx];
        if !a.is_active {
            return Err(ErrorCode::AgentInactive);
        }
        if caller != a.agent_identity {
            return Err(ErrorCode::UnauthorizedAgent);
        }
        if purpose.as_str().unicode_len() > MAX_PURPOSE_CHARS {
            return Err(ErrorCode::PurposeTooLong);
        }
        let key = RequestKey { custodian, agent_identity, nonce };
        if self.find_request(key).is_some() {
            return Err(ErrorCode::DuplicateKey);
        }
        let record = PaymentRequest {
            custodian,
            agent_identity,
            nonce,
            recipient,
            amount,
            purpose,
            status: PaymentStatus::Pending,
            requested_at: now,
            processed_at: None,
        };
        proof {
            lemma_requests_push_unique(self.requests@, record);
        }
        self.requests.push(record);
        self.events.push(
            Event::PaymentRequested(
                PaymentRequested {
                    request_id: key,
                    agent: agent_identity,
                    recipient,
                    amount,
                    timestamp: now,
                },
            ),
        );
        Ok(())
    }

    /// The custodian approves a pending request: the amount moves from the
    /// custodian's custody account to the recipient, on the custodian's own
    /// authority, bypassing the daily cap. Only the request's custodian
    /// may, and only while the request is pending. On success the request
    /// is terminally `Approved`, `PaymentApproved` is emitted, and the
    /// transfer instruction is returned for the ledger to execute.
    pub fn approve_payment(&mut self, caller: Identity, key: RequestKey, now: u64) -> (r: Result<
        TransferInstruction,
        ErrorCode,
    >)
        requires
            old(self).wf(),
            has_request(old(self).requests@, key),
        ensures
            final(self).wf(),
            ({
                let i = request_index(old(self).requests@, key);
                let rq = old(self).requests@[i];
                if rq.decision_allowed(caller) {
                    &&& r == Ok::<TransferInstruction, ErrorCode>(
                        TransferInstruction {
                            from: rq.custodian,
                            to: rq.recipient,
                            amount: rq.amount,
                            authorized_by: rq.custodian,
                        },
                    )
                    &&& final(self).requests@ == old(self).requests@.update(i, rq.approved(now))
                    &&& final(self).agents == old(self).agents
                    &&& final(self).registry == old(self).registry
                    &&& final(self).events@ == old(self).events@.push(
                        Event::PaymentApproved(
                            PaymentApproved {
                                request_id: key,
                                agent: rq.agent_identity,
                                recipient: rq.recipient,
                                amount: rq.amount,
                                timestamp: now,
                            },
                        ),
                    )
                } else {
                    r == Err::<TransferInstruction, ErrorCode>(rq.decision_error(caller)) && *final(self)
                        == *old(self)
                }
            }),
    {
        let idx = self.find_request(key).unwrap();
        proof {
            lemma_request_index_is(self.requests@, key, idx as int);
        }
        if caller != self.requests[idx].custodian {
            return Err(ErrorCode::UnauthorizedCustodian);
        }
        if self.requests[idx].status != PaymentStatus::Pending {
            return Err(ErrorCode::RequestNotPending);
        }
        let amount = self.requests[idx].amount;
        let recipient = self.requests[idx].recipient;
        let agent_identity = self.requests[idx].agent_identity;
        let custodian = self.requests[idx].custodian;
        let updated = PaymentRequest {
            custodian,
            agent_identity,
            nonce: self.requests[idx].nonce,
            recipient,
            amount,
            purpose: self.requests[idx].purpose.clone(),
            status: PaymentStatus::Approved,
            requested_at: self.requests[idx].requested_at,
            processed_at: Some(now),
        };
        proof {
            lemma_requests_update_unique(self.requests@, idx as int, updated);
            assert(updated =~= old(self).requests@[idx as int].approved(now));
        }
        self.requests[idx] = updated;
        self.events.push(
            Event::PaymentApproved(
                PaymentApproved {
                    request_id: key,
                    agent: agent_identity,
                    recipient,
                    amount,
                    timestamp: now,
                },
            ),
        );
        Ok(TransferInstruction { from: custodian, to: recipient, amount, authorized_by: custodian })
    }

    /// The custodian rejects a pending request: the request is terminally
    /// `Rejected` and nothing moves. Only the request's custodian may, and
    /// only while the request is pending. On success `PaymentRejected` is
    /// emitted.
    pub fn reject_payment(&mut self, caller: Identity, key: RequestKey, now: u64) -> (r: Result<
        (),
        ErrorCode,
    >)
        requires
            old(self).wf(),
            has_request(old(self).requests@, key),
        ensures
            final(self).wf(),
            ({
                let i = request_index(old(self).requests@, key);
                let rq = old(self).requests@[i];
                if rq.decision_allowed(caller) {
                    &&& r == Ok::<(), ErrorCode>(())
                    &&& final(self).requests@ == old(self).requests@.update(i, rq.rejected(now))
                    &&& final(self).agents == old(self).agents
                    &&& final(self).registry == old(self).registry
                    &&& final(self).events@ == old(self).events@.push(
                        Event::PaymentRejected(PaymentRejected { request_id: key, timestamp: now }),
                    )
                } else {
                    r == Err::<(), ErrorCode>(rq.decision_error(caller)) && *final(self) == *old(self)
                }
            }),
    {
        let idx = self.find_request(key).unwrap();
        proof {
            lemma_request_index_is(self.requests@, key, idx as int);
        }
        if caller != self.requests[idx].custodian {
            return Err(ErrorCode::UnauthorizedCustodian);
        }
        if self.requests[idx].status != PaymentStatus::Pending {
            return Err(ErrorCode::RequestNotPending);
        }
        let updated = PaymentRequest {
            custodian: self.requests[idx].custodian,
            agent_identity: self.requests[idx].agent_identity,
            nonce: self.requests[idx].nonce,
            recipient: self.requests[idx].recipient,
            amount: self.requests[idx].amount,
            purpose: self.requests[idx].purpose.clone(),
            status: PaymentStatus::Rejected,
            requested_at: self.requests[idx].requested_at,
            processed_at: Some(now),
        };
        proof {
            lemma_requests_update_unique(self.requests@, idx as int, updated);
            assert(updated =~= old(self).requests@[idx as int].rejected(now));
        }
        self.requests[idx] = updated;
        self.events.push(
            Event::PaymentRejected(PaymentRejected { request_id: key, timestamp: now }),
        );
        Ok(())
    }
}

} // verus!
