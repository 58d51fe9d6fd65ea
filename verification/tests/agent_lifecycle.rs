use agent_pay::Engine;
use agent_pay::ErrorCode;
use agent_pay::Event;
use agent_pay::Identity;
use agent_pay::events::AgentDeactivated;
use agent_pay::events::AgentLimitUpdated;
use agent_pay::events::AgentRegistered;

fn ids() -> (Identity, Identity, Identity) {
    (Identity::new(1), Identity::new(2), Identity::new(3))
}

#[test]
fn initialize_registry_sets_authority_and_zeroed_counters() {
    let mut e = Engine::new();
    let (cust, _, _) = ids();
    assert_eq!(e.initialize_registry(cust), Ok(()));
    let reg = e.registry.unwrap();
    assert_eq!(reg.authority, cust);
    assert_eq!(reg.agent_count, 0);
    assert_eq!(reg.total_volume, 0);
    assert!(e.events.is_empty());
}

#[test]
fn initialize_registry_twice_fails() {
    let mut e = Engine::new();
    let (cust, agent, _) = ids();
    assert_eq!(e.initialize_registry(cust), Ok(()));
    assert_eq!(e.initialize_registry(agent), Err(ErrorCode::DuplicateKey));
    assert_eq!(e.registry.unwrap().authority, cust);
}

#[test]
fn register_agent_creates_record_and_counts() {
    let mut e = Engine::new();
    let (cust, agent, _) = ids();
    e.initialize_registry(cust).unwrap();
    assert_eq!(e.register_agent(cust, agent, 1000, 50), Ok(()));
    assert_eq!(e.registry.unwrap().agent_count, 1);
    assert_eq!(e.agents.len(), 1);
    let a = &e.agents[0];
    assert_eq!(a.custodian, cust);
    assert_eq!(a.agent_identity, agent);
    assert_eq!(a.daily_limit, 1000);
    assert_eq!(a.daily_spent, 0);
    assert_eq!(a.last_reset, 50);
    assert!(a.is_active);
    assert_eq!(a.total_received, 0);
    assert_eq!(a.total_sent, 0);
    assert_eq!(
        e.events.last(),
        Some(&Event::AgentRegistered(AgentRegistered {
            custodian: cust,
            agent_identity: agent,
            daily_limit: 1000,
            timestamp: 50,
        }))
    );
}

#[test]
fn register_same_pair_twice_fails_and_count_stays() {
    let mut e = Engine::new();
    let (cust, agent, _) = ids();
    e.initialize_registry(cust).unwrap();
    assert_eq!(e.register_agent(cust, agent, 1000, 50), Ok(()));
    assert_eq!(e.register_agent(cust, agent, 2000, 60), Err(ErrorCode::DuplicateKey));
    assert_eq!(e.registry.unwrap().agent_count, 1);
    assert_eq!(e.agents.len(), 1);
    assert_eq!(e.agents[0].daily_limit, 1000);
    assert_eq!(e.events.len(), 1);
}

#[test]
fn register_two_distinct_pairs_counts_two() {
    let mut e = Engine::new();
    let (cust, agent, other) = ids();
    e.initialize_registry(cust).unwrap();
    assert_eq!(e.register_agent(cust, agent, 1000, 50), Ok(()));
    assert_eq!(e.register_agent(cust, other, 500, 55), Ok(()));
    assert_eq!(e.register_agent(other, agent, 700, 58), Ok(()));
    assert_eq!(e.registry.unwrap().agent_count, 3);
    assert_eq!(e.agents.len(), 3);
}

#[test]
fn update_agent_limit_by_custodian() {
    let mut e = Engine::new();
    let (cust, agent, _) = ids();
    e.initialize_registry(cust).unwrap();
    e.register_agent(cust, agent, 1000, 50).unwrap();
    assert_eq!(e.update_agent_limit(cust, cust, agent, 2500, 60), Ok(()));
    assert_eq!(e.agents[0].daily_limit, 2500);
    assert_eq!(
        e.events.last(),
        Some(&Event::AgentLimitUpdated(AgentLimitUpdated {
            agent_identity: agent,
            new_limit: 2500,
            timestamp: 60,
        }))
    );
}

#[test]
fn update_agent_limit_by_stranger_fails() {
    let mut e = Engine::new();
    let (cust, agent, stranger) = ids();
    e.initialize_registry(cust).unwrap();
    e.register_agent(cust, agent, 1000, 50).unwrap();
    assert_eq!(
        e.update_agent_limit(stranger, cust, agent, 1, 60),
        Err(ErrorCode::UnauthorizedCustodian)
    );
    assert_eq!(e.agents[0].daily_limit, 1000);
    assert_eq!(e.events.len(), 1);
}

#[test]
fn update_agent_limit_by_the_agent_itself_fails() {
    let mut e = Engine::new();
    let (cust, agent, _) = ids();
    e.initialize_registry(cust).unwrap();
    e.register_agent(cust, agent, 1000, 50).unwrap();
    assert_eq!(
        e.update_agent_limit(agent, cust, agent, 9999, 60),
        Err(ErrorCode::UnauthorizedCustodian)
    );
    assert_eq!(e.agents[0].daily_limit, 1000);
}

#[test]
fn update_limit_below_spent_blocks_spend_until_rollover() {
    let mut e = Engine::new();
    let (cust, agent, rcpt) = ids();
    e.initialize_registry(cust).unwrap();
    e.register_agent(cust, agent, 1000, 0).unwrap();
    assert!(e.agent_pay(agent, cust, agent, rcpt, 800, 10).is_ok());
    assert_eq!(e.update_agent_limit(cust, cust, agent, 500, 20), Ok(()));
    assert_eq!(
        e.agent_pay(agent, cust, agent, rcpt, 1, 30),
        Err(ErrorCode::DailyLimitExceeded)
    );
    assert_eq!(e.agents[0].daily_spent, 800);
    assert!(e.agent_pay(agent, cust, agent, rcpt, 400, 86400).is_ok());
    assert_eq!(e.agents[0].daily_spent, 400);
}

#[test]
fn deactivate_agent_by_custodian() {
    let mut e = Engine::new();
    let (cust, agent, _) = ids();
    e.initialize_registry(cust).unwrap();
    e.register_agent(cust, agent, 1000, 50).unwrap();
    assert_eq!(e.deactivate_agent(cust, cust, agent, 70), Ok(()));
    assert!(!e.agents[0].is_active);
    assert_eq!(
        e.events.last(),
        Some(&Event::AgentDeactivated(AgentDeactivated { agent_identity: agent, timestamp: 70 }))
    );
}

#[test]
fn deactivate_agent_by_stranger_fails() {
    let mut e = Engine::new();
    let (cust, agent, stranger) = ids();
    e.initialize_registry(cust).unwrap();
    e.register_agent(cust, agent, 1000, 50).unwrap();
    assert_eq!(
        e.deactivate_agent(stranger, cust, agent, 70),
        Err(ErrorCode::UnauthorizedCustodian)
    );
    assert!(e.agents[0].is_active);
}

#[test]
fn deactivated_agent_rejects_operations() {
    let mut e = Engine::new();
    let (cust, agent, rcpt) = ids();
    e.initialize_registry(cust).unwrap();
    e.register_agent(cust, agent, 1000, 50).unwrap();
    e.deactivate_agent(cust, cust, agent, 70).unwrap();
    assert_eq!(
        e.pay_agent(rcpt, cust, agent, 10, 80),
        Err(ErrorCode::AgentInactive)
    );
    assert_eq!(
        e.agent_pay(agent, cust, agent, rcpt, 10, 80),
        Err(ErrorCode::AgentInactive)
    );
    assert_eq!(
        e.request_payment(agent, cust, agent, rcpt, 10, String::from("x"), 1, 80),
        Err(ErrorCode::AgentInactive)
    );
    assert_eq!(e.events.len(), 2);
    assert!(e.requests.is_empty());
}
