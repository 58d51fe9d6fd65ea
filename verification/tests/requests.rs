use agent_pay::Engine;
use agent_pay::ErrorCode;
use agent_pay::Event;
use agent_pay::Identity;
use agent_pay::PaymentStatus;
use agent_pay::RequestKey;
use agent_pay::TransferInstruction;
use agent_pay::events::PaymentApproved;
use agent_pay::events::PaymentRejected;
use agent_pay::events::PaymentRequested;

fn engine_with_agent() -> (Engine, Identity, Identity, Identity) {
    let mut e = Engine::new();
    let cust = Identity::new(1);
    let agent = Identity::new(2);
    let rcpt = Identity::new(3);
    e.initialize_registry(cust).unwrap();
    e.register_agent(cust, agent, 1000, 0).unwrap();
    (e, cust, agent, rcpt)
}

fn key(cust: Identity, agent: Identity, nonce: i64) -> RequestKey {
    RequestKey { custodian: cust, agent_identity: agent, nonce }
}

#[test]
fn request_payment_creates_pending_request() {
    let (mut e, cust, agent, rcpt) = engine_with_agent();
    assert_eq!(
        e.request_payment(agent, cust, agent, rcpt, 5000, String::from("consulting"), 7, 100),
        Ok(())
    );
    assert_eq!(e.requests.len(), 1);
    let rq = &e.requests[0];
    assert_eq!(rq.custodian, cust);
    assert_eq!(rq.agent_identity, agent);
    assert_eq!(rq.nonce, 7);
    assert_eq!(rq.recipient, rcpt);
    assert_eq!(rq.amount, 5000);
    assert_eq!(rq.purpose, "consulting");
    assert_eq!(rq.status, PaymentStatus::Pending);
    assert_eq!(rq.requested_at, 100);
    assert_eq!(rq.processed_at, None);
    assert_eq!(
        e.events.last(),
        Some(&Event::PaymentRequested(PaymentRequested {
            request_id: key(cust, agent, 7),
            agent,
            recipient: rcpt,
            amount: 5000,
            timestamp: 100,
        }))
    );
}

#[test]
fn approve_then_reject_scenario() {
    let (mut e, cust, agent, rcpt) = engine_with_agent();
    e.request_payment(agent, cust, agent, rcpt, 5000, String::from("consulting"), 7, 100)
        .unwrap();
    let t = e.approve_payment(cust, key(cust, agent, 7), 200).unwrap();
    assert_eq!(
        t,
        TransferInstruction { from: cust, to: rcpt, amount: 5000, authorized_by: cust }
    );
    assert_eq!(e.requests[0].status, PaymentStatus::Approved);
    assert_eq!(e.requests[0].processed_at, Some(200));
    assert_eq!(
        e.events.last(),
        Some(&Event::PaymentApproved(PaymentApproved {
            request_id: key(cust, agent, 7),
            agent,
            recipient: rcpt,
            amount: 5000,
            timestamp: 200,
        }))
    );
    assert_eq!(
        e.reject_payment(cust, key(cust, agent, 7), 300),
        Err(ErrorCode::RequestNotPending)
    );
    assert_eq!(e.requests[0].status, PaymentStatus::Approved);
    assert_eq!(e.requests[0].processed_at, Some(200));
}

#[test]
fn approve_twice_fails() {
    let (mut e, cust, agent, rcpt) = engine_with_agent();
    e.request_payment(agent, cust, agent, rcpt, 5000, String::from("consulting"), 7, 100)
        .unwrap();
    e.approve_payment(cust, key(cust, agent, 7), 200).unwrap();
    assert_eq!(
        e.approve_payment(cust, key(cust, agent, 7), 300),
        Err(ErrorCode::RequestNotPending)
    );
}

#[test]
fn reject_payment_terminal_and_no_second_decision() {
    let (mut e, cust, agent, rcpt) = engine_with_agent();
    e.request_payment(agent, cust, agent, rcpt, 5000, String::from("consulting"), 7, 100)
        .unwrap();
    assert_eq!(e.reject_payment(cust, key(cust, agent, 7), 200), Ok(()));
    assert_eq!(e.requests[0].status, PaymentStatus::Rejected);
    assert_eq!(e.requests[0].processed_at, Some(200));
    assert_eq!(
        e.events.last(),
        Some(&Event::PaymentRejected(PaymentRejected {
            request_id: key(cust, agent, 7),
            timestamp: 200,
        }))
    );
    assert_eq!(
        e.approve_payment(cust, key(cust, agent, 7), 300),
        Err(ErrorCode::RequestNotPending)
    );
    assert_eq!(
        e.reject_payment(cust, key(cust, agent, 7), 300),
        Err(ErrorCode::RequestNotPending)
    );
    assert_eq!(e.requests[0].status, PaymentStatus::Rejected);
}

#[test]
fn approve_by_stranger_fails() {
    let (mut e, cust, agent, rcpt) = engine_with_agent();
    let stranger = Identity::new(9);
    e.request_payment(agent, cust, agent, rcpt, 5000, String::from("consulting"), 7, 100)
        .unwrap();
    assert_eq!(
        e.approve_payment(stranger, key(cust, agent, 7), 200),
        Err(ErrorCode::UnauthorizedCustodian)
    );
    assert_eq!(
        e.approve_payment(agent, key(cust, agent, 7), 200),
        Err(ErrorCode::UnauthorizedCustodian)
    );
    assert_eq!(e.requests[0].status, PaymentStatus::Pending);
    assert_eq!(e.requests[0].processed_at, None);
}

#[test]
fn reject_by_stranger_fails() {
    let (mut e, cust, agent, rcpt) = engine_with_agent();
    let stranger = Identity::new(9);
    e.request_payment(agent, cust, agent, rcpt, 5000, String::from("consulting"), 7, 100)
        .unwrap();
    assert_eq!(
        e.reject_payment(stranger, key(cust, agent, 7), 200),
        Err(ErrorCode::UnauthorizedCustodian)
    );
    assert_eq!(e.requests[0].status, PaymentStatus::Pending);
}

#[test]
fn request_by_wrong_caller_fails() {
    let (mut e, cust, agent, rcpt) = engine_with_agent();
    let stranger = Identity::new(9);
    assert_eq!(
        e.request_payment(stranger, cust, agent, rcpt, 5000, String::from("consulting"), 7, 100),
        Err(ErrorCode::UnauthorizedAgent)
    );
    assert_eq!(
        e.request_payment(cust, cust, agent, rcpt, 5000, String::from("consulting"), 7, 100),
        Err(ErrorCode::UnauthorizedAgent)
    );
    assert!(e.requests.is_empty());
}

#[test]
fn purpose_of_two_hundred_chars_is_accepted() {
    let (mut e, cust, agent, rcpt) = engine_with_agent();
    let purpose: String = "p".repeat(200);
    assert_eq!(
        e.request_payment(agent, cust, agent, rcpt, 10, purpose, 1, 100),
        Ok(())
    );
    assert_eq!(e.requests[0].purpose.len(), 200);
}

#[test]
fn purpose_over_two_hundred_chars_is_refused() {
    let (mut e, cust, agent, rcpt) = engine_with_agent();
    let purpose: String = "p".repeat(201);
    assert_eq!(
        e.request_payment(agent, cust, agent, rcpt, 10, purpose, 1, 100),
        Err(ErrorCode::PurposeTooLong)
    );
    assert!(e.requests.is_empty());
    assert_eq!(e.events.len(), 1);
}

#[test]
fn purpose_length_counts_characters_not_bytes() {
    let (mut e, cust, agent, rcpt) = engine_with_agent();
    let purpose: String = "\u{00e9}".repeat(200);
    assert!(purpose.len() > 200);
    assert_eq!(
        e.request_payment(agent, cust, agent, rcpt, 10, purpose, 1, 100),
        Ok(())
    );
}

#[test]
fn duplicate_nonce_fails_and_fresh_nonce_succeeds() {
    let (mut e, cust, agent, rcpt) = engine_with_agent();
    assert_eq!(
        e.request_payment(agent, cust, agent, rcpt, 10, String::from("a"), 1, 100),
        Ok(())
    );
    assert_eq!(
        e.request_payment(agent, cust, agent, rcpt, 20, String::from("b"), 1, 110),
        Err(ErrorCode::DuplicateKey)
    );
    assert_eq!(e.requests.len(), 1);
    assert_eq!(e.requests[0].amount, 10);
    assert_eq!(
        e.request_payment(agent, cust, agent, rcpt, 20, String::from("b"), 2, 120),
        Ok(())
    );
    assert_eq!(e.requests.len(), 2);
}

#[test]
fn approved_request_does_not_touch_daily_limit() {
    let (mut e, cust, agent, rcpt) = engine_with_agent();
    e.request_payment(agent, cust, agent, rcpt, 5000, String::from("consulting"), 7, 100)
        .unwrap();
    e.approve_payment(cust, key(cust, agent, 7), 200).unwrap();
    assert_eq!(e.agents[0].daily_spent, 0);
    assert_eq!(e.agents[0].total_sent, 0);
}
