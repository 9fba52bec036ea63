use agent_contract::contract::Contract;
use agent_contract::cost::storage_cost;
use agent_contract::types::{
    Agent, Authorization, ContractError, Event, Evidence, Measurements, Ppid, Rejection,
    SignatureRequest, Verdict,
};

const COST: u128 = 4_860_000_000_000_000_000_000;

fn name(s: &str) -> String {
    s.to_string()
}

fn image(fill: u8) -> Measurements {
    Measurements {
        mrtd: [fill; 48],
        rtmr0: [fill; 48],
        rtmr1: [fill; 48],
        rtmr2: [fill; 48],
        key_provider_event_digest: [fill; 48],
        app_compose_hash_payload: [fill; 32],
    }
}

fn device(fill: u8) -> Ppid {
    [fill; 16]
}

fn accepted(image_fill: u8, device_fill: u8) -> Verdict {
    Verdict::Accepted(image(image_fill), device(device_fill))
}

fn evidence(image_fill: u8, device_fill: u8) -> Evidence {
    Evidence { measurements: image(image_fill), ppid: device(device_fill) }
}

fn strict() -> Contract {
    let mut contract = Contract::new(true, 3_600_000, name("owner.near"), name("v1.signer"));
    contract.approved_measurements.insert(image(1));
    contract
}

#[test]
fn new_contract_holds_nothing() {
    let contract = Contract::new(true, 60_000, name("owner.near"), name("v1.signer"));
    assert!(contract.requires_tee);
    assert_eq!(contract.attestation_expiration_time_ms, 60_000);
    assert_eq!(contract.owner_id, "owner.near");
    assert_eq!(contract.mpc_contract_id, "v1.signer");
    assert!(contract.approved_measurements.is_empty());
    assert!(contract.approved_ppids.is_empty());
    assert!(contract.whitelisted_agents_for_local.is_empty());
    assert!(!contract.is_repo_registered(name("foo")));
    assert_eq!(contract.get_bounty(name("foo")), 0);
    assert!(!contract.is_valid_agent(&name("a.near"), 0));
}

#[test]
fn registration_costs_the_price_of_486_bytes() {
    assert_eq!(storage_cost(), 4_860_000_000_000_000_000_000u128);
    assert_eq!(storage_cost(), 486 * 10_000_000_000_000_000_000u128);
}

#[test]
fn registration_writes_the_record_and_announces_it() {
    let mut contract = strict();
    let event = contract.register_on_verdict(&name("a.near"), accepted(1, 2), COST, 5000);
    assert_eq!(
        event,
        Ok(Event::AgentRegistered {
            account_id: name("a.near"),
            measurements: image(1),
            ppid: device(2),
            current_time_ms: 5000,
            valid_until_ms: 3_605_000,
        })
    );
    assert_eq!(
        contract.agents.get(&name("a.near")),
        Some(&Agent { measurements: image(1), ppid: device(2), valid_until_ms: 3_605_000 })
    );
}

#[test]
fn registration_below_the_cost_fails() {
    let mut contract = strict();
    assert_eq!(
        contract.register_on_verdict(&name("a.near"), accepted(1, 2), COST - 1, 5000),
        Err(ContractError::InsufficientPayment)
    );
    assert_eq!(contract.agents.get(&name("a.near")), None);
    assert!(contract.register_on_verdict(&name("a.near"), accepted(1, 2), COST, 5000).is_ok());
    assert!(contract
        .register_on_verdict(&name("b.near"), accepted(1, 2), COST + 1, 5000)
        .is_ok());
}

#[test]
fn payment_is_looked_at_before_the_verdict() {
    let mut contract = strict();
    assert_eq!(
        contract.register_on_verdict(&name("a.near"), Verdict::Invalid, 0, 5000),
        Err(ContractError::InsufficientPayment)
    );
}

#[test]
fn refused_attestation_registers_nobody() {
    let mut contract = strict();
    assert_eq!(
        contract.register_on_verdict(&name("a.near"), Verdict::Invalid, COST, 5000),
        Err(ContractError::AttestationInvalid)
    );
    assert_eq!(
        contract.register_on_verdict(
            &name("a.near"),
            Verdict::WrongDigest(name("rtmr3")),
            COST,
            5000
        ),
        Err(ContractError::AttestationInvalid)
    );
    assert_eq!(
        contract.register_on_verdict(
            &name("a.near"),
            Verdict::WrongDigest(name("expected_measurements")),
            COST,
            5000
        ),
        Err(ContractError::MeasurementNotApproved)
    );
    assert_eq!(
        contract.register_on_verdict(&name("a.near"), Verdict::UnknownDevice, COST, 5000),
        Err(ContractError::AttestationInvalid)
    );
    contract.approved_ppids.insert(device(2));
    assert_eq!(
        contract.register_on_verdict(&name("a.near"), Verdict::UnknownDevice, COST, 5000),
        Err(ContractError::DeviceNotApproved)
    );
    assert_eq!(contract.agents.get(&name("a.near")), None);
    assert!(!contract.is_valid_agent(&name("a.near"), 5001));
}

#[test]
fn measurements_must_be_approved_where_attestation_is_required() {
    let mut contract = strict();
    assert_eq!(
        contract.register_on_verdict(&name("a.near"), accepted(7, 2), COST, 5000),
        Err(ContractError::MeasurementNotApproved)
    );
    assert_eq!(contract.judge(accepted(7, 2)), Err(ContractError::MeasurementNotApproved));
    assert_eq!(contract.judge(accepted(1, 2)), Ok(evidence(1, 2)));
}

#[test]
fn measurements_are_not_looked_at_where_attestation_is_not_required() {
    let mut contract = Contract::new(false, 3_600_000, name("owner.near"), name("v1.signer"));
    assert_eq!(contract.judge(accepted(7, 2)), Ok(evidence(7, 2)));
    assert!(contract.register_on_verdict(&name("a.near"), accepted(7, 2), COST, 5000).is_ok());
    assert_eq!(contract.judge(Verdict::Invalid), Err(ContractError::AttestationInvalid));
    assert_eq!(
        contract.judge(Verdict::WrongDigest(name("expected_measurements"))),
        Err(ContractError::AttestationInvalid)
    );
}

#[test]
fn any_image_and_device_registers_where_nothing_is_required() {
    let mut contract = Contract::new(false, 3_600_000, name("owner.near"), name("v1.signer"));
    assert_eq!(
        contract.register_on_verdict(&name("a.near"), accepted(9, 8), COST, 5000),
        Ok(Event::AgentRegistered {
            account_id: name("a.near"),
            measurements: image(9),
            ppid: device(8),
            current_time_ms: 5000,
            valid_until_ms: 3_605_000,
        })
    );
}

#[test]
fn any_device_registers_where_no_device_is_listed() {
    let mut contract = strict();
    assert!(contract.register_on_verdict(&name("a.near"), accepted(1, 77), COST, 5000).is_ok());
    assert_eq!(
        contract.agents.get(&name("a.near")),
        Some(&Agent { measurements: image(1), ppid: device(77), valid_until_ms: 3_605_000 })
    );
}

#[test]
fn refused_calls_do_not_mind_a_time_that_overflows() {
    let mut contract = Contract::new(true, u64::MAX, name("owner.near"), name("v1.signer"));
    assert_eq!(
        contract.register_on_verdict(&name("a.near"), accepted(1, 2), COST - 1, 5000),
        Err(ContractError::InsufficientPayment)
    );
    assert_eq!(
        contract.register_on_verdict(&name("a.near"), accepted(1, 2), COST, 5000),
        Err(ContractError::MeasurementNotApproved)
    );
}

#[test]
fn empty_device_list_lets_any_device_pass() {
    let contract = strict();
    assert_eq!(contract.judge(accepted(1, 2)), Ok(evidence(1, 2)));
    assert_eq!(contract.judge(accepted(1, 200)), Ok(evidence(1, 200)));
}

#[test]
fn listed_devices_shut_the_others_out() {
    let mut contract = strict();
    contract.approved_ppids.insert(device(2));
    contract.approved_ppids.insert(device(3));
    assert_eq!(contract.judge(accepted(1, 2)), Ok(evidence(1, 2)));
    assert_eq!(contract.judge(accepted(1, 3)), Ok(evidence(1, 3)));
    assert_eq!(contract.judge(accepted(1, 4)), Err(ContractError::DeviceNotApproved));
    assert_eq!(
        contract.register_on_verdict(&name("a.near"), accepted(1, 4), COST, 5000),
        Err(ContractError::DeviceNotApproved)
    );
}

#[test]
fn measurements_are_judged_before_the_device() {
    let mut contract = strict();
    contract.approved_ppids.insert(device(2));
    assert_eq!(contract.judge(accepted(7, 4)), Err(ContractError::MeasurementNotApproved));
}

#[test]
fn agent_is_valid_until_its_record_runs_out() {
    let mut contract = strict();
    assert!(contract.register_on_verdict(&name("a.near"), accepted(1, 2), COST, 5000).is_ok());
    assert!(contract.is_valid_agent(&name("a.near"), 5000));
    assert!(contract.is_valid_agent(&name("a.near"), 3_604_999));
    assert!(!contract.is_valid_agent(&name("a.near"), 3_605_000));
    assert!(!contract.is_valid_agent(&name("a.near"), 3_605_001));
    assert_eq!(contract.authorize(&name("a.near"), 3_604_999), Authorization::Verified);
    assert_eq!(
        contract.authorize(&name("a.near"), 3_605_000),
        Authorization::Rejected(Rejection::Expired)
    );
    assert_eq!(contract.require_valid_agent(&name("a.near"), 3_604_999), None);
    assert_eq!(
        contract.require_valid_agent(&name("a.near"), 3_605_000),
        Some(ContractError::NotAuthorized)
    );
}

#[test]
fn account_without_a_record_is_no_agent() {
    let contract = strict();
    assert!(!contract.is_valid_agent(&name("x.near"), 0));
    assert_eq!(
        contract.authorize(&name("x.near"), 0),
        Authorization::Rejected(Rejection::NotRegistered)
    );
    assert_eq!(
        contract.require_valid_agent(&name("x.near"), 0),
        Some(ContractError::NotAuthorized)
    );
}

#[test]
fn whitelisted_account_bypasses_attestation() {
    let mut contract = strict();
    assert!(contract.whitelisted_agents_for_local.insert(name("local.near")));
    assert!(contract.is_valid_agent(&name("local.near"), 0));
    assert_eq!(contract.authorize(&name("local.near"), u64::MAX), Authorization::Bypassed);
    assert!(!contract.is_valid_agent(&name("other.near"), 0));
}

#[test]
fn nobody_is_asked_where_attestation_is_not_required() {
    let contract = Contract::new(false, 3_600_000, name("owner.near"), name("v1.signer"));
    assert!(contract.is_valid_agent(&name("x.near"), 0));
    assert_eq!(contract.authorize(&name("x.near"), 77), Authorization::Bypassed);
    assert_eq!(contract.require_valid_agent(&name("x.near"), 77), None);
}

#[test]
fn second_registration_replaces_the_first() {
    let mut contract = strict();
    contract.approved_measurements.insert(image(5));
    assert!(contract.register_on_verdict(&name("a.near"), accepted(1, 2), COST, 5000).is_ok());
    assert!(contract.register_on_verdict(&name("b.near"), accepted(1, 3), COST, 6000).is_ok());
    assert!(contract
        .register_on_verdict(&name("a.near"), accepted(5, 9), COST, 1_000_000)
        .is_ok());
    assert_eq!(
        contract.agents.get(&name("a.near")),
        Some(&Agent { measurements: image(5), ppid: device(9), valid_until_ms: 4_600_000 })
    );
    assert_eq!(
        contract.agents.get(&name("b.near")),
        Some(&Agent { measurements: image(1), ppid: device(3), valid_until_ms: 3_606_000 })
    );
    assert!(contract.is_valid_agent(&name("a.near"), 3_605_000));
    assert!(!contract.is_valid_agent(&name("a.near"), 4_600_000));
    let entries = contract.agents.into_entries();
    assert_eq!(entries.len(), 2);
    assert_eq!(entries.iter().filter(|entry| entry.0 == "a.near").count(), 1);
}

#[test]
fn failed_renewal_keeps_the_old_record() {
    let mut contract = strict();
    assert!(contract.register_on_verdict(&name("a.near"), accepted(1, 2), COST, 5000).is_ok());
    assert_eq!(
        contract.register_on_verdict(&name("a.near"), accepted(7, 2), COST, 9000),
        Err(ContractError::MeasurementNotApproved)
    );
    assert_eq!(
        contract.agents.get(&name("a.near")),
        Some(&Agent { measurements: image(1), ppid: device(2), valid_until_ms: 3_605_000 })
    );
}

#[test]
fn signature_request_is_passed_on_as_it_came() {
    let mut contract = strict();
    assert!(contract.register_on_verdict(&name("a.near"), accepted(1, 2), COST, 5000).is_ok());
    assert_eq!(
        contract.request_signature(
            &name("a.near"),
            5001,
            name("ethereum-1"),
            name("0a1b2c"),
            name("Ecdsa")
        ),
        Ok(SignatureRequest {
            signer: name("v1.signer"),
            path: name("ethereum-1"),
            payload: name("0a1b2c"),
            key_type: name("Ecdsa"),
        })
    );
}

#[test]
fn signature_request_of_a_stranger_is_not_authorized() {
    let mut contract = strict();
    assert!(contract.register_on_verdict(&name("a.near"), accepted(1, 2), COST, 5000).is_ok());
    assert_eq!(
        contract.request_signature(
            &name("x.near"),
            5001,
            name("ethereum-1"),
            name("0a1b2c"),
            name("Ecdsa")
        ),
        Err(ContractError::NotAuthorized)
    );
    assert_eq!(
        contract.request_signature(
            &name("a.near"),
            3_605_000,
            name("ethereum-1"),
            name("0a1b2c"),
            name("Ecdsa")
        ),
        Err(ContractError::NotAuthorized)
    );
}
