use agent_contract::contract::Contract;
use agent_contract::types::{ContractError, Measurements, Ppid, Transfer, Verdict};

const COST: u128 = 4_860_000_000_000_000_000_000;

fn text(s: &str) -> String {
    s.to_string()
}

fn image(fill: u8) -> Measurements {
    Measurements {
        mrtd: [fill; 48],
        rtmr0: [fill; 48],
        rtmr1: [fill; 48],
        rtmr2: [fill; 48],
        key_provider_event_digest: [fill; 48],
        app_compose_hash_payload: [fill; 32],
    }
}

fn device(fill: u8) -> Ppid {
    [fill; 16]
}

/// A contract that asks for attestation, with the repository "foo" of
/// `m.near` and the agent `a.near` registered at time 1000.
fn funded_setup() -> Contract {
    let mut contract = Contract::new(true, 3_600_000, text("owner.near"), text("v1.signer"));
    contract.approved_measurements.insert(image(1));
    contract.approved_ppids.insert(device(2));
    let verdict = Verdict::Accepted(image(1), device(2));
    assert!(contract.register_on_verdict(&text("a.near"), verdict, COST, 1000).is_ok());
    assert_eq!(contract.register_repo(text("foo"), text("m.near")), Ok(()));
    contract
}

#[test]
fn bounty_of_a_repo_never_funded_is_zero() {
    let contract = funded_setup();
    assert_eq!(contract.get_bounty(text("foo")), 0);
    assert_eq!(contract.get_bounty(text("unknown")), 0);
}

#[test]
fn funded_bounty_is_reported() {
    let mut contract = funded_setup();
    assert_eq!(contract.fund_bounty(&text("m.near"), text("foo"), 500), Ok(()));
    assert_eq!(contract.get_bounty(text("foo")), 500);
    assert_eq!(contract.fund_bounty(&text("m.near"), text("foo"), 250), Ok(()));
    assert_eq!(contract.get_bounty(text("foo")), 750);
}

#[test]
fn funding_an_unknown_repo_fails() {
    let mut contract = funded_setup();
    assert_eq!(
        contract.fund_bounty(&text("m.near"), text("bar"), 500),
        Err(ContractError::RepoNotFound)
    );
    assert_eq!(contract.get_bounty(text("bar")), 0);
}

#[test]
fn funding_by_a_stranger_fails() {
    let mut contract = funded_setup();
    assert_eq!(
        contract.fund_bounty(&text("x.near"), text("foo"), 500),
        Err(ContractError::NotMaintainer)
    );
    assert_eq!(contract.get_bounty(text("foo")), 0);
}

#[test]
fn funding_beyond_the_largest_balance_fails_hard() {
    let mut contract = funded_setup();
    assert_eq!(contract.fund_bounty(&text("m.near"), text("foo"), u128::MAX), Ok(()));
    assert_eq!(
        contract.fund_bounty(&text("m.near"), text("foo"), 1),
        Err(ContractError::BalanceOverflow)
    );
    assert_eq!(contract.get_bounty(text("foo")), u128::MAX);
}

#[test]
fn release_debits_and_schedules_the_transfer() {
    let mut contract = funded_setup();
    assert_eq!(contract.fund_bounty(&text("m.near"), text("foo"), 500), Ok(()));
    let transfer = contract.release_bounty(&text("a.near"), 1001, text("foo"), text("r.near"), 200);
    assert_eq!(transfer, Ok(Transfer { recipient: text("r.near"), amount: 200 }));
    assert_eq!(contract.get_bounty(text("foo")), 300);
}

#[test]
fn release_by_a_stranger_is_not_authorized_and_books_nothing() {
    let mut contract = funded_setup();
    assert_eq!(contract.fund_bounty(&text("m.near"), text("foo"), 500), Ok(()));
    assert_eq!(
        contract.release_bounty(&text("x.near"), 1001, text("foo"), text("r.near"), 200),
        Err(ContractError::NotAuthorized)
    );
    assert_eq!(
        contract.release_bounty(&text("m.near"), 1001, text("foo"), text("m.near"), 200),
        Err(ContractError::NotAuthorized)
    );
    assert_eq!(contract.get_bounty(text("foo")), 500);
}

#[test]
fn release_by_an_expired_agent_is_not_authorized() {
    let mut contract = funded_setup();
    assert_eq!(contract.fund_bounty(&text("m.near"), text("foo"), 500), Ok(()));
    assert_eq!(
        contract.release_bounty(&text("a.near"), 3_601_000, text("foo"), text("r.near"), 200),
        Err(ContractError::NotAuthorized)
    );
    assert_eq!(contract.get_bounty(text("foo")), 500);
}

#[test]
fn authorization_is_looked_at_before_the_ledger() {
    let mut contract = funded_setup();
    assert_eq!(
        contract.release_bounty(&text("x.near"), 1001, text("unknown"), text("r.near"), 200),
        Err(ContractError::NotAuthorized)
    );
    assert_eq!(
        contract.release_bounty(&text("a.near"), 1001, text("unknown"), text("r.near"), 200),
        Err(ContractError::RepoNotFound)
    );
}

#[test]
fn release_of_more_than_the_balance_fails() {
    let mut contract = funded_setup();
    assert_eq!(contract.fund_bounty(&text("m.near"), text("foo"), 500), Ok(()));
    assert_eq!(
        contract.release_bounty(&text("a.near"), 1001, text("foo"), text("r.near"), 501),
        Err(ContractError::InsufficientFunds)
    );
    assert_eq!(contract.get_bounty(text("foo")), 500);
}

#[test]
fn release_of_the_whole_balance_leaves_nothing() {
    let mut contract = funded_setup();
    assert_eq!(contract.fund_bounty(&text("m.near"), text("foo"), 500), Ok(()));
    assert_eq!(
        contract.release_bounty(&text("a.near"), 1001, text("foo"), text("r.near"), 500),
        Ok(Transfer { recipient: text("r.near"), amount: 500 })
    );
    assert_eq!(contract.get_bounty(text("foo")), 0);
}

#[test]
fn release_of_nothing_from_a_repo_never_funded_goes_through() {
    let mut contract = funded_setup();
    assert_eq!(
        contract.release_bounty(&text("a.near"), 1001, text("foo"), text("r.near"), 0),
        Ok(Transfer { recipient: text("r.near"), amount: 0 })
    );
    assert_eq!(
        contract.release_bounty(&text("a.near"), 1001, text("foo"), text("r.near"), 1),
        Err(ContractError::InsufficientFunds)
    );
    assert_eq!(contract.get_bounty(text("foo")), 0);
}

#[test]
fn withdrawal_goes_to_the_maintainer() {
    let mut contract = funded_setup();
    assert_eq!(contract.fund_bounty(&text("m.near"), text("foo"), 500), Ok(()));
    assert_eq!(
        contract.withdraw_bounty(&text("m.near"), text("foo"), 120),
        Ok(Transfer { recipient: text("m.near"), amount: 120 })
    );
    assert_eq!(contract.get_bounty(text("foo")), 380);
}

#[test]
fn withdrawal_by_a_stranger_fails() {
    let mut contract = funded_setup();
    assert_eq!(contract.fund_bounty(&text("m.near"), text("foo"), 500), Ok(()));
    assert_eq!(
        contract.withdraw_bounty(&text("a.near"), text("foo"), 120),
        Err(ContractError::NotMaintainer)
    );
    assert_eq!(
        contract.withdraw_bounty(&text("m.near"), text("bar"), 120),
        Err(ContractError::RepoNotFound)
    );
    assert_eq!(contract.get_bounty(text("foo")), 500);
}

#[test]
fn withdrawal_of_more_than_the_balance_fails() {
    let mut contract = funded_setup();
    assert_eq!(contract.fund_bounty(&text("m.near"), text("foo"), 500), Ok(()));
    assert_eq!(
        contract.withdraw_bounty(&text("m.near"), text("foo"), 501),
        Err(ContractError::InsufficientFunds)
    );
    assert_eq!(contract.get_bounty(text("foo")), 500);
}

#[test]
fn withdrawal_of_the_whole_balance_leaves_nothing() {
    let mut contract = funded_setup();
    assert_eq!(contract.fund_bounty(&text("m.near"), text("foo"), 500), Ok(()));
    assert_eq!(
        contract.withdraw_bounty(&text("m.near"), text("foo"), 500),
        Ok(Transfer { recipient: text("m.near"), amount: 500 })
    );
    assert_eq!(contract.get_bounty(text("foo")), 0);
}

#[test]
fn balance_is_what_was_funded_less_what_was_paid_out() {
    let mut contract = funded_setup();
    assert_eq!(contract.register_repo(text("bar"), text("n.near")), Ok(()));
    let mut funded: u128 = 0;
    let mut paid_out: u128 = 0;
    for round in 1..20u128 {
        if contract.fund_bounty(&text("m.near"), text("foo"), round * 7).is_ok() {
            funded += round * 7;
        }
        if contract.fund_bounty(&text("n.near"), text("foo"), 1000).is_ok() {
            funded += 1000;
        }
        if contract.fund_bounty(&text("n.near"), text("bar"), 3).is_ok() {
            // booked on another repository
        }
        if contract
            .release_bounty(&text("a.near"), 1001, text("foo"), text("r.near"), round * 5)
            .is_ok()
        {
            paid_out += round * 5;
        }
        if contract.withdraw_bounty(&text("m.near"), text("foo"), round * 3).is_ok() {
            paid_out += round * 3;
        }
        if contract.withdraw_bounty(&text("m.near"), text("foo"), 100_000).is_ok() {
            paid_out += 100_000;
        }
        assert_eq!(contract.get_bounty(text("foo")), funded - paid_out);
    }
    assert_eq!(funded, 1330);
    assert_eq!(paid_out, 1330 - contract.get_bounty(text("foo")));
    assert_eq!(contract.get_bounty(text("bar")), 57);
}

#[test]
fn repo_is_registered_once() {
    let mut contract = funded_setup();
    assert!(contract.is_repo_registered(text("foo")));
    assert!(!contract.is_repo_registered(text("bar")));
    assert_eq!(
        contract.register_repo(text("foo"), text("x.near")),
        Err(ContractError::RepoAlreadyRegistered)
    );
    assert_eq!(contract.get_repo_maintainer(text("foo")), Ok(text("m.near")));
    assert_eq!(
        contract.register_repo(text("foo"), text("m.near")),
        Err(ContractError::RepoAlreadyRegistered)
    );
    assert_eq!(contract.get_repo_maintainer(text("foo")), Ok(text("m.near")));
}

#[test]
fn maintainer_of_an_unknown_repo_is_not_found() {
    let contract = funded_setup();
    assert_eq!(contract.get_repo_maintainer(text("bar")), Err(ContractError::RepoNotFound));
}

#[test]
fn maintainer_stays_through_funding_and_paying_out() {
    let mut contract = funded_setup();
    assert_eq!(contract.fund_bounty(&text("m.near"), text("foo"), 500), Ok(()));
    assert!(contract
        .release_bounty(&text("a.near"), 1001, text("foo"), text("r.near"), 200)
        .is_ok());
    assert!(contract.withdraw_bounty(&text("m.near"), text("foo"), 300).is_ok());
    assert_eq!(contract.get_repo_maintainer(text("foo")), Ok(text("m.near")));
}

#[test]
fn agent_lifecycle_and_ledger_scenario() {
    let mut contract = Contract::new(true, 3_600_000, text("owner.near"), text("v1.signer"));
    contract.approved_measurements.insert(image(9));
    let t: u64 = 1_700_000_000_000;
    let verdict = Verdict::Accepted(image(9), device(4));
    assert!(contract.register_on_verdict(&text("a.near"), verdict, COST, t).is_ok());
    assert!(contract.is_valid_agent(&text("a.near"), t + 1));
    assert!(!contract.is_valid_agent(&text("a.near"), t + 3_600_001));

    assert_eq!(contract.register_repo(text("foo"), text("m.near")), Ok(()));
    assert_eq!(contract.fund_bounty(&text("m.near"), text("foo"), 500), Ok(()));
    assert_eq!(contract.get_bounty(text("foo")), 500);

    assert_eq!(
        contract.release_bounty(&text("a.near"), t + 1, text("foo"), text("r.near"), 200),
        Ok(Transfer { recipient: text("r.near"), amount: 200 })
    );
    assert_eq!(contract.get_bounty(text("foo")), 300);

    assert_eq!(
        contract.withdraw_bounty(&text("m.near"), text("foo"), 400),
        Err(ContractError::InsufficientFunds)
    );
    assert_eq!(contract.get_bounty(text("foo")), 300);
}
