//! What holds of the contract whatever is asked of it: laws of the model
//! that the operations are held to.

use crate::model::{registration_cost, State};
use crate::types::{ContractError, Evidence, Measurements, Ppid, Verdict};
use vstd::prelude::*;

verus! {

/// One request that changes the contract, with all it depends on.
pub enum Operation {
    RegisterAgent { caller: Seq<char>, verdict: Verdict, payment: u128, now_ms: u64 },
    RegisterRepo { repo: Seq<char>, maintainer: Seq<char> },
    Fund { caller: Seq<char>, repo: Seq<char>, amount: u128 },
    Release { caller: Seq<char>, now_ms: u64, repo: Seq<char>, amount: u128 },
    Withdraw { caller: Seq<char>, repo: Seq<char>, amount: u128 },
}

impl State {
    /// The state that `operation` asks for, or the refusal it meets.
    pub open spec fn attempt(self, operation: Operation) -> Result<State, ContractError> {
        match operation {
            Operation::RegisterAgent { caller, verdict, payment, now_ms } => self.register_agent(
                caller,
                verdict,
                payment,
                now_ms,
            ),
            Operation::RegisterRepo { repo, maintainer } => self.register_repo(repo, maintainer),
            Operation::Fund { caller, repo, amount } => self.fund_bounty(caller, repo, amount),
            Operation::Release { caller, now_ms, repo, amount } => self.release_bounty(
                caller,
                now_ms,
                repo,
                amount,
            ),
            Operation::Withdraw { caller, repo, amount } => self.withdraw_bounty(caller, repo, amount),
        }
    }

    /// The state after `operation`: a refused operation leaves the state as
    /// it was.
    pub open spec fn after(self, operation: Operation) -> State {
        match self.attempt(operation) {
            Ok(next) => next,
            Err(_) => self,
        }
    }

    /// The state after `operations`, one after the other.
    pub open spec fn after_all(self, operations: Seq<Operation>) -> State
        decreases operations.len(),
    {
        if operations.len() == 0 {
            self
        } else {
            self.after_all(operations.drop_last()).after(operations.last())
        }
    }

    /// What `operation` adds to the balance of `repo`: the amount of a
    /// funding of `repo` that is not refused.
    pub open spec fn credit(self, operation: Operation, repo: Seq<char>) -> int {
        match operation {
            Operation::Fund { caller, repo: funded, amount } => if funded == repo && self.attempt(
                operation,
            ) is Ok {
                amount as int
            } else {
                0
            },
            _ => 0,
        }
    }

    /// What `operation` takes off the balance of `repo`: the amount of a
    /// release or withdrawal from `repo` that is not refused.
    pub open spec fn debit(self, operation: Operation, repo: Seq<char>) -> int {
        match operation {
            Operation::Release { caller, now_ms, repo: debited, amount } => if debited == repo
                && self.attempt(operation) is Ok {
                amount as int
            } else {
                0
            },
            Operation::Withdraw { caller, repo: debited, amount } => if debited == repo
                && self.attempt(operation) is Ok {
                amount as int
            } else {
                0
            },
            _ => 0,
        }
    }

    /// The sum of what `operations`, run from this state, add to the balance
    /// of `repo`.
    pub open spec fn funded(self, operations: Seq<Operation>, repo: Seq<char>) -> int
        decreases operations.len(),
    {
        if operations.len() == 0 {
            0
        } else {
            self.funded(operations.drop_last(), repo) + self.after_all(
                operations.drop_last(),
            ).credit(operations.last(), repo)
        }
    }

    /// The sum of what `operations`, run from this state, take off the
    /// balance of `repo`.
    pub open spec fn paid_out(self, operations: Seq<Operation>, repo: Seq<char>) -> int
        decreases operations.len(),
    {
        if operations.len() == 0 {
            0
        } else {
            self.paid_out(operations.drop_last(), repo) + self.after_all(
                operations.drop_last(),
            ).debit(operations.last(), repo)
        }
    }

    /// Whatever holds a balance is a registered repository.
    pub open spec fn ledger_is_backed(self) -> bool {
        forall|repo: Seq<char>| #[trigger]
            self.bounties.contains_key(repo) ==> self.repo_maintainers.contains_key(repo)
    }
}

/// One operation changes a balance by what it credits less what it debits.
pub proof fn law_step_books_exactly(state: State, operation: Operation, repo: Seq<char>)
    ensures
        state.after(operation).balance(repo) == state.balance(repo) + state.credit(operation, repo)
            - state.debit(operation, repo),
{
}

/// After any sequence of operations the balance of a repository is what it
/// was, plus all that was funded, less all that was released or withdrawn;
/// so what was paid out never exceeds what was there and was funded.
pub proof fn law_balance_is_funded_less_paid_out(
    state: State,
    operations: Seq<Operation>,
    repo: Seq<char>,
)
    ensures
        state.after_all(operations).balance(repo) == state.balance(repo) + state.funded(
            operations,
            repo,
        ) - state.paid_out(operations, repo),
        state.paid_out(operations, repo) <= state.balance(repo) + state.funded(operations, repo),
    decreases operations.len(),
{
    if operations.len() > 0 {
        law_balance_is_funded_less_paid_out(state, operations.drop_last(), repo);
        law_step_books_exactly(state.after_all(operations.drop_last()), operations.last(), repo);
    }
}

/// From a contract that was just set up, the balance of a repository is all
/// that was funded less all that was paid out.
pub proof fn law_balance_from_the_start(
    requires_tee: bool,
    attestation_expiration_time_ms: u64,
    owner_id: Seq<char>,
    mpc_contract_id: Seq<char>,
    operations: Seq<Operation>,
    repo: Seq<char>,
)
    ensures
        ({
            let start = State::initial(
                requires_tee,
                attestation_expiration_time_ms,
                owner_id,
                mpc_contract_id,
            );
            start.after_all(operations).balance(repo) == start.funded(operations, repo)
                - start.paid_out(operations, repo)
        }),
{
    let start = State::initial(requires_tee, attestation_expiration_time_ms, owner_id, mpc_contract_id);
    law_balance_is_funded_less_paid_out(start, operations, repo);
}

/// A release or a withdrawal of more than the balance is refused, and the
/// refusal is for want of funds wherever the caller and the repository pass.
pub proof fn law_overdraw_is_refused(
    state: State,
    caller: Seq<char>,
    now_ms: u64,
    repo: Seq<char>,
    amount: u128,
)
    requires
        amount > state.balance(repo),
    ensures
        state.release_bounty(caller, now_ms, repo, amount) is Err,
        state.withdraw_bounty(caller, repo, amount) is Err,
        state.is_valid_agent(caller, now_ms) && state.is_repo_registered(repo)
            ==> state.release_bounty(caller, now_ms, repo, amount) == Err::<State, ContractError>(
            ContractError::InsufficientFunds,
        ),
        state.maintains(caller, repo) ==> state.withdraw_bounty(caller, repo, amount) == Err::<
            State,
            ContractError,
        >(ContractError::InsufficientFunds),
        state.after(Operation::Release { caller, now_ms, repo, amount }) == state,
        state.after(Operation::Withdraw { caller, repo, amount }) == state,
{
}

/// A release or a withdrawal of the whole balance goes through and leaves
/// nothing.
pub proof fn law_whole_balance_can_leave(
    state: State,
    caller: Seq<char>,
    now_ms: u64,
    repo: Seq<char>,
)
    requires
        state.is_repo_registered(repo),
    ensures
        state.is_valid_agent(caller, now_ms) ==> state.release_bounty(
            caller,
            now_ms,
            repo,
            state.balance(repo),
        ) is Ok && state.after(
            Operation::Release { caller, now_ms, repo, amount: state.balance(repo) },
        ).balance(repo) == 0,
        state.maintains(caller, repo) ==> state.withdraw_bounty(caller, repo, state.balance(repo))
            is Ok && state.after(
            Operation::Withdraw { caller, repo, amount: state.balance(repo) },
        ).balance(repo) == 0,
{
}

/// Once a repository is registered, registering it again is refused, and no
/// operation changes its maintainer.
pub proof fn law_repo_binding_is_final(
    state: State,
    repo: Seq<char>,
    maintainer: Seq<char>,
    operation: Operation,
)
    requires
        state.is_repo_registered(repo),
    ensures
        state.register_repo(repo, maintainer) == Err::<State, ContractError>(
            ContractError::RepoAlreadyRegistered,
        ),
        state.after(operation).is_repo_registered(repo),
        state.after(operation).repo_maintainers[repo] == state.repo_maintainers[repo],
{
}

/// Of two registrations of one repository the second is refused, and the
/// maintainer stays the one the first call left.
pub proof fn law_second_repo_registration_fails(
    state: State,
    repo: Seq<char>,
    first: Seq<char>,
    second: Seq<char>,
)
    ensures
        ({
            let bound = state.after(Operation::RegisterRepo { repo, maintainer: first });
            &&& bound.is_repo_registered(repo)
            &&& !state.is_repo_registered(repo) ==> bound.repo_maintainers[repo] == first
            &&& bound.register_repo(repo, second) == Err::<State, ContractError>(
                ContractError::RepoAlreadyRegistered,
            )
            &&& bound.after(Operation::RegisterRepo { repo, maintainer: second }) == bound
        }),
{
}

/// The maintainer of a registered repository is the same after any sequence
/// of operations.
pub proof fn law_maintainer_never_changes(state: State, operations: Seq<Operation>, repo: Seq<char>)
    requires
        state.is_repo_registered(repo),
    ensures
        state.after_all(operations).is_repo_registered(repo),
        state.after_all(operations).repo_maintainers[repo] == state.repo_maintainers[repo],
    decreases operations.len(),
{
    if operations.len() > 0 {
        law_maintainer_never_changes(state, operations.drop_last(), repo);
        law_repo_binding_is_final(
            state.after_all(operations.drop_last()),
            repo,
            state.repo_maintainers[repo],
            operations.last(),
        );
    }
}

/// Only registered repositories ever hold a balance: this holds of a
/// contract that was just set up and no operation breaks it.
pub proof fn law_ledger_stays_backed(state: State, operations: Seq<Operation>)
    requires
        state.ledger_is_backed(),
    ensures
        state.after_all(operations).ledger_is_backed(),
    decreases operations.len(),
{
    if operations.len() > 0 {
        law_ledger_stays_backed(state, operations.drop_last());
        let before = state.after_all(operations.drop_last());
        let after = before.after(operations.last());
        assert forall|repo: Seq<char>| #[trigger]
            after.bounties.contains_key(repo) implies after.repo_maintainers.contains_key(repo) by {
            if before.bounties.contains_key(repo) {
                assert(before.repo_maintainers.contains_key(repo));
            }
        }
    }
}

/// Where attestation is asked of an account, it is no valid agent without a
/// record or with one that has run out, and every privileged operation
/// refuses it.
pub proof fn law_no_agent_without_a_live_record(
    state: State,
    caller: Seq<char>,
    now_ms: u64,
    repo: Seq<char>,
    amount: u128,
)
    requires
        !state.bypasses(caller),
        !state.agents.contains_key(caller) || state.agents[caller].valid_until_ms <= now_ms,
    ensures
        !state.is_valid_agent(caller, now_ms),
        state.require_valid_agent(caller, now_ms) == Some(ContractError::NotAuthorized),
        state.release_bounty(caller, now_ms, repo, amount) == Err::<State, ContractError>(
            ContractError::NotAuthorized,
        ),
{
}

/// With no device listed, an accepted attestation registers whatever its
/// device: the registration goes through and the record holds that device.
pub proof fn law_any_device_passes_an_empty_list(
    state: State,
    caller: Seq<char>,
    measurements: Measurements,
    ppid: Ppid,
    payment: u128,
    now_ms: u64,
)
    requires
        !state.lists_devices(),
        state.requires_tee ==> state.approved_measurements.contains(measurements),
        payment >= registration_cost(),
    ensures
        state.judge(Verdict::Accepted(measurements, ppid)) == Ok::<Evidence, ContractError>(
            Evidence { measurements, ppid },
        ),
        state.register_agent(caller, Verdict::Accepted(measurements, ppid), payment, now_ms) is Ok,
        state.after(
            Operation::RegisterAgent {
                caller,
                verdict: Verdict::Accepted(measurements, ppid),
                payment,
                now_ms,
            },
        ).agents[caller].ppid == ppid,
{
}

/// With devices listed, an accepted attestation with measurements that pass
/// is let in exactly where its device is listed, and is else refused for
/// its device.
pub proof fn law_listed_devices_shut_others_out(
    state: State,
    measurements: Measurements,
    ppid: Ppid,
)
    requires
        state.lists_devices(),
        state.requires_tee ==> state.approved_measurements.contains(measurements),
    ensures
        state.judge(Verdict::Accepted(measurements, ppid)) == (if state.approved_ppids.contains(
            ppid@,
        ) {
            Ok::<Evidence, ContractError>(Evidence { measurements, ppid })
        } else {
            Err::<Evidence, ContractError>(ContractError::DeviceNotApproved)
        }),
{
}

/// The measurements bind only where attestation is required: there an
/// accepted attestation whose measurements are not approved is refused for
/// them, and elsewhere no refusal is ever for the measurements.
pub proof fn law_measurements_bind_only_where_required(
    state: State,
    verdict: Verdict,
    measurements: Measurements,
    ppid: Ppid,
)
    ensures
        state.requires_tee && !state.approved_measurements.contains(measurements) ==> state.judge(
            Verdict::Accepted(measurements, ppid),
        ) == Err::<Evidence, ContractError>(ContractError::MeasurementNotApproved),
        !state.requires_tee ==> state.judge(verdict) != Err::<Evidence, ContractError>(
            ContractError::MeasurementNotApproved,
        ),
        !state.lists_devices() ==> state.judge(verdict) != Err::<Evidence, ContractError>(
            ContractError::DeviceNotApproved,
        ),
{
}

/// Of two registrations of one account that both go through, the second
/// replaces the record of the first: the same accounts hold a record as
/// after the first, nothing is left of the first, and the record runs out
/// one expiration time after the second, until when the account is a valid
/// agent.
pub proof fn law_registration_renews(
    state: State,
    caller: Seq<char>,
    first: Verdict,
    first_payment: u128,
    first_now_ms: u64,
    second: Verdict,
    second_payment: u128,
    second_now_ms: u64,
)
    requires
        state.register_agent(caller, first, first_payment, first_now_ms) is Ok,
        state.register_agent(caller, first, first_payment, first_now_ms).unwrap().register_agent(
            caller,
            second,
            second_payment,
            second_now_ms,
        ) is Ok,
        second_now_ms + state.attestation_expiration_time_ms <= u64::MAX,
    ensures
        ({
            let once = state.register_agent(caller, first, first_payment, first_now_ms).unwrap();
            let twice = once.register_agent(caller, second, second_payment, second_now_ms).unwrap();
            &&& twice.agents.dom() == once.agents.dom()
            &&& twice == state.register_agent(
                caller,
                second,
                second_payment,
                second_now_ms,
            ).unwrap()
            &&& twice.agents[caller].valid_until_ms == second_now_ms
                + state.attestation_expiration_time_ms
            &&& second matches Verdict::Accepted(measurements, ppid) && twice.agents[caller].measurements
                == measurements && twice.agents[caller].ppid == ppid
            &&& forall|now_ms: u64| now_ms < twice.agents[caller].valid_until_ms
                ==> twice.is_valid_agent(caller, now_ms)
        }),
{
    let once = state.register_agent(caller, first, first_payment, first_now_ms).unwrap();
    let twice = once.register_agent(caller, second, second_payment, second_now_ms).unwrap();
    let direct = state.register_agent(caller, second, second_payment, second_now_ms).unwrap();
    assert(twice.agents.dom() =~= once.agents.dom());
    assert(twice.agents =~= direct.agents);
}

} // verus!
