//! The contract as mathematics: its state as sets and maps, and each
//! operation as a function from a state to the next state or a refusal.

use crate::types::{
    Agent, Authorization, ContractError, Evidence, Measurements, Rejection, Verdict,
};
use vstd::prelude::*;

verus! {

/// Bytes that the record of one agent takes in storage.
pub const STORAGE_BYTES_TO_REGISTER: u128 = 486;

/// Price of one byte of storage.
pub const STORAGE_PRICE_PER_BYTE: u128 = 10_000_000_000_000_000_000;

/// The payment below which a registration is refused: the price of the
/// record's storage.
pub open spec fn registration_cost() -> int {
    STORAGE_PRICE_PER_BYTE * STORAGE_BYTES_TO_REGISTER
}

/// The name of the digest under which the verifier reports that none of the
/// fingerprints it was given matches.
pub open spec fn no_match_name() -> Seq<char> {
    "expected_measurements"@
}

/// The state of the contract.
pub struct State {
    pub requires_tee: bool,
    pub attestation_expiration_time_ms: u64,
    pub owner_id: Seq<char>,
    pub mpc_contract_id: Seq<char>,
    pub approved_measurements: Set<Measurements>,
    pub approved_ppids: Set<Seq<u8>>,
    pub agents: Map<Seq<char>, Agent>,
    pub whitelisted_agents_for_local: Set<Seq<char>>,
    pub bounties: Map<Seq<char>, u128>,
    pub repo_maintainers: Map<Seq<char>, Seq<char>>,
}

impl State {
    /// The state of a contract that was just set up: nothing approved, nobody
    /// registered, nothing held.
    pub open spec fn initial(
        requires_tee: bool,
        attestation_expiration_time_ms: u64,
        owner_id: Seq<char>,
        mpc_contract_id: Seq<char>,
    ) -> State {
        State {
            requires_tee,
            attestation_expiration_time_ms,
            owner_id,
            mpc_contract_id,
            approved_measurements: Set::empty(),
            approved_ppids: Set::empty(),
            agents: Map::empty(),
            whitelisted_agents_for_local: Set::empty(),
            bounties: Map::empty(),
            repo_maintainers: Map::empty(),
        }
    }

    /// The balance held for `repo`: nothing, where nothing was ever booked.
    pub open spec fn balance(self, repo: Seq<char>) -> u128 {
        if self.bounties.contains_key(repo) {
            self.bounties[repo]
        } else {
            0
        }
    }

    /// Whether `repo` is registered.
    pub open spec fn is_repo_registered(self, repo: Seq<char>) -> bool {
        self.repo_maintainers.contains_key(repo)
    }

    /// Whether `caller` is the maintainer of the registered `repo`.
    pub open spec fn maintains(self, caller: Seq<char>, repo: Seq<char>) -> bool {
        self.repo_maintainers.contains_key(repo) && self.repo_maintainers[repo] == caller
    }

    /// Whether attestation is not asked of `caller`: either of nobody, or not
    /// of this account.
    pub open spec fn bypasses(self, caller: Seq<char>) -> bool {
        !self.requires_tee || self.whitelisted_agents_for_local.contains(caller)
    }

    /// The decision about `caller` at `now_ms`. A bypass comes
    /// first; then the record decides, and it counts only before its end.
    pub open spec fn authorization(self, caller: Seq<char>, now_ms: u64) -> Authorization {
        if self.bypasses(caller) {
            Authorization::Bypassed
        } else if !self.agents.contains_key(caller) {
            Authorization::Rejected(Rejection::NotRegistered)
        } else if now_ms < self.agents[caller].valid_until_ms {
            Authorization::Verified
        } else {
            Authorization::Rejected(Rejection::Expired)
        }
    }

    /// Whether `caller` may act as an agent at `now_ms`.
    pub open spec fn is_valid_agent(self, caller: Seq<char>, now_ms: u64) -> bool {
        !(self.authorization(caller, now_ms) is Rejected)
    }

    /// The refusal owed to `caller` at `now_ms` in front of a privileged
    /// operation, if one is owed.
    pub open spec fn require_valid_agent(self, caller: Seq<char>, now_ms: u64) -> Option<
        ContractError,
    > {
        if self.is_valid_agent(caller, now_ms) {
            None
        } else {
            Some(ContractError::NotAuthorized)
        }
    }

    /// Whether the list of approved devices names any device. With an empty
    /// list every device passes.
    pub open spec fn lists_devices(self) -> bool {
        self.approved_ppids != Set::<Seq<u8>>::empty()
    }

    /// What the contract makes of the verifier's answer. A refusal stands.
    /// It is for the measurements where none of the approved fingerprints
    /// matches and attestation is required, for the device where the device
    /// is refused and devices are listed, and else for the attestation as a
    /// whole. Accepted measurements must be approved where attestation is
    /// required, and an accepted device must be on the list where the list
    /// names any.
    pub open spec fn judge(self, verdict: Verdict) -> Result<Evidence, ContractError> {
        match verdict {
            Verdict::Invalid => Err(ContractError::AttestationInvalid),
            Verdict::UnknownDevice => if self.lists_devices() {
                Err(ContractError::DeviceNotApproved)
            } else {
                Err(ContractError::AttestationInvalid)
            },
            Verdict::WrongDigest(name) => if self.requires_tee && name@ == no_match_name() {
                Err(ContractError::MeasurementNotApproved)
            } else {
                Err(ContractError::AttestationInvalid)
            },
            Verdict::Accepted(measurements, ppid) => if self.requires_tee
                && !self.approved_measurements.contains(measurements) {
                Err(ContractError::MeasurementNotApproved)
            } else if self.lists_devices() && !self.approved_ppids.contains(ppid@) {
                Err(ContractError::DeviceNotApproved)
            } else {
                Ok(Evidence { measurements, ppid })
            },
        }
    }

    /// Whether a registration with this verdict and payment writes a record.
    pub open spec fn registers(self, verdict: Verdict, payment: u128) -> bool {
        payment >= registration_cost() && self.judge(verdict) is Ok
    }

    /// The record that a registration at `now_ms` writes for `evidence`.
    pub open spec fn record(self, evidence: Evidence, now_ms: u64) -> Agent {
        Agent {
            measurements: evidence.measurements,
            ppid: evidence.ppid,
            valid_until_ms: (now_ms + self.attestation_expiration_time_ms) as u64,
        }
    }

    /// Registration of `caller` on the verifier's answer `verdict`, with
    /// `payment` attached, at `now_ms`. The payment is looked at first, then
    /// the answer. The record replaces whatever `caller` had.
    pub open spec fn register_agent(
        self,
        caller: Seq<char>,
        verdict: Verdict,
        payment: u128,
        now_ms: u64,
    ) -> Result<State, ContractError> {
        if payment < registration_cost() {
            Err(ContractError::InsufficientPayment)
        } else {
            match self.judge(verdict) {
                Err(error) => Err(error),
                Ok(evidence) => Ok(
                    State { agents: self.agents.insert(caller, self.record(evidence, now_ms)), ..self },
                ),
            }
        }
    }

    /// Binding of `repo` to `maintainer`, once and for all.
    pub open spec fn register_repo(self, repo: Seq<char>, maintainer: Seq<char>) -> Result<
        State,
        ContractError,
    > {
        if self.repo_maintainers.contains_key(repo) {
            Err(ContractError::RepoAlreadyRegistered)
        } else {
            Ok(State { repo_maintainers: self.repo_maintainers.insert(repo, maintainer), ..self })
        }
    }

    /// The state in which `repo` holds `balance`.
    pub open spec fn with_balance(self, repo: Seq<char>, balance: u128) -> State {
        State { bounties: self.bounties.insert(repo, balance), ..self }
    }

    /// Funding of `repo` by `caller` with `amount`.
    pub open spec fn fund_bounty(self, caller: Seq<char>, repo: Seq<char>, amount: u128) -> Result<
        State,
        ContractError,
    > {
        if !self.is_repo_registered(repo) {
            Err(ContractError::RepoNotFound)
        } else if !self.maintains(caller, repo) {
            Err(ContractError::NotMaintainer)
        } else if self.balance(repo) + amount > u128::MAX {
            Err(ContractError::BalanceOverflow)
        } else {
            Ok(self.with_balance(repo, (self.balance(repo) + amount) as u128))
        }
    }

    /// Release of `amount` from `repo` by the agent `caller` at `now_ms`. The
    /// guard comes before any look at the ledger.
    pub open spec fn release_bounty(
        self,
        caller: Seq<char>,
        now_ms: u64,
        repo: Seq<char>,
        amount: u128,
    ) -> Result<State, ContractError> {
        if !self.is_valid_agent(caller, now_ms) {
            Err(ContractError::NotAuthorized)
        } else if !self.is_repo_registered(repo) {
            Err(ContractError::RepoNotFound)
        } else if amount > self.balance(repo) {
            Err(ContractError::InsufficientFunds)
        } else {
            Ok(self.with_balance(repo, (self.balance(repo) - amount) as u128))
        }
    }

    /// Withdrawal of `amount` from `repo` by its maintainer `caller`.
    pub open spec fn withdraw_bounty(
        self,
        caller: Seq<char>,
        repo: Seq<char>,
        amount: u128,
    ) -> Result<State, ContractError> {
        if !self.is_repo_registered(repo) {
            Err(ContractError::RepoNotFound)
        } else if !self.maintains(caller, repo) {
            Err(ContractError::NotMaintainer)
        } else if amount > self.balance(repo) {
            Err(ContractError::InsufficientFunds)
        } else {
            Ok(self.with_balance(repo, (self.balance(repo) - amount) as u128))
        }
    }
}

} // verus!
