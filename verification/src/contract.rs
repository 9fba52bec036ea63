//! The contract: its stores, the guard in front of them, and the operations
//! on them. Every operation states its result and the state it leaves over
//! the model of the contract.

use crate::allow_list::AllowList;
use crate::attestation::{examine, spec_examine, vouched};
use crate::cost::storage_cost;
use crate::model::{registration_cost, State};
use crate::store::Registry;
use crate::types::{
    Agent, Authorization, ContractError, Event, Evidence, Measurements, Ppid, Rejection,
    SignatureRequest, Transfer, Verdict,
};
use shade_attestation::attestation::DstackAttestation;
use vstd::prelude::*;

verus! {

/// The whole state of the contract.
pub struct Contract {
    pub requires_tee: bool,
    pub attestation_expiration_time_ms: u64,
    pub owner_id: String,
    pub mpc_contract_id: String,
    pub approved_measurements: AllowList<Measurements>,
    pub approved_ppids: AllowList<Ppid>,
    pub agents: Registry<Agent>,
    pub whitelisted_agents_for_local: AllowList<String>,
    pub bounties: Registry<u128>,
    pub repo_maintainers: Registry<String>,
}

impl View for Contract {
    type V = State;

    open spec fn view(&self) -> State {
        State {
            requires_tee: self.requires_tee,
            attestation_expiration_time_ms: self.attestation_expiration_time_ms,
            owner_id: self.owner_id@,
            mpc_contract_id: self.mpc_contract_id@,
            approved_measurements: self.approved_measurements@,
            approved_ppids: self.approved_ppids@,
            agents: self.agents@,
            whitelisted_agents_for_local: self.whitelisted_agents_for_local@,
            bounties: self.bounties@,
            repo_maintainers: self.repo_maintainers@.map_values(|account: String| account@),
        }
    }
}

impl Contract {
    /// Sets the contract up: nothing approved, nobody registered, nothing
    /// held.
    pub fn new(
        requires_tee: bool,
        attestation_expiration_time_ms: u64,
        owner_id: String,
        mpc_contract_id: String,
    ) -> (contract: Contract)
        ensures
            contract@ == State::initial(
                requires_tee,
                attestation_expiration_time_ms,
                owner_id@,
                mpc_contract_id@,
            ),
    {
        let contract = Contract {
            requires_tee,
            attestation_expiration_time_ms,
            owner_id,
            mpc_contract_id,
            approved_measurements: AllowList::new(),
            approved_ppids: AllowList::new(),
            agents: Registry::new(),
            whitelisted_agents_for_local: AllowList::new(),
            bounties: Registry::new(),
            repo_maintainers: Registry::new(),
        };
        assert(contract@.repo_maintainers =~= Map::empty());
        contract
    }

    /// The decision about `caller` at `now_ms`.
    pub fn authorize(&self, caller: &String, now_ms: u64) -> (decision: Authorization)
        ensures
            decision == self@.authorization(caller@, now_ms),
    {
        if !self.requires_tee || self.whitelisted_agents_for_local.contains(caller) {
            return Authorization::Bypassed;
        }
        match self.agents.get(caller) {
            None => Authorization::Rejected(Rejection::NotRegistered),
            Some(agent) => if now_ms < agent.valid_until_ms {
                Authorization::Verified
            } else {
                Authorization::Rejected(Rejection::Expired)
            },
        }
    }

    /// Whether `caller` may act as an agent at `now_ms`.
    pub fn is_valid_agent(&self, caller: &String, now_ms: u64) -> (valid: bool)
        ensures
            valid == self@.is_valid_agent(caller@, now_ms),
    {
        match self.authorize(caller, now_ms) {
            Authorization::Rejected(_) => false,
            _ => true,
        }
    }

    /// The guard of every privileged operation: the refusal owed to `caller`
    /// at `now_ms`, if one is owed.
    pub fn require_valid_agent(&self, caller: &String, now_ms: u64) -> (refusal: Option<
        ContractError,
    >)
        ensures
            refusal == self@.require_valid_agent(caller@, now_ms),
    {
        if self.is_valid_agent(caller, now_ms) {
            None
        } else {
            Some(ContractError::NotAuthorized)
        }
    }

    /// What the contract makes of the verifier's answer.
    pub fn judge(&self, verdict: Verdict) -> (judged: Result<Evidence, ContractError>)
        ensures
            judged == self@.judge(verdict),
    {
        match verdict {
            Verdict::Invalid => Err(ContractError::AttestationInvalid),
            Verdict::UnknownDevice => if self.approved_ppids.is_empty() {
                Err(ContractError::AttestationInvalid)
            } else {
                Err(ContractError::DeviceNotApproved)
            },
            Verdict::WrongDigest(name) => {
                let no_match = "expected_measurements".to_owned();
                if self.requires_tee && name == no_match {
                    Err(ContractError::MeasurementNotApproved)
                } else {
                    Err(ContractError::AttestationInvalid)
                }
            },
            Verdict::Accepted(measurements, ppid) => {
                if self.requires_tee && !self.approved_measurements.contains(&measurements) {
                    Err(ContractError::MeasurementNotApproved)
                } else if !self.approved_ppids.is_empty() && !self.approved_ppids.contains(&ppid) {
                    Err(ContractError::DeviceNotApproved)
                } else {
                    Ok(Evidence { measurements, ppid })
                }
            },
        }
    }

    /// Asks the verifier about `attestation` on behalf of `caller` and judges
    /// its answer. The verifier is given the approved measurements where
    /// attestation is required and the approved devices where any are
    /// listed; else it is given what the attestation claims and the device
    /// that its quote names, so that any image and any device can pass.
    pub fn verify_attestation(
        &self,
        caller: &String,
        attestation: &DstackAttestation,
        now_ms: u64,
    ) -> (judged: Result<Evidence, ContractError>)
        ensures
            judged == self@.judge(self.verdict_on(caller@, *attestation, now_ms)),
            judged matches Ok(evidence) ==> self.stands_behind(evidence, *attestation, now_ms),
    {
        let verdict = examine(
            attestation,
            caller,
            now_ms,
            self.requires_tee,
            self.approved_measurements.members(),
            self.approved_ppids.members(),
        );
        proof {
            self.approved_ppids.lemma_nothing_listed();
        }
        self.judge(verdict)
    }

    /// What stands behind evidence that was accepted on `attestation`: the
    /// measurements are approved where attestation is required and else are
    /// what the attestation claims; the device is approved where devices are
    /// listed and else is the one that the quote names.
    pub open spec fn stands_behind(
        &self,
        evidence: Evidence,
        attestation: DstackAttestation,
        now_ms: u64,
    ) -> bool {
        vouched(
            attestation,
            now_ms,
            self.requires_tee,
            self.approved_measurements.listed(),
            self.approved_ppids.listed(),
            evidence.measurements,
            evidence.ppid,
        ) && (self@.requires_tee ==> self@.approved_measurements.contains(evidence.measurements))
            && (self@.lists_devices() ==> self@.approved_ppids.contains(evidence.ppid@)) && (
        self@.lists_devices() == (self.approved_ppids.listed().len() > 0))
    }

    /// Registers `caller` on the verifier's answer `verdict`, with `payment`
    /// attached, at `now_ms`. The record replaces whatever `caller` had and
    /// runs out after the expiration time. Returns what is to be announced.
    pub fn register_on_verdict(
        &mut self,
        caller: &String,
        verdict: Verdict,
        payment: u128,
        now_ms: u64,
    ) -> (result: Result<Event, ContractError>)
        requires
            old(self)@.registers(verdict, payment) ==> now_ms + old(
                self,
            ).attestation_expiration_time_ms <= u64::MAX,
        ensures
            match result {
                Ok(event) => old(self)@.register_agent(caller@, verdict, payment, now_ms) == Ok::<
                    State,
                    ContractError,
                >(final(self)@) && announces(event, caller@, final(self)@.agents[caller@], now_ms),
                Err(error) => old(self)@.register_agent(caller@, verdict, payment, now_ms) == Err::<
                    State,
                    ContractError,
                >(error) && *final(self) == *old(self),
            },
    {
        if payment < storage_cost() {
            return Err(ContractError::InsufficientPayment);
        }
        let evidence = match self.judge(verdict) {
            Ok(evidence) => evidence,
            Err(error) => {
                return Err(error);
            },
        };
        let agent = Agent {
            measurements: evidence.measurements,
            ppid: evidence.ppid,
            valid_until_ms: now_ms + self.attestation_expiration_time_ms,
        };
        let event = Event::AgentRegistered {
            account_id: caller.clone(),
            measurements: agent.measurements,
            ppid: agent.ppid,
            current_time_ms: now_ms,
            valid_until_ms: agent.valid_until_ms,
        };
        self.agents.insert(caller.clone(), agent);
        Ok(event)
    }

    /// Registers `caller` as an agent on `attestation`, with `payment`
    /// attached, at `now_ms`. The payment is looked at first; then the
    /// verifier is asked, and its answer decides as in
    /// [`Contract::register_on_verdict`].
    pub fn register_agent(
        &mut self,
        caller: &String,
        attestation: &DstackAttestation,
        payment: u128,
        now_ms: u64,
    ) -> (result: Result<Event, ContractError>)
        requires
            payment >= registration_cost() ==> now_ms + old(self).attestation_expiration_time_ms
                <= u64::MAX,
        ensures
            match result {
                Ok(event) => old(self)@.register_agent(
                    caller@,
                    old(self).verdict_on(caller@, *attestation, now_ms),
                    payment,
                    now_ms,
                ) == Ok::<State, ContractError>(final(self)@) && announces(
                    event,
                    caller@,
                    final(self)@.agents[caller@],
                    now_ms,
                ),
                Err(error) => old(self)@.register_agent(
                    caller@,
                    old(self).verdict_on(caller@, *attestation, now_ms),
                    payment,
                    now_ms,
                ) == Err::<State, ContractError>(error) && *final(self) == *old(self),
            },
            result is Ok ==> {
                let agent = final(self)@.agents[caller@];
                old(self).stands_behind(
                    Evidence { measurements: agent.measurements, ppid: agent.ppid },
                    *attestation,
                    now_ms,
                )
            },
    {
        if payment < storage_cost() {
            return Err(ContractError::InsufficientPayment);
        }
        let verdict = examine(
            attestation,
            caller,
            now_ms,
            self.requires_tee,
            self.approved_measurements.members(),
            self.approved_ppids.members(),
        );
        proof {
            self.approved_ppids.lemma_nothing_listed();
        }
        self.register_on_verdict(caller, verdict, payment, now_ms)
    }

    /// Passes a request for a signature on to the signer, as it came, if
    /// `caller` is a valid agent at `now_ms`.
    pub fn request_signature(
        &mut self,
        caller: &String,
        now_ms: u64,
        path: String,
        payload: String,
        key_type: String,
    ) -> (result: Result<SignatureRequest, ContractError>)
        ensures
            *final(self) == *old(self),
            match result {
                Ok(request) => {
                    &&& old(self)@.require_valid_agent(caller@, now_ms) is None
                    &&& request.signer@ == old(self)@.mpc_contract_id
                    &&& request.path == path
                    &&& request.payload == payload
                    &&& request.key_type == key_type
                },
                Err(error) => old(self)@.require_valid_agent(caller@, now_ms) == Some(error),
            },
    {
        if let Some(refusal) = self.require_valid_agent(caller, now_ms) {
            return Err(refusal);
        }
        Ok(SignatureRequest { signer: self.mpc_contract_id.clone(), path, payload, key_type })
    }

    /// Binds the repository `repo_id` to its maintainer, once and for all.
    pub fn register_repo(&mut self, repo_id: String, maintainer_id: String) -> (result: Result<
        (),
        ContractError,
    >)
        ensures
            match result {
                Ok(()) => old(self)@.register_repo(repo_id@, maintainer_id@) == Ok::<
                    State,
                    ContractError,
                >(final(self)@),
                Err(error) => old(self)@.register_repo(repo_id@, maintainer_id@) == Err::<
                    State,
                    ContractError,
                >(error) && *final(self) == *old(self),
            },
    {
        if self.repo_maintainers.contains_key(&repo_id) {
            return Err(ContractError::RepoAlreadyRegistered);
        }
        self.repo_maintainers.insert(repo_id, maintainer_id);
        assert(self@.repo_maintainers =~= old(self)@.repo_maintainers.insert(
            repo_id@,
            maintainer_id@,
        ));
        Ok(())
    }

    /// Whether the repository `repo_id` is registered.
    pub fn is_repo_registered(&self, repo_id: String) -> (registered: bool)
        ensures
            registered == self@.is_repo_registered(repo_id@),
    {
        self.repo_maintainers.contains_key(&repo_id)
    }

    /// The maintainer of the repository `repo_id`.
    pub fn get_repo_maintainer(&self, repo_id: String) -> (result: Result<String, ContractError>)
        ensures
            match result {
                Ok(maintainer) => self@.is_repo_registered(repo_id@) && maintainer@
                    == self@.repo_maintainers[repo_id@],
                Err(error) => !self@.is_repo_registered(repo_id@) && error
                    == ContractError::RepoNotFound,
            },
    {
        match self.repo_maintainers.get(&repo_id) {
            Some(maintainer) => Ok(maintainer.clone()),
            None => Err(ContractError::RepoNotFound),
        }
    }

    /// The balance held for the repository `repo_id`: nothing, where nothing
    /// was ever booked.
    pub fn get_bounty(&self, repo_id: String) -> (balance: u128)
        ensures
            balance == self@.balance(repo_id@),
    {
        match self.bounties.get(&repo_id) {
            Some(balance) => *balance,
            None => 0,
        }
    }

    /// Whether `caller` is the maintainer of the repository `repo_id`; the
    /// refusal owed otherwise.
    fn require_maintainer(&self, caller: &String, repo_id: &String) -> (refusal: Option<
        ContractError,
    >)
        ensures
            refusal == if !self@.is_repo_registered(repo_id@) {
                Some(ContractError::RepoNotFound)
            } else if !self@.maintains(caller@, repo_id@) {
                Some(ContractError::NotMaintainer)
            } else {
                None
            },
    {
        match self.repo_maintainers.get(repo_id) {
            None => Some(ContractError::RepoNotFound),
            Some(maintainer) => if *maintainer == *caller {
                None
            } else {
                Some(ContractError::NotMaintainer)
            },
        }
    }

    /// Adds `amount`, the payment attached, to the balance of the repository
    /// `repo_id`. Only its maintainer may fund it.
    pub fn fund_bounty(&mut self, caller: &String, repo_id: String, amount: u128) -> (result: Result<
        (),
        ContractError,
    >)
        ensures
            match result {
                Ok(()) => old(self)@.fund_bounty(caller@, repo_id@, amount) == Ok::<
                    State,
                    ContractError,
                >(final(self)@),
                Err(error) => old(self)@.fund_bounty(caller@, repo_id@, amount) == Err::<
                    State,
                    ContractError,
                >(error) && *final(self) == *old(self),
            },
    {
        if let Some(refusal) = self.require_maintainer(caller, &repo_id) {
            return Err(refusal);
        }
        let current = match self.bounties.get(&repo_id) {
            Some(balance) => *balance,
            None => 0,
        };
        match current.checked_add(amount) {
            None => Err(ContractError::BalanceOverflow),
            Some(balance) => {
                self.bounties.insert(repo_id, balance);
                Ok(())
            },
        }
    }

    /// Takes `amount` off the balance of `repo_id`, which is known to hold as
    /// much.
    fn debit(&mut self, repo_id: String, amount: u128)
        requires
            amount <= old(self)@.balance(repo_id@),
        ensures
            final(self)@ == old(self)@.with_balance(
                repo_id@,
                (old(self)@.balance(repo_id@) - amount) as u128,
            ),
    {
        let current = match self.bounties.get(&repo_id) {
            Some(balance) => *balance,
            None => 0,
        };
        self.bounties.insert(repo_id, current - amount);
    }

    /// Releases `amount` from the balance of `repo_id` to `recipient`, on the
    /// word of the agent `caller` at `now_ms`. The balance is debited here;
    /// the transfer returned is left to the host to carry out.
    pub fn release_bounty(
        &mut self,
        caller: &String,
        now_ms: u64,
        repo_id: String,
        recipient: String,
        amount: u128,
    ) -> (result: Result<Transfer, ContractError>)
        ensures
            match result {
                Ok(transfer) => {
                    &&& old(self)@.release_bounty(caller@, now_ms, repo_id@, amount) == Ok::<
                        State,
                        ContractError,
                    >(final(self)@)
                    &&& transfer.recipient == recipient
                    &&& transfer.amount == amount
                },
                Err(error) => old(self)@.release_bounty(caller@, now_ms, repo_id@, amount) == Err::<
                    State,
                    ContractError,
                >(error) && *final(self) == *old(self),
            },
    {
        if let Some(refusal) = self.require_valid_agent(caller, now_ms) {
            return Err(refusal);
        }
        if !self.repo_maintainers.contains_key(&repo_id) {
            return Err(ContractError::RepoNotFound);
        }
        if amount > self.get_balance(&repo_id) {
            return Err(ContractError::InsufficientFunds);
        }
        self.debit(repo_id, amount);
        Ok(Transfer { recipient, amount })
    }

    /// Hands `amount` from the balance of `repo_id` back to its maintainer
    /// `caller`. The balance is debited here; the transfer returned is left
    /// to the host to carry out.
    pub fn withdraw_bounty(&mut self, caller: &String, repo_id: String, amount: u128) -> (result:
        Result<Transfer, ContractError>)
        ensures
            match result {
                Ok(transfer) => {
                    &&& old(self)@.withdraw_bounty(caller@, repo_id@, amount) == Ok::<
                        State,
                        ContractError,
                    >(final(self)@)
                    &&& transfer.recipient@ == caller@
                    &&& transfer.amount == amount
                },
                Err(error) => old(self)@.withdraw_bounty(caller@, repo_id@, amount) == Err::<
                    State,
                    ContractError,
                >(error) && *final(self) == *old(self),
            },
    {
        if let Some(refusal) = self.require_maintainer(caller, &repo_id) {
            return Err(refusal);
        }
        if amount > self.get_balance(&repo_id) {
            return Err(ContractError::InsufficientFunds);
        }
        self.debit(repo_id, amount);
        Ok(Transfer { recipient: caller.clone(), amount })
    }

    /// The balance held for `repo_id`.
    fn get_balance(&self, repo_id: &String) -> (balance: u128)
        ensures
            balance == self@.balance(repo_id@),
    {
        match self.bounties.get(repo_id) {
            Some(balance) => *balance,
            None => 0,
        }
    }

    /// The verifier's answer about `attestation` for `caller` at `now_ms`,
    /// asked with what this contract approves.
    pub open spec fn verdict_on(
        &self,
        caller: Seq<char>,
        attestation: DstackAttestation,
        now_ms: u64,
    ) -> Verdict {
        spec_examine(
            attestation,
            caller,
            now_ms,
            self.requires_tee,
            self.approved_measurements.listed(),
            self.approved_ppids.listed(),
        )
    }
}

/// Whether `event` announces that `caller` was registered at `now_ms` with
/// the record `agent`.
pub open spec fn announces(event: Event, caller: Seq<char>, agent: Agent, now_ms: u64) -> bool {
    match event {
        Event::AgentRegistered { account_id, measurements, ppid, current_time_ms, valid_until_ms } => {
            &&& account_id@ == caller
            &&& measurements == agent.measurements
            &&& ppid == agent.ppid
            &&& current_time_ms == now_ms
            &&& valid_until_ms == agent.valid_until_ms
        },
    }
}

} // verus!
