//! The values the contract keeps, hands out and refuses with.

use vstd::prelude::*;

verus! {

/// Whether two byte strings of one length hold the same bytes.
pub fn same_bytes<const N: usize>(a: &[u8; N], b: &[u8; N]) -> (same: bool)
    ensures
        same == (a@ == b@),
{
    let mut i: usize = 0;
    while i < N
        invariant
            i <= N,
            a@.len() == N,
            b@.len() == N,
            forall|j: int| 0 <= j < i ==> a@[j] == b@[j],
        decreases N - i,
    {
        if a[i] != b[i] {
            return false;
        }
        i += 1;
    }
    assert(a@ =~= b@);
    true
}

/// The identifier of one physical device.
pub type Ppid = [u8; 16];

/// The fingerprint of one software image: the four static measurement
/// registers, the digest of the key-provider event and the hash of the
/// application's composition.
#[derive(Clone, Copy, Debug, PartialEq, Eq)]
pub struct Measurements {
    pub mrtd: [u8; 48],
    pub rtmr0: [u8; 48],
    pub rtmr1: [u8; 48],
    pub rtmr2: [u8; 48],
    pub key_provider_event_digest: [u8; 48],
    pub app_compose_hash_payload: [u8; 32],
}

/// What a verified attestation establishes: which image runs, and on which
/// device.
#[derive(Clone, Copy, Debug, PartialEq, Eq)]
pub struct Evidence {
    pub measurements: Measurements,
    pub ppid: Ppid,
}

/// The answer of the attestation verifier about one attestation.
#[derive(Clone, Debug, PartialEq, Eq)]
pub enum Verdict {
    /// The attestation validates: this image runs on this device.
    Accepted(Measurements, Ppid),
    /// A digest is not the expected one; the name tells which.
    WrongDigest(String),
    /// The attestation validates up to its device, which the verifier does
    /// not accept.
    UnknownDevice,
    /// The attestation does not validate.
    Invalid,
}

/// The record of a registered agent. It is written whole by a registration
/// and never changed in part.
#[derive(Clone, Copy, Debug, PartialEq, Eq)]
pub struct Agent {
    pub measurements: Measurements,
    pub ppid: Ppid,
    pub valid_until_ms: u64,
}

/// Every way in which an operation is refused. A refused operation leaves
/// the contract as it was.
#[derive(Clone, Copy, Debug, PartialEq, Eq, Structural)]
pub enum ContractError {
    /// The caller is not a valid agent.
    NotAuthorized,
    /// The caller is not the maintainer of the repository.
    NotMaintainer,
    /// The repository is not registered.
    RepoNotFound,
    /// The repository is registered already.
    RepoAlreadyRegistered,
    /// The amount asked for exceeds the balance.
    InsufficientFunds,
    /// The payment attached does not cover the cost of the record.
    InsufficientPayment,
    /// The balance would no longer fit its type.
    BalanceOverflow,
    /// The attestation does not validate.
    AttestationInvalid,
    /// The measurements are not among the approved.
    MeasurementNotApproved,
    /// The device is not among the approved.
    DeviceNotApproved,
}

/// Why a caller is not a valid agent.
#[derive(Clone, Copy, Debug, PartialEq, Eq, Structural)]
pub enum Rejection {
    /// The caller has no record.
    NotRegistered,
    /// The caller's record has run out.
    Expired,
}

/// The decision of the authorization guard about one caller at one time.
#[derive(Clone, Copy, Debug, PartialEq, Eq, Structural)]
pub enum Authorization {
    /// Attestation is not asked of this caller.
    Bypassed,
    /// The caller holds a record that has not run out.
    Verified,
    /// The caller is turned away.
    Rejected(Rejection),
}

/// What is announced when an agent is registered.
#[derive(Clone, Debug, PartialEq, Eq)]
pub enum Event {
    AgentRegistered {
        account_id: String,
        measurements: Measurements,
        ppid: Ppid,
        current_time_ms: u64,
        valid_until_ms: u64,
    },
}

/// A movement of value that the contract has debited and leaves to its
/// host to carry out.
#[derive(Clone, Debug, PartialEq, Eq)]
pub struct Transfer {
    pub recipient: String,
    pub amount: u128,
}

/// A request for a signature, to be passed on to the signer as it is.
#[derive(Clone, Debug, PartialEq, Eq)]
pub struct SignatureRequest {
    pub signer: String,
    pub path: String,
    pub payload: String,
    pub key_type: String,
}

/// The stores that the contract keeps, each under a prefix of its own.
#[derive(Clone, Copy, Debug, PartialEq, Eq, Structural)]
pub enum StorageKey {
    ApprovedMeasurements,
    ApprovedPpids,
    Agents,
    WhitelistedAgentsForLocal,
    Bounties,
    RepoMaintainers,
}

impl StorageKey {
    /// The prefix of a store: the place of its name in the list of stores.
    pub open spec fn spec_prefix(self) -> u8 {
        match self {
            StorageKey::ApprovedMeasurements => 0,
            StorageKey::ApprovedPpids => 1,
            StorageKey::Agents => 2,
            StorageKey::WhitelistedAgentsForLocal => 3,
            StorageKey::Bounties => 4,
            StorageKey::RepoMaintainers => 5,
        }
    }

    /// The prefix under which this store's entries are kept.
    pub fn prefix(&self) -> (prefix: u8)
        ensures
            prefix == self.spec_prefix(),
    {
        match self {
            StorageKey::ApprovedMeasurements => 0,
            StorageKey::ApprovedPpids => 1,
            StorageKey::Agents => 2,
            StorageKey::WhitelistedAgentsForLocal => 3,
            StorageKey::Bounties => 4,
            StorageKey::RepoMaintainers => 5,
        }
    }

    /// Two stores share a prefix only if they are the same store.
    pub proof fn prefixes_are_distinct(a: StorageKey, b: StorageKey)
        ensures
            a.spec_prefix() == b.spec_prefix() <==> a == b,
    {
    }
}

} // verus!
