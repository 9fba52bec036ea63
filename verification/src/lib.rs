//! Attested agent registry and bounty escrow ledger.
//!
//! Agents prove by an attestation that they run approved software on an
//! approved device, and are registered for a time. While registered, they
//! may release funds that maintainers hold in escrow for their repositories,
//! and ask for signatures.

pub mod allow_list;
pub mod attestation;
pub mod contract;
pub mod cost;
pub mod laws;
pub mod model;
pub mod store;
pub mod types;

pub use contract::Contract;
pub use types::{Agent, ContractError, StorageKey};
