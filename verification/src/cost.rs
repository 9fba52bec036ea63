//! What a registration costs.

use crate::model::{registration_cost, STORAGE_BYTES_TO_REGISTER, STORAGE_PRICE_PER_BYTE};
use vstd::prelude::*;

verus! {

/// Calls `near_sdk::env::storage_byte_cost`, which returns the fixed price of
/// one byte of storage, and hands the price on as a plain number.
#[verifier::external_body]
fn storage_byte_cost() -> (price: u128)
    ensures
        price == STORAGE_PRICE_PER_BYTE,
{
    near_sdk::env::storage_byte_cost().as_yoctonear()
}

/// The payment below which a registration is refused.
pub fn storage_cost() -> (cost: u128)
    ensures
        cost == registration_cost(),
{
    storage_byte_cost() * STORAGE_BYTES_TO_REGISTER
}

} // verus!
