//! Deterministic contract-address generation for a simulated session.
use vstd::prelude::*;

use crate::text::{concat2, concat3, dec_str, u128_to_dec};

verus! {

/// Generates contract addresses of the shape `contract_{code}_{instance}`.
#[derive(Clone)]
pub struct MockAddressGenerator;

impl MockAddressGenerator {
    /// The address for a contract instance of a stored code.
    pub fn contract_address_string(&self, code_id: u64, instance_id: u64) -> (r: String)
        ensures
            r@ == "contract_"@ + dec_str(code_id as nat) + "_"@ + dec_str(instance_id as nat),
    {
        let code = u128_to_dec(code_id as u128);
        let inst = u128_to_dec(instance_id as u128);
        let head = concat3("contract_", code.as_str(), "_");
        concat2(head.as_str(), inst.as_str())
    }
}

} // verus!
