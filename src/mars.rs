//! The records of a deployed Mars suite.
use vstd::prelude::*;

verus! {

/// A deployed contract: its address and the code id it runs.
#[derive(Clone, Debug, PartialEq, Eq)]
pub struct Contract {
    pub address: String,
    pub code_id: u64,
}

impl Contract {
    pub fn new(address: String, code_id: u64) -> (r: Contract)
        ensures
            r.address == address,
            r.code_id == code_id,
    {
        Contract { address, code_id }
    }
}

/// The contracts of a Mars deployment.
#[derive(Clone, Debug, PartialEq, Eq)]
pub struct MarsContracts {
    pub credit_manager: Contract,
    pub oracle: Contract,
    pub swapper: Contract,
    pub zapper: Contract,
    pub red_bank: Contract,
}

} // verus!
