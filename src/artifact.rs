//! Where a contract's wasm bytecode comes from.
use vstd::prelude::*;
use vstd::string::*;

verus! {

/// The ways to get a contract artifact, i.e. a contract wasm file.
#[derive(Clone, Debug, PartialEq, Eq)]
pub enum Artifact {
    /// A path to a local wasm file.
    Local(String),
    /// An RPC endpoint together with a code id: the wasm stored under that
    /// code id on the chain.
    ChainCodeId { rpc_endpoint: String, code_id: u64 },
    /// An RPC endpoint together with a contract address: the wasm of the code
    /// that the contract runs.
    ChainContractAddress { rpc_endpoint: String, contract_address: String },
}

/// A const-safe way to name a wasm file on a chain, before the RPC endpoint
/// is known.
#[derive(Clone, Copy, Debug, PartialEq, Eq)]
pub enum ChainArtifact {
    Addr(&'static str),
    CodeId(u64),
}

impl ChainArtifact {
    /// The artifact that this names on the chain reached at `rpc_endpoint`.
    pub fn into_artifact(self, rpc_endpoint: String) -> (r: Artifact)
        ensures
            match self {
                ChainArtifact::Addr(a) => r matches Artifact::ChainContractAddress { rpc_endpoint: e, contract_address: c }
                    && e == rpc_endpoint && c@ == a@,
                ChainArtifact::CodeId(id) => r == (Artifact::ChainCodeId { rpc_endpoint, code_id: id }),
            },
    {
        match self {
            ChainArtifact::Addr(addr) => Artifact::ChainContractAddress {
                rpc_endpoint,
                contract_address: String::from_str(addr),
            },
            ChainArtifact::CodeId(id) => Artifact::ChainCodeId { rpc_endpoint, code_id: id },
        }
    }
}

} // verus!
