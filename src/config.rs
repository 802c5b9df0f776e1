//! Test configuration records. Reading them from files is left to the caller.
use vstd::prelude::*;
use std::collections::HashMap;
use crate::artifact::Artifact;

verus! {

/// The artifacts of a test, by contract name.
#[derive(Clone, Debug)]
pub struct TestConfig {
    pub artifacts: HashMap<String, Artifact>,
}

/// A contract of a test: its name, its artifact, and its address on the
/// chain, empty when it is not deployed.
#[derive(Clone, Debug)]
pub struct Contract {
    pub name: String,
    pub artifact: Artifact,
    pub chain_address: String,
}

#[derive(Clone, Debug)]
pub enum ConfigError {
    QueryError { msg: String },
    InvalidMnemonic { msg: String },
}

/// An account imported from a mnemonic.
#[derive(Clone, Debug)]
pub struct ImportedAccount {
    pub name: String,
    pub address: String,
    pub mnemonic: String,
    pub pubkey: String,
}

/// The container image of a local node: its name and tag, its volume
/// bindings, entry point, and exposed ports.
#[derive(Clone, Debug)]
pub struct ContainerInfo {
    pub name: String,
    pub tag: String,
    pub volumes: Vec<(String, String)>,
    pub entrypoint: Option<String>,
    pub ports: Vec<u16>,
}

#[derive(Clone, Debug)]
pub enum ContainerError {
    IoError(String),
    Generic(String),
}

} // verus!
