//! A verified core for running CosmWasm test scenarios against interchangeable
//! execution backends: the message codec between type-tagged protobuf
//! envelopes and native messages, the token-factory rules of the simulated
//! ledger, the bank query bridge, and the dispatch decisions of the runners.
pub mod text;
pub mod decimal;
pub mod coin;
pub mod token_factory;
pub mod proto;
pub mod codec;
pub mod bank_query;
pub mod runner;
pub mod account;
pub mod fee;
pub mod tx;
pub mod helpers;
pub mod osmosis;
pub mod artifact;
pub mod astroport;
pub mod mars;
pub mod config;
