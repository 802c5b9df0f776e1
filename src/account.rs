//! The account lookup of the RPC backend: the query that asks a node for an
//! account, and the reading of its nested answer (a query response wrapping
//! a type-tagged account wrapping a base account) into the account number
//! and sequence that signing needs.
use vstd::prelude::*;
use vstd::string::*;
use crate::proto::{
    account_request_bytes, account_response_decoded, base_account_decoded, decode_account_response,
    decode_base_account, encode_account_request,
};
use crate::runner::RunnerError;

verus! {

/// The ABCI query path of the account query.
pub open spec fn account_query_path() -> Seq<char> {
    "/cosmos.auth.v1beta1.Query/Account"@
}

/// The numbers of an account that a signature commits to.
#[derive(Clone, Copy, Debug, PartialEq, Eq)]
pub struct AccountNumbers {
    pub account_number: u64,
    pub sequence: u64,
}

/// The ABCI query for the account at `address`: its path and request.
pub fn account_query(address: &str) -> (r: (String, Vec<u8>))
    ensures
        r.0@ == account_query_path(),
        r.1@ == account_request_bytes(address@),
{
    (String::from_str("/cosmos.auth.v1beta1.Query/Account"), encode_account_request(address))
}

/// Reads the answer of an account query. A response without an account is a
/// query error; one that does not decode, or whose account does not decode
/// as a base account, is a decode error.
pub fn read_account_numbers(response: &Vec<u8>) -> (r: Result<AccountNumbers, RunnerError>)
    ensures
        match account_response_decoded(response@) {
            None => r matches Err(RunnerError::DecodeError { .. }),
            Some(None) => r matches Err(RunnerError::QueryError { msg }) && msg@ == "account query failed"@,
            Some(Some(account)) => match base_account_decoded(account.1) {
                Some(n) => r == Ok::<AccountNumbers, RunnerError>(
                    AccountNumbers { account_number: n.0, sequence: n.1 },
                ),
                None => r matches Err(RunnerError::DecodeError { .. }),
            },
        },
{
    let account = match decode_account_response(response) {
        Some(a) => a,
        None => {
            return Err(RunnerError::DecodeError { msg: String::from_str("invalid account query response") });
        },
    };
    let (_type_url, value) = match account {
        Some(a) => a,
        None => {
            return Err(RunnerError::QueryError { msg: String::from_str("account query failed") });
        },
    };
    match decode_base_account(&value) {
        Some((account_number, sequence)) => Ok(AccountNumbers { account_number, sequence }),
        None => Err(RunnerError::DecodeError { msg: String::from_str("invalid base account") }),
    }
}

} // verus!
