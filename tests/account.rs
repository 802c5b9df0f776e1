use cw_it::account::{account_query, read_account_numbers, AccountNumbers};
use cw_it::runner::RunnerError;
use osmosis_std::shim::Any;
use osmosis_std::types::cosmos::auth::v1beta1::{BaseAccount, QueryAccountRequest, QueryAccountResponse};
use prost::Message;

#[test]
fn account_query_asks_for_the_address() {
    let (path, request) = account_query("osmo1abc");
    assert_eq!(path, "/cosmos.auth.v1beta1.Query/Account");
    assert_eq!(QueryAccountRequest::decode(request.as_slice()).unwrap().address, "osmo1abc");
}

#[test]
fn reads_nested_account_response() {
    let base = BaseAccount { address: "osmo1abc".to_string(), pub_key: None, account_number: 12, sequence: 7 };
    let response = QueryAccountResponse {
        account: Some(Any { type_url: "/cosmos.auth.v1beta1.BaseAccount".to_string(), value: base.encode_to_vec() }),
    };
    assert_eq!(
        read_account_numbers(&response.encode_to_vec()).unwrap(),
        AccountNumbers { account_number: 12, sequence: 7 }
    );
}

#[test]
fn missing_account_is_a_query_error() {
    let response = QueryAccountResponse { account: None };
    match read_account_numbers(&response.encode_to_vec()) {
        Err(RunnerError::QueryError { msg }) => assert_eq!(msg, "account query failed"),
        _ => panic!("a response without an account must fail"),
    }
    assert!(matches!(read_account_numbers(&vec![0xff]), Err(RunnerError::DecodeError { .. })));
}
