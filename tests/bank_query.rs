use cw_it::bank_query::{answer_all_balances, answer_balance, answer_supply_of, parse_bank_query, BankQuery, BankQueryError};
use cw_it::coin::Coin;
use osmosis_std::types::cosmos::bank::v1beta1::{QueryAllBalancesRequest, QueryBalanceRequest, QuerySupplyOfRequest};
use prost::Message;

#[test]
fn routes_and_decodes_bank_queries() {
    let all = QueryAllBalancesRequest { address: "owner".to_string(), pagination: None }.encode_to_vec();
    match parse_bank_query("/cosmos.bank.v1beta1.Query/AllBalances", &all).unwrap() {
        BankQuery::AllBalances { address } => assert_eq!(address, "owner"),
        _ => panic!("expected an all-balances query"),
    }
    let one = QueryBalanceRequest { address: "owner".to_string(), denom: "eth".to_string() }.encode_to_vec();
    match parse_bank_query("/cosmos.bank.v1beta1.Query/Balance", &one).unwrap() {
        BankQuery::Balance { address, denom } => {
            assert_eq!(address, "owner");
            assert_eq!(denom, "eth");
        },
        _ => panic!("expected a balance query"),
    }
    let supply = QuerySupplyOfRequest { denom: "eth".to_string() }.encode_to_vec();
    match parse_bank_query("/cosmos.bank.v1beta1.Query/SupplyOf", &supply).unwrap() {
        BankQuery::SupplyOf { denom } => assert_eq!(denom, "eth"),
        _ => panic!("expected a supply query"),
    }
}

#[test]
fn unsupported_and_malformed_queries() {
    assert_eq!(
        parse_bank_query("/cosmos.bank.v1beta1.Query/TotalSupply", &vec![]).err(),
        Some(BankQueryError::Unsupported)
    );
    assert_eq!(
        parse_bank_query("/cosmos.bank.v1beta1.Query/Balance", &vec![0xff]).err(),
        Some(BankQueryError::Malformed)
    );
}

#[test]
fn query_bank_module_via_stargate() {
    let balances = vec![Coin::new(20, "btc"), Coin::new(0, "dust"), Coin::new(100, "eth")];
    let all = String::from_utf8(answer_all_balances(&balances).unwrap()).unwrap();
    assert_eq!(
        all,
        r#"{"balances":[{"denom":"btc","amount":"20"},{"denom":"eth","amount":"100"}],"pagination":null}"#
    );
    let one = String::from_utf8(answer_balance("eth", 100).unwrap()).unwrap();
    assert_eq!(one, r#"{"balance":{"denom":"eth","amount":"100"}}"#);
    let missing = String::from_utf8(answer_balance("xyz", 0).unwrap()).unwrap();
    assert_eq!(missing, r#"{"balance":{"denom":"xyz","amount":"0"}}"#);
    let supply = String::from_utf8(answer_supply_of("eth", 100).unwrap()).unwrap();
    assert_eq!(supply, r#"{"amount":{"denom":"eth","amount":"100"}}"#);
}
