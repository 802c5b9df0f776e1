use cosmrs::proto::cosmos::tx::v1beta1::{AuthInfo, TxBody, TxRaw};
use cw_it::account::AccountNumbers;
use cw_it::codec::NativeMessage;
use cw_it::coin::Coin;
use cw_it::fee::Fee;
use cw_it::runner::RunnerError;
use cw_it::tx::{create_signed_tx, is_chain_id};
use prost::Message;

fn key() -> Vec<u8> {
    vec![7u8; 32]
}

fn fee() -> Fee {
    Fee { amount: Coin::new(4_000_000, "uosmo"), gas_limit: 25_000_000 }
}

fn msgs() -> Vec<cw_it::codec::TypeTaggedMessage> {
    vec![NativeMessage::BankSend {
        from_address: "a".to_string(),
        to_address: "b".to_string(),
        amount: vec![Coin::new(1, "uosmo")],
    }
    .encode()]
}

#[test]
fn signed_transaction_carries_body_auth_info_and_signature() {
    let numbers = AccountNumbers { account_number: 3, sequence: 9 };
    let raw = create_signed_tx(&msgs(), numbers, &fee(), "osmosis-1", &key()).unwrap();
    let tx = TxRaw::decode(raw.as_slice()).unwrap();
    let body = TxBody::decode(tx.body_bytes.as_slice()).unwrap();
    assert_eq!(body.memo, "MEMO");
    assert_eq!(body.timeout_height, 0);
    assert_eq!(body.messages.len(), 1);
    assert_eq!(body.messages[0].type_url, "/cosmos.bank.v1beta1.MsgSend");
    let auth = AuthInfo::decode(tx.auth_info_bytes.as_slice()).unwrap();
    assert_eq!(auth.signer_infos[0].sequence, 9);
    assert_eq!(auth.fee.unwrap().gas_limit, 25_000_000);
    assert_eq!(tx.signatures.len(), 1);
    let again = create_signed_tx(&msgs(), numbers, &fee(), "osmosis-1", &key()).unwrap();
    assert_eq!(raw, again);
}

#[test]
fn malformed_inputs_are_refused() {
    let numbers = AccountNumbers { account_number: 3, sequence: 9 };
    match create_signed_tx(&msgs(), numbers, &fee(), "bad chain id", &key()) {
        Err(RunnerError::GenericError { msg }) => assert_eq!(msg, "invalid chain id"),
        _ => panic!("a chain id with spaces must be refused"),
    }
    let bad_denom = Fee { amount: Coin::new(1, "u-osmo"), gas_limit: 1 };
    match create_signed_tx(&msgs(), numbers, &bad_denom, "osmosis-1", &key()) {
        Err(RunnerError::EncodeError { msg }) => assert_eq!(msg, "invalid fee denomination"),
        _ => panic!("a denomination with '-' must be refused"),
    }
    match create_signed_tx(&msgs(), numbers, &fee(), "osmosis-1", &vec![0u8; 32]) {
        Err(RunnerError::GenericError { msg }) => assert_eq!(msg, "invalid signing key"),
        _ => panic!("a zero key must be refused"),
    }
    assert!(is_chain_id("osmo-test_5.1"));
    assert!(!is_chain_id(""));
    assert!(!is_chain_id(&"a".repeat(51)));
}
