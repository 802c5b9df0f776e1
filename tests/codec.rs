use cw_it::codec::{decode, decode_all, CodecFailure, NativeMessage, TypeTaggedMessage};
use cw_it::coin::Coin;
use osmosis_std::types::cosmos::bank::v1beta1::MsgSend;
use osmosis_std::types::cosmos::base::v1beta1::Coin as WireCoin;
use osmosis_std::types::cosmos::staking::v1beta1::MsgDelegate;
use prost::Message;

fn samples() -> Vec<NativeMessage> {
    vec![
        NativeMessage::WasmExecute {
            sender: "osmo1sender".to_string(),
            contract: "osmo1contract".to_string(),
            msg: b"{\"mint\":{}}".to_vec(),
            funds: vec![Coin::new(100, "uosmo"), Coin::new(u128::MAX, "uatom")],
        },
        NativeMessage::WasmInstantiate {
            sender: "osmo1sender".to_string(),
            admin: Some("osmo1admin".to_string()),
            code_id: 7,
            label: "counter".to_string(),
            msg: b"{}".to_vec(),
            funds: vec![],
        },
        NativeMessage::WasmInstantiate {
            sender: "osmo1sender".to_string(),
            admin: None,
            code_id: 1,
            label: "no admin".to_string(),
            msg: vec![],
            funds: vec![Coin::new(0, "uosmo")],
        },
        NativeMessage::WasmMigrate {
            sender: "osmo1sender".to_string(),
            contract: "osmo1contract".to_string(),
            code_id: 9,
            msg: b"{\"migrate\":{}}".to_vec(),
        },
        NativeMessage::WasmUpdateAdmin {
            sender: "osmo1sender".to_string(),
            contract: "osmo1contract".to_string(),
            new_admin: "osmo1new".to_string(),
        },
        NativeMessage::WasmClearAdmin { sender: "osmo1sender".to_string(), contract: "osmo1contract".to_string() },
        NativeMessage::BankSend {
            from_address: "osmo1from".to_string(),
            to_address: "osmo1to".to_string(),
            amount: vec![Coin::new(100, "uatom")],
        },
        NativeMessage::StakingDelegate {
            delegator: "osmo1del".to_string(),
            validator: "osmovaloper1val".to_string(),
            amount: Coin::new(5, "uosmo"),
        },
        NativeMessage::StakingUndelegate {
            delegator: "osmo1del".to_string(),
            validator: "osmovaloper1val".to_string(),
            amount: Coin::new(6, "uosmo"),
        },
        NativeMessage::StakingRedelegate {
            delegator: "osmo1del".to_string(),
            src_validator: "osmovaloper1a".to_string(),
            dst_validator: "osmovaloper1b".to_string(),
            amount: Coin::new(7, "uosmo"),
        },
    ]
}

#[test]
fn decode_inverts_encode_for_every_kind() {
    for m in samples() {
        let t = m.encode();
        assert_eq!(decode(&t), Ok(m));
    }
}

#[test]
fn encode_inverts_decode_for_canonical_envelopes() {
    for m in samples() {
        let t = m.encode();
        let back = decode(&t).unwrap().encode();
        assert_eq!(back, t);
    }
}

#[test]
fn bank_send_envelope_matches_chain_encoding() {
    let m = NativeMessage::BankSend {
        from_address: "a".to_string(),
        to_address: "b".to_string(),
        amount: vec![Coin::new(100, "uatom")],
    };
    let t = m.encode();
    assert_eq!(t.type_url, "/cosmos.bank.v1beta1.MsgSend");
    let expected = MsgSend {
        from_address: "a".to_string(),
        to_address: "b".to_string(),
        amount: vec![WireCoin { denom: "uatom".to_string(), amount: "100".to_string() }],
    };
    assert_eq!(t.value, expected.encode_to_vec());
}

#[test]
fn unknown_type_url_passes_through_opaque() {
    let t = TypeTaggedMessage {
        type_url: "/osmosis.tokenfactory.v1beta1.MsgCreateDenom".to_string(),
        value: vec![1, 2, 3],
    };
    assert_eq!(
        decode(&t),
        Ok(NativeMessage::Opaque { type_url: t.type_url.clone(), value: vec![1, 2, 3] })
    );
    assert_eq!(NativeMessage::Opaque { type_url: t.type_url.clone(), value: vec![1, 2, 3] }.encode(), t);
}

#[test]
fn malformed_payload_names_its_type_url() {
    let t = TypeTaggedMessage { type_url: "/cosmos.bank.v1beta1.MsgSend".to_string(), value: vec![0xff, 0xff] };
    let err = decode(&t).unwrap_err();
    assert_eq!(err.type_url, "/cosmos.bank.v1beta1.MsgSend");
    assert_eq!(err.failure, CodecFailure::Malformed);
}

#[test]
fn unreadable_amount_is_an_error() {
    let bad = MsgSend {
        from_address: "a".to_string(),
        to_address: "b".to_string(),
        amount: vec![WireCoin { denom: "uatom".to_string(), amount: "1x".to_string() }],
    };
    let t = TypeTaggedMessage { type_url: "/cosmos.bank.v1beta1.MsgSend".to_string(), value: bad.encode_to_vec() };
    assert_eq!(decode(&t).unwrap_err().failure, CodecFailure::InvalidAmount);
}

#[test]
fn staking_without_amount_fails_closed() {
    let msg = MsgDelegate { delegator_address: "d".to_string(), validator_address: "v".to_string(), amount: None };
    let t = TypeTaggedMessage {
        type_url: "/cosmos.staking.v1beta1.MsgDelegate".to_string(),
        value: msg.encode_to_vec(),
    };
    assert_eq!(decode(&t).unwrap_err().failure, CodecFailure::MissingAmount);
}

#[test]
fn batch_decoding_stops_at_first_failure() {
    let good: Vec<TypeTaggedMessage> = samples().iter().map(|m| m.encode()).collect();
    assert_eq!(decode_all(&good).unwrap(), samples());
    let mut bad = good.clone();
    bad.insert(1, TypeTaggedMessage { type_url: "/cosmwasm.wasm.v1.MsgClearAdmin".to_string(), value: vec![0x0a] });
    assert_eq!(decode_all(&bad).unwrap_err().type_url, "/cosmwasm.wasm.v1.MsgClearAdmin");
}

#[test]
fn non_canonical_amounts_decode_to_their_values() {
    let wire = MsgSend {
        from_address: "a".to_string(),
        to_address: "b".to_string(),
        amount: vec![
            WireCoin { denom: "uatom".to_string(), amount: "007".to_string() },
            WireCoin { denom: "uosmo".to_string(), amount: "+5".to_string() },
        ],
    };
    let t = TypeTaggedMessage { type_url: "/cosmos.bank.v1beta1.MsgSend".to_string(), value: wire.encode_to_vec() };
    assert_eq!(
        decode(&t),
        Ok(NativeMessage::BankSend {
            from_address: "a".to_string(),
            to_address: "b".to_string(),
            amount: vec![Coin::new(7, "uatom"), Coin::new(5, "uosmo")],
        })
    );
}

#[test]
fn amount_past_u128_is_an_error() {
    let wire = MsgSend {
        from_address: "a".to_string(),
        to_address: "b".to_string(),
        amount: vec![WireCoin { denom: "uatom".to_string(), amount: "340282366920938463463374607431768211456".to_string() }],
    };
    let t = TypeTaggedMessage { type_url: "/cosmos.bank.v1beta1.MsgSend".to_string(), value: wire.encode_to_vec() };
    let err = decode(&t).unwrap_err();
    assert_eq!(err.failure, CodecFailure::InvalidAmount);
    assert_eq!(err.type_url, "/cosmos.bank.v1beta1.MsgSend");
}
