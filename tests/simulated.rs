use apollo_cw_multi_test::{BasicApp, BasicAppBuilder};
use cosmwasm_std::{Addr, BankMsg, CosmosMsg, Empty, Uint128};
use cw_it::codec::{decode_all, NativeMessage};
use cw_it::coin::Coin;
use cw_it::runner::{merge_responses, BackendKind, CodeKind, MessageResponse};

fn funded_app() -> BasicApp {
    BasicAppBuilder::<Empty, Empty>::new().build(|router, _, storage| {
        router
            .bank
            .init_balance(storage, &Addr::unchecked("alice"), vec![cosmwasm_std::coin(1000, "uatom")])
            .unwrap();
    })
}

fn send(to: &str, amount: u128) -> NativeMessage {
    NativeMessage::BankSend {
        from_address: "alice".to_string(),
        to_address: to.to_string(),
        amount: vec![Coin::new(amount, "uatom")],
    }
}

fn to_cosmos(m: &NativeMessage) -> CosmosMsg {
    match m {
        NativeMessage::BankSend { to_address, amount, .. } => CosmosMsg::Bank(BankMsg::Send {
            to_address: to_address.clone(),
            amount: amount
                .iter()
                .map(|c| cosmwasm_std::Coin { denom: c.denom.clone(), amount: Uint128::new(c.amount) })
                .collect(),
        }),
        _ => panic!("only bank sends here"),
    }
}

fn balance(app: &BasicApp, addr: &str) -> u128 {
    app.wrap().query_balance(addr, "uatom").unwrap().amount.u128()
}

#[test]
fn bank_send() {
    let app = funded_app();
    let envelopes = vec![send("bob", 100).encode()];
    let msgs: Vec<CosmosMsg> = decode_all(&envelopes).unwrap().iter().map(to_cosmos).collect();
    let responses = app.execute_multi(Addr::unchecked("alice"), msgs).unwrap();
    let responses: Vec<MessageResponse> = responses
        .iter()
        .map(|r| MessageResponse {
            events: r
                .events
                .iter()
                .map(|e| cw_it::coin::Event {
                    ty: e.ty.clone(),
                    attributes: e
                        .attributes
                        .iter()
                        .map(|a| cw_it::coin::Attribute { key: a.key.clone(), value: a.value.clone() })
                        .collect(),
                })
                .collect(),
            data: r.data.as_ref().map(|d| d.to_vec()),
        })
        .collect();
    let outcome = merge_responses(&responses);
    assert_eq!(balance(&app, "alice"), 900);
    assert_eq!(balance(&app, "bob"), 100);
    let transfer = outcome.events.last().unwrap();
    assert_eq!(transfer.ty, "transfer");
    let attrs: Vec<(String, String)> =
        transfer.attributes.iter().map(|a| (a.key.clone(), a.value.clone())).collect();
    assert_eq!(
        attrs,
        vec![
            ("recipient".to_string(), "bob".to_string()),
            ("sender".to_string(), "alice".to_string()),
            ("amount".to_string(), "100uatom".to_string()),
        ]
    );
    assert_eq!(outcome.gas_used, 0);
    assert_eq!(outcome.gas_wanted, 0);
}

#[test]
fn failing_message_rolls_back_the_transaction() {
    let app = funded_app();
    let envelopes = vec![send("bob", 100).encode(), send("carol", 1_000_000).encode()];
    let msgs: Vec<CosmosMsg> = decode_all(&envelopes).unwrap().iter().map(to_cosmos).collect();
    assert!(app.execute_multi(Addr::unchecked("alice"), msgs).is_err());
    assert_eq!(balance(&app, "alice"), 1000);
    assert_eq!(balance(&app, "bob"), 0);
}

#[test]
fn merge_keeps_event_order_and_last_data() {
    let ev = |t: &str| cw_it::coin::Event { ty: t.to_string(), attributes: vec![] };
    let responses = vec![
        MessageResponse { events: vec![ev("a"), ev("b")], data: Some(vec![1]) },
        MessageResponse { events: vec![], data: None },
        MessageResponse { events: vec![ev("c")], data: Some(vec![2]) },
        MessageResponse { events: vec![ev("d")], data: None },
    ];
    let outcome = merge_responses(&responses);
    let types: Vec<String> = outcome.events.iter().map(|e| e.ty.clone()).collect();
    assert_eq!(types, vec!["a", "b", "c", "d"]);
    assert_eq!(outcome.data, Some(vec![2]));
}

fn noop_execute(
    _deps: cosmwasm_std::DepsMut,
    _env: cosmwasm_std::Env,
    _info: cosmwasm_std::MessageInfo,
    _msg: Empty,
) -> cosmwasm_std::StdResult<cosmwasm_std::Response> {
    Ok(cosmwasm_std::Response::new())
}

fn noop_query(_deps: cosmwasm_std::Deps, _env: cosmwasm_std::Env, _msg: Empty) -> cosmwasm_std::StdResult<cosmwasm_std::Binary> {
    Ok(cosmwasm_std::Binary::default())
}

#[test]
fn native_handlers_get_code_ids_from_one() {
    let app = funded_app();
    assert!(BackendKind::Simulated.check_store_code(CodeKind::NativeHandler).is_ok());
    let first = app.store_code(Box::new(apollo_cw_multi_test::ContractWrapper::new(noop_execute, noop_execute, noop_query)));
    let second = app.store_code(Box::new(apollo_cw_multi_test::ContractWrapper::new(noop_execute, noop_execute, noop_query)));
    assert_eq!(first, 1);
    assert_eq!(second, 2);
}
