use cw_it::coin::{coin_from_sdk_string, Coin, ProtoCoin};

fn check_denom(denom: &str) -> Option<Coin> {
    coin_from_sdk_string(&format!("{}{}", 1000, denom))
}

#[test]
fn test_coin_from_sdk_string_native_denom() {
    assert_eq!(check_denom("uosmo"), Some(Coin::new(1000, "uosmo")));
}

#[test]
fn test_coin_from_sdk_string_ibc_denom() {
    let denom = "IBC/27394FB092D2ECCD56123C74F36E4C1F926001CEADA9CA97EA622B25F41E5EB2";
    assert_eq!(check_denom(denom), Some(Coin::new(1000, denom)));
    let lower = "ibc/27394FB092D2ECCD56123C74F36E4C1F926001CEADA9CA97EA622B25F41E5EB2";
    assert_eq!(check_denom(lower), Some(Coin::new(1000, lower)));
}

#[test]
fn test_coin_from_sdk_string_invalid_ibc_denoms() {
    assert_eq!(check_denom("IBC/27394FB092D2ECCD56123CA622B25F41E5EB2"), None);
    assert_eq!(check_denom("IB/27394FB092D2ECCD56123C74F36E4C1F926001CEADA9CA97EA622B25F41E5EB2"), None);
}

#[test]
fn test_coin_from_sdk_string_token_factory_denoms() {
    assert_eq!(check_denom("factory/sender/subdenom"), Some(Coin::new(1000, "factory/sender/subdenom")));
    assert_eq!(
        check_denom("factory/se1298der/subde192MAnom"),
        Some(Coin::new(1000, "factory/se1298der/subde192MAnom"))
    );
}

#[test]
fn test_coin_from_sdk_string_invalid_token_factory_denoms() {
    assert_eq!(check_denom("factor/sender/subdenom"), None);
    assert_eq!(check_denom("factory/sender/subdenom/extra"), None);
}

#[test]
fn sdk_string_needs_an_amount_that_fits() {
    assert_eq!(coin_from_sdk_string("uosmo"), None);
    assert_eq!(coin_from_sdk_string("10000000uosmo"), Some(Coin::new(10_000_000, "uosmo")));
    assert_eq!(coin_from_sdk_string("340282366920938463463374607431768211456uosmo"), None);
    assert_eq!(coin_from_sdk_string("100"), None);
}

#[test]
fn coin_wire_form_round_trips() {
    let c = Coin::new(42, "uatom");
    let p = c.to_proto();
    assert_eq!(p, ProtoCoin { denom: "uatom".to_string(), amount: "42".to_string() });
    assert_eq!(p.to_native(), Some(c));
    assert_eq!(ProtoCoin { denom: "uatom".to_string(), amount: "4x".to_string() }.to_native(), None);
}
