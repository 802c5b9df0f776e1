use cw_it::coin::Coin;
use cw_it::fee::{fee_for, FeeSetting};

fn auto(num: u64, den: u64, price: u128) -> FeeSetting {
    FeeSetting::Auto { gas_price: Coin::new(price, "uosmo"), adjustment_numerator: num, adjustment_denominator: den }
}

#[test]
fn automatic_fee_scales_and_rounds_up() {
    let fee = fee_for(&auto(13, 10, 2), 100_000, "uosmo").unwrap();
    assert_eq!(fee.gas_limit, 130_000);
    assert_eq!(fee.amount, Coin::new(260_000, "uosmo"));
    let fee = fee_for(&auto(1, 2, 1), 3, "uosmo").unwrap();
    assert_eq!(fee.gas_limit, 2);
    let fee = fee_for(&auto(1, 1, 5), 0, "uosmo").unwrap();
    assert_eq!(fee.gas_limit, 0);
    assert_eq!(fee.amount.amount, 0);
}

#[test]
fn custom_fee_is_fixed_and_needs_no_simulation() {
    let setting = FeeSetting::Custom { amount: Coin::new(4_000_000, "uosmo"), gas_limit: 25_000_000 };
    assert!(!setting.needs_simulation());
    assert!(auto(1, 1, 1).needs_simulation());
    let fee = fee_for(&setting, 999, "uatom").unwrap();
    assert_eq!(fee.gas_limit, 25_000_000);
    assert_eq!(fee.amount, Coin::new(4_000_000, "uosmo"));
}

#[test]
fn fee_overflow_is_an_error() {
    assert!(fee_for(&auto(u64::MAX, 1, 1), u64::MAX, "uosmo").is_err());
    assert!(fee_for(&auto(1, 1, u128::MAX), 2, "uosmo").is_err());
}

#[test]
fn automatic_fee_is_paid_in_the_chain_denomination() {
    let setting = FeeSetting::Auto {
        gas_price: Coin::new(3, "ugas"),
        adjustment_numerator: 1,
        adjustment_denominator: 1,
    };
    let fee = fee_for(&setting, 10, "uosmo").unwrap();
    assert_eq!(fee.amount, Coin::new(30, "uosmo"));
}
