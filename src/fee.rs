//! The fee of a transaction on a real node. An automatic fee setting
//! estimates gas by simulation and scales it by an adjustment; a custom one
//! fixes the fee and never simulates.
use vstd::prelude::*;
use vstd::string::*;
use crate::coin::Coin;
use crate::runner::RunnerError;

verus! {

/// How a signer pays for its transactions.
pub enum FeeSetting {
    /// Simulate the transaction; its gas limit is the simulated gas scaled by
    /// `adjustment_numerator / adjustment_denominator`, rounded up, and the
    /// fee is that limit times the amount of `gas_price`.
    Auto { gas_price: Coin, adjustment_numerator: u64, adjustment_denominator: u64 },
    /// A fixed fee and gas limit.
    Custom { amount: Coin, gas_limit: u64 },
}

/// The fee of a transaction: an amount and a gas limit.
pub struct Fee {
    pub amount: Coin,
    pub gas_limit: u64,
}

impl FeeSetting {
    /// Whether the fee depends on a simulation of the transaction.
    pub fn needs_simulation(&self) -> (r: bool)
        ensures
            r == (self is Auto),
    {
        match self {
            FeeSetting::Auto { .. } => true,
            FeeSetting::Custom { .. } => false,
        }
    }
}

/// `a / b` rounded up.
pub open spec fn ceil_div(a: nat, b: nat) -> nat
    recommends
        b > 0,
{
    ((a + b - 1) as nat) / b
}

/// The gas limit of an automatic fee setting for `gas_used` units of
/// simulated gas.
pub open spec fn gas_limit_spec(gas_used: u64, numerator: u64, denominator: u64) -> nat {
    ceil_div(gas_used as nat * numerator as nat, denominator as nat)
}

/// Rounding up adds one to the quotient exactly when there is a remainder.
pub proof fn lemma_ceil_by_remainder(a: nat, b: nat)
    requires
        b > 0,
    ensures
        ceil_div(a, b) == a / b + if a % b == 0 { 0nat } else { 1nat },
{
    let q = (a / b) as int;
    let r = (a % b) as int;
    vstd::arithmetic::div_mod::lemma_fundamental_div_mod(a as int, b as int);
    assert(0 <= r < b);
    if r == 0 {
        vstd::arithmetic::div_mod::lemma_fundamental_div_mod_converse(a + b - 1, b as int, q, b - 1);
    } else {
        assert(a + b - 1 == (q + 1) * b + (r - 1)) by (nonlinear_arith)
            requires a == q * b + r;
        vstd::arithmetic::div_mod::lemma_fundamental_div_mod_converse(a + b - 1, b as int, q + 1, r - 1);
    }
}

/// The fee of a transaction. For an automatic setting, `simulated_gas` is
/// the gas that the simulation used, and the fee is paid in the chain's fee
/// denomination `chain_denom`; a gas limit past `u64` or a fee amount past
/// `u128` is an error. A custom setting gives its fixed fee and ignores
/// `simulated_gas`.
pub fn fee_for(setting: &FeeSetting, simulated_gas: u64, chain_denom: &str) -> (r: Result<Fee, RunnerError>)
    requires
        setting matches FeeSetting::Auto { adjustment_denominator, .. } ==> adjustment_denominator > 0,
    ensures
        match setting {
            FeeSetting::Custom { amount, gas_limit } => r matches Ok(f) && f.amount@ == amount@
                && f.gas_limit == gas_limit,
            FeeSetting::Auto { gas_price, adjustment_numerator, adjustment_denominator } => {
                let limit = gas_limit_spec(simulated_gas, *adjustment_numerator, *adjustment_denominator);
                if limit <= u64::MAX && limit * gas_price.amount <= u128::MAX {
                    r matches Ok(f) && f.gas_limit == limit && f.amount@ == (chain_denom@, (limit
                        * gas_price.amount) as u128)
                } else {
                    r is Err
                }
            },
        },
{
    match setting {
        FeeSetting::Custom { amount, gas_limit } => Ok(Fee {
            amount: Coin { denom: amount.denom.clone(), amount: amount.amount },
            gas_limit: *gas_limit,
        }),
        FeeSetting::Auto { gas_price, adjustment_numerator, adjustment_denominator } => {
            let g = simulated_gas as u128;
            let n = *adjustment_numerator as u128;
            assert(g * n <= 0xffff_ffff_ffff_fffe_0000_0000_0000_0001u128) by (nonlinear_arith)
                requires g <= 0xffff_ffff_ffff_ffffu128, n <= 0xffff_ffff_ffff_ffffu128;
            let scaled: u128 = g * n;
            assert(scaled == simulated_gas as nat * *adjustment_numerator as nat) by (nonlinear_arith)
                requires scaled == (simulated_gas as u128) * (*adjustment_numerator as u128);
            let den = *adjustment_denominator as u128;
            assert(scaled / den <= scaled) by (nonlinear_arith)
                requires den >= 1;
            let limit: u128 = scaled / den + if scaled % den == 0 { 0 } else { 1 };
            proof {
                lemma_ceil_by_remainder(scaled as nat, den as nat);
            }
            if limit > u64::MAX as u128 {
                return Err(RunnerError::GenericError { msg: String::from_str("gas limit does not fit u64") });
            }
            let amount = match limit.checked_mul(gas_price.amount) {
                Some(a) => a,
                None => return Err(RunnerError::GenericError { msg: String::from_str("fee amount overflows u128") }),
            };
            Ok(Fee { amount: Coin { denom: String::from_str(chain_denom), amount }, gas_limit: limit as u64 })
        },
    }
}

} // verus!
