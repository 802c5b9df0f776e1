//! The bank query bridge: answers protobuf-shaped bank queries of the
//! simulated backend from its native balance ledger.
//!
//! A request is routed by its query path and decoded; the simulator looks up
//! the balances; the answer is shaped as the chain's own query would shape
//! it. A single-denomination balance or supply is always an explicit entry,
//! zero when nothing is held; the list of all balances leaves out zero
//! entries.
use vstd::prelude::*;
use vstd::string::*;
use crate::coin::{coins_to_proto, coins_view, to_proto_spec, Coin};
use crate::codec::wire_coins;
use crate::proto::{
    all_balances_request_decoded, all_balances_response, all_balances_response_json,
    balance_request_decoded, balance_response, balance_response_json, decode_all_balances_request,
    decode_balance_request, decode_supply_of_request, supply_of_request_decoded, supply_of_response,
    supply_of_response_json,
};
use crate::text::str_eq;

verus! {

/// A bank query that the bridge answers.
pub enum BankQuery {
    AllBalances { address: String },
    Balance { address: String, denom: String },
    SupplyOf { denom: String },
}

/// Why a bank query could not be answered.
#[derive(Clone, Copy, Debug, PartialEq, Eq, Structural)]
pub enum BankQueryError {
    /// The query path is none of the bank queries that the bridge answers.
    Unsupported,
    /// The request does not decode.
    Malformed,
    /// The response could not be serialised.
    Encode,
}

pub open spec fn all_balances_path() -> Seq<char> {
    "/cosmos.bank.v1beta1.Query/AllBalances"@
}

pub open spec fn balance_path() -> Seq<char> {
    "/cosmos.bank.v1beta1.Query/Balance"@
}

pub open spec fn supply_of_path() -> Seq<char> {
    "/cosmos.bank.v1beta1.Query/SupplyOf"@
}

/// The query paths are distinct.
pub proof fn lemma_bank_paths_distinct()
    ensures
        all_balances_path() != balance_path(),
        all_balances_path() != supply_of_path(),
        balance_path() != supply_of_path(),
{
    reveal_strlit("/cosmos.bank.v1beta1.Query/AllBalances");
    reveal_strlit("/cosmos.bank.v1beta1.Query/Balance");
    reveal_strlit("/cosmos.bank.v1beta1.Query/SupplyOf");
    assert(all_balances_path().len() == 38);
    assert(balance_path().len() == 34);
    assert(supply_of_path().len() == 35);
}

/// Routes a query by its path and decodes its request.
pub fn parse_bank_query(path: &str, data: &Vec<u8>) -> (r: Result<BankQuery, BankQueryError>)
    ensures
        path@ != all_balances_path() && path@ != balance_path() && path@ != supply_of_path()
            ==> r == Err::<BankQuery, BankQueryError>(BankQueryError::Unsupported),
        path@ == all_balances_path() ==> match all_balances_request_decoded(data@) {
            Some(a) => r matches Ok(BankQuery::AllBalances { address }) && address@ == a,
            None => r == Err::<BankQuery, BankQueryError>(BankQueryError::Malformed),
        },
        path@ == balance_path() ==> match balance_request_decoded(data@) {
            Some(m) => r matches Ok(BankQuery::Balance { address, denom }) && (address@, denom@) == m,
            None => r == Err::<BankQuery, BankQueryError>(BankQueryError::Malformed),
        },
        path@ == supply_of_path() ==> match supply_of_request_decoded(data@) {
            Some(d) => r matches Ok(BankQuery::SupplyOf { denom }) && denom@ == d,
            None => r == Err::<BankQuery, BankQueryError>(BankQueryError::Malformed),
        },
{
    proof {
        lemma_bank_paths_distinct();
    }
    if str_eq(path, "/cosmos.bank.v1beta1.Query/AllBalances") {
        match decode_all_balances_request(data) {
            Some(address) => Ok(BankQuery::AllBalances { address }),
            None => Err(BankQueryError::Malformed),
        }
    } else if str_eq(path, "/cosmos.bank.v1beta1.Query/Balance") {
        match decode_balance_request(data) {
            Some(m) => Ok(BankQuery::Balance { address: m.0, denom: m.1 }),
            None => Err(BankQueryError::Malformed),
        }
    } else if str_eq(path, "/cosmos.bank.v1beta1.Query/SupplyOf") {
        match decode_supply_of_request(data) {
            Some(denom) => Ok(BankQuery::SupplyOf { denom }),
            None => Err(BankQueryError::Malformed),
        }
    } else {
        Err(BankQueryError::Unsupported)
    }
}

/// The entries of `s` with a positive amount, in order.
pub open spec fn nonzero_entries(s: Seq<(Seq<char>, u128)>) -> Seq<(Seq<char>, u128)>
    decreases s.len(),
{
    if s.len() == 0 {
        s
    } else if s.last().1 == 0 {
        nonzero_entries(s.drop_last())
    } else {
        nonzero_entries(s.drop_last()).push(s.last())
    }
}

/// The coins of `v` with a positive amount, in order.
pub fn nonzero_coins(v: &Vec<Coin>) -> (r: Vec<Coin>)
    ensures
        coins_view(r@) == nonzero_entries(coins_view(v@)),
{
    let mut r: Vec<Coin> = Vec::new();
    let mut i: usize = 0;
    while i < v.len()
        invariant
            i <= v@.len(),
            coins_view(r@) == nonzero_entries(coins_view(v@.take(i as int))),
        decreases v@.len() - i,
    {
        assert(coins_view(v@.take(i + 1)).drop_last() =~= coins_view(v@.take(i as int)));
        assert(coins_view(v@.take(i + 1)).last() == v@[i as int]@);
        if v[i].amount != 0 {
            let c = Coin { denom: v[i].denom.clone(), amount: v[i].amount };
            let ghost before = r@;
            r.push(c);
            assert(coins_view(r@) =~= coins_view(before).push(c@));
        }
        i = i + 1;
    }
    assert(v@.take(i as int) =~= v@);
    r
}

/// The answer to an all-balances query, from the account's balances in the
/// ledger: the entries with a positive amount, without pagination.
pub fn answer_all_balances(balances: &Vec<Coin>) -> (r: Result<Vec<u8>, BankQueryError>)
    ensures
        r matches Ok(b) && b@ == all_balances_response_json(wire_coins(nonzero_entries(coins_view(balances@)))),
{
    let kept = nonzero_coins(balances);
    let wire = coins_to_proto(&kept);
    assert(crate::coin::proto_coins_view(wire@) =~= wire_coins(nonzero_entries(coins_view(balances@))));
    match all_balances_response(&wire) {
        Some(b) => Ok(b),
        None => Err(BankQueryError::Encode),
    }
}

/// The answer to a balance query, from the amount of `denom` that the
/// account holds: an explicit entry, zero when it holds none.
pub fn answer_balance(denom: &str, amount: u128) -> (r: Result<Vec<u8>, BankQueryError>)
    ensures
        r matches Ok(b) && b@ == balance_response_json(to_proto_spec((denom@, amount))),
{
    let c = Coin::new(amount, denom).to_proto();
    match balance_response(&c) {
        Some(b) => Ok(b),
        None => Err(BankQueryError::Encode),
    }
}

/// The answer to a supply query, from the total supply of `denom`: an
/// explicit entry, zero when there is none.
pub fn answer_supply_of(denom: &str, amount: u128) -> (r: Result<Vec<u8>, BankQueryError>)
    ensures
        r matches Ok(b) && b@ == supply_of_response_json(to_proto_spec((denom@, amount))),
{
    let c = Coin::new(amount, denom).to_proto();
    match supply_of_response(&c) {
        Some(b) => Ok(b),
        None => Err(BankQueryError::Encode),
    }
}

} // verus!
