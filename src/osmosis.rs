//! Osmosis conventions.
use vstd::prelude::*;
use vstd::string::*;
use crate::codec::TypeTaggedMessage;
use crate::decimal::{parse_u32, parse_u32_spec};
use crate::proto::{encode_lockup_params, lockup_params_bytes};
use crate::runner::RunnerError;
use crate::text::{chars_eq, chars_of, pieces_view, split_chars, split_spec};

verus! {

/// Whether `denom` names an Osmosis liquidity-pool share: `gamm/pool/{id}`
/// with a pool id that reads as a `u32`.
pub open spec fn is_lp_token_spec(denom: Seq<char>) -> bool {
    let parts = split_spec(denom, '/');
    parts.len() == 3 && parts[0] == "gamm"@ && parts[1] == "pool"@ && parse_u32_spec(parts[2]) is Some
}

/// Returns true if the provided denom follows the format of an Osmosis LP token.
pub fn is_osmosis_lp_token(denom: &str) -> (r: bool)
    ensures
        r == is_lp_token_spec(denom@),
{
    let chars = chars_of(denom);
    let parts = split_chars(&chars, '/');
    let ghost pv = pieces_view(parts@);
    if parts.len() != 3 {
        return false;
    }
    assert(pv[0] == parts@[0]@ && pv[1] == parts@[1]@ && pv[2] == parts@[2]@);
    let gamm = chars_of("gamm");
    let pool = chars_of("pool");
    if !chars_eq(&parts[0], &gamm) || !chars_eq(&parts[1], &pool) {
        return false;
    }
    let id = crate::text::string_of(&parts[2]);
    parse_u32(id.as_str()).is_some()
}

/// Whitelisting an address for the force unlock of locked liquidity-pool
/// positions on Osmosis.
pub trait WhitelistForceUnlock {
    /// Whitelists the given address for force unlock of locked LP positions.
    fn whitelist_address_for_force_unlock(&self, addr: &str) -> Result<(), RunnerError>;
}

/// The lockup module's parameter set that allows exactly `addresses` to force
/// unlock, as the envelope that a chain's parameter update takes.
pub fn force_unlock_param_set(addresses: &Vec<String>) -> (r: TypeTaggedMessage)
    ensures
        r.type_url@ == "/osmosis.lockup.Params"@,
        r.value@ == lockup_params_bytes(addresses@.map_values(|a: String| a@)),
{
    TypeTaggedMessage { type_url: String::from_str("/osmosis.lockup.Params"), value: encode_lockup_params(addresses) }
}

} // verus!
