//! The signed transaction of the RPC backend: the transaction body holding
//! the messages, the auth info naming the signer's key, sequence and fee, and
//! the signature over the sign document that binds them to a chain and an
//! account number. The signing key is held as its secret bytes.
use vstd::prelude::*;
use vstd::string::*;
use crate::account::AccountNumbers;
use crate::codec::TypeTaggedMessage;
use crate::fee::Fee;
use crate::runner::RunnerError;
use crate::text::chars_of;

verus! {

pub uninterp spec fn tx_body_bytes(msgs: Seq<(Seq<char>, Seq<u8>)>, memo: Seq<char>, timeout_height: u32) -> Seq<u8>;

pub uninterp spec fn auth_info_bytes(
    key: Seq<u8>,
    sequence: u64,
    fee_denom: Seq<char>,
    fee_amount: u128,
    gas_limit: u64,
) -> Seq<u8>;

pub uninterp spec fn valid_signing_key(key: Seq<u8>) -> bool;

pub uninterp spec fn signed_tx_bytes(
    body: Seq<u8>,
    auth_info: Seq<u8>,
    chain_id: Seq<char>,
    account_number: u64,
    key: Seq<u8>,
) -> Seq<u8>;

pub open spec fn envelopes_view(msgs: Seq<TypeTaggedMessage>) -> Seq<(Seq<char>, Seq<u8>)> {
    msgs.map_values(|m: TypeTaggedMessage| m@)
}

/// Relies on cosmrs's `tx::Body::new` and `Body::into_bytes`, which encodes
/// into a growable vector and so does not fail.
#[verifier::external_body]
fn encode_tx_body(msgs: &Vec<TypeTaggedMessage>, memo: &str, timeout_height: u32) -> (r: Option<Vec<u8>>)
    ensures
        r is Some,
        r matches Some(b) ==> b@ == tx_body_bytes(envelopes_view(msgs@), memo@, timeout_height),
{
    cosmrs::tx::Body::new(
        msgs.iter().map(|m| cosmrs::Any { type_url: m.type_url.clone(), value: m.value.clone() }),
        memo,
        timeout_height,
    ).into_bytes().ok()
}

/// Relies on cosmrs's `SigningKey::from_slice`: whether the bytes are a
/// secp256k1 secret key.
#[verifier::external_body]
fn is_signing_key(key: &Vec<u8>) -> (r: bool)
    ensures
        r == valid_signing_key(key@),
{
    cosmrs::crypto::secp256k1::SigningKey::from_slice(key).is_ok()
}

/// Relies on cosmrs's `SignerInfo::single_direct(..).auth_info(..)` and
/// `AuthInfo::into_bytes`: one direct-mode signer with the public key of
/// `key` and `sequence`, and the fee. The fee denomination is read by
/// `Denom::from_str`, which accepts ASCII letters, digits and `/`.
#[verifier::external_body]
fn encode_auth_info(key: &Vec<u8>, sequence: u64, fee: &Fee) -> (r: Option<Vec<u8>>)
    ensures
        r matches Some(b) ==> b@ == auth_info_bytes(key@, sequence, fee.amount.denom@, fee.amount.amount, fee.gas_limit),
        valid_signing_key(key@) && denom_chars_ok(fee.amount.denom@) ==> r is Some,
{
    let public_key = cosmrs::crypto::secp256k1::SigningKey::from_slice(key).ok()?.public_key();
    let denom: cosmrs::Denom = fee.amount.denom.parse().ok()?;
    let fee = cosmrs::tx::Fee::from_amount_and_gas(cosmrs::Coin { denom, amount: fee.amount.amount }, fee.gas_limit);
    cosmrs::tx::SignerInfo::single_direct(Some(public_key), sequence).auth_info(fee).into_bytes().ok()
}

/// Relies on cosmrs's `SignDoc::sign` and `Raw::to_bytes`: the raw
/// transaction holding `body`, `auth_info` and the signature of `key` over
/// the sign document. Signing is deterministic.
#[verifier::external_body]
fn sign_tx(body: &Vec<u8>, auth_info: &Vec<u8>, chain_id: &str, account_number: u64, key: &Vec<u8>) -> (r: Option<Vec<u8>>)
    ensures
        r matches Some(b) ==> b@ == signed_tx_bytes(body@, auth_info@, chain_id@, account_number, key@),
{
    let key = cosmrs::crypto::secp256k1::SigningKey::from_slice(key).ok()?;
    let doc = cosmrs::tx::SignDoc {
        body_bytes: body.clone(),
        auth_info_bytes: auth_info.clone(),
        chain_id: chain_id.to_string(),
        account_number,
    };
    doc.sign(&key).ok()?.to_bytes().ok()
}

/// The characters that a fee denomination may hold.
pub open spec fn denom_chars_ok(d: Seq<char>) -> bool {
    forall|i: int| 0 <= i < d.len() ==> {
        let c = #[trigger] d[i];
        ('a' <= c && c <= 'z') || ('A' <= c && c <= 'Z') || ('0' <= c && c <= '9') || c == '/'
    }
}

/// A chain id: 1 to 50 ASCII letters, digits, `-`, `_` or `.`.
pub open spec fn chain_id_ok(id: Seq<char>) -> bool {
    &&& 0 < id.len() <= 50
    &&& forall|i: int| 0 <= i < id.len() ==> {
        let c = #[trigger] id[i];
        ('a' <= c && c <= 'z') || ('A' <= c && c <= 'Z') || ('0' <= c && c <= '9') || c == '-' || c == '_'
            || c == '.'
    }
}

/// Whether `s` is a valid chain id.
pub fn is_chain_id(s: &str) -> (r: bool)
    ensures
        r == chain_id_ok(s@),
{
    let v = chars_of(s);
    if v.len() == 0 || v.len() > 50 {
        return false;
    }
    let mut i: usize = 0;
    while i < v.len()
        invariant
            v@ == s@,
            i <= v@.len(),
            forall|j: int| 0 <= j < i ==> {
                let c = #[trigger] v@[j];
                ('a' <= c && c <= 'z') || ('A' <= c && c <= 'Z') || ('0' <= c && c <= '9') || c == '-' || c == '_'
                    || c == '.'
            },
        decreases v@.len() - i,
    {
        let c = v[i];
        if !(('a' <= c && c <= 'z') || ('A' <= c && c <= 'Z') || ('0' <= c && c <= '9') || c == '-' || c == '_'
            || c == '.') {
            return false;
        }
        i = i + 1;
    }
    true
}

/// Whether `s` may be a fee denomination.
pub fn is_fee_denom(s: &str) -> (r: bool)
    ensures
        r == denom_chars_ok(s@),
{
    let v = chars_of(s);
    let mut i: usize = 0;
    while i < v.len()
        invariant
            v@ == s@,
            i <= v@.len(),
            forall|j: int| 0 <= j < i ==> {
                let c = #[trigger] v@[j];
                ('a' <= c && c <= 'z') || ('A' <= c && c <= 'Z') || ('0' <= c && c <= '9') || c == '/'
            },
        decreases v@.len() - i,
    {
        let c = v[i];
        if !(('a' <= c && c <= 'z') || ('A' <= c && c <= 'Z') || ('0' <= c && c <= '9') || c == '/') {
            return false;
        }
        i = i + 1;
    }
    true
}

/// The body bytes of a transaction holding `msgs`, as this backend writes
/// it: memo `MEMO`, no timeout height.
pub open spec fn body_of(msgs: Seq<TypeTaggedMessage>) -> Seq<u8> {
    tx_body_bytes(envelopes_view(msgs), "MEMO"@, 0)
}

/// Builds and signs the transaction that carries `msgs` for the account with
/// `numbers`, paying `fee`, on chain `chain_id`, with the secret key `key`.
/// A malformed chain id, a fee denomination that the chain does not accept,
/// and bytes that are no secret key are errors; the signed transaction is the
/// one over the body, the auth info and the sign document of these values.
pub fn create_signed_tx(
    msgs: &Vec<TypeTaggedMessage>,
    numbers: AccountNumbers,
    fee: &Fee,
    chain_id: &str,
    key: &Vec<u8>,
) -> (r: Result<Vec<u8>, RunnerError>)
    ensures
        !chain_id_ok(chain_id@) ==> (r matches Err(RunnerError::GenericError { msg }) && msg@ == "invalid chain id"@),
        chain_id_ok(chain_id@) && !denom_chars_ok(fee.amount.denom@) ==> (r matches Err(
            RunnerError::EncodeError { msg },
        ) && msg@ == "invalid fee denomination"@),
        chain_id_ok(chain_id@) && denom_chars_ok(fee.amount.denom@) && !valid_signing_key(key@) ==> (r matches Err(
            RunnerError::GenericError { msg },
        ) && msg@ == "invalid signing key"@),
        r matches Ok(b) ==> b@ == signed_tx_bytes(
            body_of(msgs@),
            auth_info_bytes(key@, numbers.sequence, fee.amount.denom@, fee.amount.amount, fee.gas_limit),
            chain_id@,
            numbers.account_number,
            key@,
        ),
{
    if !is_chain_id(chain_id) {
        return Err(RunnerError::GenericError { msg: String::from_str("invalid chain id") });
    }
    if !is_fee_denom(fee.amount.denom.as_str()) {
        return Err(RunnerError::EncodeError { msg: String::from_str("invalid fee denomination") });
    }
    if !is_signing_key(key) {
        return Err(RunnerError::GenericError { msg: String::from_str("invalid signing key") });
    }
    let body = match encode_tx_body(msgs, "MEMO", 0) {
        Some(b) => b,
        None => return Err(RunnerError::EncodeError { msg: String::from_str("transaction body") }),
    };
    let auth_info = match encode_auth_info(key, numbers.sequence, fee) {
        Some(a) => a,
        None => return Err(RunnerError::EncodeError { msg: String::from_str("auth info") }),
    };
    match sign_tx(&body, &auth_info, chain_id, numbers.account_number, key) {
        Some(raw) => Ok(raw),
        None => Err(RunnerError::GenericError { msg: String::from_str("signing failed") }),
    }
}

} // verus!
