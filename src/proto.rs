//! The protobuf messages that the codec reads and writes, as plain records,
//! and the calls into prost that encode and decode them.
//!
//! Each record mirrors one message of the chain's schema field by field; a
//! coin amount stays decimal text here. The encoding of each message is named
//! by a spec function; decoding is known to invert it: the bytes that encode a
//! message decode to that message.
use vstd::prelude::*;
use prost::Message;
use osmosis_std::types::cosmos::bank::v1beta1::MsgSend;
use osmosis_std::types::cosmos::base::v1beta1::Coin as WireCoin;
use osmosis_std::types::cosmos::staking::v1beta1::{MsgBeginRedelegate, MsgDelegate, MsgUndelegate};
use osmosis_std::types::cosmwasm::wasm::v1::{
    MsgClearAdmin, MsgExecuteContract, MsgInstantiateContract, MsgMigrateContract, MsgUpdateAdmin,
};
use osmosis_std::types::cosmos::bank::v1beta1::{
    QueryAllBalancesRequest, QueryAllBalancesResponse, QueryBalanceRequest, QueryBalanceResponse,
    QuerySupplyOfRequest, QuerySupplyOfResponse,
};
use osmosis_std::types::cosmos::auth::v1beta1::{BaseAccount, QueryAccountRequest, QueryAccountResponse};
use osmosis_std::types::osmosis::lockup;
use osmosis_std::types::osmosis::tokenfactory::v1beta1 as tokenfactory;
use crate::coin::{proto_coins_view, ProtoCoin};
use crate::token_factory::{MsgBurn, MsgCreateDenom, MsgMint};

verus! {

pub type CoinsModel = Seq<(Seq<char>, Seq<char>)>;

pub type OptCoinModel = Option<(Seq<char>, Seq<char>)>;

pub open spec fn opt_proto_coin_view(c: Option<ProtoCoin>) -> OptCoinModel {
    match c {
        Some(p) => Some(p@),
        None => None,
    }
}

/// `MsgExecuteContract`.
pub struct WireExecute {
    pub sender: String,
    pub contract: String,
    pub msg: Vec<u8>,
    pub funds: Vec<ProtoCoin>,
}

impl View for WireExecute {
    type V = (Seq<char>, Seq<char>, Seq<u8>, CoinsModel);

    open spec fn view(&self) -> Self::V {
        (self.sender@, self.contract@, self.msg@, proto_coins_view(self.funds@))
    }
}

/// `MsgInstantiateContract`.
pub struct WireInstantiate {
    pub sender: String,
    pub admin: String,
    pub code_id: u64,
    pub label: String,
    pub msg: Vec<u8>,
    pub funds: Vec<ProtoCoin>,
}

impl View for WireInstantiate {
    type V = (Seq<char>, Seq<char>, u64, Seq<char>, Seq<u8>, CoinsModel);

    open spec fn view(&self) -> Self::V {
        (self.sender@, self.admin@, self.code_id, self.label@, self.msg@, proto_coins_view(self.funds@))
    }
}

/// `MsgMigrateContract`.
pub struct WireMigrate {
    pub sender: String,
    pub contract: String,
    pub code_id: u64,
    pub msg: Vec<u8>,
}

impl View for WireMigrate {
    type V = (Seq<char>, Seq<char>, u64, Seq<u8>);

    open spec fn view(&self) -> Self::V {
        (self.sender@, self.contract@, self.code_id, self.msg@)
    }
}

/// `MsgUpdateAdmin`.
pub struct WireUpdateAdmin {
    pub sender: String,
    pub new_admin: String,
    pub contract: String,
}

impl View for WireUpdateAdmin {
    type V = (Seq<char>, Seq<char>, Seq<char>);

    open spec fn view(&self) -> Self::V {
        (self.sender@, self.new_admin@, self.contract@)
    }
}

/// `MsgClearAdmin`.
pub struct WireClearAdmin {
    pub sender: String,
    pub contract: String,
}

impl View for WireClearAdmin {
    type V = (Seq<char>, Seq<char>);

    open spec fn view(&self) -> Self::V {
        (self.sender@, self.contract@)
    }
}

/// `MsgSend` of the bank module.
pub struct WireSend {
    pub from_address: String,
    pub to_address: String,
    pub amount: Vec<ProtoCoin>,
}

impl View for WireSend {
    type V = (Seq<char>, Seq<char>, CoinsModel);

    open spec fn view(&self) -> Self::V {
        (self.from_address@, self.to_address@, proto_coins_view(self.amount@))
    }
}

/// `MsgDelegate` and `MsgUndelegate`, which share their fields.
pub struct WireDelegation {
    pub delegator_address: String,
    pub validator_address: String,
    pub amount: Option<ProtoCoin>,
}

impl View for WireDelegation {
    type V = (Seq<char>, Seq<char>, OptCoinModel);

    open spec fn view(&self) -> Self::V {
        (self.delegator_address@, self.validator_address@, opt_proto_coin_view(self.amount))
    }
}

/// `MsgBeginRedelegate`.
pub struct WireRedelegate {
    pub delegator_address: String,
    pub validator_src_address: String,
    pub validator_dst_address: String,
    pub amount: Option<ProtoCoin>,
}

impl View for WireRedelegate {
    type V = (Seq<char>, Seq<char>, Seq<char>, OptCoinModel);

    open spec fn view(&self) -> Self::V {
        (
            self.delegator_address@,
            self.validator_src_address@,
            self.validator_dst_address@,
            opt_proto_coin_view(self.amount),
        )
    }
}

pub uninterp spec fn execute_bytes(m: (Seq<char>, Seq<char>, Seq<u8>, CoinsModel)) -> Seq<u8>;

pub uninterp spec fn execute_decoded(b: Seq<u8>) -> Option<(Seq<char>, Seq<char>, Seq<u8>, CoinsModel)>;

pub uninterp spec fn instantiate_bytes(m: (Seq<char>, Seq<char>, u64, Seq<char>, Seq<u8>, CoinsModel)) -> Seq<u8>;

pub uninterp spec fn instantiate_decoded(b: Seq<u8>) -> Option<(Seq<char>, Seq<char>, u64, Seq<char>, Seq<u8>, CoinsModel)>;

pub uninterp spec fn migrate_bytes(m: (Seq<char>, Seq<char>, u64, Seq<u8>)) -> Seq<u8>;

pub uninterp spec fn migrate_decoded(b: Seq<u8>) -> Option<(Seq<char>, Seq<char>, u64, Seq<u8>)>;

pub uninterp spec fn update_admin_bytes(m: (Seq<char>, Seq<char>, Seq<char>)) -> Seq<u8>;

pub uninterp spec fn update_admin_decoded(b: Seq<u8>) -> Option<(Seq<char>, Seq<char>, Seq<char>)>;

pub uninterp spec fn clear_admin_bytes(m: (Seq<char>, Seq<char>)) -> Seq<u8>;

pub uninterp spec fn clear_admin_decoded(b: Seq<u8>) -> Option<(Seq<char>, Seq<char>)>;

pub uninterp spec fn send_bytes(m: (Seq<char>, Seq<char>, CoinsModel)) -> Seq<u8>;

pub uninterp spec fn send_decoded(b: Seq<u8>) -> Option<(Seq<char>, Seq<char>, CoinsModel)>;

pub uninterp spec fn delegate_bytes(m: (Seq<char>, Seq<char>, OptCoinModel)) -> Seq<u8>;

pub uninterp spec fn delegate_decoded(b: Seq<u8>) -> Option<(Seq<char>, Seq<char>, OptCoinModel)>;

pub uninterp spec fn undelegate_bytes(m: (Seq<char>, Seq<char>, OptCoinModel)) -> Seq<u8>;

pub uninterp spec fn undelegate_decoded(b: Seq<u8>) -> Option<(Seq<char>, Seq<char>, OptCoinModel)>;

pub uninterp spec fn redelegate_bytes(m: (Seq<char>, Seq<char>, Seq<char>, OptCoinModel)) -> Seq<u8>;

pub uninterp spec fn redelegate_decoded(b: Seq<u8>) -> Option<(Seq<char>, Seq<char>, Seq<char>, OptCoinModel)>;

/// Relies on prost's `Message::encode_to_vec` for osmosis-std's
/// `MsgExecuteContract`.
#[verifier::external_body]
pub(crate) fn encode_execute(m: &WireExecute) -> (r: Vec<u8>)
    ensures
        r@ == execute_bytes(m@),
{
    MsgExecuteContract {
        sender: m.sender.clone(),
        contract: m.contract.clone(),
        msg: m.msg.clone(),
        funds: m.funds.iter().map(|c| WireCoin { denom: c.denom.clone(), amount: c.amount.clone() }).collect(),
    }.encode_to_vec()
}

/// Relies on prost's `Message::decode` for osmosis-std's
/// `MsgExecuteContract`: the encoding of a message decodes to that message.
#[verifier::external_body]
pub(crate) fn decode_execute(b: &Vec<u8>) -> (r: Option<WireExecute>)
    ensures
        r is Some <== exists|m| b@ == #[trigger] execute_bytes(m),
        r matches Some(w) ==> forall|m| b@ == #[trigger] execute_bytes(m) ==> w@ == m,
        r matches Some(w) ==> execute_decoded(b@) == Some(w@),
        r is None ==> execute_decoded(b@) is None,
{
    MsgExecuteContract::decode(b.as_slice()).ok().map(|m| WireExecute {
        sender: m.sender,
        contract: m.contract,
        msg: m.msg,
        funds: m.funds.into_iter().map(|c| ProtoCoin { denom: c.denom, amount: c.amount }).collect(),
    })
}

/// Relies on prost's `Message::encode_to_vec` for osmosis-std's
/// `MsgInstantiateContract`.
#[verifier::external_body]
pub(crate) fn encode_instantiate(m: &WireInstantiate) -> (r: Vec<u8>)
    ensures
        r@ == instantiate_bytes(m@),
{
    MsgInstantiateContract {
        sender: m.sender.clone(),
        admin: m.admin.clone(),
        code_id: m.code_id,
        label: m.label.clone(),
        msg: m.msg.clone(),
        funds: m.funds.iter().map(|c| WireCoin { denom: c.denom.clone(), amount: c.amount.clone() }).collect(),
    }.encode_to_vec()
}

/// Relies on prost's `Message::decode` for osmosis-std's
/// `MsgInstantiateContract`: the encoding of a message decodes to that message.
#[verifier::external_body]
pub(crate) fn decode_instantiate(b: &Vec<u8>) -> (r: Option<WireInstantiate>)
    ensures
        r is Some <== exists|m| b@ == #[trigger] instantiate_bytes(m),
        r matches Some(w) ==> forall|m| b@ == #[trigger] instantiate_bytes(m) ==> w@ == m,
        r matches Some(w) ==> instantiate_decoded(b@) == Some(w@),
        r is None ==> instantiate_decoded(b@) is None,
{
    MsgInstantiateContract::decode(b.as_slice()).ok().map(|m| WireInstantiate {
        sender: m.sender,
        admin: m.admin,
        code_id: m.code_id,
        label: m.label,
        msg: m.msg,
        funds: m.funds.into_iter().map(|c| ProtoCoin { denom: c.denom, amount: c.amount }).collect(),
    })
}

/// Relies on prost's `Message::encode_to_vec` for osmosis-std's
/// `MsgMigrateContract`.
#[verifier::external_body]
pub(crate) fn encode_migrate(m: &WireMigrate) -> (r: Vec<u8>)
    ensures
        r@ == migrate_bytes(m@),
{
    MsgMigrateContract {
        sender: m.sender.clone(),
        contract: m.contract.clone(),
        code_id: m.code_id,
        msg: m.msg.clone(),
    }.encode_to_vec()
}

/// Relies on prost's `Message::decode` for osmosis-std's
/// `MsgMigrateContract`: the encoding of a message decodes to that message.
#[verifier::external_body]
pub(crate) fn decode_migrate(b: &Vec<u8>) -> (r: Option<WireMigrate>)
    ensures
        r is Some <== exists|m| b@ == #[trigger] migrate_bytes(m),
        r matches Some(w) ==> forall|m| b@ == #[trigger] migrate_bytes(m) ==> w@ == m,
        r matches Some(w) ==> migrate_decoded(b@) == Some(w@),
        r is None ==> migrate_decoded(b@) is None,
{
    MsgMigrateContract::decode(b.as_slice()).ok().map(|m| WireMigrate {
        sender: m.sender,
        contract: m.contract,
        code_id: m.code_id,
        msg: m.msg,
    })
}

/// Relies on prost's `Message::encode_to_vec` for osmosis-std's
/// `MsgUpdateAdmin`.
#[verifier::external_body]
pub(crate) fn encode_update_admin(m: &WireUpdateAdmin) -> (r: Vec<u8>)
    ensures
        r@ == update_admin_bytes(m@),
{
    MsgUpdateAdmin {
        sender: m.sender.clone(),
        new_admin: m.new_admin.clone(),
        contract: m.contract.clone(),
    }.encode_to_vec()
}

/// Relies on prost's `Message::decode` for osmosis-std's `MsgUpdateAdmin`:
/// the encoding of a message decodes to that message.
#[verifier::external_body]
pub(crate) fn decode_update_admin(b: &Vec<u8>) -> (r: Option<WireUpdateAdmin>)
    ensures
        r is Some <== exists|m| b@ == #[trigger] update_admin_bytes(m),
        r matches Some(w) ==> forall|m| b@ == #[trigger] update_admin_bytes(m) ==> w@ == m,
        r matches Some(w) ==> update_admin_decoded(b@) == Some(w@),
        r is None ==> update_admin_decoded(b@) is None,
{
    MsgUpdateAdmin::decode(b.as_slice()).ok().map(|m| WireUpdateAdmin {
        sender: m.sender,
        new_admin: m.new_admin,
        contract: m.contract,
    })
}

/// Relies on prost's `Message::encode_to_vec` for osmosis-std's
/// `MsgClearAdmin`.
#[verifier::external_body]
pub(crate) fn encode_clear_admin(m: &WireClearAdmin) -> (r: Vec<u8>)
    ensures
        r@ == clear_admin_bytes(m@),
{
    MsgClearAdmin { sender: m.sender.clone(), contract: m.contract.clone() }.encode_to_vec()
}

/// Relies on prost's `Message::decode` for osmosis-std's `MsgClearAdmin`:
/// the encoding of a message decodes to that message.
#[verifier::external_body]
pub(crate) fn decode_clear_admin(b: &Vec<u8>) -> (r: Option<WireClearAdmin>)
    ensures
        r is Some <== exists|m| b@ == #[trigger] clear_admin_bytes(m),
        r matches Some(w) ==> forall|m| b@ == #[trigger] clear_admin_bytes(m) ==> w@ == m,
        r matches Some(w) ==> clear_admin_decoded(b@) == Some(w@),
        r is None ==> clear_admin_decoded(b@) is None,
{
    MsgClearAdmin::decode(b.as_slice()).ok().map(|m| WireClearAdmin { sender: m.sender, contract: m.contract })
}

/// Relies on prost's `Message::encode_to_vec` for osmosis-std's bank
/// `MsgSend`.
#[verifier::external_body]
pub(crate) fn encode_send(m: &WireSend) -> (r: Vec<u8>)
    ensures
        r@ == send_bytes(m@),
{
    MsgSend {
        from_address: m.from_address.clone(),
        to_address: m.to_address.clone(),
        amount: m.amount.iter().map(|c| WireCoin { denom: c.denom.clone(), amount: c.amount.clone() }).collect(),
    }.encode_to_vec()
}

/// Relies on prost's `Message::decode` for osmosis-std's bank `MsgSend`: the
/// encoding of a message decodes to that message.
#[verifier::external_body]
pub(crate) fn decode_send(b: &Vec<u8>) -> (r: Option<WireSend>)
    ensures
        r is Some <== exists|m| b@ == #[trigger] send_bytes(m),
        r matches Some(w) ==> forall|m| b@ == #[trigger] send_bytes(m) ==> w@ == m,
        r matches Some(w) ==> send_decoded(b@) == Some(w@),
        r is None ==> send_decoded(b@) is None,
{
    MsgSend::decode(b.as_slice()).ok().map(|m| WireSend {
        from_address: m.from_address,
        to_address: m.to_address,
        amount: m.amount.into_iter().map(|c| ProtoCoin { denom: c.denom, amount: c.amount }).collect(),
    })
}

/// Relies on prost's `Message::encode_to_vec` for osmosis-std's
/// `MsgDelegate`.
#[verifier::external_body]
pub(crate) fn encode_delegate(m: &WireDelegation) -> (r: Vec<u8>)
    ensures
        r@ == delegate_bytes(m@),
{
    MsgDelegate {
        delegator_address: m.delegator_address.clone(),
        validator_address: m.validator_address.clone(),
        amount: m.amount.as_ref().map(|c| WireCoin { denom: c.denom.clone(), amount: c.amount.clone() }),
    }.encode_to_vec()
}

/// Relies on prost's `Message::decode` for osmosis-std's `MsgDelegate`: the
/// encoding of a message decodes to that message.
#[verifier::external_body]
pub(crate) fn decode_delegate(b: &Vec<u8>) -> (r: Option<WireDelegation>)
    ensures
        r is Some <== exists|m| b@ == #[trigger] delegate_bytes(m),
        r matches Some(w) ==> forall|m| b@ == #[trigger] delegate_bytes(m) ==> w@ == m,
        r matches Some(w) ==> delegate_decoded(b@) == Some(w@),
        r is None ==> delegate_decoded(b@) is None,
{
    MsgDelegate::decode(b.as_slice()).ok().map(|m| WireDelegation {
        delegator_address: m.delegator_address,
        validator_address: m.validator_address,
        amount: m.amount.map(|c| ProtoCoin { denom: c.denom, amount: c.amount }),
    })
}

/// Relies on prost's `Message::encode_to_vec` for osmosis-std's
/// `MsgUndelegate`.
#[verifier::external_body]
pub(crate) fn encode_undelegate(m: &WireDelegation) -> (r: Vec<u8>)
    ensures
        r@ == undelegate_bytes(m@),
{
    MsgUndelegate {
        delegator_address: m.delegator_address.clone(),
        validator_address: m.validator_address.clone(),
        amount: m.amount.as_ref().map(|c| WireCoin { denom: c.denom.clone(), amount: c.amount.clone() }),
    }.encode_to_vec()
}

/// Relies on prost's `Message::decode` for osmosis-std's `MsgUndelegate`: the
/// encoding of a message decodes to that message.
#[verifier::external_body]
pub(crate) fn decode_undelegate(b: &Vec<u8>) -> (r: Option<WireDelegation>)
    ensures
        r is Some <== exists|m| b@ == #[trigger] undelegate_bytes(m),
        r matches Some(w) ==> forall|m| b@ == #[trigger] undelegate_bytes(m) ==> w@ == m,
        r matches Some(w) ==> undelegate_decoded(b@) == Some(w@),
        r is None ==> undelegate_decoded(b@) is None,
{
    MsgUndelegate::decode(b.as_slice()).ok().map(|m| WireDelegation {
        delegator_address: m.delegator_address,
        validator_address: m.validator_address,
        amount: m.amount.map(|c| ProtoCoin { denom: c.denom, amount: c.amount }),
    })
}

/// Relies on prost's `Message::encode_to_vec` for osmosis-std's
/// `MsgBeginRedelegate`.
#[verifier::external_body]
pub(crate) fn encode_redelegate(m: &WireRedelegate) -> (r: Vec<u8>)
    ensures
        r@ == redelegate_bytes(m@),
{
    MsgBeginRedelegate {
        delegator_address: m.delegator_address.clone(),
        validator_src_address: m.validator_src_address.clone(),
        validator_dst_address: m.validator_dst_address.clone(),
        amount: m.amount.as_ref().map(|c| WireCoin { denom: c.denom.clone(), amount: c.amount.clone() }),
    }.encode_to_vec()
}

/// Relies on prost's `Message::decode` for osmosis-std's
/// `MsgBeginRedelegate`: the encoding of a message decodes to that message.
#[verifier::external_body]
pub(crate) fn decode_redelegate(b: &Vec<u8>) -> (r: Option<WireRedelegate>)
    ensures
        r is Some <== exists|m| b@ == #[trigger] redelegate_bytes(m),
        r matches Some(w) ==> forall|m| b@ == #[trigger] redelegate_bytes(m) ==> w@ == m,
        r matches Some(w) ==> redelegate_decoded(b@) == Some(w@),
        r is None ==> redelegate_decoded(b@) is None,
{
    MsgBeginRedelegate::decode(b.as_slice()).ok().map(|m| WireRedelegate {
        delegator_address: m.delegator_address,
        validator_src_address: m.validator_src_address,
        validator_dst_address: m.validator_dst_address,
        amount: m.amount.map(|c| ProtoCoin { denom: c.denom, amount: c.amount }),
    })
}

pub uninterp spec fn create_denom_decoded(b: Seq<u8>) -> Option<(Seq<char>, Seq<char>)>;

pub uninterp spec fn mint_decoded(b: Seq<u8>) -> Option<(Seq<char>, OptCoinModel, Seq<char>)>;

pub uninterp spec fn burn_decoded(b: Seq<u8>) -> Option<(Seq<char>, OptCoinModel, Seq<char>)>;

pub uninterp spec fn create_denom_response_bytes(denom: Seq<char>) -> Seq<u8>;

/// Relies on prost's `Message::decode` for osmosis-std's token-factory
/// `MsgCreateDenom`: what it reads depends on the bytes alone.
#[verifier::external_body]
pub(crate) fn decode_create_denom(b: &Vec<u8>) -> (r: Option<MsgCreateDenom>)
    ensures
        r matches Some(w) ==> create_denom_decoded(b@) == Some((w.sender@, w.subdenom@)),
        r is None ==> create_denom_decoded(b@) is None,
{
    tokenfactory::MsgCreateDenom::decode(b.as_slice()).ok().map(|m| MsgCreateDenom { sender: m.sender, subdenom: m.subdenom })
}

/// Relies on prost's `Message::decode` for osmosis-std's token-factory
/// `MsgMint`: what it reads depends on the bytes alone.
#[verifier::external_body]
pub(crate) fn decode_mint(b: &Vec<u8>) -> (r: Option<MsgMint>)
    ensures
        r matches Some(w) ==> mint_decoded(b@) == Some((w.sender@, opt_proto_coin_view(w.amount), w.mint_to_address@)),
        r is None ==> mint_decoded(b@) is None,
{
    tokenfactory::MsgMint::decode(b.as_slice()).ok().map(|m| MsgMint {
        sender: m.sender,
        amount: m.amount.map(|c| ProtoCoin { denom: c.denom, amount: c.amount }),
        mint_to_address: m.mint_to_address,
    })
}

/// Relies on prost's `Message::decode` for osmosis-std's token-factory
/// `MsgBurn`: what it reads depends on the bytes alone.
#[verifier::external_body]
pub(crate) fn decode_burn(b: &Vec<u8>) -> (r: Option<MsgBurn>)
    ensures
        r matches Some(w) ==> burn_decoded(b@) == Some((w.sender@, opt_proto_coin_view(w.amount), w.burn_from_address@)),
        r is None ==> burn_decoded(b@) is None,
{
    tokenfactory::MsgBurn::decode(b.as_slice()).ok().map(|m| MsgBurn {
        sender: m.sender,
        amount: m.amount.map(|c| ProtoCoin { denom: c.denom, amount: c.amount }),
        burn_from_address: m.burn_from_address,
    })
}

/// Relies on prost's `Message::encode_to_vec` for osmosis-std's token-factory
/// `MsgCreateDenomResponse`.
#[verifier::external_body]
pub(crate) fn encode_create_denom_response(denom: &String) -> (r: Vec<u8>)
    ensures
        r@ == create_denom_response_bytes(denom@),
{
    tokenfactory::MsgCreateDenomResponse { new_token_denom: denom.clone() }.encode_to_vec()
}

pub uninterp spec fn all_balances_request_decoded(b: Seq<u8>) -> Option<Seq<char>>;

pub uninterp spec fn balance_request_decoded(b: Seq<u8>) -> Option<(Seq<char>, Seq<char>)>;

pub uninterp spec fn supply_of_request_decoded(b: Seq<u8>) -> Option<Seq<char>>;

pub uninterp spec fn all_balances_response_json(balances: CoinsModel) -> Seq<u8>;

pub uninterp spec fn balance_response_json(balance: (Seq<char>, Seq<char>)) -> Seq<u8>;

pub uninterp spec fn supply_of_response_json(amount: (Seq<char>, Seq<char>)) -> Seq<u8>;

/// Relies on prost's `Message::decode` for osmosis-std's
/// `QueryAllBalancesRequest`, of which the address is returned; what it reads
/// depends on the bytes alone.
#[verifier::external_body]
pub(crate) fn decode_all_balances_request(b: &Vec<u8>) -> (r: Option<String>)
    ensures
        r matches Some(w) ==> all_balances_request_decoded(b@) == Some(w@),
        r is None ==> all_balances_request_decoded(b@) is None,
{
    QueryAllBalancesRequest::decode(b.as_slice()).ok().map(|m| m.address)
}

/// Relies on prost's `Message::decode` for osmosis-std's
/// `QueryBalanceRequest`: what it reads depends on the bytes alone.
#[verifier::external_body]
pub(crate) fn decode_balance_request(b: &Vec<u8>) -> (r: Option<(String, String)>)
    ensures
        r matches Some(w) ==> balance_request_decoded(b@) == Some((w.0@, w.1@)),
        r is None ==> balance_request_decoded(b@) is None,
{
    QueryBalanceRequest::decode(b.as_slice()).ok().map(|m| (m.address, m.denom))
}

/// Relies on prost's `Message::decode` for osmosis-std's
/// `QuerySupplyOfRequest`: what it reads depends on the bytes alone.
#[verifier::external_body]
pub(crate) fn decode_supply_of_request(b: &Vec<u8>) -> (r: Option<String>)
    ensures
        r matches Some(w) ==> supply_of_request_decoded(b@) == Some(w@),
        r is None ==> supply_of_request_decoded(b@) is None,
{
    QuerySupplyOfRequest::decode(b.as_slice()).ok().map(|m| m.denom)
}

/// Relies on cosmwasm-std's `to_json_vec`, which does not fail on these
/// derived serialisations, for osmosis-std's
/// `QueryAllBalancesResponse` without pagination.
#[verifier::external_body]
pub(crate) fn all_balances_response(balances: &Vec<ProtoCoin>) -> (r: Option<Vec<u8>>)
    ensures
        r is Some,
        r matches Some(b) ==> b@ == all_balances_response_json(proto_coins_view(balances@)),
{
    cosmwasm_std::to_json_vec(&QueryAllBalancesResponse {
        balances: balances.iter().map(|c| WireCoin { denom: c.denom.clone(), amount: c.amount.clone() }).collect(),
        pagination: None,
    }).ok()
}

/// Relies on cosmwasm-std's `to_json_vec`, which does not fail on these
/// derived serialisations, for osmosis-std's
/// `QueryBalanceResponse` with a balance present.
#[verifier::external_body]
pub(crate) fn balance_response(balance: &ProtoCoin) -> (r: Option<Vec<u8>>)
    ensures
        r is Some,
        r matches Some(b) ==> b@ == balance_response_json(balance@),
{
    cosmwasm_std::to_json_vec(&QueryBalanceResponse {
        balance: Some(WireCoin { denom: balance.denom.clone(), amount: balance.amount.clone() }),
    }).ok()
}

/// Relies on cosmwasm-std's `to_json_vec`, which does not fail on these
/// derived serialisations, for osmosis-std's
/// `QuerySupplyOfResponse` with an amount present.
#[verifier::external_body]
pub(crate) fn supply_of_response(amount: &ProtoCoin) -> (r: Option<Vec<u8>>)
    ensures
        r is Some,
        r matches Some(b) ==> b@ == supply_of_response_json(amount@),
{
    cosmwasm_std::to_json_vec(&QuerySupplyOfResponse {
        amount: Some(WireCoin { denom: amount.denom.clone(), amount: amount.amount.clone() }),
    }).ok()
}

pub uninterp spec fn account_request_bytes(address: Seq<char>) -> Seq<u8>;

pub uninterp spec fn account_response_decoded(b: Seq<u8>) -> Option<Option<(Seq<char>, Seq<u8>)>>;

pub uninterp spec fn base_account_decoded(b: Seq<u8>) -> Option<(u64, u64)>;

/// Relies on prost's `Message::encode_to_vec` for osmosis-std's
/// `QueryAccountRequest`.
#[verifier::external_body]
pub(crate) fn encode_account_request(address: &str) -> (r: Vec<u8>)
    ensures
        r@ == account_request_bytes(address@),
{
    QueryAccountRequest { address: address.to_string() }.encode_to_vec()
}

/// Relies on prost's `Message::decode` for osmosis-std's
/// `QueryAccountResponse`, whose account is a type URL and a payload; what
/// it reads depends on the bytes alone.
#[verifier::external_body]
pub(crate) fn decode_account_response(b: &Vec<u8>) -> (r: Option<Option<(String, Vec<u8>)>>)
    ensures
        r matches Some(w) ==> account_response_decoded(b@) == Some(match w {
            Some(a) => Some((a.0@, a.1@)),
            None => None,
        }),
        r is None ==> account_response_decoded(b@) is None,
{
    QueryAccountResponse::decode(b.as_slice()).ok().map(|m| m.account.map(|a| (a.type_url, a.value)))
}

/// Relies on prost's `Message::decode` for osmosis-std's `BaseAccount`, of
/// which the account number and the sequence are returned; what it reads
/// depends on the bytes alone.
#[verifier::external_body]
pub(crate) fn decode_base_account(b: &Vec<u8>) -> (r: Option<(u64, u64)>)
    ensures
        r == base_account_decoded(b@),
{
    BaseAccount::decode(b.as_slice()).ok().map(|m| (m.account_number, m.sequence))
}

pub uninterp spec fn lockup_params_bytes(addresses: Seq<Seq<char>>) -> Seq<u8>;

/// Relies on prost's `Message::encode_to_vec` for osmosis-std's lockup
/// `Params`.
#[verifier::external_body]
pub(crate) fn encode_lockup_params(addresses: &Vec<String>) -> (r: Vec<u8>)
    ensures
        r@ == lockup_params_bytes(addresses@.map_values(|a: String| a@)),
{
    lockup::Params { force_unlock_allowed_addresses: addresses.clone() }.encode_to_vec()
}

} // verus!
