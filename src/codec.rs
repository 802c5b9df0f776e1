//! The message codec: between type-tagged envelopes (a type URL and a
//! protobuf payload) and the native messages that the simulated backend
//! executes.
//!
//! Dispatch is by exact match of the type URL against a fixed table. A
//! recognised URL whose payload does not decode, or whose coin amounts do not
//! read as `u128`, or whose staking message carries no amount, is an error
//! naming the URL. Any other URL passes through untouched as an opaque
//! message. For every recognised URL, decoding inverts encoding.
use vstd::prelude::*;
use vstd::string::*;
use crate::coin::{
    from_proto_spec,
    coins_from_proto, coins_from_proto_spec, coins_to_proto, coins_view, lemma_coins_round_trip,
    to_proto_spec, Coin, ProtoCoin,
};
use crate::proto::{
    clear_admin_bytes, decode_clear_admin, decode_delegate, decode_execute, decode_instantiate,
    decode_migrate, decode_redelegate, decode_send, decode_undelegate, decode_update_admin,
    delegate_bytes, encode_clear_admin, encode_delegate, encode_execute, encode_instantiate,
    encode_migrate, encode_redelegate, encode_send, encode_undelegate, encode_update_admin,
    execute_bytes, instantiate_bytes, migrate_bytes, opt_proto_coin_view, redelegate_bytes,
    send_bytes, undelegate_bytes,
    update_admin_bytes, clear_admin_decoded, delegate_decoded, execute_decoded, instantiate_decoded,
    migrate_decoded, redelegate_decoded, send_decoded, undelegate_decoded, update_admin_decoded,
    CoinsModel, OptCoinModel, WireClearAdmin, WireDelegation, WireExecute, WireInstantiate,
    WireMigrate, WireRedelegate, WireSend, WireUpdateAdmin,
};
use crate::text::str_eq;

verus! {

/// A type URL and the protobuf payload that it tags.
#[derive(Clone, Debug, PartialEq, Eq)]
pub struct TypeTaggedMessage {
    pub type_url: String,
    pub value: Vec<u8>,
}

impl View for TypeTaggedMessage {
    type V = (Seq<char>, Seq<u8>);

    open spec fn view(&self) -> (Seq<char>, Seq<u8>) {
        (self.type_url@, self.value@)
    }
}

/// The message kinds that the codec recognises.
#[derive(Clone, Copy, Debug, PartialEq, Eq, Structural)]
pub enum MessageKind {
    WasmExecute,
    WasmInstantiate,
    WasmMigrate,
    WasmUpdateAdmin,
    WasmClearAdmin,
    BankSend,
    StakingDelegate,
    StakingUndelegate,
    StakingRedelegate,
}

/// A message as the simulated backend executes it. Coin amounts are
/// integers; every other field is carried as the wire message has it, so that
/// encoding loses nothing. An empty admin on the wire is no admin.
#[derive(Clone, Debug, PartialEq, Eq)]
pub enum NativeMessage {
    WasmExecute { sender: String, contract: String, msg: Vec<u8>, funds: Vec<Coin> },
    WasmInstantiate {
        sender: String,
        admin: Option<String>,
        code_id: u64,
        label: String,
        msg: Vec<u8>,
        funds: Vec<Coin>,
    },
    WasmMigrate { sender: String, contract: String, code_id: u64, msg: Vec<u8> },
    WasmUpdateAdmin { sender: String, contract: String, new_admin: String },
    WasmClearAdmin { sender: String, contract: String },
    BankSend { from_address: String, to_address: String, amount: Vec<Coin> },
    StakingDelegate { delegator: String, validator: String, amount: Coin },
    StakingUndelegate { delegator: String, validator: String, amount: Coin },
    StakingRedelegate { delegator: String, src_validator: String, dst_validator: String, amount: Coin },
    /// A message of any other type URL, carried verbatim. The simulated
    /// backend executes it only through a handler registered for its URL.
    Opaque { type_url: String, value: Vec<u8> },
}

pub type CoinModel = (Seq<char>, u128);

/// The mathematical value of a [`NativeMessage`].
pub enum NativeModel {
    WasmExecute { sender: Seq<char>, contract: Seq<char>, msg: Seq<u8>, funds: Seq<CoinModel> },
    WasmInstantiate {
        sender: Seq<char>,
        admin: Option<Seq<char>>,
        code_id: u64,
        label: Seq<char>,
        msg: Seq<u8>,
        funds: Seq<CoinModel>,
    },
    WasmMigrate { sender: Seq<char>, contract: Seq<char>, code_id: u64, msg: Seq<u8> },
    WasmUpdateAdmin { sender: Seq<char>, contract: Seq<char>, new_admin: Seq<char> },
    WasmClearAdmin { sender: Seq<char>, contract: Seq<char> },
    BankSend { from_address: Seq<char>, to_address: Seq<char>, amount: Seq<CoinModel> },
    StakingDelegate { delegator: Seq<char>, validator: Seq<char>, amount: CoinModel },
    StakingUndelegate { delegator: Seq<char>, validator: Seq<char>, amount: CoinModel },
    StakingRedelegate { delegator: Seq<char>, src_validator: Seq<char>, dst_validator: Seq<char>, amount: CoinModel },
    Opaque { type_url: Seq<char>, value: Seq<u8> },
}

pub open spec fn opt_string_view(s: Option<String>) -> Option<Seq<char>> {
    match s {
        Some(a) => Some(a@),
        None => None,
    }
}

impl View for NativeMessage {
    type V = NativeModel;

    open spec fn view(&self) -> NativeModel {
        match self {
            NativeMessage::WasmExecute { sender, contract, msg, funds } => NativeModel::WasmExecute {
                sender: sender@,
                contract: contract@,
                msg: msg@,
                funds: coins_view(funds@),
            },
            NativeMessage::WasmInstantiate { sender, admin, code_id, label, msg, funds } => NativeModel::WasmInstantiate {
                sender: sender@,
                admin: opt_string_view(*admin),
                code_id: *code_id,
                label: label@,
                msg: msg@,
                funds: coins_view(funds@),
            },
            NativeMessage::WasmMigrate { sender, contract, code_id, msg } => NativeModel::WasmMigrate {
                sender: sender@,
                contract: contract@,
                code_id: *code_id,
                msg: msg@,
            },
            NativeMessage::WasmUpdateAdmin { sender, contract, new_admin } => NativeModel::WasmUpdateAdmin {
                sender: sender@,
                contract: contract@,
                new_admin: new_admin@,
            },
            NativeMessage::WasmClearAdmin { sender, contract } => NativeModel::WasmClearAdmin {
                sender: sender@,
                contract: contract@,
            },
            NativeMessage::BankSend { from_address, to_address, amount } => NativeModel::BankSend {
                from_address: from_address@,
                to_address: to_address@,
                amount: coins_view(amount@),
            },
            NativeMessage::StakingDelegate { delegator, validator, amount } => NativeModel::StakingDelegate {
                delegator: delegator@,
                validator: validator@,
                amount: amount@,
            },
            NativeMessage::StakingUndelegate { delegator, validator, amount } => NativeModel::StakingUndelegate {
                delegator: delegator@,
                validator: validator@,
                amount: amount@,
            },
            NativeMessage::StakingRedelegate { delegator, src_validator, dst_validator, amount } => NativeModel::StakingRedelegate {
                delegator: delegator@,
                src_validator: src_validator@,
                dst_validator: dst_validator@,
                amount: amount@,
            },
            NativeMessage::Opaque { type_url, value } => NativeModel::Opaque { type_url: type_url@, value: value@ },
        }
    }
}

/// Why a recognised message could not be decoded.
#[derive(Clone, Copy, Debug, PartialEq, Eq, Structural)]
pub enum CodecFailure {
    /// The payload is not a valid protobuf encoding of the message.
    Malformed,
    /// A coin amount is not the decimal text of a `u128`.
    InvalidAmount,
    /// A staking message carries no amount.
    MissingAmount,
}

/// A decoding failure, with the type URL of the offending message.
#[derive(Clone, Debug, PartialEq, Eq)]
pub struct CodecError {
    pub type_url: String,
    pub failure: CodecFailure,
}

/// The type URL of each recognised kind.
pub open spec fn url_of(k: MessageKind) -> Seq<char> {
    match k {
        MessageKind::WasmExecute => "/cosmwasm.wasm.v1.MsgExecuteContract"@,
        MessageKind::WasmInstantiate => "/cosmwasm.wasm.v1.MsgInstantiateContract"@,
        MessageKind::WasmMigrate => "/cosmwasm.wasm.v1.MsgMigrateContract"@,
        MessageKind::WasmUpdateAdmin => "/cosmwasm.wasm.v1.MsgUpdateAdmin"@,
        MessageKind::WasmClearAdmin => "/cosmwasm.wasm.v1.MsgClearAdmin"@,
        MessageKind::BankSend => "/cosmos.bank.v1beta1.MsgSend"@,
        MessageKind::StakingDelegate => "/cosmos.staking.v1beta1.MsgDelegate"@,
        MessageKind::StakingUndelegate => "/cosmos.staking.v1beta1.MsgUndelegate"@,
        MessageKind::StakingRedelegate => "/cosmos.staking.v1beta1.MsgBeginRedelegate"@,
    }
}

/// The kind that a type URL names, by exact match.
pub open spec fn kind_of(url: Seq<char>) -> Option<MessageKind> {
    if url == url_of(MessageKind::WasmExecute) {
        Some(MessageKind::WasmExecute)
    } else if url == url_of(MessageKind::WasmInstantiate) {
        Some(MessageKind::WasmInstantiate)
    } else if url == url_of(MessageKind::WasmMigrate) {
        Some(MessageKind::WasmMigrate)
    } else if url == url_of(MessageKind::WasmUpdateAdmin) {
        Some(MessageKind::WasmUpdateAdmin)
    } else if url == url_of(MessageKind::WasmClearAdmin) {
        Some(MessageKind::WasmClearAdmin)
    } else if url == url_of(MessageKind::BankSend) {
        Some(MessageKind::BankSend)
    } else if url == url_of(MessageKind::StakingDelegate) {
        Some(MessageKind::StakingDelegate)
    } else if url == url_of(MessageKind::StakingUndelegate) {
        Some(MessageKind::StakingUndelegate)
    } else if url == url_of(MessageKind::StakingRedelegate) {
        Some(MessageKind::StakingRedelegate)
    } else {
        None
    }
}

/// The kind of a native message; `None` for an opaque one.
pub open spec fn native_kind(n: NativeModel) -> Option<MessageKind> {
    match n {
        NativeModel::WasmExecute { .. } => Some(MessageKind::WasmExecute),
        NativeModel::WasmInstantiate { .. } => Some(MessageKind::WasmInstantiate),
        NativeModel::WasmMigrate { .. } => Some(MessageKind::WasmMigrate),
        NativeModel::WasmUpdateAdmin { .. } => Some(MessageKind::WasmUpdateAdmin),
        NativeModel::WasmClearAdmin { .. } => Some(MessageKind::WasmClearAdmin),
        NativeModel::BankSend { .. } => Some(MessageKind::BankSend),
        NativeModel::StakingDelegate { .. } => Some(MessageKind::StakingDelegate),
        NativeModel::StakingUndelegate { .. } => Some(MessageKind::StakingUndelegate),
        NativeModel::StakingRedelegate { .. } => Some(MessageKind::StakingRedelegate),
        NativeModel::Opaque { .. } => None,
    }
}

pub open spec fn wire_coins(s: Seq<CoinModel>) -> CoinsModel {
    s.map_values(|c: CoinModel| to_proto_spec(c))
}

/// The admin field on the wire: empty for no admin.
pub open spec fn admin_text(a: Option<Seq<char>>) -> Seq<char> {
    match a {
        Some(s) => s,
        None => Seq::empty(),
    }
}

/// The envelope of a native message.
pub open spec fn encode_spec(n: NativeModel) -> (Seq<char>, Seq<u8>) {
    match n {
        NativeModel::WasmExecute { sender, contract, msg, funds } => (
            url_of(MessageKind::WasmExecute),
            execute_bytes((sender, contract, msg, wire_coins(funds))),
        ),
        NativeModel::WasmInstantiate { sender, admin, code_id, label, msg, funds } => (
            url_of(MessageKind::WasmInstantiate),
            instantiate_bytes((sender, admin_text(admin), code_id, label, msg, wire_coins(funds))),
        ),
        NativeModel::WasmMigrate { sender, contract, code_id, msg } => (
            url_of(MessageKind::WasmMigrate),
            migrate_bytes((sender, contract, code_id, msg)),
        ),
        NativeModel::WasmUpdateAdmin { sender, contract, new_admin } => (
            url_of(MessageKind::WasmUpdateAdmin),
            update_admin_bytes((sender, new_admin, contract)),
        ),
        NativeModel::WasmClearAdmin { sender, contract } => (
            url_of(MessageKind::WasmClearAdmin),
            clear_admin_bytes((sender, contract)),
        ),
        NativeModel::BankSend { from_address, to_address, amount } => (
            url_of(MessageKind::BankSend),
            send_bytes((from_address, to_address, wire_coins(amount))),
        ),
        NativeModel::StakingDelegate { delegator, validator, amount } => (
            url_of(MessageKind::StakingDelegate),
            delegate_bytes((delegator, validator, Some(to_proto_spec(amount)))),
        ),
        NativeModel::StakingUndelegate { delegator, validator, amount } => (
            url_of(MessageKind::StakingUndelegate),
            undelegate_bytes((delegator, validator, Some(to_proto_spec(amount)))),
        ),
        NativeModel::StakingRedelegate { delegator, src_validator, dst_validator, amount } => (
            url_of(MessageKind::StakingRedelegate),
            redelegate_bytes((delegator, src_validator, dst_validator, Some(to_proto_spec(amount)))),
        ),
        NativeModel::Opaque { type_url, value } => (type_url, value),
    }
}

/// The native messages that have an envelope of their own: an admin, when
/// present, is not empty, and an opaque message does not use a recognised
/// type URL.
pub open spec fn valid_native(n: NativeModel) -> bool {
    match n {
        NativeModel::WasmInstantiate { admin, .. } => admin matches Some(a) ==> a.len() > 0,
        NativeModel::Opaque { type_url, .. } => kind_of(type_url) is None,
        _ => true,
    }
}

/// The envelopes that encode some valid native message: for a recognised type
/// URL, the payload is the encoding of the wire message, with each amount
/// written as `to_string` writes it and each staking amount present.
pub open spec fn canonical(t: (Seq<char>, Seq<u8>)) -> bool {
    exists|n: NativeModel| valid_native(n) && encode_spec(n) == t
}

/// The recognised type URLs are distinct.
pub proof fn lemma_kind_of_url(k: MessageKind)
    ensures
        kind_of(url_of(k)) == Some(k),
{
    reveal_strlit("/cosmwasm.wasm.v1.MsgExecuteContract");
    reveal_strlit("/cosmwasm.wasm.v1.MsgInstantiateContract");
    reveal_strlit("/cosmwasm.wasm.v1.MsgMigrateContract");
    reveal_strlit("/cosmwasm.wasm.v1.MsgUpdateAdmin");
    reveal_strlit("/cosmwasm.wasm.v1.MsgClearAdmin");
    reveal_strlit("/cosmos.bank.v1beta1.MsgSend");
    reveal_strlit("/cosmos.staking.v1beta1.MsgDelegate");
    reveal_strlit("/cosmos.staking.v1beta1.MsgUndelegate");
    reveal_strlit("/cosmos.staking.v1beta1.MsgBeginRedelegate");
    assert(url_of(MessageKind::WasmExecute).len() == 36);
    assert(url_of(MessageKind::WasmInstantiate).len() == 40);
    assert(url_of(MessageKind::WasmMigrate).len() == 36);
    assert(url_of(MessageKind::WasmUpdateAdmin).len() == 32);
    assert(url_of(MessageKind::WasmClearAdmin).len() == 31);
    assert(url_of(MessageKind::BankSend).len() == 28);
    assert(url_of(MessageKind::StakingDelegate).len() == 35);
    assert(url_of(MessageKind::StakingUndelegate).len() == 37);
    assert(url_of(MessageKind::StakingRedelegate).len() == 42);
    assert(url_of(MessageKind::WasmExecute)[21] != url_of(MessageKind::WasmMigrate)[21]);
}

/// A valid native message's envelope names the message's own kind.
pub proof fn lemma_envelope_kind(n: NativeModel)
    requires
        valid_native(n),
    ensures
        kind_of(encode_spec(n).0) == native_kind(n),
{
    match native_kind(n) {
        Some(k) => lemma_kind_of_url(k),
        None => {},
    }
}

/// The kind that `url` names, by exact match.
pub fn message_kind(url: &str) -> (r: Option<MessageKind>)
    ensures
        r == kind_of(url@),
{
    if str_eq(url, "/cosmwasm.wasm.v1.MsgExecuteContract") {
        Some(MessageKind::WasmExecute)
    } else if str_eq(url, "/cosmwasm.wasm.v1.MsgInstantiateContract") {
        Some(MessageKind::WasmInstantiate)
    } else if str_eq(url, "/cosmwasm.wasm.v1.MsgMigrateContract") {
        Some(MessageKind::WasmMigrate)
    } else if str_eq(url, "/cosmwasm.wasm.v1.MsgUpdateAdmin") {
        Some(MessageKind::WasmUpdateAdmin)
    } else if str_eq(url, "/cosmwasm.wasm.v1.MsgClearAdmin") {
        Some(MessageKind::WasmClearAdmin)
    } else if str_eq(url, "/cosmos.bank.v1beta1.MsgSend") {
        Some(MessageKind::BankSend)
    } else if str_eq(url, "/cosmos.staking.v1beta1.MsgDelegate") {
        Some(MessageKind::StakingDelegate)
    } else if str_eq(url, "/cosmos.staking.v1beta1.MsgUndelegate") {
        Some(MessageKind::StakingUndelegate)
    } else if str_eq(url, "/cosmos.staking.v1beta1.MsgBeginRedelegate") {
        Some(MessageKind::StakingRedelegate)
    } else {
        None
    }
}

/// The type URL of a recognised kind.
pub fn type_url(k: MessageKind) -> (r: String)
    ensures
        r@ == url_of(k),
{
    match k {
        MessageKind::WasmExecute => String::from_str("/cosmwasm.wasm.v1.MsgExecuteContract"),
        MessageKind::WasmInstantiate => String::from_str("/cosmwasm.wasm.v1.MsgInstantiateContract"),
        MessageKind::WasmMigrate => String::from_str("/cosmwasm.wasm.v1.MsgMigrateContract"),
        MessageKind::WasmUpdateAdmin => String::from_str("/cosmwasm.wasm.v1.MsgUpdateAdmin"),
        MessageKind::WasmClearAdmin => String::from_str("/cosmwasm.wasm.v1.MsgClearAdmin"),
        MessageKind::BankSend => String::from_str("/cosmos.bank.v1beta1.MsgSend"),
        MessageKind::StakingDelegate => String::from_str("/cosmos.staking.v1beta1.MsgDelegate"),
        MessageKind::StakingUndelegate => String::from_str("/cosmos.staking.v1beta1.MsgUndelegate"),
        MessageKind::StakingRedelegate => String::from_str("/cosmos.staking.v1beta1.MsgBeginRedelegate"),
    }
}

/// A copy of a byte vector.
pub fn copy_bytes(v: &Vec<u8>) -> (r: Vec<u8>)
    ensures
        r@ == v@,
{
    let mut r: Vec<u8> = Vec::new();
    let mut i: usize = 0;
    while i < v.len()
        invariant
            i <= v@.len(),
            r@ == v@.take(i as int),
        decreases v@.len() - i,
    {
        r.push(v[i]);
        i = i + 1;
        assert(r@ =~= v@.take(i as int));
    }
    assert(v@.take(i as int) =~= v@);
    r
}

fn copy_coin(c: &Coin) -> (r: Coin)
    ensures
        r@ == c@,
{
    Coin { denom: c.denom.clone(), amount: c.amount }
}

fn copy_string(s: &String) -> (r: String)
    ensures
        r@ == s@,
{
    s.clone()
}

impl NativeMessage {
    /// The envelope of this message: its type URL and protobuf payload.
    pub fn encode(&self) -> (r: TypeTaggedMessage)
        ensures
            r@ == encode_spec(self@),
    {
        match self {
            NativeMessage::WasmExecute { sender, contract, msg, funds } => {
                let w = WireExecute {
                    sender: copy_string(sender),
                    contract: copy_string(contract),
                    msg: copy_bytes(msg),
                    funds: coins_to_proto(funds),
                };
                TypeTaggedMessage { type_url: type_url(MessageKind::WasmExecute), value: encode_execute(&w) }
            },
            NativeMessage::WasmInstantiate { sender, admin, code_id, label, msg, funds } => {
                let admin_wire = match admin {
                    Some(a) => copy_string(a),
                    None => String::new(),
                };
                let w = WireInstantiate {
                    sender: copy_string(sender),
                    admin: admin_wire,
                    code_id: *code_id,
                    label: copy_string(label),
                    msg: copy_bytes(msg),
                    funds: coins_to_proto(funds),
                };
                TypeTaggedMessage { type_url: type_url(MessageKind::WasmInstantiate), value: encode_instantiate(&w) }
            },
            NativeMessage::WasmMigrate { sender, contract, code_id, msg } => {
                let w = WireMigrate {
                    sender: copy_string(sender),
                    contract: copy_string(contract),
                    code_id: *code_id,
                    msg: copy_bytes(msg),
                };
                TypeTaggedMessage { type_url: type_url(MessageKind::WasmMigrate), value: encode_migrate(&w) }
            },
            NativeMessage::WasmUpdateAdmin { sender, contract, new_admin } => {
                let w = WireUpdateAdmin {
                    sender: copy_string(sender),
                    new_admin: copy_string(new_admin),
                    contract: copy_string(contract),
                };
                TypeTaggedMessage { type_url: type_url(MessageKind::WasmUpdateAdmin), value: encode_update_admin(&w) }
            },
            NativeMessage::WasmClearAdmin { sender, contract } => {
                let w = WireClearAdmin { sender: copy_string(sender), contract: copy_string(contract) };
                TypeTaggedMessage { type_url: type_url(MessageKind::WasmClearAdmin), value: encode_clear_admin(&w) }
            },
            NativeMessage::BankSend { from_address, to_address, amount } => {
                let w = WireSend {
                    from_address: copy_string(from_address),
                    to_address: copy_string(to_address),
                    amount: coins_to_proto(amount),
                };
                TypeTaggedMessage { type_url: type_url(MessageKind::BankSend), value: encode_send(&w) }
            },
            NativeMessage::StakingDelegate { delegator, validator, amount } => {
                let w = WireDelegation {
                    delegator_address: copy_string(delegator),
                    validator_address: copy_string(validator),
                    amount: Some(amount.to_proto()),
                };
                TypeTaggedMessage { type_url: type_url(MessageKind::StakingDelegate), value: encode_delegate(&w) }
            },
            NativeMessage::StakingUndelegate { delegator, validator, amount } => {
                let w = WireDelegation {
                    delegator_address: copy_string(delegator),
                    validator_address: copy_string(validator),
                    amount: Some(amount.to_proto()),
                };
                TypeTaggedMessage { type_url: type_url(MessageKind::StakingUndelegate), value: encode_undelegate(&w) }
            },
            NativeMessage::StakingRedelegate { delegator, src_validator, dst_validator, amount } => {
                let w = WireRedelegate {
                    delegator_address: copy_string(delegator),
                    validator_src_address: copy_string(src_validator),
                    validator_dst_address: copy_string(dst_validator),
                    amount: Some(amount.to_proto()),
                };
                TypeTaggedMessage { type_url: type_url(MessageKind::StakingRedelegate), value: encode_redelegate(&w) }
            },
            NativeMessage::Opaque { type_url, value } => {
                TypeTaggedMessage { type_url: copy_string(type_url), value: copy_bytes(value) }
            },
        }
    }
}

/// The native message that an envelope of kind `k` encodes, when its payload
/// is the encoding of a valid native message of that kind.
pub open spec fn decodes_to(k: MessageKind, b: Seq<u8>, r: Result<NativeMessage, CodecFailure>) -> bool {
    forall|n: NativeModel|
        native_kind(n) == Some(k) && valid_native(n) && #[trigger] encode_spec(n).1 == b
            ==> (r matches Ok(m) && m@ == n)
}

/// A decoding outcome, as values.
pub open spec fn model_result(r: Result<NativeMessage, CodecFailure>) -> Result<NativeModel, CodecFailure> {
    match r {
        Ok(m) => Ok(m@),
        Err(e) => Err(e),
    }
}

/// The native coins of wire coins: every amount must read as a `u128`.
pub open spec fn coins_native(s: CoinsModel) -> Result<Seq<CoinModel>, CodecFailure> {
    match coins_from_proto_spec(s) {
        Some(f) => Ok(f),
        None => Err(CodecFailure::InvalidAmount),
    }
}

/// The native coin of a staking message's amount, which must be present.
pub open spec fn opt_coin_native(c: OptCoinModel) -> Result<CoinModel, CodecFailure> {
    match c {
        None => Err(CodecFailure::MissingAmount),
        Some(p) => match from_proto_spec(p) {
            Some(k) => Ok(k),
            None => Err(CodecFailure::InvalidAmount),
        },
    }
}

/// The admin that a wire admin names: none when it is empty.
pub open spec fn admin_of(a: Seq<char>) -> Option<Seq<char>> {
    if a.len() == 0 {
        None
    } else {
        Some(a)
    }
}

/// What decoding a payload of kind `k` yields: the payload is read by the
/// protobuf decoder, then its amounts are read as `u128`.
#[verifier::opaque]
pub open spec fn payload_spec(k: MessageKind, b: Seq<u8>) -> Result<NativeModel, CodecFailure> {
    match k {
        MessageKind::WasmExecute => match execute_decoded(b) {
            None => Err(CodecFailure::Malformed),
            Some(w) => match coins_native(w.3) {
                Ok(f) => Ok(NativeModel::WasmExecute { sender: w.0, contract: w.1, msg: w.2, funds: f }),
                Err(e) => Err(e),
            },
        },
        MessageKind::WasmInstantiate => match instantiate_decoded(b) {
            None => Err(CodecFailure::Malformed),
            Some(w) => match coins_native(w.5) {
                Ok(f) => Ok(NativeModel::WasmInstantiate {
                    sender: w.0,
                    admin: admin_of(w.1),
                    code_id: w.2,
                    label: w.3,
                    msg: w.4,
                    funds: f,
                }),
                Err(e) => Err(e),
            },
        },
        MessageKind::WasmMigrate => match migrate_decoded(b) {
            None => Err(CodecFailure::Malformed),
            Some(w) => Ok(NativeModel::WasmMigrate { sender: w.0, contract: w.1, code_id: w.2, msg: w.3 }),
        },
        MessageKind::WasmUpdateAdmin => match update_admin_decoded(b) {
            None => Err(CodecFailure::Malformed),
            Some(w) => Ok(NativeModel::WasmUpdateAdmin { sender: w.0, contract: w.2, new_admin: w.1 }),
        },
        MessageKind::WasmClearAdmin => match clear_admin_decoded(b) {
            None => Err(CodecFailure::Malformed),
            Some(w) => Ok(NativeModel::WasmClearAdmin { sender: w.0, contract: w.1 }),
        },
        MessageKind::BankSend => match send_decoded(b) {
            None => Err(CodecFailure::Malformed),
            Some(w) => match coins_native(w.2) {
                Ok(a) => Ok(NativeModel::BankSend { from_address: w.0, to_address: w.1, amount: a }),
                Err(e) => Err(e),
            },
        },
        MessageKind::StakingDelegate => match delegate_decoded(b) {
            None => Err(CodecFailure::Malformed),
            Some(w) => match opt_coin_native(w.2) {
                Ok(a) => Ok(NativeModel::StakingDelegate { delegator: w.0, validator: w.1, amount: a }),
                Err(e) => Err(e),
            },
        },
        MessageKind::StakingUndelegate => match undelegate_decoded(b) {
            None => Err(CodecFailure::Malformed),
            Some(w) => match opt_coin_native(w.2) {
                Ok(a) => Ok(NativeModel::StakingUndelegate { delegator: w.0, validator: w.1, amount: a }),
                Err(e) => Err(e),
            },
        },
        MessageKind::StakingRedelegate => match redelegate_decoded(b) {
            None => Err(CodecFailure::Malformed),
            Some(w) => match opt_coin_native(w.3) {
                Ok(a) => Ok(NativeModel::StakingRedelegate {
                    delegator: w.0,
                    src_validator: w.1,
                    dst_validator: w.2,
                    amount: a,
                }),
                Err(e) => Err(e),
            },
        },
    }
}

/// What decoding an envelope yields: an opaque message for an unrecognised
/// type URL, else its payload read as the kind its URL names.
pub open spec fn decode_spec(t: (Seq<char>, Seq<u8>)) -> Result<NativeModel, CodecFailure> {
    match kind_of(t.0) {
        None => Ok(NativeModel::Opaque { type_url: t.0, value: t.1 }),
        Some(k) => payload_spec(k, t.1),
    }
}

/// The native coins of wire coins, or the failure.
fn native_coins(v: &Vec<ProtoCoin>) -> (r: Result<Vec<Coin>, CodecFailure>)
    ensures
        match coins_from_proto_spec(crate::coin::proto_coins_view(v@)) {
            Some(s) => r matches Ok(cs) && coins_view(cs@) == s,
            None => r == Err::<Vec<Coin>, CodecFailure>(CodecFailure::InvalidAmount),
        },
{
    match coins_from_proto(v) {
        Some(cs) => Ok(cs),
        None => Err(CodecFailure::InvalidAmount),
    }
}

/// The native coin of an optional wire coin, or the failure.
fn native_coin(c: &Option<ProtoCoin>) -> (r: Result<Coin, CodecFailure>)
    ensures
        forall|k: CoinModel| opt_proto_coin_view(*c) == Some(to_proto_spec(k)) ==> (r matches Ok(x) && x@ == k),
        match opt_coin_native(opt_proto_coin_view(*c)) {
            Ok(k) => r matches Ok(x) && x@ == k,
            Err(f) => r matches Err(g) && g == f,
        },
{
    match c {
        Some(p) => {
            let r = p.to_native();
            proof {
                assert forall|k: CoinModel| opt_proto_coin_view(*c) == Some(to_proto_spec(k)) implies (r matches Some(x) && x@ == k) by {
                    crate::decimal::lemma_parse_decimal_text(k.1 as nat, u128::MAX as nat);
                }
            }
            match r {
                Some(x) => Ok(x),
                None => Err(CodecFailure::InvalidAmount),
            }
        },
        None => Err(CodecFailure::MissingAmount),
    }
}

fn decode_wasm_execute_payload(b: &Vec<u8>) -> (r: Result<NativeMessage, CodecFailure>)
    ensures
        decodes_to(MessageKind::WasmExecute, b@, r),
        model_result(r) == payload_spec(MessageKind::WasmExecute, b@),
{
    reveal(payload_spec);
    let w = match decode_execute(b) {
        Some(w) => w,
        None => {
            assert forall|n: NativeModel| native_kind(n) == Some(MessageKind::WasmExecute) && valid_native(n) && #[trigger] encode_spec(n).1 == b@ implies false by {
                let m = (n->WasmExecute_sender, n->WasmExecute_contract, n->WasmExecute_msg, wire_coins(n->WasmExecute_funds));
                assert(b@ == execute_bytes(m));
            }
            return Err(CodecFailure::Malformed);
        },
    };
    let funds = native_coins(&w.funds);
    proof {
        assert forall|n: NativeModel| native_kind(n) == Some(MessageKind::WasmExecute) && valid_native(n) && #[trigger] encode_spec(n).1 == b@ implies
            w@ == (n->WasmExecute_sender, n->WasmExecute_contract, n->WasmExecute_msg, wire_coins(n->WasmExecute_funds))
                && coins_from_proto_spec(wire_coins(n->WasmExecute_funds)) == Some(n->WasmExecute_funds) by {
            assert(b@ == execute_bytes((n->WasmExecute_sender, n->WasmExecute_contract, n->WasmExecute_msg, wire_coins(n->WasmExecute_funds))));
            lemma_coins_round_trip(n->WasmExecute_funds);
        }
    }
    match funds {
        Ok(fs) => Ok(NativeMessage::WasmExecute { sender: w.sender, contract: w.contract, msg: w.msg, funds: fs }),
        Err(e) => Err(e),
    }
}

fn decode_wasm_instantiate_payload(b: &Vec<u8>) -> (r: Result<NativeMessage, CodecFailure>)
    ensures
        decodes_to(MessageKind::WasmInstantiate, b@, r),
        model_result(r) == payload_spec(MessageKind::WasmInstantiate, b@),
{
    reveal(payload_spec);
    let w = match decode_instantiate(b) {
        Some(w) => w,
        None => {
            assert forall|n: NativeModel| native_kind(n) == Some(MessageKind::WasmInstantiate) && valid_native(n) && #[trigger] encode_spec(n).1 == b@ implies false by {
                assert(b@ == instantiate_bytes((n->WasmInstantiate_sender, admin_text(n->WasmInstantiate_admin), n->WasmInstantiate_code_id, n->WasmInstantiate_label, n->WasmInstantiate_msg, wire_coins(n->WasmInstantiate_funds))));
            }
            return Err(CodecFailure::Malformed);
        },
    };
    let funds = native_coins(&w.funds);
    proof {
        assert forall|n: NativeModel| native_kind(n) == Some(MessageKind::WasmInstantiate) && valid_native(n) && #[trigger] encode_spec(n).1 == b@ implies
            w@ == (n->WasmInstantiate_sender, admin_text(n->WasmInstantiate_admin), n->WasmInstantiate_code_id, n->WasmInstantiate_label, n->WasmInstantiate_msg, wire_coins(n->WasmInstantiate_funds))
                && coins_from_proto_spec(wire_coins(n->WasmInstantiate_funds)) == Some(n->WasmInstantiate_funds) by {
            assert(b@ == instantiate_bytes((n->WasmInstantiate_sender, admin_text(n->WasmInstantiate_admin), n->WasmInstantiate_code_id, n->WasmInstantiate_label, n->WasmInstantiate_msg, wire_coins(n->WasmInstantiate_funds))));
            lemma_coins_round_trip(n->WasmInstantiate_funds);
        }
    }
    let admin = if w.admin.as_str().is_empty() { None } else { Some(w.admin) };
    match funds {
        Ok(fs) => Ok(NativeMessage::WasmInstantiate { sender: w.sender, admin, code_id: w.code_id, label: w.label, msg: w.msg, funds: fs }),
        Err(e) => Err(e),
    }
}

fn decode_wasm_migrate_payload(b: &Vec<u8>) -> (r: Result<NativeMessage, CodecFailure>)
    ensures
        decodes_to(MessageKind::WasmMigrate, b@, r),
        model_result(r) == payload_spec(MessageKind::WasmMigrate, b@),
{
    reveal(payload_spec);
    let w = match decode_migrate(b) {
        Some(w) => w,
        None => {
            assert forall|n: NativeModel| native_kind(n) == Some(MessageKind::WasmMigrate) && valid_native(n) && #[trigger] encode_spec(n).1 == b@ implies false by {
                assert(b@ == migrate_bytes((n->WasmMigrate_sender, n->WasmMigrate_contract, n->WasmMigrate_code_id, n->WasmMigrate_msg)));
            }
            return Err(CodecFailure::Malformed);
        },
    };
    
    proof {
        assert forall|n: NativeModel| native_kind(n) == Some(MessageKind::WasmMigrate) && valid_native(n) && #[trigger] encode_spec(n).1 == b@ implies
            w@ == (n->WasmMigrate_sender, n->WasmMigrate_contract, n->WasmMigrate_code_id, n->WasmMigrate_msg) by {
            assert(b@ == migrate_bytes((n->WasmMigrate_sender, n->WasmMigrate_contract, n->WasmMigrate_code_id, n->WasmMigrate_msg)));
            
        }
    }
    Ok(NativeMessage::WasmMigrate { sender: w.sender, contract: w.contract, code_id: w.code_id, msg: w.msg })
}

fn decode_wasm_update_admin_payload(b: &Vec<u8>) -> (r: Result<NativeMessage, CodecFailure>)
    ensures
        decodes_to(MessageKind::WasmUpdateAdmin, b@, r),
        model_result(r) == payload_spec(MessageKind::WasmUpdateAdmin, b@),
{
    reveal(payload_spec);
    let w = match decode_update_admin(b) {
        Some(w) => w,
        None => {
            assert forall|n: NativeModel| native_kind(n) == Some(MessageKind::WasmUpdateAdmin) && valid_native(n) && #[trigger] encode_spec(n).1 == b@ implies false by {
                assert(b@ == update_admin_bytes((n->WasmUpdateAdmin_sender, n->WasmUpdateAdmin_new_admin, n->WasmUpdateAdmin_contract)));
            }
            return Err(CodecFailure::Malformed);
        },
    };
    
    proof {
        assert forall|n: NativeModel| native_kind(n) == Some(MessageKind::WasmUpdateAdmin) && valid_native(n) && #[trigger] encode_spec(n).1 == b@ implies
            w@ == (n->WasmUpdateAdmin_sender, n->WasmUpdateAdmin_new_admin, n->WasmUpdateAdmin_contract) by {
            assert(b@ == update_admin_bytes((n->WasmUpdateAdmin_sender, n->WasmUpdateAdmin_new_admin, n->WasmUpdateAdmin_contract)));
            
        }
    }
    Ok(NativeMessage::WasmUpdateAdmin { sender: w.sender, contract: w.contract, new_admin: w.new_admin })
}

fn decode_wasm_clear_admin_payload(b: &Vec<u8>) -> (r: Result<NativeMessage, CodecFailure>)
    ensures
        decodes_to(MessageKind::WasmClearAdmin, b@, r),
        model_result(r) == payload_spec(MessageKind::WasmClearAdmin, b@),
{
    reveal(payload_spec);
    let w = match decode_clear_admin(b) {
        Some(w) => w,
        None => {
            assert forall|n: NativeModel| native_kind(n) == Some(MessageKind::WasmClearAdmin) && valid_native(n) && #[trigger] encode_spec(n).1 == b@ implies false by {
                assert(b@ == clear_admin_bytes((n->WasmClearAdmin_sender, n->WasmClearAdmin_contract)));
            }
            return Err(CodecFailure::Malformed);
        },
    };
    
    proof {
        assert forall|n: NativeModel| native_kind(n) == Some(MessageKind::WasmClearAdmin) && valid_native(n) && #[trigger] encode_spec(n).1 == b@ implies
            w@ == (n->WasmClearAdmin_sender, n->WasmClearAdmin_contract) by {
            assert(b@ == clear_admin_bytes((n->WasmClearAdmin_sender, n->WasmClearAdmin_contract)));
            
        }
    }
    Ok(NativeMessage::WasmClearAdmin { sender: w.sender, contract: w.contract })
}

fn decode_bank_send_payload(b: &Vec<u8>) -> (r: Result<NativeMessage, CodecFailure>)
    ensures
        decodes_to(MessageKind::BankSend, b@, r),
        model_result(r) == payload_spec(MessageKind::BankSend, b@),
{
    reveal(payload_spec);
    let w = match decode_send(b) {
        Some(w) => w,
        None => {
            assert forall|n: NativeModel| native_kind(n) == Some(MessageKind::BankSend) && valid_native(n) && #[trigger] encode_spec(n).1 == b@ implies false by {
                assert(b@ == send_bytes((n->BankSend_from_address, n->BankSend_to_address, wire_coins(n->BankSend_amount))));
            }
            return Err(CodecFailure::Malformed);
        },
    };
    let amount = native_coins(&w.amount);
    proof {
        assert forall|n: NativeModel| native_kind(n) == Some(MessageKind::BankSend) && valid_native(n) && #[trigger] encode_spec(n).1 == b@ implies
            w@ == (n->BankSend_from_address, n->BankSend_to_address, wire_coins(n->BankSend_amount))
                && coins_from_proto_spec(wire_coins(n->BankSend_amount)) == Some(n->BankSend_amount) by {
            assert(b@ == send_bytes((n->BankSend_from_address, n->BankSend_to_address, wire_coins(n->BankSend_amount))));
            lemma_coins_round_trip(n->BankSend_amount);
        }
    }
    match amount {
        Ok(fs) => Ok(NativeMessage::BankSend { from_address: w.from_address, to_address: w.to_address, amount: fs }),
        Err(e) => Err(e),
    }
}

fn decode_staking_delegate_payload(b: &Vec<u8>) -> (r: Result<NativeMessage, CodecFailure>)
    ensures
        decodes_to(MessageKind::StakingDelegate, b@, r),
        model_result(r) == payload_spec(MessageKind::StakingDelegate, b@),
{
    reveal(payload_spec);
    let w = match decode_delegate(b) {
        Some(w) => w,
        None => {
            assert forall|n: NativeModel| native_kind(n) == Some(MessageKind::StakingDelegate) && valid_native(n) && #[trigger] encode_spec(n).1 == b@ implies false by {
                assert(b@ == delegate_bytes((n->StakingDelegate_delegator, n->StakingDelegate_validator, Some(to_proto_spec(n->StakingDelegate_amount)))));
            }
            return Err(CodecFailure::Malformed);
        },
    };
    let amount = native_coin(&w.amount);
    proof {
        assert forall|n: NativeModel| native_kind(n) == Some(MessageKind::StakingDelegate) && valid_native(n) && #[trigger] encode_spec(n).1 == b@ implies
            w@ == (n->StakingDelegate_delegator, n->StakingDelegate_validator, Some(to_proto_spec(n->StakingDelegate_amount))) by {
            assert(b@ == delegate_bytes((n->StakingDelegate_delegator, n->StakingDelegate_validator, Some(to_proto_spec(n->StakingDelegate_amount)))));
            
        }
    }
    match amount {
        Ok(c) => Ok(NativeMessage::StakingDelegate { delegator: w.delegator_address, validator: w.validator_address, amount: c }),
        Err(e) => Err(e),
    }
}

fn decode_staking_undelegate_payload(b: &Vec<u8>) -> (r: Result<NativeMessage, CodecFailure>)
    ensures
        decodes_to(MessageKind::StakingUndelegate, b@, r),
        model_result(r) == payload_spec(MessageKind::StakingUndelegate, b@),
{
    reveal(payload_spec);
    let w = match decode_undelegate(b) {
        Some(w) => w,
        None => {
            assert forall|n: NativeModel| native_kind(n) == Some(MessageKind::StakingUndelegate) && valid_native(n) && #[trigger] encode_spec(n).1 == b@ implies false by {
                assert(b@ == undelegate_bytes((n->StakingUndelegate_delegator, n->StakingUndelegate_validator, Some(to_proto_spec(n->StakingUndelegate_amount)))));
            }
            return Err(CodecFailure::Malformed);
        },
    };
    let amount = native_coin(&w.amount);
    proof {
        assert forall|n: NativeModel| native_kind(n) == Some(MessageKind::StakingUndelegate) && valid_native(n) && #[trigger] encode_spec(n).1 == b@ implies
            w@ == (n->StakingUndelegate_delegator, n->StakingUndelegate_validator, Some(to_proto_spec(n->StakingUndelegate_amount))) by {
            assert(b@ == undelegate_bytes((n->StakingUndelegate_delegator, n->StakingUndelegate_validator, Some(to_proto_spec(n->StakingUndelegate_amount)))));
            
        }
    }
    match amount {
        Ok(c) => Ok(NativeMessage::StakingUndelegate { delegator: w.delegator_address, validator: w.validator_address, amount: c }),
        Err(e) => Err(e),
    }
}

fn decode_staking_redelegate_payload(b: &Vec<u8>) -> (r: Result<NativeMessage, CodecFailure>)
    ensures
        decodes_to(MessageKind::StakingRedelegate, b@, r),
        model_result(r) == payload_spec(MessageKind::StakingRedelegate, b@),
{
    reveal(payload_spec);
    let w = match decode_redelegate(b) {
        Some(w) => w,
        None => {
            assert forall|n: NativeModel| native_kind(n) == Some(MessageKind::StakingRedelegate) && valid_native(n) && #[trigger] encode_spec(n).1 == b@ implies false by {
                assert(b@ == redelegate_bytes((n->StakingRedelegate_delegator, n->StakingRedelegate_src_validator, n->StakingRedelegate_dst_validator, Some(to_proto_spec(n->StakingRedelegate_amount)))));
            }
            return Err(CodecFailure::Malformed);
        },
    };
    let amount = native_coin(&w.amount);
    proof {
        assert forall|n: NativeModel| native_kind(n) == Some(MessageKind::StakingRedelegate) && valid_native(n) && #[trigger] encode_spec(n).1 == b@ implies
            w@ == (n->StakingRedelegate_delegator, n->StakingRedelegate_src_validator, n->StakingRedelegate_dst_validator, Some(to_proto_spec(n->StakingRedelegate_amount))) by {
            assert(b@ == redelegate_bytes((n->StakingRedelegate_delegator, n->StakingRedelegate_src_validator, n->StakingRedelegate_dst_validator, Some(to_proto_spec(n->StakingRedelegate_amount)))));
            
        }
    }
    match amount {
        Ok(c) => Ok(NativeMessage::StakingRedelegate {
            delegator: w.delegator_address,
            src_validator: w.validator_src_address,
            dst_validator: w.validator_dst_address,
            amount: c,
        }),
        Err(e) => Err(e),
    }
}

fn decode_kind(k: MessageKind, b: &Vec<u8>) -> (r: Result<NativeMessage, CodecFailure>)
    ensures
        decodes_to(k, b@, r),
        model_result(r) == payload_spec(k, b@),
{
    match k {
        MessageKind::WasmExecute => decode_wasm_execute_payload(b),
        MessageKind::WasmInstantiate => decode_wasm_instantiate_payload(b),
        MessageKind::WasmMigrate => decode_wasm_migrate_payload(b),
        MessageKind::WasmUpdateAdmin => decode_wasm_update_admin_payload(b),
        MessageKind::WasmClearAdmin => decode_wasm_clear_admin_payload(b),
        MessageKind::BankSend => decode_bank_send_payload(b),
        MessageKind::StakingDelegate => decode_staking_delegate_payload(b),
        MessageKind::StakingUndelegate => decode_staking_undelegate_payload(b),
        MessageKind::StakingRedelegate => decode_staking_redelegate_payload(b),
    }
}

/// What a successful decoding of envelope `t` yields: an opaque message for
/// an unrecognised type URL, and for a recognised one, the valid native
/// message that `t` encodes, if any.
pub open spec fn decoded_as(t: (Seq<char>, Seq<u8>), m: NativeModel) -> bool {
    &&& kind_of(t.0) is None ==> m == (NativeModel::Opaque { type_url: t.0, value: t.1 })
    &&& forall|n: NativeModel| valid_native(n) && #[trigger] encode_spec(n) == t ==> m == n
}

/// Decodes an envelope into the native message it carries.
///
/// An unrecognised type URL gives an opaque message carrying the envelope
/// verbatim. A payload that the protobuf decoder rejects, an amount that does
/// not read as a `u128`, and a staking message without an amount are errors
/// naming the type URL. Decoding inverts encoding: the envelope of a valid native message
/// decodes to that message, and so an envelope that encodes some valid native
/// message decodes to one whose envelope it is.
pub fn decode(t: &TypeTaggedMessage) -> (r: Result<NativeMessage, CodecError>)
    ensures
        r matches Ok(m) ==> decoded_as(t@, m@),
        kind_of(t.type_url@) is None ==> r is Ok,
        forall|n: NativeModel| valid_native(n) && #[trigger] encode_spec(n) == t@ ==> (r matches Ok(m) && m@ == n),
        canonical(t@) ==> (r matches Ok(m) && encode_spec(m@) == t@),
        r matches Err(e) ==> kind_of(t.type_url@) is Some && e.type_url@ == t.type_url@,
        match decode_spec(t@) {
            Ok(n) => r matches Ok(m) && m@ == n,
            Err(f) => r matches Err(e) && e.type_url@ == t.type_url@ && e.failure == f,
        },
{
    let kind = message_kind(t.type_url.as_str());
    match kind {
        None => {
            let r = NativeMessage::Opaque { type_url: copy_string(&t.type_url), value: copy_bytes(&t.value) };
            proof {
                assert forall|n: NativeModel| valid_native(n) && #[trigger] encode_spec(n) == t@ implies r@ == n by {
                    lemma_envelope_kind(n);
                }
            }
            Ok(r)
        },
        Some(k) => {
            let d = decode_kind(k, &t.value);
            proof {
                assert forall|n: NativeModel| valid_native(n) && #[trigger] encode_spec(n) == t@ implies (d matches Ok(m) && m@ == n) by {
                    lemma_envelope_kind(n);
                    assert(encode_spec(n).1 == t.value@);
                }
            }
            match d {
                Ok(m) => Ok(m),
                Err(failure) => Err(CodecError { type_url: copy_string(&t.type_url), failure }),
            }
        },
    }
}

/// Decodes a batch of envelopes in order, stopping at the first that fails;
/// its error is the result. A batch of envelopes that each encode a valid
/// native message always decodes.
pub fn decode_all(msgs: &Vec<TypeTaggedMessage>) -> (r: Result<Vec<NativeMessage>, CodecError>)
    ensures
        r matches Ok(v) ==> v@.len() == msgs@.len()
            && forall|i: int| 0 <= i < v@.len() ==> decoded_as(msgs@[i]@, #[trigger] v@[i]@)
                && decode_spec(msgs@[i]@) == Ok::<NativeModel, CodecFailure>(v@[i]@),
        r is Ok <==> forall|i: int| 0 <= i < msgs@.len() ==> (#[trigger] decode_spec(msgs@[i]@)) is Ok,
        (forall|i: int| 0 <= i < msgs@.len() ==> canonical(#[trigger] msgs@[i]@)) ==> r is Ok,
        r matches Err(e) ==> exists|i: int| 0 <= i < msgs@.len()
            && (forall|j: int| 0 <= j < i ==> (#[trigger] decode_spec(msgs@[j]@)) is Ok)
            && decode_spec(#[trigger] msgs@[i]@) == Err::<NativeModel, CodecFailure>(e.failure)
            && e.type_url@ == msgs@[i].type_url@,
{
    let mut out: Vec<NativeMessage> = Vec::new();
    let mut i: usize = 0;
    while i < msgs.len()
        invariant
            i <= msgs@.len(),
            out@.len() == i,
            forall|j: int| 0 <= j < i ==> decoded_as(msgs@[j]@, #[trigger] out@[j]@)
                && decode_spec(msgs@[j]@) == Ok::<NativeModel, CodecFailure>(out@[j]@),
            forall|j: int| 0 <= j < i ==> (#[trigger] decode_spec(msgs@[j]@)) is Ok,
        decreases msgs@.len() - i,
    {
        match decode(&msgs[i]) {
            Ok(m) => {
                out.push(m);
                assert(decode_spec(msgs@[i as int]@) is Ok);
            },
            Err(e) => {
                assert(!canonical(msgs@[i as int]@));
                assert(decode_spec(msgs@[i as int]@) is Err);
                assert(decode_spec(msgs@[i as int]@) == Err::<NativeModel, CodecFailure>(e.failure));
                return Err(e);
            },
        }
        i = i + 1;
    }
    Ok(out)
}

} // verus!
