//! The token-factory rules of the simulated ledger: creating a denomination
//! `{prefix}/{creator}/{subdenom}`, and minting and burning it by its creator.
//!
//! The ledger itself belongs to the simulator. Each operation here checks a
//! message against the rules and, when it passes, returns the plan of ledger
//! changes that the simulator applies in one transaction, with the event to
//! emit. A message that fails a rule yields an error and no plan, so nothing
//! on the ledger changes.
use vstd::prelude::*;
use vstd::string::*;
use crate::codec::TypeTaggedMessage;
use crate::coin::{Coin, Event, ProtoCoin};
use crate::proto::{
    burn_decoded, create_denom_decoded, create_denom_response_bytes, decode_burn, decode_create_denom,
    decode_mint, encode_create_denom_response, mint_decoded, opt_proto_coin_view,
};
use crate::decimal::{decimal_text, parse_u128, parse_u128_spec, u128_text};
use crate::text::{
    chars_eq, chars_of, contains_char, lemma_split_join, lemma_split_without_sep, pieces_view,
    split_chars, split_spec,
};

verus! {

/// The parameters of the token-factory module.
pub struct TokenFactory {
    pub module_denom_prefix: String,
    pub max_subdenom_len: usize,
    pub max_hrp_len: usize,
    pub max_creator_len: usize,
    pub denom_creation_fee: Coin,
}

/// Why a token-factory message was refused.
#[derive(Clone, Copy, Debug, PartialEq, Eq, Structural)]
pub enum TokenFactoryError {
    SubdenomTooLong { max: usize },
    CreatorTooLong { max: usize },
    CreatorHasSlash,
    CreatorNotSender,
    SubdenomExists,
    UnauthorizedMint,
    UnauthorizedBurn,
    InvalidSender,
    InvalidDenom,
    MissingAmount,
    InvalidAmount,
    ZeroAmount,
    /// The type URL is none of the module's messages.
    UnknownMessage,
    /// The payload does not decode as the message its type URL names.
    Malformed,
}

/// Asks to create the denomination `{prefix}/{sender}/{subdenom}`.
#[derive(Clone, Debug)]
pub struct MsgCreateDenom {
    pub sender: String,
    pub subdenom: String,
}

/// Asks to mint `amount` of a token-factory denomination.
#[derive(Clone, Debug)]
pub struct MsgMint {
    pub sender: String,
    pub amount: Option<ProtoCoin>,
    pub mint_to_address: String,
}

/// Asks to burn `amount` of a token-factory denomination.
#[derive(Clone, Debug)]
pub struct MsgBurn {
    pub sender: String,
    pub amount: Option<ProtoCoin>,
    pub burn_from_address: String,
}

/// What an accepted denomination creation does: `fee` is burned from
/// `fee_payer`, and `denom` is the new denomination.
pub struct CreateDenomPlan {
    pub denom: String,
    pub fee_payer: String,
    pub fee: Coin,
    pub event: Event,
}

/// What an accepted mint or burn does: `coin` is credited to, or debited
/// from, `account`.
pub struct SupplyPlan {
    pub account: String,
    pub coin: Coin,
    pub event: Event,
}

pub open spec fn slash() -> char {
    '/'
}

/// The denomination that `creator` makes from `subdenom`.
pub open spec fn denom_spec(prefix: Seq<char>, creator: Seq<char>, subdenom: Seq<char>) -> Seq<char> {
    prefix + seq![slash()] + creator + seq![slash()] + subdenom
}

/// The length in bytes of the UTF-8 text of `s`, as `str::len` counts it.
pub open spec fn byte_len(s: Seq<char>) -> usize {
    vstd::utf8::encode_utf8(s).len() as usize
}

impl TokenFactory {
    /// The rule that a creation message breaks first, if any.
    pub open spec fn create_check(&self, signer: Seq<char>, sender: Seq<char>, subdenom: Seq<char>) -> Option<TokenFactoryError> {
        if byte_len(subdenom) > self.max_subdenom_len {
            Some(TokenFactoryError::SubdenomTooLong { max: self.max_subdenom_len })
        } else if byte_len(sender) > self.max_creator_len {
            Some(TokenFactoryError::CreatorTooLong { max: self.max_creator_len })
        } else if sender.contains(slash()) {
            Some(TokenFactoryError::CreatorHasSlash)
        } else if sender != signer {
            Some(TokenFactoryError::CreatorNotSender)
        } else {
            None
        }
    }

    /// The outcome of a creation message, given the current supply of the
    /// denomination that it names: the new denomination, or the error.
    pub open spec fn create_spec(&self, signer: Seq<char>, sender: Seq<char>, subdenom: Seq<char>, supply: u128) -> Result<Seq<char>, TokenFactoryError> {
        match self.create_check(signer, sender, subdenom) {
            Some(e) => Err(e),
            None => if supply != 0 {
                Err(TokenFactoryError::SubdenomExists)
            } else {
                Ok(denom_spec(self.module_denom_prefix@, sender, subdenom))
            },
        }
    }

    /// The outcome of a mint or a burn: the denomination and amount, or the
    /// error. `unauthorized` is the error for a signer that did not create
    /// the denomination.
    pub open spec fn supply_spec(
        &self,
        signer: Seq<char>,
        sender: Seq<char>,
        amount: Option<(Seq<char>, Seq<char>)>,
        unauthorized: TokenFactoryError,
    ) -> Result<(Seq<char>, u128), TokenFactoryError> {
        match amount {
            None => Err(TokenFactoryError::MissingAmount),
            Some(c) => {
                let parts = split_spec(c.0, slash());
                if parts.len() >= 2 && parts[1] != signer {
                    Err(unauthorized)
                } else if sender != signer {
                    Err(TokenFactoryError::InvalidSender)
                } else if parts.len() != 3 || parts[0] != self.module_denom_prefix@ {
                    Err(TokenFactoryError::InvalidDenom)
                } else {
                    match parse_u128_spec(c.1) {
                        None => Err(TokenFactoryError::InvalidAmount),
                        Some(a) => if a == 0 {
                            Err(TokenFactoryError::ZeroAmount)
                        } else {
                            Ok((c.0, a))
                        },
                    }
                }
            },
        }
    }

    pub open spec fn mint_spec(&self, signer: Seq<char>, msg: MsgMint) -> Result<(Seq<char>, u128), TokenFactoryError> {
        self.supply_spec(signer, msg.sender@, opt_coin_view(msg.amount), TokenFactoryError::UnauthorizedMint)
    }

    pub open spec fn burn_spec(&self, signer: Seq<char>, msg: MsgBurn) -> Result<(Seq<char>, u128), TokenFactoryError> {
        self.supply_spec(signer, msg.sender@, opt_coin_view(msg.amount), TokenFactoryError::UnauthorizedBurn)
    }
}

pub open spec fn opt_coin_view(c: Option<ProtoCoin>) -> Option<(Seq<char>, Seq<char>)> {
    match c {
        Some(p) => Some(p@),
        None => None,
    }
}

/// The event of a creation.
pub open spec fn create_event(creator: Seq<char>, denom: Seq<char>) -> (Seq<char>, Seq<(Seq<char>, Seq<char>)>) {
    ("create_denom"@, seq![("creator"@, creator), ("new_token_denom"@, denom)])
}

/// The event of a mint.
pub open spec fn mint_event(to: Seq<char>, amount: u128) -> (Seq<char>, Seq<(Seq<char>, Seq<char>)>) {
    ("tf_mint"@, seq![("mint_to_address"@, to), ("amount"@, decimal_text(amount as nat))])
}

/// The event of a burn.
pub open spec fn burn_event(from: Seq<char>, amount: u128) -> (Seq<char>, Seq<(Seq<char>, Seq<char>)>) {
    ("tf_burn"@, seq![("burn_from_address"@, from), ("amount"@, decimal_text(amount as nat))])
}

impl Default for TokenFactory {
    /// The parameters of Osmosis: prefix `factory`, subdenominations of at
    /// most 32 bytes, creators of at most 75, and a fee of 10000000uosmo.
    fn default() -> (r: TokenFactory)
        ensures
            r.module_denom_prefix@ == "factory"@,
            r.max_subdenom_len == 32,
            r.max_hrp_len == 16,
            r.max_creator_len == 59 + 16,
            r.denom_creation_fee@ == ("uosmo"@, 10_000_000u128),
    {
        TokenFactory::new("factory", 32, 16, 59 + 16, Coin::new(10_000_000, "uosmo"))
    }
}

impl TokenFactory {
    /// A token factory with the given parameters.
    pub fn new(
        prefix: &str,
        max_subdenom_len: usize,
        max_hrp_len: usize,
        max_creator_len: usize,
        denom_creation_fee: Coin,
    ) -> (r: TokenFactory)
        ensures
            r.module_denom_prefix@ == prefix@,
            r.max_subdenom_len == max_subdenom_len,
            r.max_hrp_len == max_hrp_len,
            r.max_creator_len == max_creator_len,
            r.denom_creation_fee == denom_creation_fee,
    {
        TokenFactory {
            module_denom_prefix: String::from_str(prefix),
            max_subdenom_len,
            max_hrp_len,
            max_creator_len,
            denom_creation_fee,
        }
    }

    /// The denomination that `creator` makes from `subdenom`.
    pub fn denom_for(&self, creator: &str, subdenom: &str) -> (r: String)
        ensures
            r@ == denom_spec(self.module_denom_prefix@, creator@, subdenom@),
    {
        let mut r = self.module_denom_prefix.clone();
        r.append("/");
        r.append(creator);
        r.append("/");
        r.append(subdenom);
        proof {
            reveal_strlit("/");
        }
        assert(r@ =~= denom_spec(self.module_denom_prefix@, creator@, subdenom@));
        r
    }

    /// Checks a creation message signed by `signer` against the rules that do
    /// not depend on the ledger, and names the denomination it would create.
    /// The simulator looks up the supply of that denomination and hands it to
    /// [`TokenFactory::create_denom`].
    pub fn check_create_denom(&self, signer: &str, msg: &MsgCreateDenom) -> (r: Result<String, TokenFactoryError>)
        ensures
            match self.create_check(signer@, msg.sender@, msg.subdenom@) {
                Some(e) => r == Err::<String, TokenFactoryError>(e),
                None => r matches Ok(d) && d@ == denom_spec(self.module_denom_prefix@, msg.sender@, msg.subdenom@),
            },
    {
        let subdenom_len = msg.subdenom.as_str().len();
        assert(subdenom_len == byte_len(msg.subdenom@));
        if subdenom_len > self.max_subdenom_len {
            return Err(TokenFactoryError::SubdenomTooLong { max: self.max_subdenom_len });
        }
        let sender_len = msg.sender.as_str().len();
        assert(sender_len == byte_len(msg.sender@));
        if sender_len > self.max_creator_len {
            return Err(TokenFactoryError::CreatorTooLong { max: self.max_creator_len });
        }
        if contains_char(msg.sender.as_str(), '/') {
            return Err(TokenFactoryError::CreatorHasSlash);
        }
        if !crate::text::str_eq(msg.sender.as_str(), signer) {
            return Err(TokenFactoryError::CreatorNotSender);
        }
        Ok(self.denom_for(msg.sender.as_str(), msg.subdenom.as_str()))
    }

    /// Decides a creation message signed by `signer`, where `supply` is the
    /// current supply of the denomination it names. A denomination whose
    /// supply is not zero already exists; one whose supply was burned back to
    /// zero can be created again. On success the creation fee is burned once
    /// from the signer.
    pub fn create_denom(&self, signer: &str, msg: &MsgCreateDenom, supply: u128) -> (r: Result<CreateDenomPlan, TokenFactoryError>)
        ensures
            match self.create_spec(signer@, msg.sender@, msg.subdenom@, supply) {
                Err(e) => r matches Err(f) && f == e,
                Ok(d) => r matches Ok(p) && p.denom@ == d && p.fee_payer@ == signer@
                    && p.fee@ == self.denom_creation_fee@ && p.event@ == create_event(msg.sender@, d),
            },
    {
        let denom = match self.check_create_denom(signer, msg) {
            Ok(d) => d,
            Err(e) => return Err(e),
        };
        if supply != 0 {
            return Err(TokenFactoryError::SubdenomExists);
        }
        let mut event = Event::new("create_denom");
        event.add_attribute("creator", msg.sender.as_str());
        event.add_attribute("new_token_denom", denom.as_str());
        assert(event@ =~= create_event(msg.sender@, denom@));
        let fee = Coin { denom: self.denom_creation_fee.denom.clone(), amount: self.denom_creation_fee.amount };
        Ok(CreateDenomPlan { denom, fee_payer: String::from_str(signer), fee, event })
    }

    /// The checks that a mint and a burn share, in order: the signer created
    /// the denomination, the message's sender is the signer, the denomination
    /// has the form `{prefix}/{creator}/{subdenom}`, and the amount is a
    /// positive `u128`.
    fn check_supply_change(
        &self,
        signer: &str,
        sender: &str,
        amount: &Option<ProtoCoin>,
        unauthorized: TokenFactoryError,
    ) -> (r: Result<Coin, TokenFactoryError>)
        ensures
            match self.supply_spec(signer@, sender@, opt_coin_view(*amount), unauthorized) {
                Err(e) => r matches Err(f) && f == e,
                Ok(c) => r matches Ok(k) && k@ == c,
            },
    {
        let coin = match amount {
            Some(c) => c,
            None => return Err(TokenFactoryError::MissingAmount),
        };
        let denom_chars = chars_of(coin.denom.as_str());
        let parts = split_chars(&denom_chars, '/');
        let signer_chars = chars_of(signer);
        let ghost pv = pieces_view(parts@);
        assert(pv == split_spec(coin.denom@, slash()));
        if parts.len() >= 2 {
            assert(pv[1] == parts@[1]@);
            if !chars_eq(&parts[1], &signer_chars) {
                return Err(unauthorized);
            }
        }
        if !crate::text::str_eq(sender, signer) {
            return Err(TokenFactoryError::InvalidSender);
        }
        if parts.len() != 3 {
            return Err(TokenFactoryError::InvalidDenom);
        }
        let prefix_chars = chars_of(self.module_denom_prefix.as_str());
        assert(pv[0] == parts@[0]@);
        if !chars_eq(&parts[0], &prefix_chars) {
            return Err(TokenFactoryError::InvalidDenom);
        }
        let value = match parse_u128(coin.amount.as_str()) {
            Some(v) => v,
            None => return Err(TokenFactoryError::InvalidAmount),
        };
        if value == 0 {
            return Err(TokenFactoryError::ZeroAmount);
        }
        Ok(Coin { denom: coin.denom.clone(), amount: value })
    }

    /// Decides a mint signed by `signer`: only the creator of a denomination
    /// mints it, and the minted amount is credited to the signer.
    pub fn mint(&self, signer: &str, msg: &MsgMint) -> (r: Result<SupplyPlan, TokenFactoryError>)
        ensures
            match self.mint_spec(signer@, *msg) {
                Err(e) => r matches Err(f) && f == e,
                Ok(c) => r matches Ok(p) && p.account@ == signer@ && p.coin@ == c
                    && p.event@ == mint_event(signer@, c.1),
            },
    {
        let coin = match self.check_supply_change(signer, msg.sender.as_str(), &msg.amount, TokenFactoryError::UnauthorizedMint) {
            Ok(c) => c,
            Err(e) => return Err(e),
        };
        let amount_text = u128_text(coin.amount);
        let mut event = Event::new("tf_mint");
        event.add_attribute("mint_to_address", signer);
        event.add_attribute("amount", amount_text.as_str());
        assert(event@ =~= mint_event(signer@, coin.amount));
        Ok(SupplyPlan { account: String::from_str(signer), coin, event })
    }

    /// Decides a burn signed by `signer`: only the creator of a denomination
    /// burns it, from the signer's own balance.
    pub fn burn(&self, signer: &str, msg: &MsgBurn) -> (r: Result<SupplyPlan, TokenFactoryError>)
        ensures
            match self.burn_spec(signer@, *msg) {
                Err(e) => r matches Err(f) && f == e,
                Ok(c) => r matches Ok(p) && p.account@ == signer@ && p.coin@ == c
                    && p.event@ == burn_event(signer@, c.1),
            },
    {
        let coin = match self.check_supply_change(signer, msg.sender.as_str(), &msg.amount, TokenFactoryError::UnauthorizedBurn) {
            Ok(c) => c,
            Err(e) => return Err(e),
        };
        let amount_text = u128_text(coin.amount);
        let mut event = Event::new("tf_burn");
        event.add_attribute("burn_from_address", signer);
        event.add_attribute("amount", amount_text.as_str());
        assert(event@ =~= burn_event(signer@, coin.amount));
        Ok(SupplyPlan { account: String::from_str(signer), coin, event })
    }
}

/// Whoever did not create a denomination can neither mint nor burn it,
/// whatever the amount.
pub proof fn lemma_only_creator_changes_supply(
    tf: TokenFactory,
    signer: Seq<char>,
    mint: MsgMint,
    burn: MsgBurn,
)
    requires
        mint.amount is Some,
        burn.amount is Some,
        split_spec(mint.amount->Some_0.denom@, slash()).len() >= 2,
        split_spec(mint.amount->Some_0.denom@, slash())[1] != signer,
        split_spec(burn.amount->Some_0.denom@, slash()).len() >= 2,
        split_spec(burn.amount->Some_0.denom@, slash())[1] != signer,
    ensures
        tf.mint_spec(signer, mint) == Err::<(Seq<char>, u128), TokenFactoryError>(TokenFactoryError::UnauthorizedMint),
        tf.burn_spec(signer, burn) == Err::<(Seq<char>, u128), TokenFactoryError>(TokenFactoryError::UnauthorizedBurn),
{
}

/// The pieces of a token-factory denomination are its prefix, its creator
/// and its subdenomination.
pub proof fn lemma_denom_pieces(prefix: Seq<char>, creator: Seq<char>, subdenom: Seq<char>)
    requires
        !prefix.contains(slash()),
        !creator.contains(slash()),
        !subdenom.contains(slash()),
    ensures
        split_spec(denom_spec(prefix, creator, subdenom), slash()) == seq![prefix, creator, subdenom],
{
    lemma_split_join(prefix, creator, slash());
    lemma_split_join(prefix + seq![slash()] + creator, subdenom, slash());
    lemma_split_without_sep(prefix, slash());
    lemma_split_without_sep(creator, slash());
    lemma_split_without_sep(subdenom, slash());
    assert(seq![prefix] + seq![creator] + seq![subdenom] =~= seq![prefix, creator, subdenom]);
}

/// A denomination cannot be created a second time while it has supply. Once
/// its creator has burned the whole supply, it can be created again.
pub proof fn lemma_denom_unique_until_burned(
    tf: TokenFactory,
    creator: Seq<char>,
    subdenom: Seq<char>,
    minted: u128,
)
    requires
        tf.create_check(creator, creator, subdenom) is None,
        !tf.module_denom_prefix@.contains(slash()),
        !subdenom.contains(slash()),
    ensures
        tf.create_spec(creator, creator, subdenom, 0)
            == Ok::<Seq<char>, TokenFactoryError>(denom_spec(tf.module_denom_prefix@, creator, subdenom)),
        minted > 0 ==> tf.create_spec(creator, creator, subdenom, minted)
            == Err::<Seq<char>, TokenFactoryError>(TokenFactoryError::SubdenomExists),
        minted > 0 ==> tf.supply_spec(
            creator,
            creator,
            Some((denom_spec(tf.module_denom_prefix@, creator, subdenom), decimal_text(minted as nat))),
            TokenFactoryError::UnauthorizedBurn,
        ) == Ok::<(Seq<char>, u128), TokenFactoryError>((denom_spec(tf.module_denom_prefix@, creator, subdenom), minted)),
        tf.create_spec(creator, creator, subdenom, (minted - minted) as u128) is Ok,
{
    lemma_denom_pieces(tf.module_denom_prefix@, creator, subdenom);
    crate::decimal::lemma_parse_decimal_text(minted as nat, u128::MAX as nat);
}

/// A token-factory message.
pub enum TokenFactoryMsg {
    CreateDenom(MsgCreateDenom),
    Mint(MsgMint),
    Burn(MsgBurn),
}

pub open spec fn create_denom_url() -> Seq<char> {
    "/osmosis.tokenfactory.v1beta1.MsgCreateDenom"@
}

pub open spec fn mint_url() -> Seq<char> {
    "/osmosis.tokenfactory.v1beta1.MsgMint"@
}

pub open spec fn burn_url() -> Seq<char> {
    "/osmosis.tokenfactory.v1beta1.MsgBurn"@
}

/// The type URLs of the module's messages are distinct.
pub proof fn lemma_token_factory_urls_distinct()
    ensures
        create_denom_url() != mint_url(),
        create_denom_url() != burn_url(),
        mint_url() != burn_url(),
{
    reveal_strlit("/osmosis.tokenfactory.v1beta1.MsgCreateDenom");
    reveal_strlit("/osmosis.tokenfactory.v1beta1.MsgMint");
    reveal_strlit("/osmosis.tokenfactory.v1beta1.MsgBurn");
    assert(create_denom_url().len() == 44);
    assert(mint_url().len() == 37);
    assert(burn_url().len() == 37);
    assert(mint_url()[33] != burn_url()[33]);
}

/// Decodes the token-factory message that an envelope carries. A type URL
/// that is none of the module's three messages is refused, as is a payload
/// that does not decode as the message its URL names.
pub fn decode_token_factory_msg(t: &TypeTaggedMessage) -> (r: Result<TokenFactoryMsg, TokenFactoryError>)
    ensures
        t.type_url@ != create_denom_url() && t.type_url@ != mint_url() && t.type_url@ != burn_url()
            ==> r == Err::<TokenFactoryMsg, TokenFactoryError>(TokenFactoryError::UnknownMessage),
        t.type_url@ == create_denom_url() ==> match create_denom_decoded(t.value@) {
            Some(m) => r matches Ok(TokenFactoryMsg::CreateDenom(c)) && (c.sender@, c.subdenom@) == m,
            None => r == Err::<TokenFactoryMsg, TokenFactoryError>(TokenFactoryError::Malformed),
        },
        t.type_url@ == mint_url() ==> match mint_decoded(t.value@) {
            Some(m) => r matches Ok(TokenFactoryMsg::Mint(c))
                && (c.sender@, opt_proto_coin_view(c.amount), c.mint_to_address@) == m,
            None => r == Err::<TokenFactoryMsg, TokenFactoryError>(TokenFactoryError::Malformed),
        },
        t.type_url@ == burn_url() ==> match burn_decoded(t.value@) {
            Some(m) => r matches Ok(TokenFactoryMsg::Burn(c))
                && (c.sender@, opt_proto_coin_view(c.amount), c.burn_from_address@) == m,
            None => r == Err::<TokenFactoryMsg, TokenFactoryError>(TokenFactoryError::Malformed),
        },
{
    proof {
        lemma_token_factory_urls_distinct();
    }
    let url = t.type_url.as_str();
    if crate::text::str_eq(url, "/osmosis.tokenfactory.v1beta1.MsgCreateDenom") {
        match decode_create_denom(&t.value) {
            Some(m) => Ok(TokenFactoryMsg::CreateDenom(m)),
            None => Err(TokenFactoryError::Malformed),
        }
    } else if crate::text::str_eq(url, "/osmosis.tokenfactory.v1beta1.MsgMint") {
        match decode_mint(&t.value) {
            Some(m) => Ok(TokenFactoryMsg::Mint(m)),
            None => Err(TokenFactoryError::Malformed),
        }
    } else if crate::text::str_eq(url, "/osmosis.tokenfactory.v1beta1.MsgBurn") {
        match decode_burn(&t.value) {
            Some(m) => Ok(TokenFactoryMsg::Burn(m)),
            None => Err(TokenFactoryError::Malformed),
        }
    } else {
        Err(TokenFactoryError::UnknownMessage)
    }
}

impl CreateDenomPlan {
    /// The response data of an accepted creation: the encoded
    /// `MsgCreateDenomResponse` naming the new denomination.
    pub fn response_data(&self) -> (r: Vec<u8>)
        ensures
            r@ == create_denom_response_bytes(self.denom@),
    {
        encode_create_denom_response(&self.denom)
    }
}

impl TokenFactoryError {
    /// The reason, as text.
    pub open spec fn reason_spec(&self) -> Seq<char> {
        match self {
            TokenFactoryError::SubdenomTooLong { max } => "Subdenom length is too long, max length is "@
                + decimal_text(*max as nat),
            TokenFactoryError::CreatorTooLong { max } => "Creator length is too long, max length is "@
                + decimal_text(*max as nat),
            TokenFactoryError::CreatorHasSlash => "Invalid creator address, creator address cannot contains '/'"@,
            TokenFactoryError::CreatorNotSender => "Invalid creator address, creator address must be the same as the sender"@,
            TokenFactoryError::SubdenomExists => "Subdenom already exists"@,
            TokenFactoryError::UnauthorizedMint => "Unauthorized mint. Not the creator of the denom."@,
            TokenFactoryError::UnauthorizedBurn => "Unauthorized burn. Not the creator of the denom."@,
            TokenFactoryError::InvalidSender => "Invalid sender. Sender in msg must be same as sender of transaction."@,
            TokenFactoryError::InvalidDenom => "Invalid denom"@,
            TokenFactoryError::MissingAmount => "Missing amount"@,
            TokenFactoryError::InvalidAmount => "Invalid amount"@,
            TokenFactoryError::ZeroAmount => "Invalid zero amount"@,
            TokenFactoryError::UnknownMessage => "Unknown message type"@,
            TokenFactoryError::Malformed => "Invalid message payload"@,
        }
    }

    /// The reason, as text.
    pub fn message(&self) -> (r: String)
        ensures
            r@ == self.reason_spec(),
    {
        match self {
            TokenFactoryError::SubdenomTooLong { max } => {
                let mut s = String::from_str("Subdenom length is too long, max length is ");
                let n = u128_text(*max as u128);
                s.append(n.as_str());
                s
            },
            TokenFactoryError::CreatorTooLong { max } => {
                let mut s = String::from_str("Creator length is too long, max length is ");
                let n = u128_text(*max as u128);
                s.append(n.as_str());
                s
            },
            TokenFactoryError::CreatorHasSlash => String::from_str(
                "Invalid creator address, creator address cannot contains '/'",
            ),
            TokenFactoryError::CreatorNotSender => String::from_str(
                "Invalid creator address, creator address must be the same as the sender",
            ),
            TokenFactoryError::SubdenomExists => String::from_str("Subdenom already exists"),
            TokenFactoryError::UnauthorizedMint => String::from_str(
                "Unauthorized mint. Not the creator of the denom.",
            ),
            TokenFactoryError::UnauthorizedBurn => String::from_str(
                "Unauthorized burn. Not the creator of the denom.",
            ),
            TokenFactoryError::InvalidSender => String::from_str(
                "Invalid sender. Sender in msg must be same as sender of transaction.",
            ),
            TokenFactoryError::InvalidDenom => String::from_str("Invalid denom"),
            TokenFactoryError::MissingAmount => String::from_str("Missing amount"),
            TokenFactoryError::InvalidAmount => String::from_str("Invalid amount"),
            TokenFactoryError::ZeroAmount => String::from_str("Invalid zero amount"),
            TokenFactoryError::UnknownMessage => String::from_str("Unknown message type"),
            TokenFactoryError::Malformed => String::from_str("Invalid message payload"),
        }
    }
}

} // verus!
