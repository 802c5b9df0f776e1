use std::collections::HashMap;

use prost::Message;

use cw_it::coin::{Coin, ProtoCoin};
use cw_it::token_factory::{
    CreateDenomPlan, MsgBurn, MsgCreateDenom, MsgMint, SupplyPlan, TokenFactory, TokenFactoryError,
};

/// A minimal ledger of balances and supplies that applies the plans.
#[derive(Default)]
struct Ledger {
    balances: HashMap<(String, String), u128>,
    supply: HashMap<String, u128>,
}

impl Ledger {
    fn balance(&self, addr: &str, denom: &str) -> u128 {
        *self.balances.get(&(addr.to_string(), denom.to_string())).unwrap_or(&0)
    }
    fn supply(&self, denom: &str) -> u128 {
        *self.supply.get(denom).unwrap_or(&0)
    }
    fn credit(&mut self, addr: &str, coin: &Coin) {
        *self.balances.entry((addr.to_string(), coin.denom.clone())).or_insert(0) += coin.amount;
        *self.supply.entry(coin.denom.clone()).or_insert(0) += coin.amount;
    }
    fn debit(&mut self, addr: &str, coin: &Coin) -> Result<(), String> {
        let held = self.balance(addr, &coin.denom);
        if held < coin.amount {
            return Err("Cannot Sub".to_string());
        }
        self.balances.insert((addr.to_string(), coin.denom.clone()), held - coin.amount);
        *self.supply.get_mut(&coin.denom).unwrap() -= coin.amount;
        Ok(())
    }
    fn create(&mut self, tf: &TokenFactory, signer: &str, msg: &MsgCreateDenom) -> Result<CreateDenomPlan, String> {
        let denom = tf.check_create_denom(signer, msg).map_err(|e| e.message())?;
        let plan = tf.create_denom(signer, msg, self.supply(&denom)).map_err(|e| e.message())?;
        self.debit(&plan.fee_payer, &plan.fee)?;
        Ok(plan)
    }
    fn mint(&mut self, tf: &TokenFactory, signer: &str, msg: &MsgMint) -> Result<SupplyPlan, String> {
        let plan = tf.mint(signer, msg).map_err(|e| e.message())?;
        self.credit(&plan.account, &plan.coin);
        Ok(plan)
    }
    fn burn(&mut self, tf: &TokenFactory, signer: &str, msg: &MsgBurn) -> Result<SupplyPlan, String> {
        let plan = tf.burn(signer, msg).map_err(|e| e.message())?;
        self.debit(&plan.account, &plan.coin)?;
        Ok(plan)
    }
}

fn create_msg(sender: &str, subdenom: &str) -> MsgCreateDenom {
    MsgCreateDenom { sender: sender.to_string(), subdenom: subdenom.to_string() }
}

fn mint_msg(sender: &str, denom: &str, amount: &str) -> MsgMint {
    MsgMint {
        sender: sender.to_string(),
        amount: Some(ProtoCoin { denom: denom.to_string(), amount: amount.to_string() }),
        mint_to_address: sender.to_string(),
    }
}

fn burn_msg(sender: &str, denom: &str, amount: &str) -> MsgBurn {
    MsgBurn {
        sender: sender.to_string(),
        amount: Some(ProtoCoin { denom: denom.to_string(), amount: amount.to_string() }),
        burn_from_address: sender.to_string(),
    }
}

fn attrs(plan_event: &cw_it::coin::Event) -> Vec<(String, String)> {
    plan_event.attributes.iter().map(|a| (a.key.clone(), a.value.clone())).collect()
}

#[test]
fn default_factory_parameters() {
    let tf = TokenFactory::default();
    assert_eq!(tf.module_denom_prefix, "factory");
    assert_eq!(tf.max_subdenom_len, 32);
    assert_eq!(tf.max_creator_len, 75);
    assert_eq!(tf.denom_creation_fee, Coin::new(10_000_000, "uosmo"));
}

#[test]
fn create_denom_charges_fee_and_emits_event() {
    let tf = TokenFactory::default();
    let mut ledger = Ledger::default();
    ledger.credit("sender", &Coin::new(10_000_000, "uosmo"));
    let plan = ledger.create(&tf, "sender", &create_msg("sender", "subdenom")).unwrap();
    assert_eq!(plan.denom, "factory/sender/subdenom");
    assert_eq!(ledger.balance("sender", "uosmo"), 0);
    assert_eq!(plan.event.ty, "create_denom");
    assert_eq!(
        attrs(&plan.event),
        vec![
            ("creator".to_string(), "sender".to_string()),
            ("new_token_denom".to_string(), "factory/sender/subdenom".to_string()),
        ]
    );
    let response = osmosis_std::types::osmosis::tokenfactory::v1beta1::MsgCreateDenomResponse::decode(
        plan.response_data().as_slice(),
    )
    .unwrap();
    assert_eq!(
        response,
        osmosis_std::types::osmosis::tokenfactory::v1beta1::MsgCreateDenomResponse {
            new_token_denom: "factory/sender/subdenom".to_string()
        }
    );
}

#[test]
fn create_denom_refuses_creator_with_slash() {
    let tf = TokenFactory::default();
    let err = tf.create_denom("sen/der", &create_msg("sen/der", "subdenom"), 0).err().unwrap();
    assert_eq!(err, TokenFactoryError::CreatorHasSlash);
    assert!(err.message().contains("creator address cannot contains"));
}

#[test]
fn create_denom_refuses_long_names_and_foreign_sender() {
    let tf = TokenFactory::default();
    let long_sub = "s".repeat(33);
    assert_eq!(
        tf.create_denom("sender", &create_msg("sender", &long_sub), 0).err(),
        Some(TokenFactoryError::SubdenomTooLong { max: 32 })
    );
    assert!(TokenFactoryError::SubdenomTooLong { max: 32 }.message().ends_with("max length is 32"));
    let long_creator = "c".repeat(76);
    assert_eq!(
        tf.create_denom(&long_creator, &create_msg(&long_creator, "sub"), 0).err(),
        Some(TokenFactoryError::CreatorTooLong { max: 75 })
    );
    assert_eq!(
        tf.create_denom("signer", &create_msg("sender", "sub"), 0).err(),
        Some(TokenFactoryError::CreatorNotSender)
    );
}

#[test]
fn create_denom_existing_denom_fails_without_fee() {
    let tf = TokenFactory::default();
    let mut ledger = Ledger::default();
    ledger.credit("sender", &Coin::new(20_000_000, "uosmo"));
    ledger.create(&tf, "sender", &create_msg("sender", "sub")).unwrap();
    ledger.mint(&tf, "sender", &mint_msg("sender", "factory/sender/sub", "100")).unwrap();
    let before = ledger.balance("sender", "uosmo");
    let err = ledger.create(&tf, "sender", &create_msg("sender", "sub")).err().unwrap();
    assert!(err.contains("Subdenom already exists"));
    assert_eq!(ledger.balance("sender", "uosmo"), before);
}

#[test]
fn denom_can_be_recreated_after_full_burn() {
    let tf = TokenFactory::default();
    let mut ledger = Ledger::default();
    ledger.credit("sender", &Coin::new(20_000_000, "uosmo"));
    let plan = ledger.create(&tf, "sender", &create_msg("sender", "sub")).unwrap();
    ledger.mint(&tf, "sender", &mint_msg("sender", &plan.denom, "500")).unwrap();
    ledger.burn(&tf, "sender", &burn_msg("sender", &plan.denom, "500")).unwrap();
    assert_eq!(ledger.supply(&plan.denom), 0);
    let again = ledger.create(&tf, "sender", &create_msg("sender", "sub")).unwrap();
    assert_eq!(again.denom, "factory/sender/sub");
    assert_eq!(ledger.balance("sender", "uosmo"), 0);
}

#[test]
fn create_denom_fee_needs_funds() {
    let tf = TokenFactory::default();
    let mut ledger = Ledger::default();
    ledger.credit("sender", &Coin::new(100_000, "uosmo"));
    let err = ledger.create(&tf, "sender", &create_msg("sender", "subdenom")).err().unwrap();
    assert!(err.contains("Cannot Sub"));
}

#[test]
fn mint_by_creator() {
    let tf = TokenFactory::default();
    let mut ledger = Ledger::default();
    let plan = ledger.mint(&tf, "sender", &mint_msg("sender", "factory/sender/subdenom", "1000")).unwrap();
    assert_eq!(ledger.balance("sender", "factory/sender/subdenom"), 1000);
    assert_eq!(plan.event.ty, "tf_mint");
    assert_eq!(
        attrs(&plan.event),
        vec![
            ("mint_to_address".to_string(), "sender".to_string()),
            ("amount".to_string(), "1000".to_string()),
        ]
    );
}

#[test]
fn mint_zero_amount_fails() {
    let tf = TokenFactory::default();
    let err = tf.mint("sender", &mint_msg("sender", "factory/sender/subdenom", "0")).err().unwrap();
    assert_eq!(err, TokenFactoryError::ZeroAmount);
    assert_eq!(err.message(), "Invalid zero amount");
}

#[test]
fn mint_by_other_than_creator_fails() {
    let tf = TokenFactory::default();
    let mut ledger = Ledger::default();
    let err = ledger.mint(&tf, "sender", &mint_msg("sender", "factory/creator/subdenom", "1000")).err().unwrap();
    assert!(err.contains("Unauthorized mint. Not the creator of the denom."));
    assert_eq!(ledger.balance("sender", "factory/creator/subdenom"), 0);
}

#[test]
fn mint_and_burn_checks() {
    let tf = TokenFactory::default();
    assert_eq!(
        tf.mint("sender", &mint_msg("other", "factory/sender/sub", "5")).err(),
        Some(TokenFactoryError::InvalidSender)
    );
    assert_eq!(
        tf.mint("sender", &mint_msg("sender", "uosmo", "5")).err(),
        Some(TokenFactoryError::InvalidDenom)
    );
    assert_eq!(
        tf.mint("sender", &mint_msg("sender", "other/sender/sub", "5")).err(),
        Some(TokenFactoryError::InvalidDenom)
    );
    assert_eq!(
        tf.burn("sender", &burn_msg("sender", "factory/sender/sub", "5x")).err(),
        Some(TokenFactoryError::InvalidAmount)
    );
    let no_amount = MsgBurn { sender: "sender".to_string(), amount: None, burn_from_address: "sender".to_string() };
    assert_eq!(tf.burn("sender", &no_amount).err(), Some(TokenFactoryError::MissingAmount));
}

#[test]
fn burn_by_creator() {
    let tf = TokenFactory::default();
    let mut ledger = Ledger::default();
    let denom = "factory/sender/subdenom";
    ledger.credit("sender", &Coin::new(2000, denom));
    let plan = ledger.burn(&tf, "sender", &burn_msg("sender", denom, "1000")).unwrap();
    assert_eq!(ledger.balance("sender", denom), 1000);
    assert_eq!(plan.event.ty, "tf_burn");
    assert_eq!(
        attrs(&plan.event),
        vec![
            ("burn_from_address".to_string(), "sender".to_string()),
            ("amount".to_string(), "1000".to_string()),
        ]
    );
}

#[test]
fn burn_by_other_than_creator_or_beyond_balance_fails() {
    let tf = TokenFactory::default();
    let mut ledger = Ledger::default();
    ledger.credit("sender", &Coin::new(1000, "factory/creator/subdenom"));
    let err = ledger.burn(&tf, "sender", &burn_msg("sender", "factory/creator/subdenom", "1000")).err().unwrap();
    assert!(err.contains("Unauthorized burn. Not the creator of the denom."));
    ledger.credit("sender", &Coin::new(1000, "factory/sender/subdenom"));
    let err = ledger.burn(&tf, "sender", &burn_msg("sender", "factory/sender/subdenom", "2000")).err().unwrap();
    assert!(err.contains("Cannot Sub"));
}

#[test]
fn denom_without_supply_can_be_created_again() {
    let tf = TokenFactory::default();
    let mut ledger = Ledger::default();
    ledger.credit("sender", &Coin::new(20_000_000, "uosmo"));
    ledger.create(&tf, "sender", &create_msg("sender", "sub")).unwrap();
    let again = ledger.create(&tf, "sender", &create_msg("sender", "sub")).unwrap();
    assert_eq!(again.denom, "factory/sender/sub");
    assert_eq!(ledger.balance("sender", "uosmo"), 0);
}

#[test]
fn token_factory_envelopes_decode() {
    let create = osmosis_std::types::osmosis::tokenfactory::v1beta1::MsgCreateDenom {
        sender: "sender".to_string(),
        subdenom: "sub".to_string(),
    };
    let t = cw_it::codec::TypeTaggedMessage {
        type_url: "/osmosis.tokenfactory.v1beta1.MsgCreateDenom".to_string(),
        value: create.encode_to_vec(),
    };
    match cw_it::token_factory::decode_token_factory_msg(&t) {
        Ok(cw_it::token_factory::TokenFactoryMsg::CreateDenom(m)) => {
            assert_eq!(m.sender, "sender");
            assert_eq!(m.subdenom, "sub");
        }
        _ => panic!("expected a creation message"),
    }
    let unknown = cw_it::codec::TypeTaggedMessage { type_url: "/x.Msg".to_string(), value: vec![] };
    assert_eq!(
        cw_it::token_factory::decode_token_factory_msg(&unknown).err(),
        Some(TokenFactoryError::UnknownMessage)
    );
}
