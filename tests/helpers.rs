use cw_it::helpers::Unwrap;
use prost::Message;
use cw_it::osmosis::is_osmosis_lp_token;

#[test]
fn test_unwrap() {
    let res: Result<u32, &str> = Ok(5);
    assert_eq!(Unwrap::Succeeds.unwrap(res), Some(5));

    let res: Result<u32, &str> = Err("test");
    assert_eq!(Unwrap::Fails("test").unwrap(res), None);

    let res: Result<u32, &str> = Err("test2");
    assert_eq!(Unwrap::Fails("test").unwrap(res), None);
}

#[test]
fn unwrap_matches_tells_expectations_apart() {
    let ok: Result<u32, &str> = Ok(5);
    let err: Result<u32, &str> = Err("random");
    assert!(Unwrap::Succeeds.matches(&ok));
    assert!(!Unwrap::Succeeds.matches(&err));
    assert!(!Unwrap::Fails("test").matches(&err));
    assert!(Unwrap::Fails("and").matches(&err));
    assert!(!Unwrap::Fails("test").matches(&ok));
}

#[test]
fn test_is_osmosis_lp_token() {
    // Success cases
    assert!(is_osmosis_lp_token("gamm/pool/1"));
    assert!(is_osmosis_lp_token("gamm/pool/12"));

    // Failure cases
    assert!(!is_osmosis_lp_token(""));
    assert!(!is_osmosis_lp_token("gam/pool/1"));
    assert!(!is_osmosis_lp_token("gamm/pol/1"));
    assert!(!is_osmosis_lp_token("gamm/pool/one"));
    assert!(!is_osmosis_lp_token("gamm/pol/1/2"));
}

#[test]
fn lp_token_pool_id_must_fit_u32() {
    assert!(is_osmosis_lp_token("gamm/pool/4294967295"));
    assert!(!is_osmosis_lp_token("gamm/pool/4294967296"));
    assert!(!is_osmosis_lp_token("gamm/pool/"));
    assert!(!is_osmosis_lp_token("gamm/pool/1/"));
}

#[test]
fn force_unlock_param_set_lists_the_addresses() {
    let t = cw_it::osmosis::force_unlock_param_set(&vec!["osmo1a".to_string(), "osmo1b".to_string()]);
    assert_eq!(t.type_url, "/osmosis.lockup.Params");
    let params = osmosis_std::types::osmosis::lockup::Params::decode(t.value.as_slice()).unwrap();
    assert_eq!(params.force_unlock_allowed_addresses, vec!["osmo1a".to_string(), "osmo1b".to_string()]);
}
