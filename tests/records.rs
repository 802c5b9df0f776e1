use cw_it::artifact::{Artifact, ChainArtifact};
use cw_it::astroport::{cw20_info, get_local_artifacts, get_wasm_path, native_info, AssetInfo, Contract};

#[test]
fn chain_artifact_into_artifact() {
    assert_eq!(
        ChainArtifact::CodeId(4).into_artifact("http://localhost:26657".to_string()),
        Artifact::ChainCodeId { rpc_endpoint: "http://localhost:26657".to_string(), code_id: 4 }
    );
    assert_eq!(
        ChainArtifact::Addr("osmo1abc").into_artifact("rpc".to_string()),
        Artifact::ChainContractAddress { rpc_endpoint: "rpc".to_string(), contract_address: "osmo1abc".to_string() }
    );
}

#[test]
fn contract_new_keeps_fields() {
    let c = Contract::new("osmo1contract".to_string(), 3);
    assert_eq!(c.address, "osmo1contract");
    assert_eq!(c.code_id, 3);
    let m = cw_it::mars::Contract::new("osmo1mars".to_string(), 5);
    assert_eq!(m.code_id, 5);
}

#[test]
fn wasm_paths() {
    assert_eq!(get_wasm_path("astroport_pair", &None, &None), "artifacts/astroport_pair.wasm");
    assert_eq!(
        get_wasm_path("astroport_pair", &Some("tests/wasm"), &Some("aarch64")),
        "tests/wasm/astroport_pair-aarch64.wasm"
    );
}

#[test]
fn local_artifacts_cover_every_contract() {
    let artifacts = get_local_artifacts(&Some("wasm"), &None);
    assert_eq!(artifacts.len(), 12);
    assert_eq!(artifacts[0].0, "astroport_token");
    assert_eq!(artifacts[0].1, Artifact::Local("wasm/astroport_token.wasm".to_string()));
    assert_eq!(artifacts[11].0, "astroport_liquidity_manager");
}

#[test]
fn asset_infos() {
    assert_eq!(native_info("uosmo"), AssetInfo::NativeToken { denom: "uosmo".to_string() });
    assert_eq!(cw20_info("osmo1token"), AssetInfo::Token { contract_addr: "osmo1token".to_string() });
}
