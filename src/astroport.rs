//! The records of a deployed Astroport suite.
use vstd::prelude::*;
use vstd::string::*;
use crate::artifact::Artifact;

verus! {

/// A deployed contract: its address and the code id it runs.
#[derive(Clone, Debug, PartialEq, Eq)]
pub struct Contract {
    pub address: String,
    pub code_id: u64,
}

impl Contract {
    pub fn new(address: String, code_id: u64) -> (r: Contract)
        ensures
            r.address == address,
            r.code_id == code_id,
    {
        Contract { address, code_id }
    }
}

/// The contracts of an Astroport deployment.
#[derive(Clone, Debug, PartialEq, Eq)]
pub struct AstroportContracts {
    pub factory: Contract,
    pub coin_registry: Contract,
    pub astro_token: Contract,
    pub maker: Contract,
    pub pair_stable: Contract,
    pub pair: Contract,
    pub router: Contract,
    pub vesting: Contract,
    pub incentives: Contract,
    pub liquidity_manager: Contract,
}

/// The kind of an Astroport asset: a native denomination or a cw20 token.
#[derive(Clone, Debug, PartialEq, Eq)]
pub enum AssetInfo {
    Token { contract_addr: String },
    NativeToken { denom: String },
}

/// Helper to get a native token Astroport AssetInfo.
pub fn native_info(denom: &str) -> (r: AssetInfo)
    ensures
        r matches AssetInfo::NativeToken { denom: d } && d@ == denom@,
{
    AssetInfo::NativeToken { denom: String::from_str(denom) }
}

/// Helper to get a cw20 token Astroport AssetInfo.
pub fn cw20_info(contract_addr: &str) -> (r: AssetInfo)
    ensures
        r matches AssetInfo::Token { contract_addr: a } && a@ == contract_addr@,
{
    AssetInfo::Token { contract_addr: String::from_str(contract_addr) }
}

/// The names of the Astroport contracts, in order.
pub open spec fn contract_names() -> Seq<Seq<char>> {
    seq![
        "astroport_token"@,
        "astroport_native_coin_registry"@,
        "astroport_factory"@,
        "astroport_maker"@,
        "astroport_pair_stable"@,
        "astroport_pair"@,
        "astroport_router"@,
        "astroport_vesting"@,
        "astroport_pair_concentrated"@,
        "astroport_incentives"@,
        "astroport_tokenfactory_tracker"@,
        "astroport_liquidity_manager"@,
    ]
}

/// The name of the `i`-th Astroport contract.
pub fn contract_name(i: usize) -> (r: &'static str)
    requires
        i < 12,
    ensures
        r@ == contract_names()[i as int],
{
    match i {
        0 => "astroport_token",
        1 => "astroport_native_coin_registry",
        2 => "astroport_factory",
        3 => "astroport_maker",
        4 => "astroport_pair_stable",
        5 => "astroport_pair",
        6 => "astroport_router",
        7 => "astroport_vesting",
        8 => "astroport_pair_concentrated",
        9 => "astroport_incentives",
        10 => "astroport_tokenfactory_tracker",
        _ => "astroport_liquidity_manager",
    }
}

pub open spec fn opt_str_view(o: Option<&str>) -> Option<Seq<char>> {
    match o {
        Some(s) => Some(s@),
        None => None,
    }
}

/// The path of a contract's wasm file: `{dir}/{name}.wasm`, or
/// `{dir}/{name}-{arch}.wasm` when an architecture is given (optimisers that
/// build for several architectures name their files so), where `dir`
/// defaults to `artifacts`.
pub open spec fn wasm_path_spec(name: Seq<char>, path: Option<Seq<char>>, arch: Option<Seq<char>>) -> Seq<char> {
    let dir = match path {
        Some(p) => p,
        None => "artifacts"@,
    };
    let file = match arch {
        Some(a) => name + "-"@ + a + ".wasm"@,
        None => name + ".wasm"@,
    };
    dir + "/"@ + file
}

/// The path of a contract's wasm file.
pub fn get_wasm_path(name: &str, path: &Option<&str>, arch: &Option<&str>) -> (r: String)
    ensures
        r@ == wasm_path_spec(name@, opt_str_view(*path), opt_str_view(*arch)),
{
    let mut r = match path {
        Some(p) => String::from_str(p),
        None => String::from_str("artifacts"),
    };
    r.append("/");
    r.append(name);
    match arch {
        Some(a) => {
            r.append("-");
            r.append(a);
        },
        None => {},
    }
    r.append(".wasm");
    proof {
        let dir = match opt_str_view(*path) {
            Some(p) => p,
            None => "artifacts"@,
        };
        match opt_str_view(*arch) {
            Some(a) => assert(r@ =~= dir + "/"@ + (name@ + "-"@ + a + ".wasm"@)),
            None => assert(r@ =~= dir + "/"@ + (name@ + ".wasm"@)),
        }
    }
    r
}

/// The local artifacts of the Astroport contracts, by name, in the order of
/// [`contract_names`].
pub fn get_local_artifacts(path: &Option<&str>, arch: &Option<&str>) -> (r: Vec<(String, Artifact)>)
    ensures
        r@.len() == contract_names().len(),
        forall|i: int| 0 <= i < r@.len() ==> ((#[trigger] r@[i]).0@ == contract_names()[i]
            && (r@[i].1 matches Artifact::Local(p)
            && p@ == wasm_path_spec(contract_names()[i], opt_str_view(*path), opt_str_view(*arch)))),
{
    let mut r: Vec<(String, Artifact)> = Vec::new();
    let mut i: usize = 0;
    while i < 12
        invariant
            i <= 12,
            contract_names().len() == 12,
            r@.len() == i,
            forall|j: int| 0 <= j < i ==> ((#[trigger] r@[j]).0@ == contract_names()[j]
                && (r@[j].1 matches Artifact::Local(p)
                && p@ == wasm_path_spec(contract_names()[j], opt_str_view(*path), opt_str_view(*arch)))),
        decreases 12 - i,
    {
        let name = contract_name(i);
        let file = get_wasm_path(name, path, arch);
        r.push((String::from_str(name), Artifact::Local(file)));
        i = i + 1;
    }
    r
}

} // verus!
