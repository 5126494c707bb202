//! Where the chain registry lives, and the asset list model read from it.
use vstd::prelude::*;

verus! {

const REGISTRY_SOURCE: &'static str = "https://github.com/cosmos/chain-registry";

/// The assets of one chain.
#[derive(Debug)]
pub struct AssetList {
    pub schema: String,
    pub chain_id: String,
    pub assets: Vec<Asset>,
}

/// One asset of a chain; its logos are kept but not exposed.
#[derive(Debug)]
pub struct Asset {
    pub description: String,
    pub denom_units: Vec<DenomUnit>,
    pub base: String,
    pub name: String,
    pub display: String,
    pub symbol: String,
    logo_uris: Vec<LogoURI>,
    pub coingecko_id: String,
}

/// A unit of an asset and its decimal exponent.
#[derive(Debug)]
pub struct DenomUnit {
    pub denom: String,
    pub exponent: u16,
}

/// Where an asset's logos are.
#[derive(Debug)]
pub struct LogoURI {
    pub png: String,
    pub svg: String,
}

/// The address of the chain registry's repository.
pub fn get_source() -> (r: &'static str)
    ensures
        r@ == "https://github.com/cosmos/chain-registry"@,
{
    proof {
        reveal_strlit("https://github.com/cosmos/chain-registry");
    }
    REGISTRY_SOURCE
}

} // verus!
