//! The asset list (`assetlist.json`) a chain publishes in the chain registry.
use vstd::prelude::*;

verus! {

/// The assets of one chain.
#[derive(Clone, Debug)]
pub struct AssetList {
    pub chain_name: String,
    pub assets: Vec<Asset>,
}

/// One asset of a chain.
#[derive(Clone, Debug)]
pub struct Asset {
    pub description: String,
    pub denom_units: Vec<DenomUnit>,
    pub base: String,
    pub name: String,
    pub display: String,
    pub symbol: String,
    pub logo_uris: LogoURIs,
    pub coingecko_id: String,
}

/// A unit of an asset and its decimal exponent.
#[derive(Clone, Debug)]
pub struct DenomUnit {
    pub denom: String,
    pub exponent: u16,
}

/// Where an asset's logos are.
#[derive(Clone, Debug)]
pub struct LogoURIs {
    pub png: String,
    pub svg: String,
}

} // verus!
