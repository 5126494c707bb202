//! What the chain registry says of a chain, and the endpoints and gas prices
//! a client takes from it.
use vstd::prelude::*;
use crate::chain::client::grpc::{healthy_only, keep_healthy, text_views};
use crate::chain::registry::AssetList;
use crate::error::RpcError;
use crate::text::{concat_str, has_substring, str_contains};

verus! {

/// A chain's entry in the chain registry.
#[derive(Clone, Debug)]
pub struct ChainInfo {
    pub schema: String,
    pub chain_name: String,
    pub status: String,
    pub network_type: String,
    pub pretty_name: String,
    pub chain_id: String,
    pub bech32_prefix: String,
    pub daemon_name: String,
    pub node_home: String,
    pub slip44: u32,
    pub genesis: Genesis,
    pub codebase: Codebase,
    pub peers: Peers,
    pub apis: Apis,
}

/// Where a chain's genesis file is.
#[derive(Clone, Debug)]
pub struct Genesis {
    pub genesis_url: String,
}

/// A chain's code: repository and versions.
#[derive(Clone, Debug)]
pub struct Codebase {
    pub git_repo: String,
    pub recommended_version: String,
    pub compatible_versions: Vec<String>,
}

/// A chain's seeds and persistent peers.
#[derive(Clone, Debug)]
pub struct Peers {
    pub seeds: Vec<Seed>,
    pub persistent_peers: Vec<PersistentPeer>,
}

/// A seed node.
#[derive(Clone, Debug)]
pub struct Seed {
    pub id: String,
    pub address: String,
    pub provider: Option<String>,
}

/// A persistent peer.
#[derive(Clone, Debug)]
pub struct PersistentPeer {
    pub id: String,
    pub address: String,
}

/// A chain's public RPC and REST endpoints.
#[derive(Clone, Debug)]
pub struct Apis {
    pub rpc: Vec<Rpc>,
    pub rest: Vec<Rest>,
}

/// An RPC endpoint.
#[derive(Clone, Debug)]
pub struct Rpc {
    pub address: String,
    pub provider: Option<String>,
}

/// A REST endpoint.
#[derive(Clone, Debug)]
pub struct Rest {
    pub address: String,
    pub provider: Option<String>,
}

/// What `url::Url::parse` makes of a text, read as plain values: the URL's
/// scheme and its serialization; nothing when it does not parse.
pub uninterp spec fn parsed_url(input: Seq<char>) -> Option<(Seq<char>, Seq<char>)>;

/// Parses `input` with `url::Url::parse` and reads its scheme and its
/// serialization (`to_string`). The result is named (`parsed_url`).
#[verifier::external_body]
fn parse_url(input: &str) -> (r: Option<(String, String)>)
    ensures
        r is Some ==> parsed_url(input@) == Some((r->Some_0.0@, r->Some_0.1@)),
        r is None ==> parsed_url(input@) is None,
{
    match url::Url::parse(input) {
        Ok(u) => Some((u.scheme().to_string(), u.to_string())),
        Err(_) => None,
    }
}

/// The RPC endpoint an address gives: the URL it parses to, when its scheme
/// contains `http`.
pub open spec fn rpc_endpoint_of(address: Seq<char>) -> Option<Seq<char>> {
    match parsed_url(address) {
        Some((scheme, text)) => if has_substring(scheme, "http"@) {
            Some(text)
        } else {
            None
        },
        None => None,
    }
}

/// The RPC endpoints that `addresses` give, in their order.
pub open spec fn rpc_endpoints_of(addresses: Seq<Seq<char>>) -> Seq<Seq<char>>
    decreases addresses.len(),
{
    if addresses.len() == 0 {
        Seq::empty()
    } else {
        let rest = rpc_endpoints_of(addresses.drop_last());
        match rpc_endpoint_of(addresses.last()) {
            Some(e) => rest.push(e),
            None => rest,
        }
    }
}

/// The addresses of RPC endpoints.
pub open spec fn rpc_addresses(rpcs: Seq<Rpc>) -> Seq<Seq<char>> {
    rpcs.map_values(|r: Rpc| r.address@)
}

impl ChainInfo {
    /// The chain's RPC endpoints that parse as URLs with an `http` or `https`
    /// scheme, as those URLs render, in the registry's order.
    pub fn get_all_rpc_endpoints(&self) -> (r: Vec<String>)
        ensures
            text_views(r@) == rpc_endpoints_of(rpc_addresses(self.apis.rpc@)),
    {
        let rpcs = &self.apis.rpc;
        let ghost views = rpc_addresses(rpcs@);
        let mut out: Vec<String> = Vec::new();
        let mut i: usize = 0;
        while i < rpcs.len()
            invariant
                views == rpc_addresses(rpcs@),
                i <= rpcs.len(),
                text_views(out@) == rpc_endpoints_of(views.take(i as int)),
            decreases rpcs.len() - i,
        {
            proof {
                assert(views.take(i + 1).drop_last() =~= views.take(i as int));
                assert(views.take(i + 1).last() == rpcs@[i as int].address@);
            }
            match parse_url(rpcs[i].address.as_str()) {
                Some((scheme, text)) => {
                    if str_contains(scheme.as_str(), "http") {
                        let ghost before = out@;
                        out.push(text);
                        assert(text_views(out@) =~= text_views(before).push(out@[out@.len() - 1]@));
                    }
                },
                None => {},
            }
            i = i + 1;
        }
        assert(views.take(rpcs.len() as int) =~= views);
        out
    }

    /// The RPC endpoints to check for health: those of `get_all_rpc_endpoints`,
    /// or an error when there are none.
    pub fn rpc_endpoint_candidates(&self) -> (r: Result<Vec<String>, RpcError>)
        ensures
            r is Ok <==> rpc_endpoints_of(rpc_addresses(self.apis.rpc@)).len() > 0,
            r is Ok ==> text_views(r->Ok_0@) == rpc_endpoints_of(rpc_addresses(self.apis.rpc@)),
            r is Err ==> (r->Err_0 matches RpcError::UnhealthyEndpoint(m) && m@
                == "no valid endpoint found. endpoints must use http or https."@),
    {
        let endpoints = self.get_all_rpc_endpoints();
        if endpoints.len() == 0 {
            return Err(RpcError::UnhealthyEndpoint(String::from_str("no valid endpoint found. endpoints must use http or https.")));
        }
        Ok(endpoints)
    }
}

/// The RPC endpoints whose health check passed (`healthy[i]` for
/// `endpoints[i]`), in their order, or an error when none did.
pub fn healthy_rpc_endpoints(endpoints: Vec<String>, healthy: &Vec<bool>) -> (r: Result<Vec<String>, RpcError>)
    requires
        healthy.len() == endpoints.len(),
    ensures
        r is Ok <==> healthy_only(text_views(endpoints@), healthy@).len() > 0,
        r is Ok ==> text_views(r->Ok_0@) == healthy_only(text_views(endpoints@), healthy@),
        r is Err ==> (r->Err_0 matches RpcError::UnhealthyEndpoint(m) && m@
            == "no healthy endpoint found (connections could not be established)"@),
{
    let kept = keep_healthy(endpoints, healthy);
    if kept.len() == 0 {
        return Err(RpcError::UnhealthyEndpoint(String::from_str("no healthy endpoint found (connections could not be established)")));
    }
    Ok(kept)
}

/// Whether a node that reports its sync status is healthy: it is not while it
/// is still catching up.
pub fn rpc_sync_health(catching_up: bool) -> (r: Result<(), RpcError>)
    ensures
        r is Ok <==> !catching_up,
        r is Err ==> (r->Err_0 matches RpcError::UnhealthyEndpoint(m) && m@ == "node is still syncing."@),
{
    if catching_up {
        return Err(RpcError::UnhealthyEndpoint(String::from_str("node is still syncing.")));
    }
    Ok(())
}

/// The default gas prices of a chain: 0.01 of its first asset's base
/// denomination, written `0.01` followed by the denomination; empty when the
/// chain lists no asset.
pub fn default_gas_prices(asset_list: &AssetList) -> (r: String)
    ensures
        asset_list.assets@.len() == 0 ==> r@.len() == 0,
        asset_list.assets@.len() > 0 ==> r@ == "0.01"@ + asset_list.assets@[0].base@,
{
    if asset_list.assets.len() == 0 {
        return String::new();
    }
    concat_str("0.01", asset_list.assets[0].base.as_str())
}

} // verus!
