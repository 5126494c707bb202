//! The asset list a chain publishes in the chain registry, and which entries
//! of the registry's top directory are chains.
use vstd::prelude::*;
use crate::chain::client::grpc::text_views;
use crate::text::str_eq;

verus! {

/// The assets of one chain.
#[derive(Clone, Debug)]
pub struct AssetList {
    pub schema: String,
    pub chain_id: String,
    pub assets: Vec<Asset>,
}

/// One asset of a chain.
#[derive(Clone, Debug)]
pub struct Asset {
    pub description: String,
    pub denom_units: Vec<DenomUnit>,
    pub base: String,
    pub name: String,
    pub display: String,
    pub symbol: String,
    pub logo_uris: LogoURIs,
    pub coingecko_id: String,
}

/// A unit of an asset and its decimal exponent.
#[derive(Clone, Debug)]
pub struct DenomUnit {
    pub denom: String,
    pub exponent: u16,
}

/// Where an asset's logos are.
#[derive(Clone, Debug)]
pub struct LogoURIs {
    pub png: String,
    pub svg: String,
}

/// An entry of the registry's top directory, as type and name, is a chain:
/// a directory other than `.github`.
pub open spec fn is_chain_entry(item: (Seq<char>, Seq<char>)) -> bool {
    item.0 == "dir"@ && item.1 != ".github"@
}

/// The names of the chains among the directory entries `items`, each given
/// as its type and name, in their order.
pub open spec fn chain_entry_names(items: Seq<(Seq<char>, Seq<char>)>) -> Seq<Seq<char>>
    decreases items.len(),
{
    if items.len() == 0 {
        Seq::empty()
    } else {
        let rest = chain_entry_names(items.drop_last());
        if is_chain_entry(items.last()) {
            rest.push(items.last().1)
        } else {
            rest
        }
    }
}

/// The views of (type, name) pairs.
pub open spec fn pair_views(items: Seq<(String, String)>) -> Seq<(Seq<char>, Seq<char>)> {
    items.map_values(|p: (String, String)| (p.0@, p.1@))
}

/// The chains listed among the registry's top directory entries `items`
/// (type and name of each): the names of the directories other than
/// `.github`, in their order.
pub fn chain_names(items: &Vec<(String, String)>) -> (r: Vec<String>)
    ensures
        text_views(r@) == chain_entry_names(pair_views(items@)),
{
    let ghost views = pair_views(items@);
    let mut out: Vec<String> = Vec::new();
    let mut i: usize = 0;
    while i < items.len()
        invariant
            views == pair_views(items@),
            i <= items.len(),
            text_views(out@) == chain_entry_names(views.take(i as int)),
        decreases items.len() - i,
    {
        proof {
            assert(views.take(i + 1).drop_last() =~= views.take(i as int));
            assert(views.take(i + 1).last() == (items@[i as int].0@, items@[i as int].1@));
        }
        if str_eq(items[i].0.as_str(), "dir") && !str_eq(items[i].1.as_str(), ".github") {
            let ghost before = out@;
            out.push(items[i].1.clone());
            assert(text_views(out@) =~= text_views(before).push(items@[i as int].1@));
        }
        i = i + 1;
    }
    assert(views.take(items.len() as int) =~= views);
    out
}

} // verus!
