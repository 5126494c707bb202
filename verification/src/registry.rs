//! Reading the chain registry: which chains and IBC paths it lists, and the
//! files that hold a chain's information, its assets and the path between two
//! chains, at a fixed commit of the registry.
use vstd::prelude::*;
use crate::chain::client::grpc::text_views;
use crate::chain::registry::pair_views;
use crate::text::{concat_str, occurs_at, str_chars, str_ends_with, str_eq, str_starts_with, str_take};

pub mod assets;
pub mod cache;
pub mod paths;

verus! {

/// The commit of the chain registry that files are read at.
pub const GIT_REF: &'static str = "d063b0fd6d1c20d6476880e5ea2212ade009f69e";

/// `a` comes before `b` in the order of `str`'s `Ord`: at the first character
/// where they differ, the smaller character comes first, and a proper prefix
/// comes before the longer text.
pub open spec fn text_less(a: Seq<char>, b: Seq<char>) -> bool
    decreases a.len(),
{
    if a.len() == 0 {
        b.len() > 0
    } else if b.len() == 0 {
        false
    } else if a[0] != b[0] {
        (a[0] as int) < (b[0] as int)
    } else {
        text_less(a.drop_first(), b.drop_first())
    }
}

/// The order of two texts.
#[derive(Clone, Copy, Debug, PartialEq, Eq, Structural)]
pub enum TextOrder {
    Less,
    Equal,
    Greater,
}

/// A common prefix does not change which of two texts comes first.
pub proof fn lemma_text_less_skip(a: Seq<char>, b: Seq<char>, i: int)
    requires
        0 <= i <= a.len(),
        i <= b.len(),
        a.subrange(0, i) == b.subrange(0, i),
    ensures
        text_less(a, b) == text_less(a.subrange(i, a.len() as int), b.subrange(i, b.len() as int)),
    decreases i,
{
    if i > 0 {
        assert(a[0] == a.subrange(0, i)[0]);
        assert(b[0] == b.subrange(0, i)[0]);
        assert(a.drop_first().subrange(0, i - 1) =~= a.subrange(0, i).drop_first());
        assert(b.drop_first().subrange(0, i - 1) =~= b.subrange(0, i).drop_first());
        lemma_text_less_skip(a.drop_first(), b.drop_first(), i - 1);
        assert(a.drop_first().subrange(i - 1, a.len() - 1) =~= a.subrange(i, a.len() as int));
        assert(b.drop_first().subrange(i - 1, b.len() - 1) =~= b.subrange(i, b.len() as int));
    } else {
        assert(a.subrange(0, a.len() as int) =~= a);
        assert(b.subrange(0, b.len() as int) =~= b);
    }
}

/// The order is strict and total: of two different texts exactly one comes
/// first, and no text comes before itself.
pub proof fn lemma_text_less_total(a: Seq<char>, b: Seq<char>)
    ensures
        !(text_less(a, b) && text_less(b, a)),
        a != b ==> text_less(a, b) || text_less(b, a),
        !text_less(a, a),
    decreases a.len(),
{
    if a.len() > 0 && b.len() > 0 {
        lemma_text_less_total(a.drop_first(), b.drop_first());
        if a[0] == b[0] && a.drop_first() == b.drop_first() {
            assert(a =~= seq![a[0]] + a.drop_first());
            assert(b =~= seq![b[0]] + b.drop_first());
        }
    }
    if a.len() > 0 {
        lemma_text_less_total(a.drop_first(), a.drop_first());
    }
    if a.len() == 0 && b.len() == 0 {
        assert(a =~= b);
    }
}

/// Compares two texts the way `str`'s `Ord` does.
pub fn text_order(a: &str, b: &str) -> (r: TextOrder)
    ensures
        r == TextOrder::Less <==> text_less(a@, b@),
        r == TextOrder::Equal <==> a@ == b@,
        r == TextOrder::Greater <==> text_less(b@, a@),
{
    proof {
        lemma_text_less_total(a@, b@);
    }
    let ca = str_chars(a);
    let cb = str_chars(b);
    let n = ca.len();
    let m = cb.len();
    let mut i: usize = 0;
    while i < n && i < m
        invariant
            ca@ == a@,
            cb@ == b@,
            n == a@.len(),
            m == b@.len(),
            i <= n,
            i <= m,
            a@.subrange(0, i as int) == b@.subrange(0, i as int),
        decreases n - i,
    {
        if ca[i] != cb[i] {
            proof {
                lemma_text_less_skip(a@, b@, i as int);
                lemma_text_less_skip(b@, a@, i as int);
                let ra = a@.subrange(i as int, n as int);
                let rb = b@.subrange(i as int, m as int);
                assert(ra[0] == a@[i as int]);
                assert(rb[0] == b@[i as int]);
            }
            if ca[i] < cb[i] {
                return TextOrder::Less;
            } else {
                return TextOrder::Greater;
            }
        }
        assert(a@.subrange(0, i + 1) == a@.subrange(0, i as int).push(a@[i as int]));
        assert(b@.subrange(0, i + 1) == b@.subrange(0, i as int).push(b@[i as int]));
        i = i + 1;
    }
    proof {
        lemma_text_less_skip(a@, b@, i as int);
        lemma_text_less_skip(b@, a@, i as int);
        if n == m {
            assert(a@ =~= a@.subrange(0, i as int));
            assert(b@ =~= b@.subrange(0, i as int));
        } else if i == n {
            assert(a@.subrange(i as int, n as int).len() == 0);
            assert(b@.subrange(i as int, m as int).len() > 0);
            assert(a@.len() != b@.len());
        } else {
            assert(b@.subrange(i as int, m as int).len() == 0);
            assert(a@.subrange(i as int, n as int).len() > 0);
            assert(a@.len() != b@.len());
        }
    }
    if n == m {
        TextOrder::Equal
    } else if i == n {
        TextOrder::Less
    } else {
        TextOrder::Greater
    }
}

/// The name of the IBC path between two chains: the two names in the order of
/// `str`, joined by `-`.
pub open spec fn ibc_path_name(a: Seq<char>, b: Seq<char>) -> Seq<char> {
    if text_less(b, a) {
        b + "-"@ + a
    } else {
        a + "-"@ + b
    }
}

/// The path between two chains has one name, whichever chain comes first.
pub proof fn lemma_ibc_path_name_symmetric(a: Seq<char>, b: Seq<char>)
    ensures
        ibc_path_name(a, b) == ibc_path_name(b, a),
{
    lemma_text_less_total(a, b);
}

/// The registry file of the IBC path between two chains: `_IBC/`, the
/// smaller name, `-`, the larger name and `.json`.
pub fn ibc_path_file(chain_a: &str, chain_b: &str) -> (r: String)
    ensures
        r@ == "_IBC/"@ + ibc_path_name(chain_a@, chain_b@) + ".json"@,
{
    let (first, second) = match text_order(chain_a, chain_b) {
        TextOrder::Greater => (chain_b, chain_a),
        _ => (chain_a, chain_b),
    };
    let p = concat_str("_IBC/", first);
    let p = concat_str(p.as_str(), "-");
    let p = concat_str(p.as_str(), second);
    let r = concat_str(p.as_str(), ".json");
    assert(r@ =~= "_IBC/"@ + ibc_path_name(chain_a@, chain_b@) + ".json"@);
    r
}

/// The registry file of a chain's information: `<name>/chain.json`.
pub fn chain_file(name: &str) -> (r: String)
    ensures
        r@ == name@ + "/chain.json"@,
{
    concat_str(name, "/chain.json")
}

/// The registry file of a chain's assets: `<name>/assetlist.json`.
pub fn assets_file(name: &str) -> (r: String)
    ensures
        r@ == name@ + "/assetlist.json"@,
{
    concat_str(name, "/assetlist.json")
}

/// The address of a registry file at a commit, on GitHub's raw content host.
pub fn registry_file_url(git_ref: &str, path: &str) -> (r: String)
    ensures
        r@ == "https://raw.githubusercontent.com/cosmos/chain-registry/"@ + git_ref@ + "/"@ + path@,
{
    let u = concat_str("https://raw.githubusercontent.com/cosmos/chain-registry/", git_ref);
    let u = concat_str(u.as_str(), "/");
    let r = concat_str(u.as_str(), path);
    assert(r@ =~= "https://raw.githubusercontent.com/cosmos/chain-registry/"@ + git_ref@ + "/"@ + path@);
    r
}

/// A top-level entry of the registry, as type and name, is a chain: a
/// directory other than `.github` whose name does not start with `_`.
pub open spec fn is_chain_dir(item: (Seq<char>, Seq<char>)) -> bool {
    item.0 == "dir"@ && item.1 != ".github"@ && !occurs_at(item.1, "_"@, 0)
}

/// The names of the chains among the top-level entries `items`, in order.
pub open spec fn chain_dir_names(items: Seq<(Seq<char>, Seq<char>)>) -> Seq<Seq<char>>
    decreases items.len(),
{
    if items.len() == 0 {
        Seq::empty()
    } else {
        let rest = chain_dir_names(items.drop_last());
        if is_chain_dir(items.last()) {
            rest.push(items.last().1)
        } else {
            rest
        }
    }
}

/// The chains among the registry's top-level entries `items` (type and name
/// of each): the directories other than `.github` and those whose name starts
/// with `_`, in their order.
pub fn chain_names(items: &Vec<(String, String)>) -> (r: Vec<String>)
    ensures
        text_views(r@) == chain_dir_names(pair_views(items@)),
{
    let ghost views = pair_views(items@);
    let mut out: Vec<String> = Vec::new();
    let mut i: usize = 0;
    while i < items.len()
        invariant
            views == pair_views(items@),
            i <= items.len(),
            text_views(out@) == chain_dir_names(views.take(i as int)),
        decreases items.len() - i,
    {
        proof {
            assert(views.take(i + 1).drop_last() =~= views.take(i as int));
            assert(views.take(i + 1).last() == (items@[i as int].0@, items@[i as int].1@));
        }
        let name = items[i].1.as_str();
        if str_eq(items[i].0.as_str(), "dir") && !str_eq(name, ".github") && !str_starts_with(name, "_") {
            let ghost before = out@;
            out.push(items[i].1.clone());
            assert(text_views(out@) =~= text_views(before).push(items@[i as int].1@));
        }
        i = i + 1;
    }
    assert(views.take(items.len() as int) =~= views);
    out
}

/// An entry of the registry's `_IBC/` directory is a path file: a file whose
/// name ends with `.json`.
pub open spec fn is_path_file(item: (Seq<char>, Seq<char>)) -> bool {
    item.0 == "file"@ && item.1.len() >= 5 && occurs_at(item.1, ".json"@, item.1.len() - 5)
}

/// The path names among the `_IBC/` entries `items`: each path file's name
/// without `.json`, in order.
pub open spec fn path_file_names(items: Seq<(Seq<char>, Seq<char>)>) -> Seq<Seq<char>>
    decreases items.len(),
{
    if items.len() == 0 {
        Seq::empty()
    } else {
        let rest = path_file_names(items.drop_last());
        let item = items.last();
        if is_path_file(item) {
            rest.push(item.1.subrange(0, item.1.len() - 5))
        } else {
            rest
        }
    }
}

/// The IBC paths among the entries `items` of the registry's `_IBC/`
/// directory (type and name of each): the names of the `.json` files without
/// that extension, in their order.
pub fn path_names(items: &Vec<(String, String)>) -> (r: Vec<String>)
    ensures
        text_views(r@) == path_file_names(pair_views(items@)),
{
    let ghost views = pair_views(items@);
    let mut out: Vec<String> = Vec::new();
    let mut i: usize = 0;
    while i < items.len()
        invariant
            views == pair_views(items@),
            i <= items.len(),
            text_views(out@) == path_file_names(views.take(i as int)),
        decreases items.len() - i,
    {
        proof {
            assert(views.take(i + 1).drop_last() =~= views.take(i as int));
            assert(views.take(i + 1).last() == (items@[i as int].0@, items@[i as int].1@));
        }
        let name = items[i].1.as_str();
        proof {
            reveal_strlit(".json");
        }
        if str_eq(items[i].0.as_str(), "file") && str_ends_with(name, ".json") {
            let n = str_chars(name).len();
            let stem = str_take(name, n - 5);
            let ghost before = out@;
            out.push(stem);
            assert(text_views(out@) =~= text_views(before).push(items@[i as int].1@.subrange(0, n - 5)));
        }
        i = i + 1;
    }
    assert(views.take(items.len() as int) =~= views);
    out
}

} // verus!
