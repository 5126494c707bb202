use ocular::chain_registry::get_source;
use ocular::registry::cache::{split_path_name, RegistryCache};
use ocular::registry::paths::{Chain1, Chain2, Channel, ChannelChain1, ChannelChain2, IBCPath, Tag, Tags};
use ocular::registry::{
    assets_file, chain_file, chain_names, ibc_path_file, path_names, registry_file_url, text_order, TextOrder, GIT_REF,
};

fn items(v: &[(&str, &str)]) -> Vec<(String, String)> {
    v.iter().map(|(t, n)| (t.to_string(), n.to_string())).collect()
}

fn path(a: &str, b: &str, dex: &str, preferred: bool, status: &str) -> IBCPath {
    IBCPath {
        schema: String::from("../ibc_data.schema.json"),
        chain_1: Chain1 { chain_name: a.to_string(), client_id: String::from("07-tendermint-0"), connection_id: String::from("connection-0") },
        chain_2: Chain2 { chain_name: b.to_string(), client_id: String::from("07-tendermint-1"), connection_id: String::from("connection-1") },
        channels: vec![Channel {
            chain_1: ChannelChain1 { channel_id: String::from("channel-0"), port_id: String::from("transfer") },
            chain_2: ChannelChain2 { channel_id: String::from("channel-1"), port_id: String::from("transfer") },
            ordering: String::from("unordered"),
            version: String::from("ics20-1"),
            tags: Tags { dex: dex.to_string(), preferred, properties: String::new(), status: status.to_string() },
        }],
    }
}

#[test]
fn text_order_follows_str_order() {
    let words = ["", "a", "ab", "b", "cosmoshub", "osmosis", "Osmosis", "é", "z"];
    for x in words {
        for y in words {
            let expected = match x.cmp(y) {
                std::cmp::Ordering::Less => TextOrder::Less,
                std::cmp::Ordering::Equal => TextOrder::Equal,
                std::cmp::Ordering::Greater => TextOrder::Greater,
            };
            assert_eq!(text_order(x, y), expected, "{:?} vs {:?}", x, y);
        }
    }
}

#[test]
fn gets_path_in_order() {
    assert_eq!(ibc_path_file("cosmoshub", "osmosis"), "_IBC/cosmoshub-osmosis.json");
}

#[test]
fn gets_path_out_of_order() {
    assert_eq!(ibc_path_file("osmosis", "cosmoshub"), "_IBC/cosmoshub-osmosis.json");
}

#[test]
fn registry_files_and_urls() {
    assert_eq!(chain_file("cosmoshub"), "cosmoshub/chain.json");
    assert_eq!(assets_file("cosmoshub"), "cosmoshub/assetlist.json");
    assert_eq!(
        registry_file_url(GIT_REF, "cosmoshub/chain.json"),
        "https://raw.githubusercontent.com/cosmos/chain-registry/d063b0fd6d1c20d6476880e5ea2212ade009f69e/cosmoshub/chain.json"
    );
    assert_eq!(get_source(), "https://github.com/cosmos/chain-registry");
}

#[test]
fn lists_chains() {
    let got = chain_names(&items(&[
        ("dir", "cosmoshub"),
        ("dir", ".github"),
        ("dir", "_IBC"),
        ("file", "README.md"),
        ("dir", "osmosis"),
    ]));
    assert_eq!(got, vec![String::from("cosmoshub"), String::from("osmosis")]);
    let older = ocular::chain::registry::chain_names(&items(&[("dir", "_IBC"), ("dir", ".github"), ("dir", "juno")]));
    assert_eq!(older, vec![String::from("_IBC"), String::from("juno")]);
}

#[test]
fn lists_paths() {
    let got = path_names(&items(&[
        ("file", "cosmoshub-osmosis.json"),
        ("file", "README.md"),
        ("dir", "x.json"),
        ("file", ".json"),
        ("file", "juno-osmosis.json"),
    ]));
    assert_eq!(got, vec![String::from("cosmoshub-osmosis"), String::from(""), String::from("juno-osmosis")]);
    assert!(got.iter().all(|p| !p.ends_with(".json")));
}

#[test]
fn splits_path_names() {
    assert_eq!(split_path_name("cosmoshub-osmosis"), Some((String::from("cosmoshub"), String::from("osmosis"))));
    assert_eq!(split_path_name("a-b-c"), Some((String::from("a"), String::from("b"))));
    assert_eq!(split_path_name("-x"), Some((String::from(""), String::from("x"))));
    assert_eq!(split_path_name("solo"), None);
}

#[test]
fn registry_cache_happy_path() {
    let mut cache = RegistryCache::new();
    cache.insert_path(String::from("cosmoshub-osmosis"), path("cosmoshub", "osmosis", "osmosis", true, "live"));
    cache.insert_path(String::from("juno-osmosis"), path("juno", "osmosis", "", false, "killed"));

    let chain_a = "cosmoshub";
    let chain_b = "osmosis";
    let result = cache.get_path(chain_a, chain_b).unwrap().unwrap();
    assert_eq!(result.chain_1.chain_name, "cosmoshub");
    assert_eq!(result.chain_2.chain_name, "osmosis");

    // reverse order
    let result = cache.get_path(chain_b, chain_a).unwrap().unwrap();
    assert_eq!(result.chain_1.chain_name, "cosmoshub");
    assert_eq!(result.chain_2.chain_name, "osmosis");

    // same chain twice, or an unknown pair
    assert!(cache.get_path(chain_a, chain_a).unwrap().is_none());
    assert!(cache.get_path(chain_a, "juno").unwrap().is_none());

    // filter by tag values known to be present in at least one chain
    let dex = "osmosis".to_string();
    let result = cache.get_paths_filtered(Tag::Dex(dex.clone())).unwrap();
    assert!(!result.is_empty());
    result.iter().for_each(|r| assert!(r.channels[0].tags.dex.eq(&dex)));

    let preferred = true;
    let result = cache.get_paths_filtered(Tag::Preferred(preferred)).unwrap();
    assert!(!result.is_empty());
    result.iter().for_each(|r| assert!(r.channels[0].tags.preferred.eq(&preferred)));

    let status = "live".to_string();
    let result = cache.get_paths_filtered(Tag::Status(status.clone())).unwrap();
    assert!(!result.is_empty());
    result.iter().for_each(|r| assert!(r.channels[0].tags.status.eq(&status)));

    let result = cache.get_paths_filtered(Tag::Status(String::from("killed"))).unwrap();
    assert_eq!(result.len(), 1);
    assert_eq!(result[0].chain_1.chain_name, "juno");
    assert!(cache.get_paths_filtered(Tag::Properties(String::from("x"))).unwrap().is_empty());
}
