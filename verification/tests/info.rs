use ocular::chain::client::ChainClientBuilder;
use ocular::chain::client::cache::{Cache, GrpcCache};
use ocular::chain::info::{
    default_gas_prices, healthy_rpc_endpoints, rpc_sync_health, Apis, ChainInfo, Codebase, Genesis, Peers, Rest, Rpc,
};
use ocular::chain::registry::{Asset, AssetList, LogoURIs};
use ocular::error::RpcError;

fn info(rpcs: &[&str]) -> ChainInfo {
    ChainInfo {
        schema: String::from("../chain.schema.json"),
        chain_name: String::from("cosmoshub"),
        status: String::from("live"),
        network_type: String::from("mainnet"),
        pretty_name: String::from("Cosmos Hub"),
        chain_id: String::from("cosmoshub-4"),
        bech32_prefix: String::from("cosmos"),
        daemon_name: String::from("gaiad"),
        node_home: String::from("$HOME/.gaia"),
        slip44: 118,
        genesis: Genesis { genesis_url: String::new() },
        codebase: Codebase { git_repo: String::new(), recommended_version: String::new(), compatible_versions: vec![] },
        peers: Peers { seeds: vec![], persistent_peers: vec![] },
        apis: Apis {
            rpc: rpcs.iter().map(|a| Rpc { address: a.to_string(), provider: None }).collect(),
            rest: vec![Rest { address: String::from("https://lcd.example"), provider: None }],
        },
    }
}

fn asset(base: &str) -> Asset {
    Asset {
        description: String::new(),
        denom_units: vec![],
        base: base.to_string(),
        name: String::new(),
        display: String::new(),
        symbol: String::new(),
        logo_uris: LogoURIs { png: String::new(), svg: String::new() },
        coingecko_id: String::new(),
    }
}

#[test]
fn rpc_endpoints_need_an_http_scheme() {
    let i = info(&["https://rpc.cosmos.network:443", "tcp://node:26657", "not a url", "http://localhost:26657"]);
    assert_eq!(
        i.get_all_rpc_endpoints(),
        vec![String::from("https://rpc.cosmos.network/"), String::from("http://localhost:26657/")]
    );
    assert_eq!(i.rpc_endpoint_candidates().unwrap().len(), 2);
    match info(&["tcp://node:26657"]).rpc_endpoint_candidates() {
        Err(RpcError::UnhealthyEndpoint(m)) => assert_eq!(m, "no valid endpoint found. endpoints must use http or https."),
        _ => panic!("no http endpoint must be an error"),
    }
}

#[test]
fn healthy_rpc_endpoints_filter() {
    let eps = vec![String::from("a"), String::from("b")];
    assert_eq!(healthy_rpc_endpoints(eps.clone(), &vec![false, true]).unwrap(), vec![String::from("b")]);
    match healthy_rpc_endpoints(eps, &vec![false, false]) {
        Err(RpcError::UnhealthyEndpoint(m)) => assert_eq!(m, "no healthy endpoint found (connections could not be established)"),
        _ => panic!("no healthy endpoint must be an error"),
    }
    assert!(rpc_sync_health(false).is_ok());
    match rpc_sync_health(true) {
        Err(RpcError::UnhealthyEndpoint(m)) => assert_eq!(m, "node is still syncing."),
        _ => panic!("a syncing node is unhealthy"),
    }
}

#[test]
fn gas_prices_use_the_first_asset() {
    let list = AssetList { schema: String::new(), chain_id: String::from("cosmoshub-4"), assets: vec![asset("uatom"), asset("ibc/X")] };
    assert_eq!(default_gas_prices(&list), "0.01uatom");
    assert_eq!(format!("{:.2}{}", 0.01, "uatom"), default_gas_prices(&list));
    let empty = AssetList { schema: String::new(), chain_id: String::new(), assets: vec![] };
    assert_eq!(default_gas_prices(&empty), "");
}

#[test]
fn builder_settles_overrides_and_defaults() {
    let s = ChainClientBuilder::new(String::from("cosmoshub"))
        .with_grpc_endpoint("http://grpc:9090")
        .settle(String::new(), String::from("http://rpc:26657"));
    assert_eq!(s.grpc_address, "http://grpc:9090");
    assert_eq!(s.rpc_address, "http://rpc:26657");
    assert_eq!(s.connection_retry_attempts, 5);
    assert!(s.keyring.is_none());
    assert_eq!(s.cache.grpc_endpoint_cache.get_connsecutive_failed_connections_threshold(), 5);
    assert!(s.cache.grpc_endpoint_cache.get_all_items().unwrap().is_empty());

    let cache = Cache::create_memory_cache(Some(vec![(String::from("x:1"), 0)]), 2).unwrap();
    let b = ChainClientBuilder::new(String::from("osmosis")).with_rpc_endpoint("http://other:1").with_cache(cache);
    assert_eq!(b.chain_name(), "osmosis");
    let s = b.settle(String::from("http://cfg:9090"), String::from("http://cfg:26657"));
    assert_eq!(s.grpc_address, "http://cfg:9090");
    assert_eq!(s.rpc_address, "http://other:1");
    assert_eq!(s.cache.grpc_endpoint_cache.get_connsecutive_failed_connections_threshold(), 2);
}
