use ocular::chain::client::cache::Cache;
use ocular::chain::client::grpc::{
    add_endpoints, cached_grpc_endpoints, check_for_grpc_address, choose_endpoint, finish_grpc_endpoints,
    keep_healthy, next_connection_step, record_connection_failure, record_connection_success, usable_grpc_endpoints,
    ConnAction, ConnEvent, ConnState,
};
use ocular::error::{ChainInfoError, GrpcError, RpcError};

fn s(v: &[&str]) -> Vec<String> {
    v.iter().map(|x| x.to_string()).collect()
}

fn items(cache: &Option<Cache>) -> Vec<(String, u8)> {
    let mut v = cache.as_ref().unwrap().grpc_endpoint_cache.get_all_items().unwrap();
    v.sort();
    v
}

#[test]
fn cached_endpoints_are_the_cache_keys() {
    assert!(cached_grpc_endpoints(&None).unwrap().is_empty());
    let cache = Cache::create_memory_cache(Some(vec![(String::from("a:1"), 0), (String::from("b:2"), 1)]), 3).unwrap();
    let mut got = cached_grpc_endpoints(&Some(cache)).unwrap();
    got.sort();
    assert_eq!(got, s(&["a:1", "b:2"]));
}

#[test]
fn usable_endpoints_keep_order_and_drop_portless() {
    let addrs = s(&["test.com", "test.com:9090", "tcp://test.com:9090", "https://x.org", "bad uri:1"]);
    assert_eq!(usable_grpc_endpoints(&addrs).unwrap(), s(&["https://test.com:9090/", "tcp://test.com:9090/"]));
    match usable_grpc_endpoints(&s(&["test.com", "https://x.org"])) {
        Err(GrpcError::MissingEndpoint(m)) => {
            assert_eq!(m, "no valid endpoint found. endpoints must use http or https.")
        },
        _ => panic!("no usable endpoint must be an error"),
    }
}

#[test]
fn health_filter_keeps_exactly_the_healthy() {
    let eps = s(&["a", "b", "c", "d"]);
    assert_eq!(keep_healthy(eps, &vec![false, true, false, true]), s(&["b", "d"]));
}

#[test]
fn finishing_loads_the_cache_with_the_threshold() {
    let mut cache = Some(Cache::create_memory_cache(None, 4).unwrap());
    let got = finish_grpc_endpoints(&mut cache, s(&["x:1", "y:2", "z:3"]), &vec![true, false, true]).unwrap();
    assert_eq!(got, s(&["x:1", "z:3"]));
    assert_eq!(items(&cache), vec![(String::from("x:1"), 4), (String::from("z:3"), 4)]);

    let mut none: Option<Cache> = None;
    assert_eq!(finish_grpc_endpoints(&mut none, s(&["x:1"]), &vec![true]).unwrap(), s(&["x:1"]));
}

#[test]
fn finishing_without_healthy_endpoints_fails_and_leaves_the_cache() {
    let mut cache = Some(Cache::create_memory_cache(Some(vec![(String::from("k:1"), 1)]), 4).unwrap());
    match finish_grpc_endpoints(&mut cache, s(&["x:1"]), &vec![false]) {
        Err(ChainInfoError::GrpcEndpoint(GrpcError::UnhealthyEndpoint(m))) => {
            assert_eq!(m, "no healthy endpoint found (connections could not be established)")
        },
        _ => panic!("no healthy endpoint must be an error"),
    }
    assert_eq!(items(&cache), vec![(String::from("k:1"), 1)]);
}

#[test]
fn add_endpoints_sets_each_count() {
    let mut cache = Cache::create_memory_cache(Some(vec![(String::from("a"), 2)]), 9).unwrap();
    add_endpoints(&mut cache, &s(&["a", "b"]), 7).unwrap();
    let mut v = cache.grpc_endpoint_cache.get_all_items().unwrap();
    v.sort();
    assert_eq!(v, vec![(String::from("a"), 7), (String::from("b"), 7)]);
}

#[test]
fn choosing_picks_a_member() {
    let eps = s(&["a", "b", "c"]);
    for _ in 0..20 {
        let e = choose_endpoint(&eps).unwrap();
        assert!(eps.contains(&e));
    }
    match choose_endpoint(&vec![]) {
        Err(RpcError::UnhealthyEndpoint(m)) => assert_eq!(m, "no available RPC endpoints"),
        _ => panic!("an empty list must be an error"),
    }
}

#[test]
fn connection_outcomes_update_cache_and_address() {
    let mut cache = Some(Cache::create_memory_cache(None, 2).unwrap());
    let mut addr = String::new();
    record_connection_failure(&mut cache, String::from("n:1")).unwrap();
    assert_eq!(items(&cache), vec![(String::from("n:1"), 1)]);
    record_connection_success(&mut cache, &mut addr, String::from("n:1")).unwrap();
    assert_eq!(addr, "n:1");
    assert_eq!(items(&cache), vec![(String::from("n:1"), 0)]);
    record_connection_failure(&mut cache, String::from("n:1")).unwrap();
    record_connection_failure(&mut cache, String::from("n:1")).unwrap();
    assert!(items(&cache).is_empty());

    let mut none: Option<Cache> = None;
    assert!(record_connection_failure(&mut none, String::from("n:1")).is_ok());
    assert!(none.is_none());
}

#[test]
fn grpc_address_must_be_set() {
    assert!(check_for_grpc_address("http://n:9090", "cosmoshub-4").is_ok());
    match check_for_grpc_address("", "cosmoshub-4") {
        Err(GrpcError::MissingEndpoint(m)) => assert_eq!(m, "no grpc address available for chain cosmoshub-4"),
        _ => panic!("an empty address must be an error"),
    }
}

#[test]
fn endpoint_error_messages() {
    assert_eq!(GrpcError::UnhealthyEndpoint(String::from("x")).message(), "unhealthy gRPC endpoint: x");
    assert_eq!(RpcError::UnhealthyEndpoint(String::from("y")).message(), "unhealthy RPC endpoint: y");
    assert_eq!(RpcError::TendermintStatus(String::from("z")).message(), "tendermint status error: z");
    assert_eq!(
        ChainInfoError::GrpcEndpoint(GrpcError::MissingEndpoint(String::from("m"))).message(),
        "invalid gRPC endpoint(s): m"
    );
    assert_eq!(
        ChainInfoError::RpcEndpoint(RpcError::UnhealthyEndpoint(String::from("n"))).message(),
        "invalid RPC endpoint(s): unhealthy RPC endpoint: n"
    );
}

#[test]
fn connection_loop_tries_retries_plus_one_times() {
    let s = ConnState { attempts: 0, retries: 1, configured: String::new() };
    let (s, a) = next_connection_step(s, ConnEvent::Begin);
    assert!(matches!(a, ConnAction::PickEndpoint));
    let (s, a) = next_connection_step(s, ConnEvent::Picked(String::from("e:1")));
    assert!(matches!(a, ConnAction::Connect(ref e) if e == "e:1"));
    let (s, a) = next_connection_step(s, ConnEvent::Failed(String::from("refused")));
    assert_eq!(s.attempts, 1);
    assert!(matches!(a, ConnAction::PickEndpoint));
    let (s, a) = next_connection_step(s, ConnEvent::Failed(String::from("refused again")));
    assert_eq!(s.attempts, 2);
    assert!(matches!(a, ConnAction::GiveUp(GrpcError::Connection(ref m)) if m == "refused again"));

    let s = ConnState { attempts: 0, retries: 5, configured: String::from("cfg:9090") };
    let (s, a) = next_connection_step(s, ConnEvent::Begin);
    assert!(matches!(a, ConnAction::Connect(ref e) if e == "cfg:9090"));
    let (_, a) = next_connection_step(s, ConnEvent::Connected(String::from("cfg:9090")));
    assert!(matches!(a, ConnAction::Done(ref e) if e == "cfg:9090"));
    let s = ConnState { attempts: 0, retries: 5, configured: String::new() };
    let (_, a) = next_connection_step(s, ConnEvent::NoEndpoint(String::from("none")));
    assert!(matches!(a, ConnAction::GiveUp(GrpcError::MissingEndpoint(ref m)) if m == "none"));
}
