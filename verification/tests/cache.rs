use ocular::chain::client::cache::{
    endpoints_from_toml, plan_file_cache, toml_from_entries, Cache, GrpcCache,
    GrpcEndpoint, GrpcEndpointToml, MemoryCache,
};
use ocular::error::CacheError;

fn sorted(mut v: Vec<(String, u8)>) -> Vec<(String, u8)> {
    v.sort();
    v
}

#[test]
fn memory_cache_init() {
    // Attempt creation with no endpoints
    assert!(Cache::create_memory_cache(None, 3).is_ok());

    // Attempt creation with some endpoints
    let endpts = vec![(String::from("localhost"), 0u8)];
    let cache = Cache::create_memory_cache(Some(endpts), 3);

    assert!(cache.is_ok());

    // Check initialization
    assert!(cache.unwrap().grpc_endpoint_cache.is_initialized())
}

#[test]
fn memory_cache_accessor_test() {
    let mut cache = Cache::create_memory_cache(None, 3).expect("Could not create cache");

    // Assert cache is empty to start
    assert!(cache.grpc_endpoint_cache.get_all_items().expect("Could not get cache contents.").is_empty());

    // Insert item
    cache
        .grpc_endpoint_cache
        .add_item(String::from("localhost:9090"), 0)
        .expect("Could not add item to cache.");

    // Verify item exists
    assert!(cache
        .grpc_endpoint_cache
        .get_all_items()
        .expect("Could not get cache contents.")
        .iter()
        .any(|(k, _)| k == "localhost:9090"));

    assert!(cache.grpc_endpoint_cache.add_item(String::from("localhost:9090"), 0).is_ok());

    // Remove item
    cache
        .grpc_endpoint_cache
        .remove_item(String::from("localhost:9090"))
        .expect("Could not remove item from cache.");

    // Verify removed
    assert!(cache.grpc_endpoint_cache.get_all_items().expect("Could not get cache contents.").is_empty());

    assert!(cache.grpc_endpoint_cache.remove_item(String::from("localhost:9090")).is_ok());
}

#[test]
fn memory_cache_keeps_last_count_of_repeated_address() {
    let cache = MemoryCache::new(
        Some(vec![(String::from("a:1"), 1), (String::from("b:2"), 2), (String::from("a:1"), 0)]),
        4,
    );
    assert_eq!(
        sorted(cache.get_all_items().unwrap()),
        vec![(String::from("a:1"), 0), (String::from("b:2"), 2)]
    );
    assert_eq!(cache.get_connsecutive_failed_connections_threshold(), 4);
}

#[test]
fn failed_connections_count_up_until_threshold_then_evict() {
    let mut cache = Cache::create_memory_cache(Some(vec![(String::from("other:1"), 1)]), 3).unwrap();
    let c = &mut cache.grpc_endpoint_cache;
    c.increment_failed_connections(String::from("node:9090")).unwrap();
    assert_eq!(
        sorted(c.get_all_items().unwrap()),
        vec![(String::from("node:9090"), 1), (String::from("other:1"), 1)]
    );
    c.increment_failed_connections(String::from("node:9090")).unwrap();
    assert_eq!(
        sorted(c.get_all_items().unwrap()),
        vec![(String::from("node:9090"), 2), (String::from("other:1"), 1)]
    );
    c.increment_failed_connections(String::from("node:9090")).unwrap();
    assert_eq!(c.get_all_items().unwrap(), vec![(String::from("other:1"), 1)]);
}

#[test]
fn add_item_resets_count() {
    let mut cache = Cache::create_memory_cache(None, 5).unwrap();
    let c = &mut cache.grpc_endpoint_cache;
    c.increment_failed_connections(String::from("n:1")).unwrap();
    c.increment_failed_connections(String::from("n:1")).unwrap();
    c.add_item(String::from("n:1"), 0).unwrap();
    assert_eq!(c.get_all_items().unwrap(), vec![(String::from("n:1"), 0)]);
}

#[test]
fn threshold_one_evicts_on_first_failure() {
    let mut cache = Cache::create_memory_cache(None, 1).unwrap();
    cache.grpc_endpoint_cache.increment_failed_connections(String::from("n:1")).unwrap();
    assert!(cache.grpc_endpoint_cache.get_all_items().unwrap().is_empty());
}

#[test]
fn file_cache_plan_rejects_directories_and_other_extensions() {
    match plan_file_cache(true, None, true, false) {
        Err(CacheError::Initialization(m)) => assert_eq!(m, "Path is a dir; must be a file."),
        _ => panic!("a directory must be refused"),
    }
    match plan_file_cache(false, Some("json"), false, false) {
        Err(CacheError::Initialization(m)) => assert_eq!(m, "Only files with extension .toml are supported."),
        _ => panic!("a json file must be refused"),
    }
    match plan_file_cache(false, None, false, false) {
        Err(CacheError::Initialization(m)) => assert_eq!(m, "Only files with extension .toml are supported."),
        _ => panic!("a path without an extension must be refused"),
    }
    assert!(matches!(plan_file_cache(false, Some("toml"), false, false), Ok(true)));
    assert!(matches!(plan_file_cache(false, Some("toml"), true, false), Ok(false)));
    assert!(matches!(plan_file_cache(false, Some("toml"), true, true), Ok(true)));
}

fn endpoint(a: &str, n: u8) -> GrpcEndpoint {
    GrpcEndpoint { address: a.to_string(), connsecutiveFailedConnections: n }
}

fn pairs(t: &GrpcEndpointToml) -> Vec<(String, u8)> {
    t.endpoints.iter().map(|e| (e.address.clone(), e.connsecutiveFailedConnections)).collect()
}

#[test]
fn cache_file_contents_round_trip() {
    let toml = GrpcEndpointToml { endpoints: vec![endpoint("35.230.37.28:9090", 0), endpoint("localhost:8080", 2)] };
    let table = endpoints_from_toml(&toml);
    assert_eq!(table.len(), 2);
    assert_eq!(table.get("localhost:8080"), Some(&2));

    let rebuilt = toml_from_entries(&vec![(String::from("x:1"), 3)]);
    assert_eq!(pairs(&rebuilt), vec![(String::from("x:1"), 3)]);
}

#[test]
fn cache_error_messages() {
    assert_eq!(CacheError::FileIO(String::from("x")).message(), "error processing file: x");
    assert_eq!(CacheError::Initialization(String::from("y")).message(), "error intializing cache: y");
    assert_eq!(CacheError::Toml(String::from("z")).message(), "error parsing toml: z");
}

#[derive(Default, Clone)]
struct MemoryFile {
    text: std::rc::Rc<std::cell::RefCell<Vec<(String, u8)>>>,
}

impl ocular::chain::client::cache::CacheFile for MemoryFile {
    fn read_endpoints(&self, _allow_empty: bool) -> Result<GrpcEndpointToml, CacheError> {
        Ok(GrpcEndpointToml { endpoints: self.text.borrow().iter().map(|(a, n)| endpoint(a, *n)).collect() })
    }

    fn write_endpoints(&self, toml: &GrpcEndpointToml) -> Result<(), CacheError> {
        *self.text.borrow_mut() = pairs(toml);
        Ok(())
    }
}

#[test]
fn file_cache_writes_through() {
    let file = MemoryFile::default();
    let mut cache =
        Cache::create_file_cache(String::from("/tmp/x.toml"), vec![], 2, Box::new(file.clone()), false).unwrap();
    let c = &mut cache.grpc_endpoint_cache;
    assert!(c.is_initialized());
    c.add_item(String::from("localhost:9090"), 0).unwrap();
    c.add_item(String::from("localhost:8080"), 1).unwrap();
    c.add_item(String::from("localhost:9090"), 0).unwrap();
    assert_eq!(sorted(c.get_all_items().unwrap()), vec![(String::from("localhost:8080"), 1), (String::from("localhost:9090"), 0)]);
    assert_eq!(sorted(file.text.borrow().clone()), vec![(String::from("localhost:8080"), 1), (String::from("localhost:9090"), 0)]);
    c.increment_failed_connections(String::from("localhost:8080")).unwrap();
    assert_eq!(c.get_all_items().unwrap(), vec![(String::from("localhost:9090"), 0)]);
    assert_eq!(file.text.borrow().clone(), vec![(String::from("localhost:9090"), 0)]);
    c.remove_item(String::from("localhost:9090")).unwrap();
    assert!(c.get_all_items().unwrap().is_empty());
    assert!(file.text.borrow().is_empty());
}

#[test]
fn file_cache_opens_with_file_entries_or_empty() {
    let kept = Cache::create_file_cache(
        String::from("/tmp/y.toml"),
        vec![(String::from("a:1"), 1)],
        3,
        Box::new(MemoryFile::default()),
        false,
    )
    .unwrap();
    assert_eq!(kept.grpc_endpoint_cache.get_all_items().unwrap(), vec![(String::from("a:1"), 1)]);
    let wiped = Cache::create_file_cache(
        String::from("/tmp/y.toml"),
        vec![(String::from("a:1"), 1)],
        3,
        Box::new(MemoryFile::default()),
        true,
    )
    .unwrap();
    assert!(wiped.grpc_endpoint_cache.get_all_items().unwrap().is_empty());
    assert!(wiped.grpc_endpoint_cache.is_initialized());
}
