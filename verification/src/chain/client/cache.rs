//! Caching of gRPC endpoints with counts of consecutive failed connections.
//! An endpoint whose count reaches the cache's threshold is dropped. The
//! memory cache lives here; the file cache keeps the same table and rewrites
//! its file through the helpers below.
use vstd::prelude::*;
use crate::error::CacheError;
use crate::table::{entries_map, keys_distinct, StrMap};
use crate::text::str_eq;

verus! {

/// The default directory of the file cache, under the home directory.
pub const DEFAULT_FILE_CACHE_DIR: &'static str = ".ocular/cache";

/// The default file name of the file cache.
pub const DEFAULT_FILE_CACHE_NAME: &'static str = "grpc_endpoints.toml";

/// The contents of a cache file.
#[derive(Debug)]
pub struct GrpcEndpointToml {
    pub endpoints: Vec<GrpcEndpoint>,
}

/// One endpoint of a cache file.
#[derive(Debug)]
#[allow(non_snake_case)]
pub struct GrpcEndpoint {
    pub address: String,
    pub connsecutiveFailedConnections: u8,
}

pub open spec fn endpoint_pair(e: GrpcEndpoint) -> (Seq<char>, u8) {
    (e.address@, e.connsecutiveFailedConnections)
}

/// The cache after one more failed connection to `item`: its count goes up by
/// one (a new endpoint starts at one), and it leaves the cache once the count
/// reaches `threshold`.
pub open spec fn after_failed_connection(m: Map<Seq<char>, u8>, item: Seq<char>, threshold: u8) -> Map<Seq<char>, u8> {
    let v = if m.contains_key(item) { m[item] + 1 } else { 1 };
    if v >= threshold {
        m.remove(item)
    } else {
        m.insert(item, v as u8)
    }
}

/// The count of failed connections of `item` in `m`: zero when it is absent.
pub open spec fn failure_count(m: Map<Seq<char>, u8>, item: Seq<char>) -> nat {
    if m.contains_key(item) {
        m[item] as nat
    } else {
        0
    }
}

/// The cache `m` after `k` more failed connections to `item`.
pub open spec fn after_failures(m: Map<Seq<char>, u8>, item: Seq<char>, threshold: u8, k: nat) -> Map<Seq<char>, u8>
    decreases k,
{
    if k == 0 {
        m
    } else {
        after_failed_connection(after_failures(m, item, threshold, (k - 1) as nat), item, threshold)
    }
}

/// Consecutive failed connections count up one by one until the threshold,
/// and the failure that reaches it drops the endpoint; the other endpoints
/// keep their counts throughout.
pub proof fn lemma_failures_evict(m: Map<Seq<char>, u8>, item: Seq<char>, threshold: u8, k: nat)
    requires
        failure_count(m, item) < threshold,
        failure_count(m, item) + k <= threshold,
    ensures
        0 < k && failure_count(m, item) + k < threshold ==> after_failures(m, item, threshold, k).contains_key(item)
            && after_failures(m, item, threshold, k)[item] == failure_count(m, item) + k,
        failure_count(m, item) + k == threshold ==> !after_failures(m, item, threshold, k).contains_key(item),
        after_failures(m, item, threshold, k).remove(item) == m.remove(item),
    decreases k,
{
    if k > 0 {
        lemma_failures_evict(m, item, threshold, (k - 1) as nat);
        let prev = after_failures(m, item, threshold, (k - 1) as nat);
        let next = after_failures(m, item, threshold, k);
        assert(next == after_failed_connection(prev, item, threshold));
        if k > 1 {
            assert(prev.contains_key(item) && prev[item] == failure_count(m, item) + k - 1);
        } else {
            assert(prev == m);
        }
        assert(next.remove(item) =~= prev.remove(item));
    }
}

/// Access to a cache of gRPC endpoints and their consecutive failed
/// connections.
pub trait GrpcCache {
    /// The endpoints and their counts.
    spec fn endpoint_map(&self) -> Map<Seq<char>, u8>;

    /// The count at which an endpoint leaves the cache.
    spec fn failure_threshold(&self) -> u8;

    /// Whether the cache lives in memory alone, with no storage outside the
    /// process; its changes then cannot fail.
    spec fn in_memory(&self) -> bool;

    /// Whether the cache has been initialized.
    spec fn initialized(&self) -> bool;

    /// Whether the cache has been initialized.
    fn is_initialized(&self) -> (r: bool)
        ensures
            r == self.initialized(),
    ;

    /// Adds `item` with the given count, replacing the count of an endpoint
    /// already present.
    #[allow(non_snake_case)]
    fn add_item(&mut self, item: String, connsecutiveFailedConnections: u8) -> (r: Result<(), CacheError>)
        ensures
            r is Ok ==> final(self).endpoint_map() == old(self).endpoint_map().insert(
                item@,
                connsecutiveFailedConnections,
            ),
            old(self).in_memory() ==> r is Ok,
            final(self).failure_threshold() == old(self).failure_threshold(),
            final(self).in_memory() == old(self).in_memory(),
    ;

    /// Removes `item`.
    fn remove_item(&mut self, item: String) -> (r: Result<(), CacheError>)
        ensures
            r is Ok ==> final(self).endpoint_map() == old(self).endpoint_map().remove(item@),
            old(self).in_memory() ==> r is Ok,
            final(self).failure_threshold() == old(self).failure_threshold(),
            final(self).in_memory() == old(self).in_memory(),
    ;

    /// Counts one more failed connection to `item`, adding it with a count of
    /// one if it is new, and removes it once its count reaches the threshold.
    fn increment_failed_connections(&mut self, item: String) -> (r: Result<(), CacheError>)
        requires
            old(self).endpoint_map().contains_key(item@) ==> old(self).endpoint_map()[item@] < 255,
        ensures
            r is Ok ==> final(self).endpoint_map() == after_failed_connection(
                old(self).endpoint_map(),
                item@,
                old(self).failure_threshold(),
            ),
            old(self).in_memory() ==> r is Ok,
            final(self).failure_threshold() == old(self).failure_threshold(),
            final(self).in_memory() == old(self).in_memory(),
    ;

    /// A copy of all endpoints and their counts, each once.
    fn get_all_items(&self) -> (r: Result<Vec<(String, u8)>, CacheError>)
        ensures
            r is Ok,
            r is Ok ==> keys_distinct(r->Ok_0@) && entries_map(r->Ok_0@) == self.endpoint_map(),
    ;

    /// The count at which an endpoint leaves the cache.
    fn get_connsecutive_failed_connections_threshold(&self) -> (t: u8)
        ensures
            t == self.failure_threshold(),
    ;
}

/// A cache held in memory only.
pub struct MemoryCache {
    endpoints: StrMap<u8>,
    threshold: u8,
}

impl MemoryCache {
    /// A memory cache holding `endpoints` (a later entry for the same address
    /// wins) that drops an endpoint at `threshold` consecutive failures.
    pub fn new(endpoints: Option<Vec<(String, u8)>>, threshold: u8) -> (c: MemoryCache)
        ensures
            c.endpoint_map() == match endpoints {
                Some(es) => entries_map(es@),
                None => Map::empty(),
            },
            c.failure_threshold() == threshold,
    {
        let mut table: StrMap<u8> = StrMap::new();
        match endpoints {
            None => {},
            Some(es) => {
                let mut i: usize = 0;
                while i < es.len()
                    invariant
                        i <= es.len(),
                        table@ == entries_map(es@.take(i as int)),
                    decreases es.len() - i,
                {
                    proof {
                        assert(es@.take(i + 1).drop_last() == es@.take(i as int));
                    }
                    table.insert(es[i].0.clone(), es[i].1);
                    i = i + 1;
                }
                assert(es@.take(es.len() as int) == es@);
            },
        }
        MemoryCache { endpoints: table, threshold }
    }
}

impl GrpcCache for MemoryCache {
    closed spec fn endpoint_map(&self) -> Map<Seq<char>, u8> {
        self.endpoints@
    }

    closed spec fn failure_threshold(&self) -> u8 {
        self.threshold
    }

    open spec fn in_memory(&self) -> bool {
        true
    }

    open spec fn initialized(&self) -> bool {
        true
    }

    fn is_initialized(&self) -> (r: bool) {
        true
    }

    #[allow(non_snake_case)]
    fn add_item(&mut self, item: String, connsecutiveFailedConnections: u8) -> (r: Result<(), CacheError>)
        ensures
            r is Ok,
    {
        self.endpoints.insert(item, connsecutiveFailedConnections);
        Ok(())
    }

    fn remove_item(&mut self, item: String) -> (r: Result<(), CacheError>)
        ensures
            r is Ok,
    {
        self.endpoints.remove(item.as_str());
        Ok(())
    }

    fn increment_failed_connections(&mut self, item: String) -> (r: Result<(), CacheError>)
        ensures
            r is Ok,
    {
        let v: u8 = match self.endpoints.get(item.as_str()) {
            Some(n) => *n + 1,
            None => 1,
        };
        if v >= self.threshold {
            self.endpoints.remove(item.as_str());
        } else {
            self.endpoints.insert(item, v);
        }
        Ok(())
    }

    fn get_all_items(&self) -> (r: Result<Vec<(String, u8)>, CacheError>)
        ensures
            r is Ok,
    {
        Ok(table_entries(&self.endpoints))
    }

    fn get_connsecutive_failed_connections_threshold(&self) -> (t: u8) {
        self.threshold
    }
}

/// A copy of the entries of `table`, in its insertion order.
pub fn table_entries(table: &StrMap<u8>) -> (r: Vec<(String, u8)>)
    ensures
        keys_distinct(r@),
        entries_map(r@) == table@,
        r@.len() == table.entry_seq().len(),
        forall|i: int| 0 <= i < r@.len() ==> (#[trigger] r@[i]).0@ == table.entry_seq()[i].0@ && r@[i].1
            == table.entry_seq()[i].1,
{
    table.entries_describe_map();
    let mut out: Vec<(String, u8)> = Vec::new();
    let mut i: usize = 0;
    while i < table.len()
        invariant
            i <= table.entry_seq().len(),
            keys_distinct(table.entry_seq()),
            table@ == entries_map(table.entry_seq()),
            out@.len() == i,
            forall|j: int| 0 <= j < i ==> (#[trigger] out@[j]).0@ == table.entry_seq()[j].0@ && out@[j].1
                == table.entry_seq()[j].1,
        decreases table.entry_seq().len() - i,
    {
        let (k, v) = table.entry_at(i);
        out.push((k.clone(), *v));
        i = i + 1;
    }
    proof {
        lemma_entries_map_same_views(out@, table.entry_seq());
    }
    out
}

/// Entries with the same keys and values, pair by pair, describe the same map.
pub proof fn lemma_entries_map_same_views<V>(a: Seq<(String, V)>, b: Seq<(String, V)>)
    requires
        a.len() == b.len(),
        forall|i: int| 0 <= i < a.len() ==> (#[trigger] a[i]).0@ == b[i].0@ && a[i].1 == b[i].1,
    ensures
        entries_map(a) == entries_map(b),
        keys_distinct(b) ==> keys_distinct(a),
    decreases a.len(),
{
    if a.len() > 0 {
        lemma_entries_map_same_views(a.drop_last(), b.drop_last());
        assert(a.last().0@ == b.last().0@);
    }
    if keys_distinct(b) {
        assert forall|x: int, y: int| 0 <= x < y < a.len() implies a[x].0@ != a[y].0@ by {
            assert(a[x].0@ == b[x].0@);
            assert(a[y].0@ == b[y].0@);
        }
    }
}

/// Decides how a file cache opens its file, given what the file system says of
/// the path: a directory is refused, and so is any extension but `toml`. On
/// success the result says whether the file is to be created or emptied:
/// always when `override_if_exists` is set, otherwise only when it does not
/// exist yet.
pub fn plan_file_cache(is_dir: bool, extension: Option<&str>, exists: bool, override_if_exists: bool) -> (r: Result<bool, CacheError>)
    ensures
        is_dir ==> (r matches Err(CacheError::Initialization(m)) && m@ == "Path is a dir; must be a file."@),
        !is_dir && !(extension matches Some(e) && e@ == "toml"@) ==> (r matches Err(CacheError::Initialization(m))
            && m@ == "Only files with extension .toml are supported."@),
        !is_dir && (extension matches Some(e) && e@ == "toml"@) ==> r == Ok::<bool, CacheError>(
            override_if_exists || !exists,
        ),
{
    if is_dir {
        return Err(CacheError::Initialization(String::from_str("Path is a dir; must be a file.")));
    }
    let ext = match extension {
        Some(e) => e,
        None => { return Err(CacheError::Initialization(String::from_str("Only files with extension .toml are supported."))); },
    };
    if !str_eq(ext, "toml") {
        return Err(CacheError::Initialization(String::from_str("Only files with extension .toml are supported.")));
    }
    Ok(override_if_exists || !exists)
}

/// The table a cache file describes: each endpoint with its count, a later
/// entry for the same address winning.
pub fn endpoints_from_toml(toml: &GrpcEndpointToml) -> (t: StrMap<u8>)
    ensures
        t@ == entries_map(toml.endpoints@.map_values(|e: GrpcEndpoint| (e.address, e.connsecutiveFailedConnections))),
{
    let ghost es = toml.endpoints@.map_values(|e: GrpcEndpoint| (e.address, e.connsecutiveFailedConnections));
    let mut table: StrMap<u8> = StrMap::new();
    let mut i: usize = 0;
    while i < toml.endpoints.len()
        invariant
            es == toml.endpoints@.map_values(|e: GrpcEndpoint| (e.address, e.connsecutiveFailedConnections)),
            i <= toml.endpoints.len(),
            table@ == entries_map(es.take(i as int)),
        decreases toml.endpoints.len() - i,
    {
        proof {
            assert(es.take(i + 1).drop_last() == es.take(i as int));
        }
        let e = &toml.endpoints[i];
        table.insert(e.address.clone(), e.connsecutiveFailedConnections);
        i = i + 1;
    }
    assert(es.take(toml.endpoints.len() as int) == es);
    table
}

/// A cache file listing `entries`, in their order.
pub fn toml_from_entries(entries: &Vec<(String, u8)>) -> (r: GrpcEndpointToml)
    ensures
        r.endpoints@.map_values(|e: GrpcEndpoint| endpoint_pair(e)) == entries@.map_values(
            |e: (String, u8)| (e.0@, e.1),
        ),
{
    let mut out: Vec<GrpcEndpoint> = Vec::new();
    let mut i: usize = 0;
    while i < entries.len()
        invariant
            i <= entries.len(),
            out@.len() == i,
            out@.map_values(|e: GrpcEndpoint| endpoint_pair(e)) == entries@.take(i as int).map_values(
                |e: (String, u8)| (e.0@, e.1),
            ),
        decreases entries.len() - i,
    {
        let ghost before = out@;
        let e = GrpcEndpoint { address: entries[i].0.clone(), connsecutiveFailedConnections: entries[i].1 };
        assert(endpoint_pair(e) == (entries@[i as int].0@, entries@[i as int].1));
        out.push(e);
        assert(entries@.take(i + 1) == entries@.take(i as int).push(entries@[i as int]));
        let ghost lhs = out@.map_values(|e: GrpcEndpoint| endpoint_pair(e));
        let ghost rhs = entries@.take(i + 1).map_values(|e: (String, u8)| (e.0@, e.1));
        assert(lhs.len() == rhs.len());
        assert forall|j: int| 0 <= j < lhs.len() implies lhs[j] == rhs[j] by {
            if j < i {
                assert(out@[j] == before[j]);
                assert(before.map_values(|e: GrpcEndpoint| endpoint_pair(e))[j] == lhs[j]);
                assert(entries@.take(i as int).map_values(|e: (String, u8)| (e.0@, e.1))[j] == rhs[j]);
            }
        }
        assert(out@.map_values(|e: GrpcEndpoint| endpoint_pair(e)) =~= entries@.take(i + 1).map_values(
            |e: (String, u8)| (e.0@, e.1),
        ));
        i = i + 1;
    }
    assert(entries@.take(entries.len() as int) == entries@);
    GrpcEndpointToml { endpoints: out }
}

/// The file a file cache keeps its endpoints in, read and written whole.
/// Implemented over the file system: it reads and writes TOML text.
pub trait CacheFile {
    /// The endpoints the file lists. An empty file lists none when
    /// `allow_empty` is set, and is a TOML error otherwise.
    fn read_endpoints(&self, allow_empty: bool) -> Result<GrpcEndpointToml, CacheError>;

    /// Replaces the file's contents with `toml`.
    fn write_endpoints(&self, toml: &GrpcEndpointToml) -> Result<(), CacheError>;
}

/// A cache kept in memory and written through to a file: after each change
/// of the table, the file is rewritten to list the whole table.
pub struct FileCache {
    path: String,
    endpoints: StrMap<u8>,
    threshold: u8,
    file: Box<dyn CacheFile>,
    written: Ghost<Seq<(String, u8)>>,
}

impl FileCache {
    /// A file cache at `path`, holding `endpoints` (a later entry for the same
    /// address wins), that drops an endpoint at `threshold` consecutive
    /// failures and writes through `file`; `endpoints` are what the file
    /// holds.
    pub fn new(path: String, endpoints: Vec<(String, u8)>, threshold: u8, file: Box<dyn CacheFile>) -> (c: FileCache)
        ensures
            c.endpoint_map() == entries_map(endpoints@),
            c.failure_threshold() == threshold,
            c.file_path() == path@,
            c.file_endpoints() == entries_map(endpoints@),
    {
        let ghost held = endpoints@;
        let table = MemoryCache::new(Some(endpoints), threshold);
        FileCache { path, endpoints: table.endpoints, threshold, file, written: Ghost(held) }
    }

    /// The path of the cache's file.
    pub closed spec fn file_path(&self) -> Seq<char> {
        self.path@
    }

    /// The endpoints, by address, that the cache last handed to its file: what
    /// the file held when the cache was opened, and after each change the
    /// whole table.
    pub closed spec fn file_endpoints(&self) -> Map<Seq<char>, u8> {
        entries_map(self.written@)
    }

    /// Whether each address occurs once in what the cache last handed to its
    /// file.
    pub closed spec fn file_addresses_distinct(&self) -> bool {
        keys_distinct(self.written@)
    }

    /// Rewrites the file to list the table, each endpoint once.
    fn write_table(&mut self) -> (r: Result<(), CacheError>)
        ensures
            final(self).endpoint_map() == old(self).endpoint_map(),
            final(self).failure_threshold() == old(self).failure_threshold(),
            final(self).file_path() == old(self).file_path(),
            final(self).file_endpoints() == old(self).endpoint_map(),
            final(self).file_addresses_distinct(),
    {
        let entries = table_entries(&self.endpoints);
        let toml = toml_from_entries(&entries);
        self.written = Ghost(entries@);
        self.file.write_endpoints(&toml)
    }
}

impl GrpcCache for FileCache {
    closed spec fn endpoint_map(&self) -> Map<Seq<char>, u8> {
        self.endpoints@
    }

    closed spec fn failure_threshold(&self) -> u8 {
        self.threshold
    }

    /// Each change is also written to the cache's file, which may fail.
    open spec fn in_memory(&self) -> bool {
        false
    }

    /// A file cache is initialized once it has a path.
    closed spec fn initialized(&self) -> bool {
        self.path@.len() > 0
    }

    fn is_initialized(&self) -> (r: bool) {
        self.path.unicode_len() > 0
    }

    /// Sets the count of `item` in the table, then rewrites the file to list
    /// the table.
    #[allow(non_snake_case)]
    fn add_item(&mut self, item: String, connsecutiveFailedConnections: u8) -> (r: Result<(), CacheError>)
        ensures
            final(self).endpoint_map() == old(self).endpoint_map().insert(item@, connsecutiveFailedConnections),
            r is Ok ==> final(self).file_endpoints() == old(self).endpoint_map().insert(
                item@,
                connsecutiveFailedConnections,
            ),
            final(self).file_addresses_distinct(),
            final(self).file_path() == old(self).file_path(),
    {
        self.endpoints.insert(item, connsecutiveFailedConnections);
        self.write_table()
    }

    /// Removes `item` from the table, then rewrites the file to list the
    /// table.
    fn remove_item(&mut self, item: String) -> (r: Result<(), CacheError>)
        ensures
            final(self).endpoint_map() == old(self).endpoint_map().remove(item@),
            r is Ok ==> final(self).file_endpoints() == old(self).endpoint_map().remove(item@),
            final(self).file_addresses_distinct(),
            final(self).file_path() == old(self).file_path(),
    {
        self.endpoints.remove(item.as_str());
        self.write_table()
    }

    /// Counts one more failure for `item` as the memory cache does, dropping
    /// it at the threshold, then rewrites the file to list the table.
    fn increment_failed_connections(&mut self, item: String) -> (r: Result<(), CacheError>)
        ensures
            final(self).endpoint_map() == after_failed_connection(
                old(self).endpoint_map(),
                item@,
                old(self).failure_threshold(),
            ),
            r is Ok ==> final(self).file_endpoints() == after_failed_connection(
                old(self).endpoint_map(),
                item@,
                old(self).failure_threshold(),
            ),
            final(self).file_addresses_distinct(),
            final(self).file_path() == old(self).file_path(),
    {
        let v: u8 = match self.endpoints.get(item.as_str()) {
            Some(n) => *n + 1,
            None => 1,
        };
        if v >= self.threshold {
            self.endpoints.remove(item.as_str());
        } else {
            self.endpoints.insert(item, v);
        }
        self.write_table()
    }

    fn get_all_items(&self) -> (r: Result<Vec<(String, u8)>, CacheError>) {
        Ok(table_entries(&self.endpoints))
    }

    fn get_connsecutive_failed_connections_threshold(&self) -> (t: u8) {
        self.threshold
    }
}

/// Owns the gRPC endpoint cache of a client.
pub struct Cache {
    pub grpc_endpoint_cache: Box<dyn GrpcCache>,
}

impl Cache {
    /// A cache held in memory, starting with `endpoints` if given.
    #[allow(non_snake_case)]
    pub fn create_memory_cache(endpoints: Option<Vec<(String, u8)>>, connsecutiveFailedConnectionsThreshold: u8) -> (r: Result<Cache, CacheError>)
        ensures
            r is Ok,
            r is Ok ==> r->Ok_0.grpc_endpoint_cache.endpoint_map() == match endpoints {
                Some(es) => entries_map(es@),
                None => Map::empty(),
            },
            r is Ok ==> r->Ok_0.grpc_endpoint_cache.failure_threshold() == connsecutiveFailedConnectionsThreshold,
            r is Ok ==> r->Ok_0.grpc_endpoint_cache.in_memory(),
            r is Ok ==> r->Ok_0.grpc_endpoint_cache.initialized(),
    {
        let cache = MemoryCache::new(endpoints, connsecutiveFailedConnectionsThreshold);
        Ok(Cache { grpc_endpoint_cache: Box::new(cache) })
    }

    /// A cache written through to the file at `path`. When `emptied` (the
    /// outcome of `plan_file_cache`: the file is created or wiped) the cache
    /// starts empty; otherwise it holds `endpoints`, those read from the file.
    #[allow(non_snake_case)]
    pub fn create_file_cache(
        path: String,
        endpoints: Vec<(String, u8)>,
        connsecutiveFailedConnectionsThreshold: u8,
        file: Box<dyn CacheFile>,
        emptied: bool,
    ) -> (r: Result<Cache, CacheError>)
        ensures
            r is Ok,
            r is Ok ==> r->Ok_0.grpc_endpoint_cache.endpoint_map() == if emptied {
                Map::<Seq<char>, u8>::empty()
            } else {
                entries_map(endpoints@)
            },
            r is Ok ==> r->Ok_0.grpc_endpoint_cache.failure_threshold() == connsecutiveFailedConnectionsThreshold,
            r is Ok ==> !r->Ok_0.grpc_endpoint_cache.in_memory(),
            r is Ok ==> r->Ok_0.grpc_endpoint_cache.initialized() == (path@.len() > 0),
    {
        let loaded = if emptied { Vec::new() } else { endpoints };
        assert(emptied ==> entries_map(loaded@) =~= Map::<Seq<char>, u8>::empty());
        let cache = FileCache::new(path, loaded, connsecutiveFailedConnectionsThreshold, file);
        Ok(Cache { grpc_endpoint_cache: Box::new(cache) })
    }
}

} // verus!
