//! Working out the gRPC endpoints of a chain: those the cache holds, or else
//! the usable and healthy addresses of the chain registry, which then refill
//! the cache; and picking one of them at random.
use vstd::prelude::*;
use crate::chain::client::cache::{after_failed_connection, Cache, GrpcCache};
use crate::error::{CacheError, ChainInfoError, GrpcError, RpcError};
use crate::table::{entries_map, entry_keys, keys_distinct, lemma_entries_map};
use crate::utils::{grpc_endpoint_of, parse_or_build_grpc_endpoint};

verus! {

/// The texts of a sequence of strings.
pub open spec fn text_views(v: Seq<String>) -> Seq<Seq<char>> {
    v.map_values(|s: String| s@)
}

/// The keys of `entries`, in their order.
pub fn entry_key_list(entries: &Vec<(String, u8)>) -> (r: Vec<String>)
    ensures
        text_views(r@) == entry_keys(entries@),
{
    let mut out: Vec<String> = Vec::new();
    let mut i: usize = 0;
    while i < entries.len()
        invariant
            i <= entries.len(),
            text_views(out@) == entry_keys(entries@.take(i as int)),
        decreases entries.len() - i,
    {
        let ghost before = out@;
        out.push(entries[i].0.clone());
        assert(text_views(out@) =~= text_views(before).push(entries@[i as int].0@));
        assert(entry_keys(entries@.take(i + 1)) =~= entry_keys(entries@.take(i as int)).push(entries@[i as int].0@));
        i = i + 1;
    }
    assert(entries@.take(entries.len() as int) == entries@);
    out
}

/// Distinct entries have distinct keys, and their keys are the map's domain.
pub proof fn lemma_entry_keys_domain(es: Seq<(String, u8)>)
    requires
        keys_distinct(es),
    ensures
        entry_keys(es).no_duplicates(),
        entry_keys(es).to_set() == entries_map(es).dom(),
{
    lemma_entries_map(es);
    let ks = entry_keys(es);
    assert forall|a: int, b: int| 0 <= a < ks.len() && 0 <= b < ks.len() && a != b implies ks[a] != ks[b] by {
        if a < b {
            assert(es[a].0@ != es[b].0@);
        } else {
            assert(es[b].0@ != es[a].0@);
        }
    }
    assert forall|k: Seq<char>| ks.to_set().contains(k) <==> entries_map(es).dom().contains(k) by {
        if ks.to_set().contains(k) {
            let i = choose|i: int| 0 <= i < ks.len() && ks[i] == k;
            assert(es[i].0@ == k);
        }
        if entries_map(es).dom().contains(k) {
            let i = choose|i: int| 0 <= i < es.len() && (#[trigger] es[i]).0@ == k;
            assert(ks[i] == k);
        }
    }
    assert(ks.to_set() =~= entries_map(es).dom());
}

/// The endpoints that the cache holds, each once; none without a cache.
pub fn cached_grpc_endpoints(cache: &Option<Cache>) -> (r: Result<Vec<String>, CacheError>)
    ensures
        r is Ok,
        cache is None ==> (r matches Ok(v) && v@.len() == 0),
        cache is Some && r is Ok ==> text_views(r->Ok_0@).no_duplicates() && text_views(r->Ok_0@).to_set()
            == cache->Some_0.grpc_endpoint_cache.endpoint_map().dom(),
{
    match cache {
        None => Ok(Vec::new()),
        Some(c) => {
            let items = c.grpc_endpoint_cache.get_all_items()?;
            proof {
                lemma_entry_keys_domain(items@);
            }
            Ok(entry_key_list(&items))
        },
    }
}

/// The endpoints made of `addresses`, in their order: each address that gives
/// an endpoint, and a non-empty one, contributes it.
pub open spec fn usable_endpoints(addresses: Seq<Seq<char>>) -> Seq<Seq<char>>
    decreases addresses.len(),
{
    if addresses.len() == 0 {
        Seq::empty()
    } else {
        let rest = usable_endpoints(addresses.drop_last());
        match grpc_endpoint_of(addresses.last()) {
            Ok(e) => if e.len() > 0 {
                rest.push(e)
            } else {
                rest
            },
            Err(_) => rest,
        }
    }
}

/// The gRPC endpoints that the registry's `addresses` give, in their order
/// (see `parse_or_build_grpc_endpoint`); an error when none does.
pub fn usable_grpc_endpoints(addresses: &Vec<String>) -> (r: Result<Vec<String>, GrpcError>)
    ensures
        r is Ok <==> usable_endpoints(text_views(addresses@)).len() > 0,
        r is Ok ==> text_views(r->Ok_0@) == usable_endpoints(text_views(addresses@)),
        r matches Err(GrpcError::MissingEndpoint(m)) ==> m@
            == "no valid endpoint found. endpoints must use http or https."@,
        r is Err ==> r->Err_0 is MissingEndpoint,
{
    let ghost views = text_views(addresses@);
    let mut out: Vec<String> = Vec::new();
    let mut i: usize = 0;
    while i < addresses.len()
        invariant
            views == text_views(addresses@),
            i <= addresses.len(),
            text_views(out@) == usable_endpoints(views.take(i as int)),
        decreases addresses.len() - i,
    {
        proof {
            assert(views.take(i + 1).drop_last() =~= views.take(i as int));
            assert(views.take(i + 1).last() == addresses@[i as int]@);
        }
        let ghost before = out@;
        match parse_or_build_grpc_endpoint(addresses[i].as_str()) {
            Ok(e) => {
                if e.as_str().unicode_len() > 0 {
                    out.push(e);
                    assert(text_views(out@) =~= text_views(before).push(out@[out@.len() - 1]@));
                }
            },
            Err(_) => {},
        }
        i = i + 1;
    }
    assert(views.take(addresses.len() as int) =~= views);
    if out.len() == 0 {
        return Err(GrpcError::MissingEndpoint(String::from_str("no valid endpoint found. endpoints must use http or https.")));
    }
    Ok(out)
}

/// The endpoints of `endpoints` whose health check passed, in their order.
pub open spec fn healthy_only(endpoints: Seq<Seq<char>>, healthy: Seq<bool>) -> Seq<Seq<char>>
    decreases endpoints.len(),
{
    if endpoints.len() == 0 {
        Seq::empty()
    } else {
        let rest = healthy_only(endpoints.drop_last(), healthy);
        if healthy[endpoints.len() - 1] {
            rest.push(endpoints.last())
        } else {
            rest
        }
    }
}

/// Keeps the endpoints whose health check passed (`healthy[i]` for
/// `endpoints[i]`), in their order.
pub fn keep_healthy(endpoints: Vec<String>, healthy: &Vec<bool>) -> (r: Vec<String>)
    requires
        healthy.len() == endpoints.len(),
    ensures
        text_views(r@) == healthy_only(text_views(endpoints@), healthy@),
{
    let ghost views = text_views(endpoints@);
    let mut out: Vec<String> = Vec::new();
    let mut i: usize = 0;
    while i < endpoints.len()
        invariant
            views == text_views(endpoints@),
            healthy.len() == endpoints.len(),
            i <= endpoints.len(),
            text_views(out@) == healthy_only(views.take(i as int), healthy@),
        decreases endpoints.len() - i,
    {
        proof {
            assert(views.take(i + 1).drop_last() =~= views.take(i as int));
        }
        if healthy[i] {
            let ghost before = out@;
            out.push(endpoints[i].clone());
            assert(text_views(out@) =~= text_views(before).push(endpoints@[i as int]@));
        }
        i = i + 1;
    }
    assert(views.take(endpoints.len() as int) =~= views);
    out
}

/// `m` with each of `endpoints` set to `count`.
pub open spec fn with_endpoints(m: Map<Seq<char>, u8>, endpoints: Seq<Seq<char>>, count: u8) -> Map<Seq<char>, u8>
    decreases endpoints.len(),
{
    if endpoints.len() == 0 {
        m
    } else {
        with_endpoints(m, endpoints.drop_last(), count).insert(endpoints.last(), count)
    }
}

/// Adds each of `endpoints` to the cache with the count `count`, stopping at
/// the first error of the cache.
pub fn add_endpoints(cache: &mut Cache, endpoints: &Vec<String>, count: u8) -> (r: Result<(), CacheError>)
    ensures
        r is Ok ==> final(cache).grpc_endpoint_cache.endpoint_map() == with_endpoints(
            old(cache).grpc_endpoint_cache.endpoint_map(),
            text_views(endpoints@),
            count,
        ),
        old(cache).grpc_endpoint_cache.in_memory() ==> r is Ok,
        final(cache).grpc_endpoint_cache.failure_threshold() == old(cache).grpc_endpoint_cache.failure_threshold(),
        final(cache).grpc_endpoint_cache.in_memory() == old(cache).grpc_endpoint_cache.in_memory(),
{
    let ghost start = cache.grpc_endpoint_cache.endpoint_map();
    let ghost views = text_views(endpoints@);
    let mut i: usize = 0;
    while i < endpoints.len()
        invariant
            views == text_views(endpoints@),
            i <= endpoints.len(),
            cache.grpc_endpoint_cache.endpoint_map() == with_endpoints(start, views.take(i as int), count),
            cache.grpc_endpoint_cache.failure_threshold() == old(cache).grpc_endpoint_cache.failure_threshold(),
            cache.grpc_endpoint_cache.in_memory() == old(cache).grpc_endpoint_cache.in_memory(),
        decreases endpoints.len() - i,
    {
        proof {
            assert(views.take(i + 1).drop_last() =~= views.take(i as int));
        }
        cache.grpc_endpoint_cache.add_item(endpoints[i].clone(), count)?;
        i = i + 1;
    }
    assert(views.take(endpoints.len() as int) =~= views);
    Ok(())
}

/// The endpoints and counts of an optional cache (empty without one).
pub open spec fn cache_map(cache: Option<Cache>) -> Map<Seq<char>, u8> {
    match cache {
        Some(c) => c.grpc_endpoint_cache.endpoint_map(),
        None => Map::empty(),
    }
}

/// Whether an optional cache lives in memory alone (so with no cache).
pub open spec fn cache_in_memory(cache: Option<Cache>) -> bool {
    match cache {
        Some(c) => c.grpc_endpoint_cache.in_memory(),
        None => true,
    }
}

/// The failure threshold of an optional cache (zero without one).
pub open spec fn cache_threshold(cache: Option<Cache>) -> u8 {
    match cache {
        Some(c) => c.grpc_endpoint_cache.failure_threshold(),
        None => 0,
    }
}

/// Ends the search for endpoints of a client whose cache held none: keeps
/// those of `endpoints` whose health check passed (`healthy[i]` for
/// `endpoints[i]`), fails when none did, and otherwise loads them into the
/// cache, if there is one, each with the cache's failure threshold as its count.
pub fn finish_grpc_endpoints(cache: &mut Option<Cache>, endpoints: Vec<String>, healthy: &Vec<bool>) -> (r: Result<
    Vec<String>,
    ChainInfoError,
>)
    requires
        healthy.len() == endpoints.len(),
    ensures
        healthy_only(text_views(endpoints@), healthy@).len() == 0 ==> (r matches Err(
            ChainInfoError::GrpcEndpoint(GrpcError::UnhealthyEndpoint(m)),
        ) && m@ == "no healthy endpoint found (connections could not be established)"@),
        healthy_only(text_views(endpoints@), healthy@).len() == 0 ==> *final(cache) == *old(cache),
        healthy_only(text_views(endpoints@), healthy@).len() > 0 && *old(cache) is None ==> (r matches Ok(v)
            && text_views(v@) == healthy_only(text_views(endpoints@), healthy@)),
        r is Ok ==> text_views(r->Ok_0@) == healthy_only(text_views(endpoints@), healthy@),
        r is Err ==> r->Err_0 is GrpcEndpoint || r->Err_0 is CacheError,
        *old(cache) is Some <==> *final(cache) is Some,
        *old(cache) is Some && r is Ok ==> cache_map(*final(cache)) == with_endpoints(
            cache_map(*old(cache)),
            text_views(r->Ok_0@),
            cache_threshold(*old(cache)),
        ),
        *old(cache) is Some ==> cache_threshold(*final(cache)) == cache_threshold(*old(cache)),
{
    let kept = keep_healthy(endpoints, healthy);
    if kept.len() == 0 {
        return Err(
            ChainInfoError::GrpcEndpoint(
                GrpcError::UnhealthyEndpoint(
                    String::from_str("no healthy endpoint found (connections could not be established)"),
                ),
            ),
        );
    }
    match cache {
        None => {},
        Some(c) => {
            let threshold = c.grpc_endpoint_cache.get_connsecutive_failed_connections_threshold();
            match add_endpoints(c, &kept, threshold) {
                Ok(()) => {},
                Err(e) => {
                    return Err(ChainInfoError::CacheError(e));
                },
            }
        },
    }
    Ok(kept)
}

/// An index below `len`, drawn with `rand::random_range` from the thread-local
/// generator. Which index comes out is left to chance; only its range is
/// stated.
#[verifier::external_body]
fn random_index(len: usize) -> (i: usize)
    requires
        len > 0,
    ensures
        i < len,
{
    rand::random_range(0..len)
}

/// One of `endpoints`, picked at random; an error when there is none.
pub fn choose_endpoint(endpoints: &Vec<String>) -> (r: Result<String, RpcError>)
    ensures
        r is Err <==> endpoints.len() == 0,
        r is Ok ==> text_views(endpoints@).contains(r->Ok_0@),
        r is Err ==> (r->Err_0 matches RpcError::UnhealthyEndpoint(m) && m@ == "no available RPC endpoints"@),
{
    if endpoints.len() == 0 {
        return Err(RpcError::UnhealthyEndpoint(String::from_str("no available RPC endpoints")));
    }
    let i = random_index(endpoints.len());
    let e = endpoints[i].clone();
    assert(text_views(endpoints@)[i as int] == e@);
    Ok(e)
}

/// After a successful connection to `endpoint`: its count of failed
/// connections in the cache goes back to zero, and it becomes the client's
/// configured gRPC address. When the cache fails, the address stays.
pub fn record_connection_success(cache: &mut Option<Cache>, grpc_address: &mut String, endpoint: String) -> (r: Result<
    (),
    CacheError,
>)
    requires
        *old(cache) is Some,
    ensures
        *final(cache) is Some,
        r is Ok ==> cache_map(*final(cache)) == cache_map(*old(cache)).insert(endpoint@, 0),
        r is Ok ==> final(grpc_address)@ == endpoint@,
        r is Err ==> final(grpc_address)@ == old(grpc_address)@,
        cache_in_memory(*old(cache)) ==> r is Ok,
        cache_threshold(*final(cache)) == cache_threshold(*old(cache)),
{
    match cache {
        Some(c) => {
            c.grpc_endpoint_cache.add_item(endpoint.clone(), 0)?;
        },
        None => {},
    }
    *grpc_address = endpoint;
    Ok(())
}

/// After a failed connection to `endpoint`: the cache, if there is one, counts
/// one more failure for it (see `after_failed_connection`).
pub fn record_connection_failure(cache: &mut Option<Cache>, endpoint: String) -> (r: Result<(), CacheError>)
    requires
        *old(cache) is Some && cache_map(*old(cache)).contains_key(endpoint@)
            ==> cache_map(*old(cache))[endpoint@] < 255,
    ensures
        *old(cache) is None ==> r is Ok && *final(cache) is None,
        *old(cache) is Some ==> *final(cache) is Some,
        *old(cache) is Some && r is Ok ==> cache_map(*final(cache))
            == after_failed_connection(
            cache_map(*old(cache)),
            endpoint@,
            cache_threshold(*old(cache)),
        ),
        *old(cache) is Some ==> cache_threshold(*final(cache)) == cache_threshold(*old(cache)),
{
    match cache {
        Some(c) => c.grpc_endpoint_cache.increment_failed_connections(endpoint),
        None => Ok(()),
    }
}

/// Where a loop of connection attempts stands: the failed attempts so far,
/// the retries allowed after a first attempt, and the configured gRPC
/// address (empty when none is set).
pub struct ConnState {
    pub attempts: u16,
    pub retries: u8,
    pub configured: String,
}

/// What happened since the last step of a connection loop.
pub enum ConnEvent {
    /// The loop starts.
    Begin,
    /// A random endpoint of the client was picked.
    Picked(String),
    /// No endpoint could be picked; the error's text.
    NoEndpoint(String),
    /// The connection to the endpoint succeeded.
    Connected(String),
    /// The connection failed; the error's text.
    Failed(String),
}

/// What a connection loop does next.
pub enum ConnAction {
    /// Pick a random endpoint of the client.
    PickEndpoint,
    /// Connect to this endpoint.
    Connect(String),
    /// Keep the connection to this endpoint.
    Done(String),
    /// Stop with this error.
    GiveUp(GrpcError),
}

/// The attempt that follows: the configured address when there is one,
/// otherwise a random endpoint.
pub open spec fn chooses_endpoint(configured: Seq<char>, a: ConnAction) -> bool {
    if configured.len() > 0 {
        a matches ConnAction::Connect(e) && e@ == configured
    } else {
        a is PickEndpoint
    }
}

/// One step of the loop that connects a client: it tries the configured
/// address, or else a random endpoint, and gives up with the last connection
/// error once `retries + 1` attempts have failed, or as soon as no endpoint
/// can be picked.
pub fn next_connection_step(state: ConnState, event: ConnEvent) -> (r: (ConnState, ConnAction))
    requires
        state.attempts <= state.retries,
    ensures
        r.0.retries == state.retries,
        r.0.configured@ == state.configured@,
        !(r.1 is GiveUp) ==> r.0.attempts <= r.0.retries,
        event is Begin ==> r.0.attempts == state.attempts && chooses_endpoint(state.configured@, r.1),
        event matches ConnEvent::Picked(e) ==> r.0.attempts == state.attempts && (r.1 matches ConnAction::Connect(x)
            && x@ == e@),
        event matches ConnEvent::NoEndpoint(m) ==> (r.1 matches ConnAction::GiveUp(GrpcError::MissingEndpoint(x))
            && x@ == m@),
        event matches ConnEvent::Connected(e) ==> r.0.attempts == state.attempts && (r.1 matches ConnAction::Done(x)
            && x@ == e@),
        event matches ConnEvent::Failed(m) ==> r.0.attempts == state.attempts + 1 && if state.attempts
            == state.retries {
            r.1 matches ConnAction::GiveUp(GrpcError::Connection(x)) && x@ == m@
        } else {
            chooses_endpoint(state.configured@, r.1)
        },
{
    let ConnState { attempts, retries, configured } = state;
    match event {
        ConnEvent::Begin => {
            let next = choose_attempt(&configured);
            (ConnState { attempts, retries, configured }, next)
        },
        ConnEvent::Picked(e) => (ConnState { attempts, retries, configured }, ConnAction::Connect(e)),
        ConnEvent::NoEndpoint(m) => (
            ConnState { attempts, retries, configured },
            ConnAction::GiveUp(GrpcError::MissingEndpoint(m)),
        ),
        ConnEvent::Connected(e) => (ConnState { attempts, retries, configured }, ConnAction::Done(e)),
        ConnEvent::Failed(m) => {
            if attempts == retries as u16 {
                (ConnState { attempts: attempts + 1, retries, configured }, ConnAction::GiveUp(GrpcError::Connection(m)))
            } else {
                let next = choose_attempt(&configured);
                (ConnState { attempts: attempts + 1, retries, configured }, next)
            }
        },
    }
}

fn choose_attempt(configured: &String) -> (a: ConnAction)
    ensures
        chooses_endpoint(configured@, a),
{
    if configured.unicode_len() > 0 {
        ConnAction::Connect(configured.clone())
    } else {
        ConnAction::PickEndpoint
    }
}

/// Checks that a gRPC address is configured before a client connects: an
/// error naming the chain when the address is empty.
pub fn check_for_grpc_address(grpc_address: &str, chain_id: &str) -> (r: Result<(), GrpcError>)
    ensures
        r is Ok <==> grpc_address@.len() > 0,
        r is Err ==> (r->Err_0 matches GrpcError::MissingEndpoint(m) && m@ == "no grpc address available for chain "@
            + chain_id@),
{
    if grpc_address.unicode_len() == 0 {
        return Err(GrpcError::MissingEndpoint(crate::text::concat_str("no grpc address available for chain ", chain_id)));
    }
    Ok(())
}

} // verus!
