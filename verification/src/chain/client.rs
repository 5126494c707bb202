//! The parts of the chain client that decide: endpoint selection and caching,
//! airdrops, grant checks and automated transaction files, the checks around
//! sending transactions, and how a client builder settles its settings.
use vstd::prelude::*;
use crate::chain::client::cache::{Cache, GrpcCache, MemoryCache};
use crate::keyring::Keyring;

pub mod airdrop;
pub mod bank;
pub mod authz;
pub mod automated_tx_handler;
pub mod cache;
pub mod grpc;
pub mod signing;
pub mod tx;

verus! {

/// How many times a client retries a connection unless told otherwise.
pub const DEFAULT_CONNECTION_RETRY_ATTEMPTS: u8 = 5;

/// A builder of chain clients: the chain's name, and the endpoints, keyring
/// and cache to use in place of the defaults.
pub struct ChainClientBuilder {
    chain_name: String,
    grpc_endpoint: Option<String>,
    rpc_endpoint: Option<String>,
    keyring: Option<Keyring>,
    cache: Option<Cache>,
    connection_retry_attempts: Option<u8>,
}

/// What a builder settles on once the chain's configuration is known.
pub struct BuilderSettings {
    pub grpc_address: String,
    pub rpc_address: String,
    pub keyring: Option<Keyring>,
    pub cache: Cache,
    pub connection_retry_attempts: u8,
}

impl ChainClientBuilder {
    /// The chain the client is for.
    pub closed spec fn chain(&self) -> Seq<char> {
        self.chain_name@
    }

    /// The gRPC endpoint given to the builder, if any.
    pub closed spec fn given_grpc(&self) -> Option<Seq<char>> {
        match self.grpc_endpoint {
            Some(e) => Some(e@),
            None => None,
        }
    }

    /// The RPC endpoint given to the builder, if any.
    pub closed spec fn given_rpc(&self) -> Option<Seq<char>> {
        match self.rpc_endpoint {
            Some(e) => Some(e@),
            None => None,
        }
    }

    /// The keyring given to the builder, if any.
    pub closed spec fn given_keyring(&self) -> Option<Keyring> {
        self.keyring
    }

    /// The cache given to the builder, if any.
    pub closed spec fn given_cache(&self) -> Option<Cache> {
        self.cache
    }

    /// The number of connection retries given to the builder, if any.
    pub closed spec fn given_retries(&self) -> Option<u8> {
        self.connection_retry_attempts
    }

    /// A builder for the chain `chain_name` with nothing given yet.
    pub fn new(chain_name: String) -> (b: ChainClientBuilder)
        ensures
            b.chain() == chain_name@,
            b.given_grpc() is None,
            b.given_rpc() is None,
            b.given_keyring() is None,
            b.given_cache() is None,
            b.given_retries() is None,
    {
        ChainClientBuilder {
            chain_name,
            grpc_endpoint: None,
            rpc_endpoint: None,
            keyring: None,
            cache: None,
            connection_retry_attempts: None,
        }
    }

    /// The name of the chain the client is for.
    pub fn chain_name(&self) -> (r: &String)
        ensures
            r@ == self.chain(),
    {
        &self.chain_name
    }

    /// Settles the client's settings given the chain's configured gRPC and
    /// RPC addresses: a given endpoint replaces the configured one, the
    /// client retries a connection 5 times, and without a given cache it uses
    /// a memory cache that drops an endpoint after as many consecutive
    /// failures as it retries. The keyring is passed on as given. (No setter
    /// gives the number of retries, so a built client retries 5 times.)
    pub fn settle(self, config_grpc_address: String, config_rpc_address: String) -> (s: BuilderSettings)
        ensures
            s.grpc_address@ == match self.given_grpc() {
                Some(e) => e,
                None => config_grpc_address@,
            },
            s.rpc_address@ == match self.given_rpc() {
                Some(e) => e,
                None => config_rpc_address@,
            },
            s.connection_retry_attempts == match self.given_retries() {
                Some(n) => n,
                None => 5u8,
            },
            s.keyring == self.given_keyring(),
            self.given_cache() matches Some(c) ==> s.cache == c,
            self.given_cache() is None ==> s.cache.grpc_endpoint_cache.endpoint_map() == Map::<Seq<char>, u8>::empty()
                && s.cache.grpc_endpoint_cache.failure_threshold() == s.connection_retry_attempts,
    {
        let grpc_address = match self.grpc_endpoint {
            Some(e) => e,
            None => config_grpc_address,
        };
        let rpc_address = match self.rpc_endpoint {
            Some(e) => e,
            None => config_rpc_address,
        };
        let connection_retry_attempts: u8 = match self.connection_retry_attempts {
            Some(n) => n,
            None => DEFAULT_CONNECTION_RETRY_ATTEMPTS,
        };
        let cache = match self.cache {
            Some(c) => c,
            None => Cache { grpc_endpoint_cache: Box::new(MemoryCache::new(None, connection_retry_attempts)) },
        };
        BuilderSettings { grpc_address, rpc_address, keyring: self.keyring, cache, connection_retry_attempts }
    }

    /// Uses `keyring` for the client.
    pub fn with_keyring(self, keyring: Keyring) -> (b: ChainClientBuilder)
        ensures
            b.given_keyring() == Some(keyring),
            b.chain() == self.chain(),
            b.given_grpc() == self.given_grpc(),
            b.given_rpc() == self.given_rpc(),
            b.given_cache() == self.given_cache(),
            b.given_retries() == self.given_retries(),
    {
        let mut b = self;
        b.keyring = Some(keyring);
        b
    }

    /// Uses `endpoint` as the client's gRPC endpoint.
    pub fn with_grpc_endpoint(self, endpoint: &str) -> (b: ChainClientBuilder)
        ensures
            b.given_grpc() == Some(endpoint@),
            b.chain() == self.chain(),
            b.given_rpc() == self.given_rpc(),
            b.given_keyring() == self.given_keyring(),
            b.given_cache() == self.given_cache(),
            b.given_retries() == self.given_retries(),
    {
        let mut b = self;
        b.grpc_endpoint = Some(String::from_str(endpoint));
        b
    }

    /// Uses `endpoint` as the client's RPC endpoint.
    pub fn with_rpc_endpoint(self, endpoint: &str) -> (b: ChainClientBuilder)
        ensures
            b.given_rpc() == Some(endpoint@),
            b.chain() == self.chain(),
            b.given_grpc() == self.given_grpc(),
            b.given_keyring() == self.given_keyring(),
            b.given_cache() == self.given_cache(),
            b.given_retries() == self.given_retries(),
    {
        let mut b = self;
        b.rpc_endpoint = Some(String::from_str(endpoint));
        b
    }

    /// Uses `cache` as the client's gRPC endpoint cache.
    pub fn with_cache(self, cache: Cache) -> (b: ChainClientBuilder)
        ensures
            b.given_cache() == Some(cache),
            b.chain() == self.chain(),
            b.given_grpc() == self.given_grpc(),
            b.given_rpc() == self.given_rpc(),
            b.given_keyring() == self.given_keyring(),
            b.given_retries() == self.given_retries(),
    {
        let mut b = self;
        b.cache = Some(cache);
        b
    }
}

} // verus!
