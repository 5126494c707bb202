//! Error types of the library. Errors that originate in an outside crate carry
//! that crate's message as text.
use vstd::prelude::*;
use crate::text::concat_str;

verus! {

/// Errors while building or converting transactions.
#[derive(Debug)]
pub enum TxError {
    Address(String),
    FeeParsing(String),
    Serialization(String),
    TypeConversion(String),
    Signing(String),
    Broadcast(String),
    Logging(String),
}

/// Errors of the airdrop and automated transaction workflows.
#[derive(Debug)]
pub enum AirdropError {
    FileIO(String),
    Toml(String),
    KeyHandling(String),
    TxBroadcast(String),
    KeyStore(String),
    ChainClient(String),
    Authorization(String),
}

/// Errors of the gRPC endpoint cache.
#[derive(Debug)]
pub enum CacheError {
    FileIO(String),
    Initialization(String),
    Toml(String),
}

/// Errors of the keyring and its key store.
#[derive(Debug)]
pub enum KeyStoreError {
    CouldNotOpenOrCreateKeyStore(String),
    Exists(String),
    DoesNotExist(String),
    NotInitialized,
    InvalidMnemonic(String),
    UnableToStoreKey(String),
    UnableToDeleteKey(String),
    UnableToRetrieveKey(String),
    FileIO(String),
    DerivingAccountId(String),
    RetrievingAccount(String),
    Signatory(String),
}

/// Errors about accounts.
#[derive(Debug)]
pub enum AccountError {
    Empty(String),
    Decode(String),
    InvalidPublicKey(String),
}

/// Errors about gRPC endpoints and connections.
#[derive(Debug)]
pub enum GrpcError {
    Connection(String),
    MissingEndpoint(String),
    Request(String),
    UnhealthyEndpoint(String),
}

/// Errors about RPC endpoints.
#[derive(Debug)]
pub enum RpcError {
    MissingEndpoint(String),
    TendermintStatus(String),
    UnhealthyEndpoint(String),
}

/// Errors while reading the chain registry.
#[derive(Debug)]
pub enum ChainRegistryError {
    InvalidChainInfo(String),
    GetRequest(String),
    UnsupportedChain(String),
}

/// Errors while working out a chain's endpoints and configuration.
#[derive(Debug)]
pub enum ChainInfoError {
    ChainRegistry(ChainRegistryError),
    GrpcEndpoint(GrpcError),
    RpcEndpoint(RpcError),
    CacheError(CacheError),
}

pub open spec fn grpc_error_message(e: GrpcError) -> Seq<char> {
    match e {
        GrpcError::Connection(s) => s@,
        GrpcError::MissingEndpoint(s) => s@,
        GrpcError::Request(s) => s@,
        GrpcError::UnhealthyEndpoint(s) => "unhealthy gRPC endpoint: "@ + s@,
    }
}

pub open spec fn rpc_error_message(e: RpcError) -> Seq<char> {
    match e {
        RpcError::MissingEndpoint(s) => s@,
        RpcError::TendermintStatus(s) => "tendermint status error: "@ + s@,
        RpcError::UnhealthyEndpoint(s) => "unhealthy RPC endpoint: "@ + s@,
    }
}

pub open spec fn chain_registry_error_message(e: ChainRegistryError) -> Seq<char> {
    match e {
        ChainRegistryError::InvalidChainInfo(s) => "error parsing chain info: "@ + s@,
        ChainRegistryError::GetRequest(_) => "error furing content get request"@,
        ChainRegistryError::UnsupportedChain(s) => s@,
    }
}

pub open spec fn chain_info_error_message(e: ChainInfoError) -> Seq<char> {
    match e {
        ChainInfoError::ChainRegistry(r) => "error during chain registry interaction: "@
            + chain_registry_error_message(r),
        ChainInfoError::GrpcEndpoint(g) => "invalid gRPC endpoint(s): "@ + grpc_error_message(g),
        ChainInfoError::RpcEndpoint(r) => "invalid RPC endpoint(s): "@ + rpc_error_message(r),
        ChainInfoError::CacheError(c) => cache_error_message(c),
    }
}

pub open spec fn tx_error_message(e: TxError) -> Seq<char> {
    match e {
        TxError::Address(s) => "address error: "@ + s@,
        TxError::FeeParsing(s) => "parsing error: "@ + s@,
        TxError::Serialization(s) => "serialization error: "@ + s@,
        TxError::TypeConversion(s) => "error converting types: "@ + s@,
        TxError::Signing(s) => "error signing message: "@ + s@,
        TxError::Broadcast(s) => "error broadcasting message: "@ + s@,
        TxError::Logging(s) => "error logging response: "@ + s@,
    }
}

pub open spec fn airdrop_error_message(e: AirdropError) -> Seq<char> {
    match e {
        AirdropError::FileIO(s) => "error reading file: "@ + s@,
        AirdropError::Toml(s) => "error reading toml: "@ + s@,
        AirdropError::KeyHandling(s) => "error handling key: "@ + s@,
        AirdropError::TxBroadcast(s) => "error sending tx: "@ + s@,
        AirdropError::KeyStore(s) => "keystore error: "@ + s@,
        AirdropError::ChainClient(s) => "chain client error: "@ + s@,
        AirdropError::Authorization(s) => "no valid unexpired authorization grants found for msg type: "@ + s@,
    }
}

pub open spec fn cache_error_message(e: CacheError) -> Seq<char> {
    match e {
        CacheError::FileIO(s) => "error processing file: "@ + s@,
        CacheError::Initialization(s) => "error intializing cache: "@ + s@,
        CacheError::Toml(s) => "error parsing toml: "@ + s@,
    }
}

pub open spec fn key_store_error_message(e: KeyStoreError) -> Seq<char> {
    match e {
        KeyStoreError::CouldNotOpenOrCreateKeyStore(s) => "error creating or opening keystore: "@ + s@,
        KeyStoreError::Exists(s) => "key name '"@ + s@ + "' already exists."@,
        KeyStoreError::DoesNotExist(s) => "key name '"@ + s@ + "' does not exist."@,
        KeyStoreError::NotInitialized => "key store has not been initialized."@,
        KeyStoreError::InvalidMnemonic(s) => "invalid mnemonic: "@ + s@,
        KeyStoreError::UnableToStoreKey(s) => "unable to store key: "@ + s@,
        KeyStoreError::UnableToDeleteKey(s) => "unable to delete key: "@ + s@,
        KeyStoreError::UnableToRetrieveKey(s) => "unable to retrieve key: "@ + s@,
        KeyStoreError::FileIO(s) => "error reading file: "@ + s@,
        KeyStoreError::DerivingAccountId(_) => "error deriving AccountId from PublicKey"@,
        KeyStoreError::RetrievingAccount(_) => "error during account retrieval"@,
        KeyStoreError::Signatory(s) => s@,
    }
}

impl TxError {
    /// The text this error displays.
    pub fn message(&self) -> (m: String)
        ensures
            m@ == tx_error_message(*self),
    {
        match self {
            TxError::Address(s) => concat_str("address error: ", s.as_str()),
            TxError::FeeParsing(s) => concat_str("parsing error: ", s.as_str()),
            TxError::Serialization(s) => concat_str("serialization error: ", s.as_str()),
            TxError::TypeConversion(s) => concat_str("error converting types: ", s.as_str()),
            TxError::Signing(s) => concat_str("error signing message: ", s.as_str()),
            TxError::Broadcast(s) => concat_str("error broadcasting message: ", s.as_str()),
            TxError::Logging(s) => concat_str("error logging response: ", s.as_str()),
        }
    }
}

impl AirdropError {
    /// The text this error displays.
    pub fn message(&self) -> (m: String)
        ensures
            m@ == airdrop_error_message(*self),
    {
        match self {
            AirdropError::FileIO(s) => concat_str("error reading file: ", s.as_str()),
            AirdropError::Toml(s) => concat_str("error reading toml: ", s.as_str()),
            AirdropError::KeyHandling(s) => concat_str("error handling key: ", s.as_str()),
            AirdropError::TxBroadcast(s) => concat_str("error sending tx: ", s.as_str()),
            AirdropError::KeyStore(s) => concat_str("keystore error: ", s.as_str()),
            AirdropError::ChainClient(s) => concat_str("chain client error: ", s.as_str()),
            AirdropError::Authorization(s) => concat_str(
                "no valid unexpired authorization grants found for msg type: ",
                s.as_str(),
            ),
        }
    }
}

impl CacheError {
    /// The text this error displays.
    pub fn message(&self) -> (m: String)
        ensures
            m@ == cache_error_message(*self),
    {
        match self {
            CacheError::FileIO(s) => concat_str("error processing file: ", s.as_str()),
            CacheError::Initialization(s) => concat_str("error intializing cache: ", s.as_str()),
            CacheError::Toml(s) => concat_str("error parsing toml: ", s.as_str()),
        }
    }
}

impl KeyStoreError {
    /// The text this error displays.
    pub fn message(&self) -> (m: String)
        ensures
            m@ == key_store_error_message(*self),
    {
        match self {
            KeyStoreError::CouldNotOpenOrCreateKeyStore(s) => concat_str(
                "error creating or opening keystore: ",
                s.as_str(),
            ),
            KeyStoreError::Exists(s) => {
                let a = concat_str("key name '", s.as_str());
                concat_str(a.as_str(), "' already exists.")
            },
            KeyStoreError::DoesNotExist(s) => {
                let a = concat_str("key name '", s.as_str());
                concat_str(a.as_str(), "' does not exist.")
            },
            KeyStoreError::NotInitialized => String::from_str("key store has not been initialized."),
            KeyStoreError::InvalidMnemonic(s) => concat_str("invalid mnemonic: ", s.as_str()),
            KeyStoreError::UnableToStoreKey(s) => concat_str("unable to store key: ", s.as_str()),
            KeyStoreError::UnableToDeleteKey(s) => concat_str("unable to delete key: ", s.as_str()),
            KeyStoreError::UnableToRetrieveKey(s) => concat_str("unable to retrieve key: ", s.as_str()),
            KeyStoreError::FileIO(s) => concat_str("error reading file: ", s.as_str()),
            KeyStoreError::DerivingAccountId(_) => String::from_str("error deriving AccountId from PublicKey"),
            KeyStoreError::RetrievingAccount(_) => String::from_str("error during account retrieval"),
            KeyStoreError::Signatory(s) => s.clone(),
        }
    }
}

impl GrpcError {
    /// The text this error displays.
    pub fn message(&self) -> (m: String)
        ensures
            m@ == grpc_error_message(*self),
    {
        match self {
            GrpcError::Connection(s) => s.clone(),
            GrpcError::MissingEndpoint(s) => s.clone(),
            GrpcError::Request(s) => s.clone(),
            GrpcError::UnhealthyEndpoint(s) => concat_str("unhealthy gRPC endpoint: ", s.as_str()),
        }
    }
}

impl RpcError {
    /// The text this error displays.
    pub fn message(&self) -> (m: String)
        ensures
            m@ == rpc_error_message(*self),
    {
        match self {
            RpcError::MissingEndpoint(s) => s.clone(),
            RpcError::TendermintStatus(s) => concat_str("tendermint status error: ", s.as_str()),
            RpcError::UnhealthyEndpoint(s) => concat_str("unhealthy RPC endpoint: ", s.as_str()),
        }
    }
}

impl ChainRegistryError {
    /// The text this error displays.
    pub fn message(&self) -> (m: String)
        ensures
            m@ == chain_registry_error_message(*self),
    {
        match self {
            ChainRegistryError::InvalidChainInfo(s) => concat_str("error parsing chain info: ", s.as_str()),
            ChainRegistryError::GetRequest(_) => String::from_str("error furing content get request"),
            ChainRegistryError::UnsupportedChain(s) => s.clone(),
        }
    }
}

impl ChainInfoError {
    /// The text this error displays.
    pub fn message(&self) -> (m: String)
        ensures
            m@ == chain_info_error_message(*self),
    {
        match self {
            ChainInfoError::ChainRegistry(r) => {
                let inner = r.message();
                concat_str("error during chain registry interaction: ", inner.as_str())
            },
            ChainInfoError::GrpcEndpoint(g) => {
                let inner = g.message();
                concat_str("invalid gRPC endpoint(s): ", inner.as_str())
            },
            ChainInfoError::RpcEndpoint(r) => {
                let inner = r.message();
                concat_str("invalid RPC endpoint(s): ", inner.as_str())
            },
            ChainInfoError::CacheError(c) => c.message(),
        }
    }
}

} // verus!
