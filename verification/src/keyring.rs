//! A keyring: keys kept in a key store under names, each made from a BIP39
//! mnemonic, a password and a BIP32 derivation path, with a record of the
//! kind of each key added through the keyring.
use vstd::prelude::*;
use crate::account::AccountInfo;
use crate::error::KeyStoreError;
use crate::table::{entries_map, StrMap};
use crate::text::{str_chars, trim, trimmed};

verus! {

/// The derivation path of Cosmos accounts, used when none is given.
pub const COSMOS_BASE_DERIVATION_PATH: &'static str = "m/44'/118'/0'/0/0";

/// The directory, under the home directory, of the default file key store.
pub const DEFAULT_FS_KEYSTORE_DIR: &'static str = "/.ocular/keys";

/// The kinds of key records.
#[derive(Clone, Copy, Debug)]
pub enum RecordType {
    Local,
    Ledger,
    Multi,
    Offline,
}

/// What the keyring records of a key.
#[derive(Clone, Copy, Debug)]
pub struct Record {
    pub record_type: RecordType,
}

/// A key name that a key store accepts: ASCII letters, digits, `-` and `_`
/// only (the rule of `signatory::KeyName::new`).
pub open spec fn valid_key_name(name: Seq<char>) -> bool {
    forall|i: int| 0 <= i < name.len() ==> {
        let c = #[trigger] name[i];
        ('a' <= c && c <= 'z') || ('A' <= c && c <= 'Z') || ('0' <= c && c <= '9') || c == '-' || c == '_'
    }
}

/// Whether `name` is a valid key name.
pub fn is_valid_key_name(name: &str) -> (r: bool)
    ensures
        r == valid_key_name(name@),
{
    let cs = str_chars(name);
    let mut i: usize = 0;
    while i < cs.len()
        invariant
            cs@ == name@,
            i <= cs@.len(),
            forall|j: int| 0 <= j < i ==> {
                let c = #[trigger] name@[j];
                ('a' <= c && c <= 'z') || ('A' <= c && c <= 'Z') || ('0' <= c && c <= '9') || c == '-' || c == '_'
            },
        decreases cs.len() - i,
    {
        let c = cs[i];
        if !(('a' <= c && c <= 'z') || ('A' <= c && c <= 'Z') || ('0' <= c && c <= '9') || c == '-' || c == '_') {
            return false;
        }
        i = i + 1;
    }
    true
}

/// What `bip32::Mnemonic::new` (English word list) and `to_seed` make of a
/// phrase and a password: the seed's bytes, or the error's text when the
/// phrase is no valid mnemonic.
pub uninterp spec fn mnemonic_seed(phrase: Seq<char>, password: Seq<char>) -> Result<Seq<u8>, Seq<char>>;

/// What `bip32::XPrv::derive_from_path` makes of a seed and a derivation path
/// given as text: the bytes of the derived private key; or the error's text,
/// also when the path does not parse.
pub uninterp spec fn derived_secret(seed: Seq<u8>, path: Seq<char>) -> Result<Seq<u8>, Seq<char>>;

/// What `k256::SecretKey::from_slice` and `to_pkcs8_der` make of private key
/// bytes: the PKCS#8 DER document, or the error's text.
pub uninterp spec fn pkcs8_document(secret: Seq<u8>) -> Result<Seq<u8>, Seq<char>>;

/// What `k256::SecretKey::from_pkcs8_der` reads from a PKCS#8 DER document:
/// the private key bytes, or the error's text.
pub uninterp spec fn pkcs8_secret(document: Seq<u8>) -> Result<Seq<u8>, Seq<char>>;

/// What `cosmrs::crypto::secp256k1::SigningKey::from_slice`, `public_key`
/// and `account_id` make of private key bytes and an address prefix: the
/// public key's bytes and the bech32 account address, or the error's text.
pub uninterp spec fn public_key_account(secret: Seq<u8>, prefix: Seq<char>) -> Result<(Seq<u8>, Seq<char>), Seq<char>>;

/// A phrase of a fresh BIP39 mnemonic, drawn by `bip32::Mnemonic::random`
/// from the operating system's random source. Which phrase comes out is left
/// to chance. Stated from the crate's source: the phrase is words of the
/// English list joined by single spaces, so it has no surrounding white space
/// and `Mnemonic::new` accepts it.
#[verifier::external_body]
pub(crate) fn random_mnemonic() -> (r: String)
    ensures
        trimmed(r@) == r@,
        forall|password: Seq<char>| #[trigger] mnemonic_seed(r@, password) is Ok,
{
    bip32::Mnemonic::random(&mut rand_core::OsRng, Default::default()).phrase().to_string()
}

/// The seed of a mnemonic phrase with a password (`bip32::Mnemonic::new` and
/// `to_seed`). The result is named (`mnemonic_seed`).
#[verifier::external_body]
pub(crate) fn seed_from_mnemonic(phrase: &str, password: &str) -> (r: Result<Vec<u8>, String>)
    ensures
        r is Ok ==> mnemonic_seed(phrase@, password@) == Ok::<Seq<u8>, Seq<char>>(r->Ok_0@),
        r is Err ==> mnemonic_seed(phrase@, password@) == Err::<Seq<u8>, Seq<char>>(r->Err_0@),
{
    match bip32::Mnemonic::new(phrase, Default::default()) {
        Ok(m) => Ok(m.to_seed(password).as_bytes().to_vec()),
        Err(e) => Err(e.to_string()),
    }
}

/// The private key derived from a seed along a derivation path
/// (`bip32::XPrv::derive_from_path`, the path parsed as a
/// `bip32::DerivationPath`). The result is named (`derived_secret`).
#[verifier::external_body]
pub(crate) fn derive_secret(seed: &Vec<u8>, path: &str) -> (r: Result<Vec<u8>, String>)
    ensures
        r is Ok ==> derived_secret(seed@, path@) == Ok::<Seq<u8>, Seq<char>>(r->Ok_0@),
        r is Err ==> derived_secret(seed@, path@) == Err::<Seq<u8>, Seq<char>>(r->Err_0@),
{
    let path = match path.parse::<bip32::DerivationPath>() {
        Ok(p) => p,
        Err(e) => return Err(e.to_string()),
    };
    match bip32::XPrv::derive_from_path(seed.as_slice(), &path) {
        Ok(k) => Ok(k.private_key().to_bytes().to_vec()),
        Err(e) => Err(e.to_string()),
    }
}

/// The PKCS#8 DER document of private key bytes (`k256::SecretKey` and
/// `pkcs8::EncodePrivateKey::to_pkcs8_der`). The result is named
/// (`pkcs8_document`).
#[verifier::external_body]
pub(crate) fn encode_pkcs8(secret: &Vec<u8>) -> (r: Result<Vec<u8>, String>)
    ensures
        r is Ok ==> pkcs8_document(secret@) == Ok::<Seq<u8>, Seq<char>>(r->Ok_0@),
        r is Err ==> pkcs8_document(secret@) == Err::<Seq<u8>, Seq<char>>(r->Err_0@),
{
    match k256::SecretKey::from_slice(secret.as_slice()) {
        Ok(key) => match pkcs8::EncodePrivateKey::to_pkcs8_der(&key) {
            Ok(doc) => Ok(doc.as_bytes().to_vec()),
            Err(e) => Err(e.to_string()),
        },
        Err(e) => Err(e.to_string()),
    }
}

/// The private key bytes of a PKCS#8 DER document
/// (`pkcs8::DecodePrivateKey::from_pkcs8_der` for `k256::SecretKey`). The
/// result is named (`pkcs8_secret`).
#[verifier::external_body]
pub(crate) fn decode_pkcs8(document: &Vec<u8>) -> (r: Result<Vec<u8>, String>)
    ensures
        r is Ok ==> pkcs8_secret(document@) == Ok::<Seq<u8>, Seq<char>>(r->Ok_0@),
        r is Err ==> pkcs8_secret(document@) == Err::<Seq<u8>, Seq<char>>(r->Err_0@),
{
    match <k256::SecretKey as pkcs8::DecodePrivateKey>::from_pkcs8_der(document.as_slice()) {
        Ok(key) => Ok(key.to_bytes().to_vec()),
        Err(e) => Err(e.to_string()),
    }
}

/// The public key and the account address with `prefix` of private key bytes
/// (`cosmrs::crypto::secp256k1::SigningKey::from_slice`, `public_key`,
/// `PublicKey::to_bytes` and `account_id`). The result is named
/// (`public_key_account`).
#[verifier::external_body]
pub(crate) fn derive_public_account(secret: &Vec<u8>, prefix: &str) -> (r: Result<(Vec<u8>, String), String>)
    ensures
        r is Ok ==> public_key_account(secret@, prefix@) == Ok::<(Seq<u8>, Seq<char>), Seq<char>>(
            (r->Ok_0.0@, r->Ok_0.1@),
        ),
        r is Err ==> public_key_account(secret@, prefix@) == Err::<(Seq<u8>, Seq<char>), Seq<char>>(r->Err_0@),
{
    let public = match cosmrs::crypto::secp256k1::SigningKey::from_slice(secret.as_slice()) {
        Ok(k) => k.public_key(),
        Err(e) => return Err(e.to_string()),
    };
    match public.account_id(prefix) {
        Ok(id) => Ok((public.to_bytes(), id.to_string())),
        Err(e) => Err(e.to_string()),
    }
}

/// The derivation path used: the one given, or the Cosmos default.
pub open spec fn path_or_default(path: Option<&str>) -> Seq<char> {
    match path {
        Some(p) => p@,
        None => "m/44'/118'/0'/0/0"@,
    }
}

/// The private key made from a mnemonic phrase, a password and a derivation
/// path, or the error's text of the step that fails.
pub open spec fn key_secret(phrase: Seq<char>, password: Seq<char>, path: Seq<char>) -> Result<Seq<u8>, Seq<char>> {
    match mnemonic_seed(phrase, password) {
        Err(e) => Err(e),
        Ok(seed) => derived_secret(seed, path),
    }
}

/// The PKCS#8 document of the key made from a mnemonic phrase, a password and
/// a derivation path, or the error's text of the step that fails.
pub open spec fn key_document(phrase: Seq<char>, password: Seq<char>, path: Seq<char>) -> Result<Seq<u8>, Seq<char>> {
    match key_secret(phrase, password, path) {
        Err(e) => Err(e),
        Ok(secret) => pkcs8_document(secret),
    }
}

/// The public key and account address with `prefix` of a stored key
/// document, or the error's text of the step that fails.
pub open spec fn document_public_account(document: Seq<u8>, prefix: Seq<char>) -> Result<(Seq<u8>, Seq<char>), Seq<char>> {
    match pkcs8_secret(document) {
        Err(e) => Err(e),
        Ok(secret) => public_key_account(secret, prefix),
    }
}

/// A fresh random UUID (version 4) from `uuid::Uuid::new_v4`, in its
/// hyphenated text form. Which UUID comes out is left to chance. Stated from
/// the crate's source: the text is 36 characters of lowercase hexadecimal
/// digits and hyphens.
#[verifier::external_body]
fn uuid_v4_text() -> (r: String)
    ensures
        r@.len() == 36,
        valid_key_name(r@),
{
    uuid::Uuid::new_v4().to_string()
}

/// A key name not used before: `prefix` followed by a fresh random UUID.
pub fn temporary_key_name(prefix: &str) -> (r: String)
    requires
        valid_key_name(prefix@),
    ensures
        r@.len() == prefix@.len() + 36,
        r@.subrange(0, prefix@.len() as int) == prefix@,
        valid_key_name(r@),
{
    let id = uuid_v4_text();
    let r = crate::text::concat_str(prefix, id.as_str());
    assert(r@.subrange(0, prefix@.len() as int) =~= prefix@);
    assert forall|i: int| 0 <= i < r@.len() implies {
        let c = #[trigger] r@[i];
        ('a' <= c && c <= 'z') || ('A' <= c && c <= 'Z') || ('0' <= c && c <= '9') || c == '-' || c == '_'
    } by {
        if i < prefix@.len() {
            assert(r@[i] == prefix@[i]);
        } else {
            assert(r@[i] == id@[i - prefix@.len()]);
        }
    }
    r
}

/// A store of PKCS#8 key documents under key names. Backends implement it;
/// the file store keeps each key in a file of its own.
pub trait KeyStore {
    /// The stored key documents by name.
    spec fn stored_keys(&self) -> Map<Seq<char>, Seq<u8>>;

    /// Whether the store has been created or opened.
    spec fn is_created(&self) -> bool;

    /// Creates the store, or opens it where it exists.
    fn create_key_store(&mut self) -> (r: Result<(), KeyStoreError>)
        ensures
            r is Ok ==> final(self).is_created(),
    ;

    /// Whether the store has been created or opened.
    fn key_store_created(&self) -> (r: bool)
        ensures
            r == self.is_created(),
    ;

    /// Whether a key is stored under `key_name`; a created store always
    /// answers.
    fn key_exists(&self, key_name: &str) -> (r: Result<bool, KeyStoreError>)
        requires
            valid_key_name(key_name@),
            self.is_created(),
        ensures
            r is Ok,
            r is Ok ==> r->Ok_0 == self.stored_keys().contains_key(key_name@),
    ;

    /// Stores `encoded_key` under `key_name`, replacing a key stored there.
    fn add_key(&mut self, key_name: &str, encoded_key: Vec<u8>) -> (r: Result<(), KeyStoreError>)
        requires
            valid_key_name(key_name@),
            old(self).is_created(),
        ensures
            r is Ok ==> final(self).stored_keys() == old(self).stored_keys().insert(key_name@, encoded_key@),
            final(self).is_created() == old(self).is_created(),
    ;

    /// Deletes the key stored under `key_name`.
    fn delete_key(&mut self, key_name: &str) -> (r: Result<(), KeyStoreError>)
        requires
            valid_key_name(key_name@),
            old(self).is_created(),
        ensures
            r is Ok ==> final(self).stored_keys() == old(self).stored_keys().remove(key_name@),
            final(self).is_created() == old(self).is_created(),
    ;

    /// Stores the key of `current_name` under `new_name`, then deletes it
    /// under `current_name`.
    fn rename_key(&mut self, current_name: &str, new_name: &str) -> (r: Result<(), KeyStoreError>)
        requires
            valid_key_name(current_name@),
            valid_key_name(new_name@),
            old(self).is_created(),
            old(self).stored_keys().contains_key(current_name@),
        ensures
            r is Ok ==> final(self).stored_keys() == old(self).stored_keys().insert(
                new_name@,
                old(self).stored_keys()[current_name@],
            ).remove(current_name@),
            final(self).is_created() == old(self).is_created(),
    ;

    /// The key document stored under `key_name`.
    fn get_key(&self, key_name: &str) -> (r: Result<Vec<u8>, KeyStoreError>)
        requires
            valid_key_name(key_name@),
            self.is_created(),
        ensures
            r is Ok ==> self.stored_keys().contains_key(key_name@) && r->Ok_0@ == self.stored_keys()[key_name@],
    ;
}

/// The key files of a file key store: one file per key under a directory.
/// Implemented over the file system.
pub trait KeyFiles {
    /// Creates the directory at `path`, or opens it where it exists, and reads
    /// the keys it already holds, by name.
    fn open(&mut self, path: &str) -> Result<Vec<(String, Vec<u8>)>, KeyStoreError>;

    /// Writes `document` as the key file of `name`.
    fn store(&self, name: &str, document: &Vec<u8>) -> Result<(), KeyStoreError>;

    /// Deletes the key file of `name`.
    fn delete(&self, name: &str) -> Result<(), KeyStoreError>;
}

/// The views of key documents by name.
pub open spec fn document_map(m: Map<Seq<char>, Vec<u8>>) -> Map<Seq<char>, Seq<u8>> {
    m.map_values(|d: Vec<u8>| d@)
}

/// A key store that keeps each key in a file of its own under a directory,
/// and the keys it holds in memory; each change is written to the files
/// first.
pub struct FileKeyStore {
    key_path: String,
    opened: bool,
    keys: StrMap<Vec<u8>>,
    files: Box<dyn KeyFiles>,
    listing: Ghost<Seq<(String, Vec<u8>)>>,
}

/// The table of a directory listing of keys: each name with its document, a
/// later entry of a name winning.
pub fn table_of_listing(listing: Vec<(String, Vec<u8>)>) -> (t: StrMap<Vec<u8>>)
    ensures
        t@ == entries_map(listing@),
{
    let ghost all = listing@;
    let mut rest = listing;
    let mut table: StrMap<Vec<u8>> = StrMap::new();
    let ghost mut i: int = 0;
    while rest.len() > 0
        invariant
            0 <= i <= all.len(),
            rest@ == all.skip(i),
            table@ == entries_map(all.take(i)),
        decreases rest.len(),
    {
        let ghost before = rest@;
        let (k, v) = rest.remove(0);
        proof {
            assert(before[0] == all[i]);
            assert(all.take(i + 1).drop_last() == all.take(i));
            assert(all.take(i + 1).last() == (k, v));
            assert(rest@ =~= all.skip(i + 1));
        }
        table.insert(k, v);
        proof {
            i = i + 1;
        }
    }
    assert(all.take(i) =~= all);
    table
}

impl FileKeyStore {
    /// A file key store for the directory `key_path`, not opened yet.
    pub fn new(key_path: String, files: Box<dyn KeyFiles>) -> (s: FileKeyStore)
        ensures
            !s.is_created(),
            s.stored_keys() == Map::<Seq<char>, Seq<u8>>::empty(),
            s.directory() == key_path@,
    {
        let s = FileKeyStore { key_path, opened: false, keys: StrMap::new(), files, listing: Ghost(Seq::empty()) };
        assert(s.stored_keys() =~= Map::<Seq<char>, Seq<u8>>::empty());
        s
    }

    /// The directory of the key files.
    pub closed spec fn directory(&self) -> Seq<char> {
        self.key_path@
    }

    /// The keys, by name, that the directory listed when the store was last
    /// opened (none before).
    pub closed spec fn listed_keys(&self) -> Map<Seq<char>, Seq<u8>> {
        document_map(entries_map(self.listing@))
    }
}

impl KeyStore for FileKeyStore {
    closed spec fn stored_keys(&self) -> Map<Seq<char>, Seq<u8>> {
        document_map(self.keys@)
    }

    closed spec fn is_created(&self) -> bool {
        self.opened
    }

    /// Opens the directory and loads the keys it holds (a later entry of a
    /// name wins).
    fn create_key_store(&mut self) -> (r: Result<(), KeyStoreError>)
        ensures
            r is Err ==> final(self).stored_keys() == old(self).stored_keys() && final(self).is_created()
                == old(self).is_created(),
            r is Ok ==> final(self).stored_keys() == final(self).listed_keys(),
    {
        let loaded = self.files.open(self.key_path.as_str())?;
        self.listing = Ghost(loaded@);
        self.keys = table_of_listing(loaded);
        self.opened = true;
        Ok(())
    }

    fn key_store_created(&self) -> (r: bool) {
        self.opened
    }

    fn key_exists(&self, key_name: &str) -> (r: Result<bool, KeyStoreError>) {
        Ok(self.keys.contains_key(key_name))
    }

    fn add_key(&mut self, key_name: &str, encoded_key: Vec<u8>) -> (r: Result<(), KeyStoreError>)
        ensures
            r is Err ==> final(self).stored_keys() == old(self).stored_keys(),
    {
        self.files.store(key_name, &encoded_key)?;
        let ghost doc = encoded_key@;
        self.keys.insert(String::from_str(key_name), encoded_key);
        assert(self.stored_keys() =~= old(self).stored_keys().insert(key_name@, doc));
        Ok(())
    }

    fn delete_key(&mut self, key_name: &str) -> (r: Result<(), KeyStoreError>)
        ensures
            r is Err ==> final(self).stored_keys() == old(self).stored_keys(),
    {
        self.files.delete(key_name)?;
        self.keys.remove(key_name);
        assert(self.stored_keys() =~= old(self).stored_keys().remove(key_name@));
        Ok(())
    }

    /// Writes the key's file under the new name, then deletes the old file.
    fn rename_key(&mut self, current_name: &str, new_name: &str) -> (r: Result<(), KeyStoreError>)
        ensures
            r is Err ==> final(self).stored_keys() == old(self).stored_keys() || final(self).stored_keys()
                == old(self).stored_keys().insert(new_name@, old(self).stored_keys()[current_name@]),
    {
        let document: Vec<u8> = match self.keys.get(current_name) {
            Some(d) => d.clone(),
            None => {
                return Err(KeyStoreError::UnableToRetrieveKey(String::from_str(current_name)));
            },
        };
        assert(document@ =~= old(self).stored_keys()[current_name@]);
        self.files.store(new_name, &document)?;
        let ghost doc = document@;
        self.keys.insert(String::from_str(new_name), document);
        self.files.delete(current_name)?;
        self.keys.remove(current_name);
        assert(self.stored_keys() =~= old(self).stored_keys().insert(new_name@, doc).remove(current_name@));
        Ok(())
    }

    /// Reads the key from the keys held in memory.
    fn get_key(&self, key_name: &str) -> (r: Result<Vec<u8>, KeyStoreError>)
        ensures
            self.stored_keys().contains_key(key_name@) <==> r is Ok,
            r is Err ==> (r->Err_0 matches KeyStoreError::UnableToRetrieveKey(m) && m@ == key_name@),
    {
        match self.keys.get(key_name) {
            Some(d) => {
                let copy = d.clone();
                assert(copy@ =~= d@);
                Ok(copy)
            },
            None => Err(KeyStoreError::UnableToRetrieveKey(String::from_str(key_name))),
        }
    }
}

/// A new key's mnemonic phrase and private key bytes.
#[derive(Debug)]
pub struct PrivateKeyOutput {
    pub mnemonic: String,
    pub private_key: Vec<u8>,
}

/// A key's name, public key bytes and bech32 account address.
#[derive(Debug)]
pub struct PublicKeyOutput {
    pub name: String,
    pub public_key: Vec<u8>,
    pub account: String,
}

/// Keys in a key store, with a record of each key added through the keyring.
pub struct Keyring {
    key_store: Box<dyn KeyStore>,
    records: StrMap<Record>,
}

impl Keyring {
    /// The key documents in the keyring's store, by name.
    pub closed spec fn key_map(&self) -> Map<Seq<char>, Seq<u8>> {
        self.key_store.stored_keys()
    }

    /// Whether the keyring's store has been created.
    pub closed spec fn created(&self) -> bool {
        self.key_store.is_created()
    }

    /// The records of the keys added through the keyring, by name.
    pub closed spec fn record_map(&self) -> Map<Seq<char>, Record> {
        self.records@
    }

    /// A keyring over `key_store`, which it first creates or opens; it holds
    /// no records yet.
    pub fn with_key_store(key_store: Box<dyn KeyStore>) -> (r: Result<Keyring, KeyStoreError>)
        ensures
            r is Ok ==> r->Ok_0.created(),
            r is Ok ==> r->Ok_0.record_map() == Map::<Seq<char>, Record>::empty(),
    {
        let mut k = Keyring { key_store, records: StrMap::new() };
        k.key_store.create_key_store()?;
        assert(k.record_map() =~= Map::<Seq<char>, Record>::empty());
        Ok(k)
    }

    /// Whether the keyring's store has been created.
    pub fn key_store_created(&self) -> (r: bool)
        ensures
            r == self.created(),
    {
        self.key_store.key_store_created()
    }

    /// Whether a key is stored under `name`; an error before the store has
    /// been created.
    pub fn key_exists(&self, name: &str) -> (r: Result<bool, KeyStoreError>)
        requires
            valid_key_name(name@),
        ensures
            !self.created() ==> r matches Err(KeyStoreError::NotInitialized),
            self.created() ==> r == Ok::<bool, KeyStoreError>(self.key_map().contains_key(name@)),
    {
        if !self.key_store_created() {
            return Err(KeyStoreError::NotInitialized);
        }
        self.key_store.key_exists(name)
    }

    /// Makes the key of `phrase` with `password` along `path` and stores it
    /// under `name` with a record of `record_type`.
    fn store_key_from_phrase(&mut self, name: &str, phrase: &str, password: &str, path: &str, record_type: RecordType) -> (r: Result<
        Vec<u8>,
        KeyStoreError,
    >)
        requires
            valid_key_name(name@),
            old(self).created(),
        ensures
            mnemonic_seed(phrase@, password@) matches Err(e) ==> (r matches Err(KeyStoreError::InvalidMnemonic(m))
                && m@ == e) && *final(self) == *old(self),
            r is Ok ==> key_secret(phrase@, password@, path@) == Ok::<Seq<u8>, Seq<char>>(r->Ok_0@),
            r is Ok ==> key_document(phrase@, password@, path@) is Ok && final(self).key_map() == old(
                self,
            ).key_map().insert(name@, key_document(phrase@, password@, path@)->Ok_0),
            r is Ok ==> final(self).record_map() == old(self).record_map().insert(name@, Record { record_type }),
            final(self).created(),
            r is Err ==> final(self).record_map() == old(self).record_map(),
    {
        let seed = match seed_from_mnemonic(phrase, password) {
            Ok(s) => s,
            Err(e) => {
                return Err(KeyStoreError::InvalidMnemonic(e));
            },
        };
        let secret = match derive_secret(&seed, path) {
            Ok(k) => k,
            Err(e) => {
                return Err(KeyStoreError::UnableToStoreKey(e));
            },
        };
        let document = match encode_pkcs8(&secret) {
            Ok(d) => d,
            Err(e) => {
                return Err(KeyStoreError::UnableToStoreKey(e));
            },
        };
        self.key_store.add_key(name, document)?;
        self.records.insert(String::from_str(name), Record { record_type });
        Ok(secret)
    }

    /// Adds a key under `name` made from a fresh random mnemonic, `password`
    /// and `derivation_path` (the Cosmos path when none is given). A key of
    /// that name is replaced only when `override_if_exists` is set; otherwise
    /// that is an error and nothing changes. Gives the mnemonic's phrase and the
    /// private key.
    pub fn add_key_with_generated_mnemonic(
        &mut self,
        name: &str,
        password: &str,
        derivation_path: Option<&str>,
        override_if_exists: bool,
        record_type: RecordType,
    ) -> (r: Result<PrivateKeyOutput, KeyStoreError>)
        requires
            valid_key_name(name@),
        ensures
            !old(self).created() ==> (r matches Err(KeyStoreError::NotInitialized)) && *final(self) == *old(self),
            old(self).created() && old(self).key_map().contains_key(name@) && !override_if_exists ==> (r matches Err(
                KeyStoreError::Exists(n),
            ) && n@ == name@) && *final(self) == *old(self),
            r is Ok ==> old(self).created() && (!old(self).key_map().contains_key(name@) || override_if_exists),
            r is Ok ==> trimmed(r->Ok_0.mnemonic@) == r->Ok_0.mnemonic@,
            r is Ok ==> key_secret(
                r->Ok_0.mnemonic@,
                password@,
                path_or_default(derivation_path),
            ) == Ok::<Seq<u8>, Seq<char>>(r->Ok_0.private_key@),
            r is Ok ==> key_document(
                r->Ok_0.mnemonic@,
                password@,
                path_or_default(derivation_path),
            ) is Ok && final(self).key_map() == old(self).key_map().insert(
                name@,
                key_document(r->Ok_0.mnemonic@, password@, path_or_default(derivation_path))->Ok_0,
            ),
            r is Ok ==> final(self).record_map() == old(self).record_map().insert(name@, Record { record_type }),
    {
        if self.key_exists(name)? && !override_if_exists {
            return Err(KeyStoreError::Exists(String::from_str(name)));
        }
        let phrase = random_mnemonic();
        let path: &str = match derivation_path {
            Some(p) => p,
            None => COSMOS_BASE_DERIVATION_PATH,
        };
        proof {
            reveal_strlit("m/44'/118'/0'/0/0");
            assert(mnemonic_seed(phrase@, password@) is Ok);
        }
        let secret = self.store_key_from_phrase(name, phrase.as_str(), password, path, record_type)?;
        Ok(PrivateKeyOutput { mnemonic: phrase, private_key: secret })
    }

    /// Adds a key under `name` made from the mnemonic `mnemonic` (without
    /// surrounding white space), `password` and `derivation_path` (the Cosmos
    /// path when none is given). A key of that name is replaced only when
    /// `override_if_exists` is set; otherwise that is an error and nothing
    /// changes. A phrase that is no valid mnemonic is an error too.
    pub fn create_or_recover_from_mnemonic(
        &mut self,
        name: &str,
        mnemonic: &str,
        password: &str,
        derivation_path: Option<&str>,
        override_if_exists: bool,
        record_type: RecordType,
    ) -> (r: Result<(), KeyStoreError>)
        requires
            valid_key_name(name@),
        ensures
            !old(self).created() ==> (r matches Err(KeyStoreError::NotInitialized)) && *final(self) == *old(self),
            old(self).created() && old(self).key_map().contains_key(name@) && !override_if_exists ==> (r matches Err(
                KeyStoreError::Exists(n),
            ) && n@ == name@) && *final(self) == *old(self),
            old(self).created() && (!old(self).key_map().contains_key(name@) || override_if_exists) && mnemonic_seed(
                trimmed(mnemonic@),
                password@,
            ) is Err ==> (r matches Err(KeyStoreError::InvalidMnemonic(m)) && m@ == mnemonic_seed(
                trimmed(mnemonic@),
                password@,
            )->Err_0),
            r is Ok ==> old(self).created() && (!old(self).key_map().contains_key(name@) || override_if_exists),
            r is Ok ==> key_document(trimmed(mnemonic@), password@, path_or_default(derivation_path))
                is Ok && final(self).key_map() == old(self).key_map().insert(
                name@,
                key_document(trimmed(mnemonic@), password@, path_or_default(derivation_path))->Ok_0,
            ),
            r is Ok ==> final(self).record_map() == old(self).record_map().insert(name@, Record { record_type }),
    {
        if self.key_exists(name)? && !override_if_exists {
            return Err(KeyStoreError::Exists(String::from_str(name)));
        }
        let phrase = trim(mnemonic);
        let path: &str = match derivation_path {
            Some(p) => p,
            None => COSMOS_BASE_DERIVATION_PATH,
        };
        proof {
            reveal_strlit("m/44'/118'/0'/0/0");
        }
        self.store_key_from_phrase(name, phrase.as_str(), password, path, record_type)?;
        Ok(())
    }

    /// Stores the key document `document` (read from a key file) under
    /// `name` with a record of `record_type`. A key of that name is replaced
    /// only when `override_if_exists` is set; otherwise that is an error and
    /// nothing changes.
    pub fn add_key_document(
        &mut self,
        name: &str,
        document: Vec<u8>,
        override_if_exists: bool,
        record_type: RecordType,
    ) -> (r: Result<(), KeyStoreError>)
        requires
            valid_key_name(name@),
        ensures
            !old(self).created() ==> (r matches Err(KeyStoreError::NotInitialized)) && *final(self) == *old(self),
            old(self).created() && old(self).key_map().contains_key(name@) && !override_if_exists ==> (r matches Err(
                KeyStoreError::Exists(n),
            ) && n@ == name@) && *final(self) == *old(self),
            r is Ok ==> final(self).key_map() == old(self).key_map().insert(name@, document@),
            r is Ok ==> final(self).record_map() == old(self).record_map().insert(name@, Record { record_type }),
    {
        if self.key_exists(name)? && !override_if_exists {
            return Err(KeyStoreError::Exists(String::from_str(name)));
        }
        self.key_store.add_key(name, document)?;
        self.records.insert(String::from_str(name), Record { record_type });
        Ok(())
    }

    /// Deletes the key stored under `name`, and its record; an error when
    /// there is none.
    pub fn delete_key(&mut self, name: &str) -> (r: Result<(), KeyStoreError>)
        requires
            valid_key_name(name@),
        ensures
            old(self).created() && !old(self).key_map().contains_key(name@) ==> (r matches Err(
                KeyStoreError::DoesNotExist(n),
            ) && n@ == name@) && *final(self) == *old(self),
            !old(self).created() ==> (r matches Err(KeyStoreError::NotInitialized)) && *final(self) == *old(self),
            r is Ok ==> old(self).key_map().contains_key(name@) && final(self).key_map() == old(self).key_map().remove(
                name@,
            ),
            r is Ok ==> final(self).record_map() == old(self).record_map().remove(name@),
    {
        if self.key_exists(name)? {
            self.key_store.delete_key(name)?;
            self.records.remove(name);
            Ok(())
        } else {
            Err(KeyStoreError::DoesNotExist(String::from_str(name)))
        }
    }

    /// Moves the key of `current_name`, and its record, to `new_name`. An
    /// error when there is no key of `current_name`, or when there is one of
    /// `new_name` and `override_if_exists` is not set; nothing changes then.
    pub fn rename_key(&mut self, current_name: &str, new_name: &str, override_if_exists: bool) -> (r: Result<
        (),
        KeyStoreError,
    >)
        requires
            valid_key_name(current_name@),
            valid_key_name(new_name@),
            old(self).created() && old(self).key_map().contains_key(current_name@) && (override_if_exists || !old(
                self,
            ).key_map().contains_key(new_name@)) ==> old(self).record_map().contains_key(current_name@),
        ensures
            !old(self).created() ==> (r matches Err(KeyStoreError::NotInitialized)) && *final(self) == *old(self),
            old(self).created() && !old(self).key_map().contains_key(current_name@) ==> (r matches Err(
                KeyStoreError::DoesNotExist(n),
            ) && n@ == current_name@) && *final(self) == *old(self),
            old(self).created() && old(self).key_map().contains_key(current_name@) && old(self).key_map().contains_key(
                new_name@,
            ) && !override_if_exists ==> (r matches Err(KeyStoreError::Exists(n)) && n@ == new_name@) && *final(self)
                == *old(self),
            r is Ok ==> final(self).key_map() == old(self).key_map().insert(
                new_name@,
                old(self).key_map()[current_name@],
            ).remove(current_name@),
            r is Ok ==> final(self).record_map() == old(self).record_map().insert(
                new_name@,
                old(self).record_map()[current_name@],
            ).remove(current_name@),
    {
        if !self.key_exists(current_name)? {
            return Err(KeyStoreError::DoesNotExist(String::from_str(current_name)));
        }
        if self.key_exists(new_name)? && !override_if_exists {
            return Err(KeyStoreError::Exists(String::from_str(new_name)));
        }
        self.key_store.rename_key(current_name, new_name)?;
        let record: Record = match self.records.get(current_name) {
            Some(rec) => *rec,
            None => {
                return Ok(());
            },
        };
        self.records.insert(String::from_str(new_name), record);
        self.records.remove(current_name);
        Ok(())
    }

    /// The account of the key stored under `name`, to sign with; an error
    /// when there is none or when its document does not decode to a key.
    pub fn get_account(&self, name: &str) -> (r: Result<AccountInfo, KeyStoreError>)
        requires
            valid_key_name(name@),
        ensures
            !self.created() ==> r matches Err(KeyStoreError::NotInitialized),
            self.created() && !self.key_map().contains_key(name@) ==> (r matches Err(KeyStoreError::DoesNotExist(n))
                && n@ == name@),
            r is Ok ==> self.key_map().contains_key(name@) && pkcs8_secret(self.key_map()[name@]) == Ok::<
                Seq<u8>,
                Seq<char>,
            >(r->Ok_0.secret()),
    {
        if !self.key_exists(name)? {
            return Err(KeyStoreError::DoesNotExist(String::from_str(name)));
        }
        let document = self.key_store.get_key(name)?;
        account_of_document(&document)
    }

    /// The public key and the account address with `prefix` of the key
    /// stored under `name`; an error when there is none, or when its document
    /// or the address cannot be worked out.
    pub fn get_public_key_and_address(&self, name: &str, prefix: &str) -> (r: Result<PublicKeyOutput, KeyStoreError>)
        requires
            valid_key_name(name@),
        ensures
            !self.created() ==> r matches Err(KeyStoreError::NotInitialized),
            self.created() && !self.key_map().contains_key(name@) ==> (r matches Err(KeyStoreError::DoesNotExist(n))
                && n@ == name@),
            r is Ok ==> self.key_map().contains_key(name@) && r->Ok_0.name@ == name@ && document_public_account(
                self.key_map()[name@],
                prefix@,
            ) == Ok::<(Seq<u8>, Seq<char>), Seq<char>>((r->Ok_0.public_key@, r->Ok_0.account@)),
    {
        if !self.key_exists(name)? {
            return Err(KeyStoreError::DoesNotExist(String::from_str(name)));
        }
        let document = self.key_store.get_key(name)?;
        public_key_output_of_document(name, &document, prefix)
    }
}

/// The account of a stored key document: the private key the PKCS#8
/// document holds, with its public key. An error when the document does not
/// decode or the key gives no public key.
pub fn account_of_document(document: &Vec<u8>) -> (r: Result<AccountInfo, KeyStoreError>)
    ensures
        pkcs8_secret(document@) matches Err(e) ==> (r matches Err(KeyStoreError::UnableToRetrieveKey(m)) && m@ == e),
        pkcs8_secret(document@) matches Ok(s) ==> {
            &&& r is Ok <==> public_key_account(s, "cosmos"@) is Ok
            &&& r is Ok ==> r->Ok_0.secret() == s
            &&& public_key_account(s, "cosmos"@) matches Err(e) ==> (r matches Err(
                KeyStoreError::UnableToRetrieveKey(m),
            ) && m@ == e)
        },
{
    let secret = match decode_pkcs8(document) {
        Ok(s) => s,
        Err(e) => {
            return Err(KeyStoreError::UnableToRetrieveKey(e));
        },
    };
    match AccountInfo::from_private_key(secret) {
        Ok(a) => Ok(a),
        Err(crate::error::AccountError::InvalidPublicKey(m)) => Err(KeyStoreError::UnableToRetrieveKey(m)),
        Err(crate::error::AccountError::Empty(m)) => Err(KeyStoreError::UnableToRetrieveKey(m)),
        Err(crate::error::AccountError::Decode(m)) => Err(KeyStoreError::UnableToRetrieveKey(m)),
    }
}

/// The public key and account address with `prefix` of a stored key
/// document, under `name`. An error when the document does not decode, or
/// when no address can be made with `prefix`.
pub fn public_key_output_of_document(name: &str, document: &Vec<u8>, prefix: &str) -> (r: Result<
    PublicKeyOutput,
    KeyStoreError,
>)
    ensures
        pkcs8_secret(document@) matches Err(e) ==> (r matches Err(KeyStoreError::UnableToRetrieveKey(m)) && m@ == e),
        pkcs8_secret(document@) matches Ok(s) ==> (public_key_account(s, prefix@) matches Err(e) ==> (r matches Err(
            KeyStoreError::DerivingAccountId(m),
        ) && m@ == e)),
        document_public_account(document@, prefix@) matches Ok((p, a)) ==> (r matches Ok(o) && o.name@ == name@
            && o.public_key@ == p && o.account@ == a),
{
    let secret = match decode_pkcs8(document) {
        Ok(s) => s,
        Err(e) => {
            return Err(KeyStoreError::UnableToRetrieveKey(e));
        },
    };
    match derive_public_account(&secret, prefix) {
        Ok((public_key, account)) => Ok(PublicKeyOutput { name: String::from_str(name), public_key, account }),
        Err(e) => Err(KeyStoreError::DerivingAccountId(e)),
    }
}

/// A key recovered from the mnemonic of a generated key, with the same
/// password and derivation path, is the generated key: the keyring stores the
/// same document for both, so both have the same public key and account
/// address.
pub proof fn lemma_recovery_restores_key(
    mnemonic: Seq<char>,
    password: Seq<char>,
    path: Seq<char>,
    generated: Seq<u8>,
    recovered: Seq<u8>,
    prefix: Seq<char>,
)
    requires
        trimmed(mnemonic) == mnemonic,
        key_document(mnemonic, password, path) == Ok::<Seq<u8>, Seq<char>>(generated),
        key_document(trimmed(mnemonic), password, path) == Ok::<Seq<u8>, Seq<char>>(recovered),
    ensures
        recovered == generated,
        document_public_account(recovered, prefix) == document_public_account(generated, prefix),
{
}

} // verus!
