use std::cell::RefCell;
use std::collections::HashMap;

use ocular::error::KeyStoreError;
use ocular::keyring::{
    account_of_document, is_valid_key_name, public_key_output_of_document, table_of_listing, temporary_key_name,
    FileKeyStore, KeyFiles, KeyStore, Keyring, RecordType,
};
use ocular::keys::KeyRingType;
use pkcs8::EncodePrivateKey;

#[derive(Default)]
struct MemoryFiles {
    files: RefCell<HashMap<String, Vec<u8>>>,
    fail_open: bool,
}

impl KeyFiles for MemoryFiles {
    fn open(&mut self, _path: &str) -> Result<Vec<(String, Vec<u8>)>, KeyStoreError> {
        if self.fail_open {
            return Err(KeyStoreError::CouldNotOpenOrCreateKeyStore(String::from("no")));
        }
        Ok(self.files.borrow().iter().map(|(k, v)| (k.clone(), v.clone())).collect())
    }

    fn store(&self, name: &str, document: &Vec<u8>) -> Result<(), KeyStoreError> {
        self.files.borrow_mut().insert(name.to_string(), document.clone());
        Ok(())
    }

    fn delete(&self, name: &str) -> Result<(), KeyStoreError> {
        self.files.borrow_mut().remove(name);
        Ok(())
    }
}

fn keyring() -> Keyring {
    let store = FileKeyStore::new(String::from("/working_test_dir"), Box::new(MemoryFiles::default()));
    Keyring::with_key_store(Box::new(store)).expect("Could not initialize keystore.")
}

#[test]
fn key_store_is_created_on_init() {
    let keyring = keyring();
    assert_eq!(keyring.key_store_created(), true);
}

#[test]
fn unopenable_store_is_an_error() {
    let files = MemoryFiles { files: RefCell::new(HashMap::new()), fail_open: true };
    let store = FileKeyStore::new(String::from("/nowhere"), Box::new(files));
    assert!(!store.key_store_created());
    assert!(matches!(Keyring::with_key_store(Box::new(store)), Err(KeyStoreError::CouldNotOpenOrCreateKeyStore(_))));
}

#[test]
fn opening_loads_existing_keys() {
    let mut first = keyring();
    first.add_key_with_generated_mnemonic("kept", "", None, false, RecordType::Local).unwrap();
    let address = first.get_public_key_and_address("kept", "cosmos").unwrap().account;

    let files = MemoryFiles::default();
    files.files.borrow_mut().insert(String::from("a"), vec![1, 2, 3]);
    let mut store = FileKeyStore::new(String::from("/d"), Box::new(files));
    store.create_key_store().unwrap();
    assert_eq!(store.key_exists("a").unwrap(), true);
    assert_eq!(store.get_key("a").unwrap(), vec![1, 2, 3]);
    assert!(matches!(store.get_key("b"), Err(KeyStoreError::UnableToRetrieveKey(m)) if m == "b"));
    assert!(address.starts_with("cosmos1"));
}

#[test]
fn add_key_respects_override() {
    let mut keyring = keyring();

    // Check add key doesn't result in failure
    assert!(keyring.add_key_with_generated_mnemonic("NewKey", "", None, false, RecordType::Offline).is_ok());

    // Assert attempting to override key results in failure
    match keyring.add_key_with_generated_mnemonic("NewKey", "", None, false, RecordType::Offline) {
        Err(KeyStoreError::Exists(n)) => assert_eq!(n, "NewKey"),
        _ => panic!("an existing key must not be replaced"),
    }

    // Assert attempting to override key with override results in success
    assert!(keyring.add_key_with_generated_mnemonic("NewKey", "", None, true, RecordType::Offline).is_ok());
}

#[test]
fn key_exists_after_add() {
    let mut keyring = keyring();
    assert_eq!(keyring.key_exists("dolphin").unwrap(), false);
    let _new_key = keyring.add_key_with_generated_mnemonic("dolphin", "", None, false, RecordType::Offline);
    assert_eq!(keyring.key_exists("dolphin").unwrap(), true);
}

#[test]
fn delete_key_removes_it() {
    let mut keyring = keyring();
    match keyring.delete_key("harambe") {
        Err(KeyStoreError::DoesNotExist(n)) => assert_eq!(n, "harambe"),
        _ => panic!("deleting a missing key must fail"),
    }
    let _new_key = keyring.add_key_with_generated_mnemonic("harambe", "", None, false, RecordType::Offline);
    assert!(keyring.delete_key("harambe").is_ok());
    assert_eq!(keyring.key_exists("harambe").unwrap(), false);
}

#[test]
fn rename_key_moves_it() {
    let mut keyring = keyring();

    // Attempt to rename key that doesn't exist
    assert!(keyring.rename_key("current_name", "new_name", false).is_err());
    assert!(keyring.rename_key("current_name", "new_name", true).is_err());

    let _key = keyring.add_key_with_generated_mnemonic("penguin", "", None, false, RecordType::Offline);
    let _key = keyring.add_key_with_generated_mnemonic("mouse", "", None, false, RecordType::Offline);

    assert_eq!(keyring.key_exists("penguin").unwrap(), true);
    assert_eq!(keyring.key_exists("mouse").unwrap(), true);
    assert_eq!(keyring.key_exists("capybara").unwrap(), false);

    let mouse = keyring.get_public_key_and_address("mouse", "cosmos").unwrap();

    // Attempt valid rename without override
    assert!(keyring.rename_key("mouse", "capybara", false).is_ok());
    assert_eq!(keyring.key_exists("mouse").unwrap(), false);
    assert_eq!(keyring.key_exists("capybara").unwrap(), true);
    let capybara = keyring.get_public_key_and_address("capybara", "cosmos").unwrap();
    assert_eq!(capybara.account, mouse.account);
    assert_eq!(capybara.name, "capybara");

    // Attempt rename again into existing key without override
    match keyring.rename_key("capybara", "penguin", false) {
        Err(KeyStoreError::Exists(n)) => assert_eq!(n, "penguin"),
        _ => panic!("renaming onto an existing key must fail"),
    }
    assert_eq!(keyring.key_exists("penguin").unwrap(), true);
    assert_eq!(keyring.key_exists("capybara").unwrap(), true);

    // Attempt rename with valid override
    assert!(keyring.rename_key("capybara", "penguin", true).is_ok());
    assert_eq!(keyring.key_exists("capybara").unwrap(), false);
    assert_eq!(keyring.key_exists("penguin").unwrap(), true);
    assert_eq!(keyring.get_public_key_and_address("penguin", "cosmos").unwrap().account, mouse.account);
}

#[test]
fn public_key_and_address_of_a_key() {
    let mut keyring = keyring();
    match keyring.get_public_key_and_address("iguana", "cosmos") {
        Err(KeyStoreError::DoesNotExist(n)) => assert_eq!(n, "iguana"),
        _ => panic!("a missing key has no address"),
    }
    let key = keyring.add_key_with_generated_mnemonic("iguana", "", None, false, RecordType::Offline).unwrap();
    assert_eq!(key.mnemonic.split(' ').count(), 24);
    assert_eq!(key.private_key.len(), 32);
    let result = keyring.get_public_key_and_address("iguana", "cosmos").unwrap();
    assert!(result.account.starts_with("cosmos1"));
    assert_eq!(result.public_key.len(), 33);
    let expected = cosmrs::crypto::secp256k1::SigningKey::from_slice(&key.private_key)
        .unwrap()
        .public_key()
        .account_id("cosmos")
        .unwrap()
        .to_string();
    assert_eq!(result.account, expected);
}

#[test]
fn create_or_recover_from_mnemonic_restores_the_key() {
    let mut keyring = keyring();
    assert!(keyring.get_public_key_and_address("celery", "cosmos").is_err());

    let private_key =
        keyring.add_key_with_generated_mnemonic("celery", "tomato", None, false, RecordType::Offline).unwrap();
    let public_key = keyring.get_public_key_and_address("celery", "cosmos").unwrap();

    assert!(keyring.delete_key("celery").is_ok());
    assert_eq!(keyring.key_exists("celery").unwrap(), false);

    let padded = format!("  {}\n", private_key.mnemonic);
    assert!(keyring
        .create_or_recover_from_mnemonic("new_celery", &padded, "tomato", None, false, RecordType::Offline)
        .is_ok());

    let new_public_key = keyring.get_public_key_and_address("new_celery", "cosmos").unwrap();
    assert_eq!(new_public_key.account, public_key.account);
    assert_eq!(new_public_key.public_key, public_key.public_key);

    // another password gives another key
    assert!(keyring
        .create_or_recover_from_mnemonic("other", &private_key.mnemonic, "potato", None, false, RecordType::Local)
        .is_ok());
    let other = keyring.get_public_key_and_address("other", "cosmos").unwrap();
    assert_ne!(other.account, public_key.account);
}

#[test]
fn known_mnemonic_gives_known_address() {
    // BIP39 test vector phrase; the Cosmos path gives a fixed account.
    let phrase = "abandon abandon abandon abandon abandon abandon abandon abandon abandon abandon abandon abandon abandon abandon abandon abandon abandon abandon abandon abandon abandon abandon abandon art";
    let mut keyring = keyring();
    keyring.create_or_recover_from_mnemonic("vector", phrase, "", None, false, RecordType::Local).unwrap();
    let out = keyring.get_public_key_and_address("vector", "cosmos").unwrap();
    let seed = bip32::Mnemonic::new(phrase, Default::default()).unwrap().to_seed("");
    let path = "m/44'/118'/0'/0/0".parse::<bip32::DerivationPath>().unwrap();
    let expected = cosmrs::crypto::secp256k1::SigningKey::derive_from_path(seed, &path)
        .unwrap()
        .public_key()
        .account_id("cosmos")
        .unwrap()
        .to_string();
    assert_eq!(out.account, expected);
}

#[test]
fn invalid_mnemonic_is_refused() {
    let mut keyring = keyring();
    match keyring.create_or_recover_from_mnemonic("k", "not a mnemonic", "", None, false, RecordType::Local) {
        Err(KeyStoreError::InvalidMnemonic(_)) => {},
        _ => panic!("a bad phrase must be refused"),
    }
    assert_eq!(keyring.key_exists("k").unwrap(), false);
}

#[test]
fn invalid_derivation_path_is_an_error() {
    let mut keyring = keyring();
    assert!(keyring
        .add_key_with_generated_mnemonic("k", "", Some("not/a/path"), false, RecordType::Local)
        .is_err());
    assert_eq!(keyring.key_exists("k").unwrap(), false);
}

#[test]
fn key_names() {
    assert!(is_valid_key_name("Good_name-1"));
    assert!(is_valid_key_name(""));
    assert!(!is_valid_key_name("bad name"));
    assert!(!is_valid_key_name("ключ"));
    assert!(!is_valid_key_name("a/b"));
}

#[test]
fn default_keyring_type_is_file() {
    assert!(matches!(KeyRingType::default(), KeyRingType::File));
}

#[test]
fn keystore_error_messages() {
    assert_eq!(KeyStoreError::Exists(String::from("k")).message(), "key name 'k' already exists.");
    assert_eq!(KeyStoreError::DoesNotExist(String::from("k")).message(), "key name 'k' does not exist.");
    assert_eq!(KeyStoreError::NotInitialized.message(), "key store has not been initialized.");
    assert_eq!(KeyStoreError::InvalidMnemonic(String::from("m")).message(), "invalid mnemonic: m");
}

#[test]
fn temporary_key_names_are_fresh_and_valid() {
    let a = temporary_key_name("grantee");
    let b = temporary_key_name("grantee");
    assert!(a.starts_with("grantee"));
    assert_eq!(a.len(), "grantee".len() + 36);
    assert!(is_valid_key_name(&a));
    assert_ne!(a, b);
}

#[test]
fn key_documents_can_be_added() {
    let mut keyring = keyring();
    assert!(keyring.add_key_with_generated_mnemonic("donor", "", None, false, RecordType::Local).is_ok());
    let mut other = keyring_with_document();
    assert!(other.key_exists("Zeus").unwrap());
    match other.add_key_document("Zeus", vec![1], false, RecordType::Local) {
        Err(KeyStoreError::Exists(n)) => assert_eq!(n, "Zeus"),
        _ => panic!("an existing key must not be replaced"),
    }
    assert!(other.add_key_document("Zeus", vec![1], true, RecordType::Local).is_ok());
}

fn keyring_with_document() -> Keyring {
    let mut k = keyring();
    let account = ocular::account::AccountInfo::new("").unwrap();
    let secret = k256::SecretKey::from_slice(account.private_key()).unwrap();
    let der = pkcs8::EncodePrivateKey::to_pkcs8_der(&secret).unwrap().as_bytes().to_vec();
    k.add_key_document("Zeus", der, false, RecordType::Local).unwrap();
    let out = k.get_public_key_and_address("Zeus", "somm").unwrap();
    assert_eq!(out.account, account.address("somm").unwrap());
    k
}

#[test]
fn accounts_of_stored_keys() {
    let mut keyring = keyring();
    let key = keyring.add_key_with_generated_mnemonic("signer", "pw", None, false, RecordType::Local).unwrap();
    let account = keyring.get_account("signer").unwrap();
    assert_eq!(account.private_key(), &key.private_key);
    assert_eq!(
        account.address("cosmos").unwrap(),
        keyring.get_public_key_and_address("signer", "cosmos").unwrap().account
    );
    assert!(matches!(keyring.get_account("nobody"), Err(KeyStoreError::DoesNotExist(_))));
}

#[test]
fn listing_table_keeps_the_last_entry_of_a_name() {
    let t = table_of_listing(vec![
        (String::from("a"), vec![1]),
        (String::from("b"), vec![2]),
        (String::from("a"), vec![3]),
    ]);
    assert_eq!(t.len(), 2);
    assert_eq!(t.get("a"), Some(&vec![3]));
    assert_eq!(t.get("b"), Some(&vec![2]));
}

#[test]
fn documents_give_accounts_and_addresses() {
    let mut k = keyring();
    k.add_key_with_generated_mnemonic("doc", "", None, false, RecordType::Local).unwrap();
    let account = k.get_account("doc").unwrap();
    let out = k.get_public_key_and_address("doc", "cosmos").unwrap();
    let secret = account.private_key().clone();
    let document = k256::SecretKey::from_slice(&secret).unwrap().to_pkcs8_der().unwrap().as_bytes().to_vec();
    let again = account_of_document(&document).unwrap();
    assert_eq!(again.private_key(), account.private_key());
    let output = public_key_output_of_document("doc", &document, "cosmos").unwrap();
    assert_eq!(output.account, out.account);
    assert_eq!(output.public_key, out.public_key);
    assert!(matches!(account_of_document(&vec![1, 2, 3]), Err(KeyStoreError::UnableToRetrieveKey(_))));
    assert!(matches!(public_key_output_of_document("doc", &vec![1, 2, 3], "cosmos"), Err(KeyStoreError::UnableToRetrieveKey(_))));
    assert!(matches!(public_key_output_of_document("doc", &document, "Not A Prefix"), Err(KeyStoreError::DerivingAccountId(_))));
}
