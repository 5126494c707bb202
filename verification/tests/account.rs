use ocular::account::AccountInfo;
use ocular::error::AccountError;

#[test]
fn new_accounts_have_addresses() {
    let a = AccountInfo::new("password").unwrap();
    let b = AccountInfo::new("password").unwrap();
    assert_eq!(a.private_key().len(), 32);
    assert_eq!(a.public_key().len(), 33);
    let addr = a.address("cosmos").unwrap();
    assert!(addr.starts_with("cosmos1"));
    assert_ne!(addr, b.address("cosmos").unwrap());
    let expected = cosmrs::crypto::secp256k1::SigningKey::from_slice(a.private_key())
        .unwrap()
        .public_key()
        .account_id("somm")
        .unwrap()
        .to_string();
    assert_eq!(a.address("somm").unwrap(), expected);
    assert_eq!(a.id("somm").unwrap(), expected);
}

#[test]
fn account_from_private_key() {
    let a = AccountInfo::new("").unwrap();
    let b = AccountInfo::from_private_key(a.private_key().clone()).unwrap();
    assert_eq!(a.public_key(), b.public_key());
    assert!(matches!(AccountInfo::from_private_key(vec![0u8; 32]), Err(AccountError::InvalidPublicKey(_))));
    assert!(matches!(a.address("Not A Prefix"), Err(AccountError::Decode(_))));
}
