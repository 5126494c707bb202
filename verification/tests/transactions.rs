use ocular::chain::client::authz::Timestamp;
use ocular::chain::client::tx::{
    basic_tx_metadata, check_multi_send_ios, check_recipient, grant_expiration, tx_log_dir, tx_log_file,
};
use ocular::error::TxError;
use ocular::tx::{Coin, MultiSendIo};

fn account(prefix: &str) -> String {
    cosmrs::crypto::secp256k1::SigningKey::random().public_key().account_id(prefix).unwrap().to_string()
}

#[test]
fn basic_metadata_defaults() {
    let m = basic_tx_metadata(100, Coin { amount: 5000, denom: String::from("usomm") });
    assert_eq!(m.fee.amount, 5000);
    assert_eq!(m.fee.denom, "usomm");
    assert!(m.fee_payer.is_none());
    assert!(m.fee_granter.is_none());
    assert_eq!(m.gas_limit, 200000);
    assert_eq!(m.timeout_height, 130);
    assert_eq!(m.memo, "");
}

#[test]
fn basic_metadata_timeout_is_cut_to_32_bits() {
    let m = basic_tx_metadata(u32::MAX as u64, Coin { amount: 1, denom: String::from("u") });
    assert_eq!(m.timeout_height, 29);
}

#[test]
fn recipient_must_parse_and_carry_prefix() {
    let addr = account("cosmos");
    assert_eq!(check_recipient(&addr, "cosmos").unwrap(), addr);

    match check_recipient(&addr, "somm") {
        Err(TxError::Address(m)) => assert_eq!(m, "invalid address prefix. expected somm, got cosmos"),
        _ => panic!("a foreign prefix must be refused"),
    }
    match check_recipient("not-an-address", "cosmos") {
        Err(TxError::Address(m)) => assert!(m.starts_with("failed to get AccountId from string not-an-address: ")),
        _ => panic!("garbage must be refused"),
    }
}

#[test]
fn tx_log_paths() {
    assert_eq!(tx_log_dir("/home/me"), "/home/me/.ocular/logs/txs");
    assert_eq!(tx_log_file("/home/me", 1700000000, 42), "/home/me/.ocular/logs/txs/170000000042.txt");
    assert_eq!(tx_log_file("", 0, 0), "/.ocular/logs/txs/00.txt");
}

#[test]
fn multi_send_ios_report_the_first_failure() {
    let ok = MultiSendIo { address: account("cosmos"), coins: vec![Coin { amount: 1, denom: "uatom".to_string() }] };
    let ok2 = MultiSendIo { address: account("cosmos"), coins: vec![] };
    assert!(check_multi_send_ios(&vec![ok, ok2]).is_ok());
    assert!(check_multi_send_ios(&vec![]).is_ok());

    let bad_denom = MultiSendIo { address: account("cosmos"), coins: vec![Coin { amount: 1, denom: "x".to_string() }] };
    let bad_addr = MultiSendIo { address: "nope".to_string(), coins: vec![] };
    let first = bad_denom.to_chain_io().unwrap_err();
    let got = check_multi_send_ios(&vec![bad_denom, bad_addr]).unwrap_err();
    assert_eq!(got.message(), first.message());
}

#[test]
fn grant_expiration_defaults_to_a_day() {
    let now = Timestamp { seconds: 1_000, nanos: 7 };
    let t = grant_expiration(None, now);
    assert_eq!(t.seconds, 1_000 + 86_400);
    assert_eq!(t.nanos, 7);
    let given = grant_expiration(Some(Timestamp { seconds: 5, nanos: 0 }), Timestamp { seconds: 1, nanos: 0 });
    assert_eq!(given.seconds, 5);
}
