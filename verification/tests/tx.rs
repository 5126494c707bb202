use ocular::error::TxError;
use ocular::text::IntErrorKind;
use ocular::tx::bank::Bank;
use ocular::tx::{denom_is_valid, int_error_message_text, Coin, MultiSendIo, ProtoCoin};

fn account(prefix: &str) -> String {
    cosmrs::crypto::secp256k1::SigningKey::random().public_key().account_id(prefix).unwrap().to_string()
}

#[test]
fn converts_coin() {
    let coin = Coin { amount: 100, denom: "utest".to_string() };

    coin.to_chain_coin().unwrap();
    Coin::to_chain_coin(&coin).unwrap();
}

#[test]
fn coin_to_proto_and_back() {
    let coin = Coin { amount: 1234567890123, denom: "uatom".to_string() };
    let p = coin.to_proto();
    assert_eq!(p.amount, "1234567890123");
    assert_eq!(p.denom, "uatom");
    let back = Coin::try_from_proto(&p).unwrap();
    assert_eq!(back.amount, 1234567890123);
    assert_eq!(back.denom, "uatom");

    let zero = Coin { amount: 0, denom: "u".to_string() }.to_proto();
    assert_eq!(zero.amount, "0");
    let max = Coin { amount: u64::MAX, denom: "u".to_string() }.to_proto();
    assert_eq!(max.amount, "18446744073709551615");
}

#[test]
fn proto_amounts_read_like_u64_from_str() {
    let read = |s: &str| Coin::try_from_proto(&ProtoCoin { amount: s.to_string(), denom: "uatom".to_string() });
    assert_eq!(read("+42").unwrap().amount, 42);
    match read("") {
        Err(TxError::FeeParsing(m)) => assert_eq!(m, "cannot parse integer from empty string"),
        _ => panic!("empty amount must fail"),
    }
    match read("12a") {
        Err(TxError::FeeParsing(m)) => assert_eq!(m, "invalid digit found in string"),
        _ => panic!("bad digit must fail"),
    }
    match read("18446744073709551616") {
        Err(TxError::FeeParsing(m)) => assert_eq!(m, "number too large to fit in target type"),
        _ => panic!("overflow must fail"),
    }
    for s in ["", "+", "-1", "007", "18446744073709551615", "99999999999999999999", " 1"] {
        let ours = read(s).map(|c| c.amount).map_err(|_| ());
        let std = s.parse::<u64>().map_err(|_| ());
        assert_eq!(ours, std, "amount {:?}", s);
    }
    assert_eq!(int_error_message_text(IntErrorKind::Empty), "".parse::<u64>().unwrap_err().to_string());
}

#[test]
fn invalid_denominations_are_refused() {
    assert!(denom_is_valid("uatom"));
    assert!(denom_is_valid("ibc/27394FB092D2ECCD56123C74F36E4C1F926001CEADA9CA97EA622B25F41E5EB2"));
    assert!(!denom_is_valid("ab"));
    assert!(!denom_is_valid("u atom"));
    let coin = Coin { amount: 1, denom: "u$".to_string() };
    assert!(matches!(coin.to_chain_coin(), Err(TxError::FeeParsing(_))));
}

#[test]
fn multi_send_io_checks_address_then_coins() {
    let good = MultiSendIo { address: account("cosmos"), coins: vec![Coin { amount: 1, denom: "uatom".to_string() }] };
    let back = good.to_chain_io().unwrap();
    assert_eq!(back.address, good.address);
    assert_eq!(back.coins.len(), 1);

    let bad_address = MultiSendIo { address: "nonsense".to_string(), coins: vec![] };
    assert!(matches!(bad_address.to_chain_io(), Err(TxError::FeeParsing(_))));

    let bad_coin = MultiSendIo {
        address: account("cosmos"),
        coins: vec![Coin { amount: 1, denom: "uatom".to_string() }, Coin { amount: 1, denom: "x".to_string() }],
    };
    assert!(matches!(bad_coin.to_chain_io(), Err(TxError::FeeParsing(_))));
}

#[test]
fn bank_send_checks_denom_then_addresses() {
    let from = account("cosmos");
    let to = account("cosmos");
    let parts = Bank::Send { from: &from, to: &to, amount: 5, denom: "uatom" }.try_into_msg_send().unwrap();
    assert_eq!(parts.from_address, from);
    assert_eq!(parts.to_address, to);
    assert_eq!(parts.amount.amount, 5);
    assert_eq!(parts.amount.denom, "uatom");

    assert!(Bank::Send { from: &from, to: &to, amount: 5, denom: "u" }.try_into_msg_send().is_err());
    assert!(Bank::Send { from: "bad", to: &to, amount: 5, denom: "uatom" }.try_into_msg_send().is_err());
    assert!(Bank::Send { from: &from, to: "bad", amount: 5, denom: "uatom" }.try_into_msg_send().is_err());
}

#[test]
fn tx_error_messages() {
    assert_eq!(TxError::Address(String::from("a")).message(), "address error: a");
    assert_eq!(TxError::FeeParsing(String::from("b")).message(), "parsing error: b");
    assert_eq!(TxError::Serialization(String::from("c")).message(), "serialization error: c");
    assert_eq!(TxError::TypeConversion(String::from("d")).message(), "error converting types: d");
    assert_eq!(TxError::Signing(String::from("e")).message(), "error signing message: e");
    assert_eq!(TxError::Broadcast(String::from("f")).message(), "error broadcasting message: f");
    assert_eq!(TxError::Logging(String::from("g")).message(), "error logging response: g");
}
