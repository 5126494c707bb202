use ocular::chain::client::airdrop::{
    delegated_grantee_name, denom_total_checked, multi_send_args_from_payments, payment_totals_fit,
    try_multi_send_args_from_payments, verify_multi_send_grant,
};
use ocular::chain::client::authz::{Grant, ProtoAny, Timestamp};
use ocular::error::AirdropError;
use ocular::tx::{Payment, PaymentsToml};

fn pay(to: &str, amount: u64, denom: &str) -> Payment {
    Payment { recipient: to.to_string(), amount, denom: denom.to_string() }
}

fn grant(type_url: &str, expires: Option<i64>) -> Grant {
    Grant {
        authorization: Some(ProtoAny { type_url: type_url.to_string(), value: vec![] }),
        expiration: expires.map(|s| Timestamp { seconds: s, nanos: 0 }),
    }
}

#[test]
fn multi_send_args_single_input_totals_per_denom() {
    let payments = vec![pay("a", 10, "uatom"), pay("b", 5, "usomm"), pay("c", 7, "uatom")];
    let (inputs, outputs) = multi_send_args_from_payments("sender", payments);
    assert_eq!(inputs.len(), 1);
    assert_eq!(inputs[0].address, "sender");
    let coins: Vec<(u64, String)> = inputs[0].coins.iter().map(|c| (c.amount, c.denom.clone())).collect();
    assert_eq!(coins, vec![(17, String::from("uatom")), (5, String::from("usomm"))]);
    assert_eq!(outputs.len(), 3);
    let outs: Vec<(String, u64, String)> =
        outputs.iter().map(|o| (o.address.clone(), o.coins[0].amount, o.coins[0].denom.clone())).collect();
    assert_eq!(
        outs,
        vec![
            (String::from("a"), 10, String::from("uatom")),
            (String::from("b"), 5, String::from("usomm")),
            (String::from("c"), 7, String::from("uatom"))
        ]
    );
}

#[test]
fn multi_send_args_conserve_value() {
    let payments = vec![pay("a", 1, "x"), pay("b", 2, "y"), pay("c", 3, "x"), pay("d", 4, "z"), pay("e", 5, "y")];
    let (inputs, outputs) = multi_send_args_from_payments("s", payments);
    for d in ["x", "y", "z", "w"] {
        let inp: u64 = inputs.iter().flat_map(|i| i.coins.iter()).filter(|c| c.denom == d).map(|c| c.amount).sum();
        let out: u64 = outputs.iter().flat_map(|o| o.coins.iter()).filter(|c| c.denom == d).map(|c| c.amount).sum();
        assert_eq!(inp, out, "denom {}", d);
    }
}

#[test]
fn multi_send_args_of_no_payments() {
    let (inputs, outputs) = multi_send_args_from_payments("s", vec![]);
    assert_eq!(inputs.len(), 1);
    assert!(inputs[0].coins.is_empty());
    assert!(outputs.is_empty());
}

#[test]
fn multi_send_grant_needs_generic_authorization_beyond_a_minute() {
    let now: u64 = 1_000_000;
    let generic = "/cosmos.authz.v1beta1.GenericAuthorization";
    assert!(verify_multi_send_grant(&vec![grant(generic, Some(1_000_061))], now, "granter", "grantee").is_ok());
    assert!(verify_multi_send_grant(&vec![grant(generic, None)], now, "granter", "grantee").is_ok());
    let expired = vec![grant(generic, Some(1_000_060)), grant("/other", None), grant("/other", Some(2_000_000))];
    match verify_multi_send_grant(&expired, now, "granter", "grantee") {
        Err(m) => assert_eq!(m, "no relevant grant exists for grantee on behalf of granter"),
        Ok(()) => panic!("no grant applies"),
    }
    assert!(verify_multi_send_grant(&vec![], now, "a", "b").is_err());
}

#[test]
fn delegated_airdrop_needs_a_grantee_name() {
    let mut toml = PaymentsToml {
        sender_key_name: String::from("sender"),
        grantee_key_name: Some(String::from("grantee")),
        fee_granter: None,
        fee_payer: None,
        payments: vec![],
    };
    assert_eq!(delegated_grantee_name(&toml).unwrap(), "grantee");
    toml.grantee_key_name = None;
    match delegated_grantee_name(&toml) {
        Err(AirdropError::Toml(m)) => assert_eq!(m, "no grantee key name was provided for the delegated airdrop."),
        _ => panic!("a missing grantee must be an error"),
    }
}

#[test]
fn airdrop_error_messages() {
    assert_eq!(AirdropError::ChainClient(String::from("transport error")).message(), "chain client error: transport error");
    assert_eq!(
        AirdropError::Authorization(String::from("/cosmos.bank.v1beta1.MsgSend")).message(),
        "no valid unexpired authorization grants found for msg type: /cosmos.bank.v1beta1.MsgSend"
    );
    assert_eq!(AirdropError::KeyHandling(String::from("k")).message(), "error handling key: k");
}

#[test]
fn totals_checked_per_denom() {
    let payments = vec![pay("a", u64::MAX - 1, "x"), pay("b", 1, "x"), pay("c", 2, "y")];
    assert_eq!(denom_total_checked(&payments, "x"), Some(u64::MAX));
    assert_eq!(denom_total_checked(&payments, "y"), Some(2));
    assert_eq!(denom_total_checked(&payments, "z"), Some(0));
    assert!(payment_totals_fit(&payments));
    let over = vec![pay("a", u64::MAX, "x"), pay("b", 3, "y"), pay("c", 1, "x")];
    assert_eq!(denom_total_checked(&over, "x"), None);
    assert!(!payment_totals_fit(&over));
    assert!(try_multi_send_args_from_payments("s", over).is_none());
    let (inputs, outputs) = try_multi_send_args_from_payments("s", payments).unwrap();
    assert_eq!(inputs[0].coins[0].amount, u64::MAX);
    assert_eq!(outputs.len(), 3);
}
