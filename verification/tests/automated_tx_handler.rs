use cosmos_sdk_proto::prost::Message;
use ocular::chain::client::authz::{Grant, ProtoAny, Timestamp};
use ocular::chain::client::automated_tx_handler::{
    check_delegated_grants, delegated_fee, missing_send_grant_error, parse_granter_account, plan_batch_send,
    plan_delegated_sends, transactions_total, try_plan_batch_send, try_transactions_total, try_plan_delegated_sends, BatchTransaction,
    DelegateTransaction, DelegatedSender, DelegatedToml,
};
use ocular::error::AirdropError;

fn account() -> String {
    cosmrs::crypto::secp256k1::SigningKey::random().public_key().account_id("somm").unwrap().to_string()
}

fn generic(msg: &str) -> Vec<u8> {
    cosmos_sdk_proto::cosmos::authz::v1beta1::GenericAuthorization { msg: msg.to_string() }.encode_to_vec()
}

fn send_limit(coins: &[(&str, &str)]) -> Vec<u8> {
    cosmos_sdk_proto::cosmos::bank::v1beta1::SendAuthorization {
        spend_limit: coins
            .iter()
            .map(|(d, a)| cosmos_sdk_proto::cosmos::base::v1beta1::Coin { denom: d.to_string(), amount: a.to_string() })
            .collect(),
        allow_list: vec![],
    }
    .encode_to_vec()
}

fn grant(type_url: &str, value: Vec<u8>, expires: Option<i64>) -> Grant {
    Grant {
        authorization: Some(ProtoAny { type_url: type_url.to_string(), value }),
        expiration: expires.map(|s| Timestamp { seconds: s, nanos: 0 }),
    }
}

fn toml(granter: &str, txs: Vec<(&str, String, u64)>) -> DelegatedToml {
    DelegatedToml {
        sender: DelegatedSender {
            grantee_private_key_path: String::from("/test_dir/Zeus.pem"),
            granter_account: granter.to_string(),
            denom: String::from("usomm"),
            gas_fee: 50000,
            gas_limit: 100000,
            timeout_height: 9001,
            memo: String::from("Delegation memo"),
        },
        transaction: txs
            .into_iter()
            .map(|(n, a, amt)| DelegateTransaction { name: n.to_string(), destination_account: a, amount: amt })
            .collect(),
    }
}

#[test]
fn delegated_sends_are_planned_in_order() {
    let granter = account();
    let (d1, d2) = (account(), account());
    let t = toml(&granter, vec![("Dionysus", d1.clone(), 50), ("Silenus", d2.clone(), 35)]);
    assert_eq!(transactions_total(&t.transaction), 85);
    assert_eq!(try_transactions_total(&t.transaction), Some(85));
    let huge = toml(&granter, vec![("A", d1.clone(), u64::MAX), ("B", d2.clone(), 1)]);
    assert_eq!(try_transactions_total(&huge.transaction), None);
    assert_eq!(parse_granter_account(&t).unwrap(), granter);
    let plans = plan_delegated_sends(&granter, &t).unwrap();
    let got: Vec<(String, String, u64, String)> = plans
        .iter()
        .map(|p| (p.from_address.clone(), p.to_address.clone(), p.amount.amount, p.amount.denom.clone()))
        .collect();
    assert_eq!(
        got,
        vec![
            (granter.clone(), d1, 50, String::from("usomm")),
            (granter.clone(), d2, 35, String::from("usomm"))
        ]
    );
    let fee = delegated_fee(&t);
    assert_eq!((fee.amount, fee.denom.as_str()), (50000, "usomm"));
    assert!(try_plan_delegated_sends(&granter, &t).unwrap().is_ok());
}

#[test]
fn a_bad_destination_stops_the_plan() {
    let granter = account();
    let t = toml(&granter, vec![("Dionysus", account(), 50), ("Bad", String::from("nonsense"), 1)]);
    assert!(matches!(plan_delegated_sends(&granter, &t), Err(AirdropError::KeyHandling(_))));
    let bad_granter = toml("nonsense", vec![]);
    assert!(matches!(parse_granter_account(&bad_granter), Err(AirdropError::KeyHandling(_))));
}

#[test]
fn delegated_grants_are_checked() {
    let now: u64 = 1_000;
    let later = Some(10_000i64);
    let msg_send = "/cosmos.bank.v1beta1.MsgSend";
    let generic_url = "/cosmos.authz.v1beta1.GenericAuthorization";
    let send_url = "/cosmos.bank.v1beta1.SendAuthorization";

    assert_eq!(check_delegated_grants(&vec![grant(generic_url, generic(msg_send), later)], "usomm", 85, now), Some(true));
    assert_eq!(check_delegated_grants(&vec![grant(generic_url, generic("/other"), later)], "usomm", 85, now), Some(false));
    assert_eq!(
        check_delegated_grants(&vec![grant(send_url, send_limit(&[("usomm", "100")]), later)], "usomm", 85, now),
        Some(true)
    );
    assert_eq!(
        check_delegated_grants(&vec![grant(send_url, send_limit(&[("usomm", "50"), ("uatom", "500")]), later)], "usomm", 85, now),
        Some(false)
    );
    assert_eq!(
        check_delegated_grants(&vec![grant(generic_url, generic(msg_send), Some(1_030))], "usomm", 85, now),
        Some(false)
    );
    assert_eq!(check_delegated_grants(&vec![grant(generic_url, vec![0xff, 0xff], later)], "usomm", 85, now), None);
    assert!(matches!(missing_send_grant_error(), AirdropError::Authorization(m) if m == msg_send));
}

#[test]
fn batch_sends_carry_their_own_fees() {
    let to = account();
    let tx = BatchTransaction {
        name: String::from("Dionysus"),
        destination_account: to.clone(),
        amount: 50,
        denom: String::from("usomm"),
        gas_limit: 100000,
        gas_fee: 500,
        timeout_height: 9001,
        memo: String::from("Don't spend it all in one place."),
    };
    let plan = plan_batch_send(&tx).unwrap();
    assert_eq!(plan.to_address, to);
    assert_eq!((plan.amount.amount, plan.fee.amount, plan.gas_limit, plan.timeout_height), (50, 500, 100000, 9001));
    assert_eq!(plan.memo, "Don't spend it all in one place.");
    assert!(try_plan_batch_send(&tx).unwrap().is_ok());

    let bad = BatchTransaction { destination_account: String::from("nope"), ..tx };
    assert!(matches!(plan_batch_send(&bad), Err(AirdropError::KeyHandling(_))));
}
