use cosmos_sdk_proto::cosmos::bank::v1beta1 as bank;
use cosmos_sdk_proto::prost::Message;
use cosmrs::tx::Msg;
use ocular::account::AccountInfo;
use ocular::chain::client::automated_tx_handler::SendPlan;
use ocular::chain::client::bank::{multi_send_msg, send_msg, send_plan_msgs};
use ocular::error::TxError;
use ocular::tx::{Coin, MultiSendIo};
use ocular::tx_handler::TransactionHandler;

fn account(prefix: &str) -> String {
    cosmrs::crypto::secp256k1::SigningKey::random().public_key().account_id(prefix).unwrap().to_string()
}

fn coin(amount: u64, denom: &str) -> Coin {
    Coin { amount, denom: denom.to_string() }
}

#[test]
fn send_msg_encodes_a_bank_send() {
    let (from, to) = (account("cosmos"), account("cosmos"));
    let msg = send_msg(&from, &to, "cosmos", &coin(250, "uatom")).unwrap();
    assert_eq!(msg.type_url, "/cosmos.bank.v1beta1.MsgSend");
    let decoded = bank::MsgSend::decode(msg.value.as_slice()).unwrap();
    assert_eq!(decoded.from_address, from);
    assert_eq!(decoded.to_address, to);
    assert_eq!(decoded.amount.len(), 1);
    assert_eq!(decoded.amount[0].denom, "uatom");
    assert_eq!(decoded.amount[0].amount, "250");
    let expected = cosmrs::bank::MsgSend {
        from_address: from.parse().unwrap(),
        to_address: to.parse().unwrap(),
        amount: vec![cosmrs::Coin { denom: "uatom".parse().unwrap(), amount: 250 }],
    };
    assert_eq!(expected.to_any().unwrap().value, msg.value);
}

#[test]
fn send_msg_checks_recipient_then_denom() {
    let from = account("cosmos");
    assert!(matches!(send_msg(&from, "nonsense", "cosmos", &coin(1, "uatom")), Err(TxError::Address(_))));
    assert!(matches!(send_msg(&from, &account("somm"), "cosmos", &coin(1, "uatom")), Err(TxError::Address(_))));
    assert!(matches!(send_msg(&from, &account("cosmos"), "cosmos", &coin(1, "x")), Err(TxError::FeeParsing(_))));
}

#[test]
fn multi_send_msg_encodes_inputs_and_outputs() {
    let (a, b) = (account("cosmos"), account("cosmos"));
    let inputs = vec![MultiSendIo { address: a.clone(), coins: vec![coin(3, "uatom")] }];
    let outputs = vec![MultiSendIo { address: b.clone(), coins: vec![coin(3, "uatom")] }];
    let msg = multi_send_msg(&inputs, &outputs).unwrap();
    assert_eq!(msg.type_url, "/cosmos.bank.v1beta1.MsgMultiSend");
    let decoded = bank::MsgMultiSend::decode(msg.value.as_slice()).unwrap();
    assert_eq!(decoded.inputs[0].address, a);
    assert_eq!(decoded.outputs[0].address, b);
    assert_eq!(decoded.outputs[0].coins[0].amount, "3");
    let bad = vec![MultiSendIo { address: "nonsense".to_string(), coins: vec![] }];
    assert!(matches!(multi_send_msg(&inputs, &bad), Err(TxError::FeeParsing(_))));
    assert!(matches!(multi_send_msg(&bad, &outputs), Err(TxError::FeeParsing(_))));
}

#[test]
fn send_plans_become_messages_in_order() {
    let plans = vec![
        SendPlan { from_address: String::from("g"), to_address: String::from("x"), amount: coin(1, "usomm") },
        SendPlan { from_address: String::from("g"), to_address: String::from("y"), amount: coin(2, "usomm") },
    ];
    let msgs = send_plan_msgs(&plans);
    assert_eq!(msgs.len(), 2);
    let second = bank::MsgSend::decode(msgs[1].value.as_slice()).unwrap();
    assert_eq!(second.to_address, "y");
    assert_eq!(second.amount[0].amount, "2");
}

#[test]
fn create_and_sign_send_message() {
    let sender = AccountInfo::new("").unwrap();
    let from = sender.address("cosmos").unwrap();
    let to = account("cosmos");
    let signed = TransactionHandler::create_and_sign_send_message(
        &from, &sender, &to, &coin(1_000_000, "uatom"), "cosmoshub-4", 1, 0, 100_000, 9001, "Some memo",
    )
    .expect("Could not create tx");
    let tx = cosmrs::Tx::from_bytes(&signed).unwrap();
    assert_eq!(tx.body.memo, "Some memo");
    assert_eq!(tx.body.messages[0].type_url, "/cosmos.bank.v1beta1.MsgSend");
    assert_eq!(tx.auth_info.fee.gas_limit, 100000);
    assert_eq!(tx.auth_info.fee.amount[0].amount, 1000000);
}
