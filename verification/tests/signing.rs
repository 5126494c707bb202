use ocular::account::AccountInfo;
use ocular::chain::client::authz::ProtoAny;
use ocular::chain::client::signing::{build_signed_tx, tx_body_bytes};
use ocular::error::TxError;
use ocular::tx::{Coin, TxMetadata};

fn meta(denom: &str) -> TxMetadata {
    TxMetadata {
        fee: Coin { amount: 5000, denom: denom.to_string() },
        fee_payer: None,
        fee_granter: None,
        gas_limit: 200000,
        timeout_height: 42,
        memo: String::from("memo"),
    }
}

#[test]
fn signed_tx_carries_body_fee_and_a_valid_signature() {
    let account = AccountInfo::new("").unwrap();
    let msgs = vec![ProtoAny { type_url: String::from("/cosmos.bank.v1beta1.MsgSend"), value: vec![1, 2, 3] }];
    let body = tx_body_bytes(&msgs, "memo", 42).unwrap();
    let signed = build_signed_tx(&body, &account, 7, 3, "cosmoshub-4", &meta("uatom")).unwrap();
    let tx = cosmrs::Tx::from_bytes(&signed).unwrap();
    assert_eq!(tx.body.memo, "memo");
    assert_eq!(u64::from(tx.body.timeout_height), 42);
    assert_eq!(tx.body.messages[0].type_url, "/cosmos.bank.v1beta1.MsgSend");
    assert_eq!(tx.auth_info.fee.gas_limit, 200000);
    assert_eq!(tx.auth_info.fee.amount[0].amount, 5000);
    assert_eq!(tx.auth_info.fee.amount[0].denom.to_string(), "uatom");
    assert_eq!(tx.auth_info.signer_infos[0].sequence, 3);
    assert_eq!(tx.signatures.len(), 1);

    let key = cosmrs::crypto::secp256k1::SigningKey::from_slice(account.private_key()).unwrap();
    let raw = cosmrs::tx::Raw::from_bytes(&signed).unwrap();
    let doc = cosmrs::tx::SignDoc {
        body_bytes: body.clone(),
        auth_info_bytes: tx.auth_info.clone().into_bytes().unwrap(),
        chain_id: String::from("cosmoshub-4"),
        account_number: 7,
    };
    let expected = doc.sign(&key).unwrap().to_bytes().unwrap();
    assert_eq!(raw.to_bytes().unwrap(), expected);
}

#[test]
fn signing_errors_in_order() {
    let account = AccountInfo::new("").unwrap();
    let body = tx_body_bytes(&vec![], "", 0).unwrap();
    assert!(matches!(build_signed_tx(&body, &account, 0, 0, "cosmoshub-4", &meta("u")), Err(TxError::FeeParsing(_))));
    assert!(matches!(build_signed_tx(&body, &account, 0, 0, "bad chain id", &meta("uatom")), Err(TxError::TypeConversion(_))));
    let mut payer = meta("uatom");
    payer.fee_payer = Some(String::from("not an address"));
    assert!(matches!(build_signed_tx(&body, &account, 0, 0, "cosmoshub-4", &payer), Err(TxError::TypeConversion(_))));
}
