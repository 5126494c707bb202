use cosmos_sdk_proto::cosmos::authz::v1beta1 as authz;
use cosmos_sdk_proto::cosmos::feegrant::v1beta1 as feegrant;
use cosmos_sdk_proto::prost::Message;
use ocular::chain::client::airdrop::verify_multi_send_grant;
use ocular::chain::client::automated_tx_handler::check_delegated_grants;
use ocular::chain::client::authz::{
    basic_allowance_fee_grant_msg, execute_authorized_msg, generic_authorization_grant,
    generic_authorization_grant_msg, revoke_send_authorization_msg, ProtoAny, Timestamp,
};
use ocular::tx::ProtoCoin;

#[test]
fn grant_msg_encodes_generic_authorization() {
    let expiration = Timestamp { seconds: 1_700_000_000, nanos: 5 };
    let msg = generic_authorization_grant_msg("granter", "grantee", "/cosmos.bank.v1beta1.MsgSend", expiration);
    assert_eq!(msg.type_url, "/cosmos.authz.v1beta1.MsgGrant");
    let decoded = authz::MsgGrant::decode(msg.value.as_slice()).unwrap();
    assert_eq!(decoded.granter, "granter");
    assert_eq!(decoded.grantee, "grantee");
    let grant = decoded.grant.unwrap();
    let authorization = grant.authorization.unwrap();
    assert_eq!(authorization.type_url, "/cosmos.authz.v1beta1.GenericAuthorization");
    let generic = authz::GenericAuthorization::decode(authorization.value.as_slice()).unwrap();
    assert_eq!(generic.msg, "/cosmos.bank.v1beta1.MsgSend");
    let expiration = grant.expiration.unwrap();
    assert_eq!(expiration.seconds, 1_700_000_000);
    assert_eq!(expiration.nanos, 5);
}

#[test]
fn own_grant_passes_multi_send_check() {
    let grant = generic_authorization_grant(
        "/cosmos.bank.v1beta1.MsgMultiSend",
        Timestamp { seconds: 1000, nanos: 0 },
    );
    assert!(verify_multi_send_grant(&vec![grant], 900, "a", "b").is_ok());
    let late = generic_authorization_grant(
        "/cosmos.bank.v1beta1.MsgMultiSend",
        Timestamp { seconds: 1000, nanos: 0 },
    );
    assert_eq!(
        verify_multi_send_grant(&vec![late], 940, "a", "b"),
        Err(String::from("no relevant grant exists for b on behalf of a"))
    );
}

#[test]
fn revoke_msg_names_msg_send() {
    let msg = revoke_send_authorization_msg("granter", "grantee");
    assert_eq!(msg.type_url, "/cosmos.authz.v1beta1.MsgRevoke");
    let decoded = authz::MsgRevoke::decode(msg.value.as_slice()).unwrap();
    assert_eq!(decoded.granter, "granter");
    assert_eq!(decoded.grantee, "grantee");
    assert_eq!(decoded.msg_type_url, "/cosmos.bank.v1beta1.MsgSend");
}

#[test]
fn exec_msg_keeps_messages_in_order() {
    let msgs = vec![
        ProtoAny { type_url: String::from("/a"), value: vec![1, 2] },
        ProtoAny { type_url: String::from("/b"), value: vec![3] },
    ];
    let msg = execute_authorized_msg("grantee", &msgs);
    assert_eq!(msg.type_url, "/cosmos.authz.v1beta1.MsgExec");
    let decoded = authz::MsgExec::decode(msg.value.as_slice()).unwrap();
    assert_eq!(decoded.grantee, "grantee");
    assert_eq!(decoded.msgs.len(), 2);
    assert_eq!(decoded.msgs[0].type_url, "/a");
    assert_eq!(decoded.msgs[0].value, vec![1, 2]);
    assert_eq!(decoded.msgs[1].type_url, "/b");
    assert_eq!(decoded.msgs[1].value, vec![3]);
}

#[test]
fn fee_grant_msg_wraps_basic_allowance() {
    let limit = ProtoCoin { amount: String::from("500"), denom: String::from("uatom") };
    let msg = basic_allowance_fee_grant_msg("granter", "grantee", &Some(Timestamp { seconds: 42, nanos: 0 }), &limit);
    assert_eq!(msg.type_url, "/cosmos.feegrant.v1beta1.MsgGrantAllowance");
    let decoded = feegrant::MsgGrantAllowance::decode(msg.value.as_slice()).unwrap();
    assert_eq!(decoded.granter, "granter");
    assert_eq!(decoded.grantee, "grantee");
    let allowance = decoded.allowance.unwrap();
    assert_eq!(allowance.type_url, "/cosmos.feegrant.v1beta1.BasicAllowance");
    let basic = feegrant::BasicAllowance::decode(allowance.value.as_slice()).unwrap();
    assert_eq!(basic.spend_limit.len(), 1);
    assert_eq!(basic.spend_limit[0].amount, "500");
    assert_eq!(basic.spend_limit[0].denom, "uatom");
    assert_eq!(basic.expiration.unwrap().seconds, 42);
    let unbounded = basic_allowance_fee_grant_msg("granter", "grantee", &None, &limit);
    let decoded = feegrant::MsgGrantAllowance::decode(unbounded.value.as_slice()).unwrap();
    let basic = feegrant::BasicAllowance::decode(decoded.allowance.unwrap().value.as_slice()).unwrap();
    assert!(basic.expiration.is_none());
}

#[test]
fn own_send_grant_authorizes_delegated_sends() {
    let grant = generic_authorization_grant("/cosmos.bank.v1beta1.MsgSend", Timestamp { seconds: 2000, nanos: 0 });
    assert_eq!(check_delegated_grants(&vec![grant], "usomm", u64::MAX, 1940), Some(true));
    let other = generic_authorization_grant("/cosmos.bank.v1beta1.MsgMultiSend", Timestamp { seconds: 2000, nanos: 0 });
    assert_eq!(check_delegated_grants(&vec![other], "usomm", 1, 1000), Some(false));
}
