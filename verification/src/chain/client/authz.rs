//! Authorization grants as the chain reports them, and the decoding of the
//! authorizations they carry.
use vstd::prelude::*;
use cosmos_sdk_proto::prost::Message;
use crate::chain::client::airdrop::multi_send_grant_valid;
use crate::chain::client::automated_tx_handler::{delegated_grant_outcome, GrantOutcome};
use crate::tx::ProtoCoin;

verus! {

/// A protobuf `Any`: a type URL and the encoded message.
#[derive(Debug)]
pub struct ProtoAny {
    pub type_url: String,
    pub value: Vec<u8>,
}

/// A protobuf timestamp.
#[derive(Debug)]
pub struct Timestamp {
    pub seconds: i64,
    pub nanos: i32,
}

/// An authz grant: an optional authorization and an optional expiration.
#[derive(Debug)]
pub struct Grant {
    pub authorization: Option<ProtoAny>,
    pub expiration: Option<Timestamp>,
}

pub struct GrantView {
    pub authorization: Option<(Seq<char>, Seq<u8>)>,
    pub expiration: Option<i64>,
}

impl DeepView for Grant {
    type V = GrantView;

    open spec fn deep_view(&self) -> GrantView {
        GrantView {
            authorization: match self.authorization {
                Some(a) => Some((a.type_url@, a.value@)),
                None => None,
            },
            expiration: match self.expiration {
                Some(t) => Some(t.seconds),
                None => None,
            },
        }
    }
}

/// The `msg` field of a `GenericAuthorization` decoded from `bytes`, or `None`
/// when the bytes do not decode.
pub uninterp spec fn generic_authorization_msg(bytes: Seq<u8>) -> Option<Seq<char>>;

/// The spend limit of a `SendAuthorization` decoded from `bytes`, as
/// (denomination, amount text) pairs, or `None` when the bytes do not decode.
pub uninterp spec fn send_authorization_limit(bytes: Seq<u8>) -> Option<Seq<(Seq<char>, Seq<char>)>>;

/// Decodes a `cosmos.authz.v1beta1.GenericAuthorization` with prost's
/// `Message::decode` and returns its `msg`. Decoding is a function of the
/// bytes alone; its result is named (`generic_authorization_msg`).
#[verifier::external_body]
pub(crate) fn decode_generic_authorization(bytes: &Vec<u8>) -> (r: Option<String>)
    ensures
        r is None <==> generic_authorization_msg(bytes@) is None,
        r is Some ==> generic_authorization_msg(bytes@) == Some(r->Some_0@),
{
    match cosmos_sdk_proto::cosmos::authz::v1beta1::GenericAuthorization::decode(bytes.as_slice()) {
        Ok(a) => Some(a.msg),
        Err(_) => None,
    }
}

pub open spec fn proto_coin_pair(c: ProtoCoin) -> (Seq<char>, Seq<char>) {
    (c.denom@, c.amount@)
}

/// Decodes a `cosmos.bank.v1beta1.SendAuthorization` with prost's
/// `Message::decode` and returns its spend limit coins. Decoding is a function
/// of the bytes alone; its result is named (`send_authorization_limit`).
#[verifier::external_body]
pub(crate) fn decode_send_authorization(bytes: &Vec<u8>) -> (r: Option<Vec<ProtoCoin>>)
    ensures
        r is None <==> send_authorization_limit(bytes@) is None,
        r is Some ==> send_authorization_limit(bytes@) == Some(
            r->Some_0@.map_values(|c: ProtoCoin| proto_coin_pair(c)),
        ),
{
    match cosmos_sdk_proto::cosmos::bank::v1beta1::SendAuthorization::decode(bytes.as_slice()) {
        Ok(a) => Some(
            a.spend_limit.into_iter().map(|c| ProtoCoin { amount: c.amount, denom: c.denom }).collect(),
        ),
        Err(_) => None,
    }
}

/// A protobuf timestamp as a pair of seconds and nanoseconds.
pub open spec fn timestamp_pair(t: Timestamp) -> (i64, i32) {
    (t.seconds, t.nanos)
}

pub open spec fn any_pair(a: ProtoAny) -> (Seq<char>, Seq<u8>) {
    (a.type_url@, a.value@)
}

/// The protobuf encoding of a `GenericAuthorization` for `msg`.
pub uninterp spec fn encoded_generic_authorization(msg: Seq<char>) -> Seq<u8>;

/// The protobuf encoding of a `MsgGrant` from `granter` to `grantee` whose
/// grant holds `authorization` (type URL, encoded value) and `expiration`.
pub uninterp spec fn encoded_msg_grant(
    granter: Seq<char>,
    grantee: Seq<char>,
    authorization: (Seq<char>, Seq<u8>),
    expiration: (i64, i32),
) -> Seq<u8>;

/// The protobuf encoding of a `MsgRevoke` of `grantee`'s authorization from
/// `granter` for messages of `msg_type_url`.
pub uninterp spec fn encoded_msg_revoke(granter: Seq<char>, grantee: Seq<char>, msg_type_url: Seq<char>) -> Seq<u8>;

/// The protobuf encoding of a `MsgExec` of `msgs` by `grantee`.
pub uninterp spec fn encoded_msg_exec(grantee: Seq<char>, msgs: Seq<(Seq<char>, Seq<u8>)>) -> Seq<u8>;

/// The protobuf encoding of a `BasicAllowance` whose spend limit is the one
/// coin (denomination, amount text) and whose expiration is `expiration`.
pub uninterp spec fn encoded_basic_allowance(spend_limit: (Seq<char>, Seq<char>), expiration: Option<(i64, i32)>) -> Seq<u8>;

/// The protobuf encoding of a `MsgGrantAllowance` of `allowance` from
/// `granter` to `grantee`.
pub uninterp spec fn encoded_msg_grant_allowance(
    granter: Seq<char>,
    grantee: Seq<char>,
    allowance: (Seq<char>, Seq<u8>),
) -> Seq<u8>;

/// Encodes a `cosmos.authz.v1beta1.GenericAuthorization { msg }` with prost's
/// `Message::encode_to_vec`. Claimed: the bytes are the named encoding of
/// `msg`, and prost's `decode` of them gives `msg` back.
#[verifier::external_body]
pub(crate) fn encode_generic_authorization(msg: &str) -> (r: Vec<u8>)
    ensures
        r@ == encoded_generic_authorization(msg@),
        generic_authorization_msg(r@) == Some(msg@),
{
    cosmos_sdk_proto::cosmos::authz::v1beta1::GenericAuthorization { msg: msg.to_string() }.encode_to_vec()
}

/// Encodes a `cosmos.authz.v1beta1.MsgGrant` whose grant holds
/// `authorization` and `expiration`, with prost's `Message::encode_to_vec`.
/// Claimed: the bytes are the named encoding of those fields.
#[verifier::external_body]
pub(crate) fn encode_msg_grant(granter: &str, grantee: &str, authorization: &ProtoAny, expiration: &Timestamp) -> (r: Vec<u8>)
    ensures
        r@ == encoded_msg_grant(granter@, grantee@, any_pair(*authorization), timestamp_pair(*expiration)),
{
    let grant = cosmos_sdk_proto::cosmos::authz::v1beta1::Grant {
        authorization: Some(cosmos_sdk_proto::Any { type_url: authorization.type_url.clone(), value: authorization.value.clone() }),
        expiration: Some(cosmos_sdk_proto::Timestamp { seconds: expiration.seconds, nanos: expiration.nanos }),
    };
    cosmos_sdk_proto::cosmos::authz::v1beta1::MsgGrant { granter: granter.to_string(), grantee: grantee.to_string(), grant: Some(grant) }.encode_to_vec()
}

/// Encodes a `cosmos.authz.v1beta1.MsgRevoke` with prost's
/// `Message::encode_to_vec`. Claimed: the bytes are the named encoding of
/// its three fields.
#[verifier::external_body]
pub(crate) fn encode_msg_revoke(granter: &str, grantee: &str, msg_type_url: &str) -> (r: Vec<u8>)
    ensures
        r@ == encoded_msg_revoke(granter@, grantee@, msg_type_url@),
{
    cosmos_sdk_proto::cosmos::authz::v1beta1::MsgRevoke {
        granter: granter.to_string(),
        grantee: grantee.to_string(),
        msg_type_url: msg_type_url.to_string(),
    }.encode_to_vec()
}

/// Encodes a `cosmos.authz.v1beta1.MsgExec` with prost's
/// `Message::encode_to_vec`. Claimed: the bytes are the named encoding of the
/// grantee and the messages, in order.
#[verifier::external_body]
pub(crate) fn encode_msg_exec(grantee: &str, msgs: &Vec<ProtoAny>) -> (r: Vec<u8>)
    ensures
        r@ == encoded_msg_exec(grantee@, msgs@.map_values(|a: ProtoAny| any_pair(a))),
{
    let msgs = msgs.iter().map(|a| cosmos_sdk_proto::Any { type_url: a.type_url.clone(), value: a.value.clone() }).collect();
    cosmos_sdk_proto::cosmos::authz::v1beta1::MsgExec { grantee: grantee.to_string(), msgs }.encode_to_vec()
}

/// Encodes a `cosmos.feegrant.v1beta1.BasicAllowance` with the one coin
/// `spend_limit` as its limit, with prost's `Message::encode_to_vec`.
/// Claimed: the bytes are the named encoding of those fields.
#[verifier::external_body]
pub(crate) fn encode_basic_allowance(spend_limit: &ProtoCoin, expiration: &Option<Timestamp>) -> (r: Vec<u8>)
    ensures
        r@ == encoded_basic_allowance(
            proto_coin_pair(*spend_limit),
            match expiration { Some(t) => Some(timestamp_pair(*t)), None => None },
        ),
{
    let coin = cosmos_sdk_proto::cosmos::base::v1beta1::Coin { denom: spend_limit.denom.clone(), amount: spend_limit.amount.clone() };
    let expiration = expiration.as_ref().map(|t| cosmos_sdk_proto::Timestamp { seconds: t.seconds, nanos: t.nanos });
    cosmos_sdk_proto::cosmos::feegrant::v1beta1::BasicAllowance { spend_limit: vec![coin], expiration }.encode_to_vec()
}

/// Encodes a `cosmos.feegrant.v1beta1.MsgGrantAllowance` with prost's
/// `Message::encode_to_vec`. Claimed: the bytes are the named encoding of its
/// fields.
#[verifier::external_body]
pub(crate) fn encode_msg_grant_allowance(granter: &str, grantee: &str, allowance: &ProtoAny) -> (r: Vec<u8>)
    ensures
        r@ == encoded_msg_grant_allowance(granter@, grantee@, any_pair(*allowance)),
{
    let allowance = cosmos_sdk_proto::Any { type_url: allowance.type_url.clone(), value: allowance.value.clone() };
    cosmos_sdk_proto::cosmos::feegrant::v1beta1::MsgGrantAllowance {
        granter: granter.to_string(),
        grantee: grantee.to_string(),
        allowance: Some(allowance),
    }.encode_to_vec()
}

/// A grant of a generic authorization for messages of type `message`, until
/// `expiration`. A grant for `MsgSend` that lasts a minute past a clock
/// reading authorizes delegated sends of any coin then; one that lasts more
/// than a minute past it passes the multi-send grant check.
pub fn generic_authorization_grant(message: &str, expiration: Timestamp) -> (g: Grant)
    ensures
        g.authorization matches Some(a) && a.type_url@ == "/cosmos.authz.v1beta1.GenericAuthorization"@
            && a.value@ == encoded_generic_authorization(message@),
        g.expiration == Some(expiration),
        forall|denom: Seq<char>, total: nat, now: nat|
            message@ == "/cosmos.bank.v1beta1.MsgSend"@ && now + 60 <= expiration.seconds && now + 60 <= i64::MAX
                ==> #[trigger] delegated_grant_outcome(g.deep_view(), denom, total, now) == GrantOutcome::Valid,
        forall|now: nat| now + 60 < expiration.seconds ==> #[trigger] multi_send_grant_valid(g.deep_view(), now),
{
    let value = encode_generic_authorization(message);
    let authorization = ProtoAny { type_url: String::from_str("/cosmos.authz.v1beta1.GenericAuthorization"), value };
    Grant { authorization: Some(authorization), expiration: Some(expiration) }
}

/// The `MsgGrant` message, as an `Any`, that gives `grantee` a generic
/// authorization from `granter` for messages of type `message` until
/// `expiration`.
pub fn generic_authorization_grant_msg(granter: &str, grantee: &str, message: &str, expiration: Timestamp) -> (r: ProtoAny)
    ensures
        r.type_url@ == "/cosmos.authz.v1beta1.MsgGrant"@,
        r.value@ == encoded_msg_grant(
            granter@,
            grantee@,
            ("/cosmos.authz.v1beta1.GenericAuthorization"@, encoded_generic_authorization(message@)),
            timestamp_pair(expiration),
        ),
{
    let value = encode_generic_authorization(message);
    let authorization = ProtoAny { type_url: String::from_str("/cosmos.authz.v1beta1.GenericAuthorization"), value };
    let value = encode_msg_grant(granter, grantee, &authorization, &expiration);
    ProtoAny { type_url: String::from_str("/cosmos.authz.v1beta1.MsgGrant"), value }
}

/// The `MsgRevoke` message, as an `Any`, that takes back `grantee`'s
/// authorization from `granter` for `MsgSend`.
pub fn revoke_send_authorization_msg(granter: &str, grantee: &str) -> (r: ProtoAny)
    ensures
        r.type_url@ == "/cosmos.authz.v1beta1.MsgRevoke"@,
        r.value@ == encoded_msg_revoke(granter@, grantee@, "/cosmos.bank.v1beta1.MsgSend"@),
{
    let value = encode_msg_revoke(granter, grantee, "/cosmos.bank.v1beta1.MsgSend");
    ProtoAny { type_url: String::from_str("/cosmos.authz.v1beta1.MsgRevoke"), value }
}

/// The `MsgExec` message, as an `Any`, by which `grantee` executes `msgs` on
/// behalf of the accounts that authorized it.
pub fn execute_authorized_msg(grantee: &str, msgs: &Vec<ProtoAny>) -> (r: ProtoAny)
    ensures
        r.type_url@ == "/cosmos.authz.v1beta1.MsgExec"@,
        r.value@ == encoded_msg_exec(grantee@, msgs@.map_values(|a: ProtoAny| any_pair(a))),
{
    let value = encode_msg_exec(grantee, msgs);
    ProtoAny { type_url: String::from_str("/cosmos.authz.v1beta1.MsgExec"), value }
}

/// The `MsgGrantAllowance` message, as an `Any`, by which `granter` pays the
/// fees of `grantee` up to `spend_limit`, until `expiration` if one is given.
pub fn basic_allowance_fee_grant_msg(
    granter: &str,
    grantee: &str,
    expiration: &Option<Timestamp>,
    spend_limit: &ProtoCoin,
) -> (r: ProtoAny)
    ensures
        r.type_url@ == "/cosmos.feegrant.v1beta1.MsgGrantAllowance"@,
        r.value@ == encoded_msg_grant_allowance(
            granter@,
            grantee@,
            (
                "/cosmos.feegrant.v1beta1.BasicAllowance"@,
                encoded_basic_allowance(
                    proto_coin_pair(*spend_limit),
                    match expiration { Some(t) => Some(timestamp_pair(*t)), None => None },
                ),
            ),
        ),
{
    let value = encode_basic_allowance(spend_limit, expiration);
    let allowance = ProtoAny { type_url: String::from_str("/cosmos.feegrant.v1beta1.BasicAllowance"), value };
    let value = encode_msg_grant_allowance(granter, grantee, &allowance);
    ProtoAny { type_url: String::from_str("/cosmos.feegrant.v1beta1.MsgGrantAllowance"), value }
}

} // verus!
