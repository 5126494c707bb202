//! Building signed transactions: the encoded body of a transaction, its
//! authorization info for one signer, and the signature over both.
use vstd::prelude::*;
use cosmrs::crypto::secp256k1::SigningKey;
use cosmrs::tx::{Fee, SignerInfo};
use cosmrs::AccountId;
use crate::account::AccountInfo;
use crate::chain::client::authz::{any_pair, ProtoAny};
use crate::error::TxError;
use crate::tx::{denom_error_text, valid_denom, TxMetadata};

verus! {

/// The views of optional texts.
pub open spec fn opt_text(s: Option<String>) -> Option<Seq<char>> {
    match s {
        Some(t) => Some(t@),
        None => None,
    }
}

/// The protobuf encoding of a transaction body holding `msgs` (type URL,
/// encoded value), `memo` and the timeout height, or the encoder's error.
pub uninterp spec fn tx_body_encoding(msgs: Seq<(Seq<char>, Seq<u8>)>, memo: Seq<char>, timeout_height: u32) -> Result<
    Seq<u8>,
    Seq<char>,
>;

/// The protobuf encoding of the authorization info of a transaction signed by
/// the one key `secret` in direct mode at `sequence`, paying the fee `fee`
/// (denomination, amount) with `gas_limit`, `payer` and `granter`, or the
/// error of the step that fails.
pub uninterp spec fn auth_info_encoding(
    secret: Seq<u8>,
    sequence: u64,
    fee: (Seq<char>, u64),
    gas_limit: u64,
    payer: Option<Seq<char>>,
    granter: Option<Seq<char>>,
) -> Result<Seq<u8>, Seq<char>>;

/// The encoded raw transaction that signs `body` and `auth_info` for
/// `chain_id` and `account_number` with the key `secret`, or the error of the
/// step that fails.
pub uninterp spec fn signed_raw_tx(
    body: Seq<u8>,
    auth_info: Seq<u8>,
    chain_id: Seq<char>,
    account_number: u64,
    secret: Seq<u8>,
) -> Result<Seq<u8>, Seq<char>>;

/// The error text of `tendermint::chain::Id::try_from` on `s`.
pub uninterp spec fn chain_id_error_text(s: Seq<char>) -> Seq<char>;

/// A chain identifier that `tendermint::chain::Id` accepts: 1 to 50 ASCII
/// letters, digits, `-`, `_` or `.`.
pub open spec fn valid_chain_id(s: Seq<char>) -> bool {
    &&& 1 <= s.len() <= 50
    &&& forall|i: int|
        0 <= i < s.len() ==> {
            let c = #[trigger] s[i];
            ('a' <= c && c <= 'z') || ('A' <= c && c <= 'Z') || ('0' <= c && c <= '9') || c == '-' || c == '_'
                || c == '.'
        }
}

/// The signed transaction of `body` by the key `secret`: its authorization
/// info, then the signature over body and info for the chain and account.
pub open spec fn signed_tx(
    body: Seq<u8>,
    secret: Seq<u8>,
    sequence: u64,
    account_number: u64,
    chain_id: Seq<char>,
    fee: (Seq<char>, u64),
    gas_limit: u64,
    payer: Option<Seq<char>>,
    granter: Option<Seq<char>>,
) -> Result<Seq<u8>, Seq<char>> {
    match auth_info_encoding(secret, sequence, fee, gas_limit, payer, granter) {
        Err(e) => Err(e),
        Ok(info) => signed_raw_tx(body, info, chain_id, account_number, secret),
    }
}

/// Encodes a transaction body of `msgs`, `memo` and `timeout_height` with
/// `cosmrs::tx::Body::new` and `into_bytes`. The result is named
/// (`tx_body_encoding`).
#[verifier::external_body]
fn encode_tx_body(msgs: &Vec<ProtoAny>, memo: &str, timeout_height: u32) -> (r: Result<Vec<u8>, String>)
    ensures
        r is Ok ==> tx_body_encoding(msgs@.map_values(|a: ProtoAny| any_pair(a)), memo@, timeout_height)
            == Ok::<Seq<u8>, Seq<char>>(r->Ok_0@),
        r is Err ==> tx_body_encoding(msgs@.map_values(|a: ProtoAny| any_pair(a)), memo@, timeout_height)
            == Err::<Seq<u8>, Seq<char>>(r->Err_0@),
{
    let msgs = msgs.iter().map(|a| cosmrs::Any { type_url: a.type_url.clone(), value: a.value.clone() });
    cosmrs::tx::Body::new(msgs, memo, timeout_height).into_bytes().map_err(|e| e.to_string())
}

/// Checks `chain_id` with `tendermint::chain::Id::try_from`. Stated from its
/// source: it accepts exactly the identifiers of `valid_chain_id`, and keeps
/// the text as given; the error text is named.
#[verifier::external_body]
fn check_chain_id(chain_id: &str) -> (r: Result<(), String>)
    ensures
        r is Ok <==> valid_chain_id(chain_id@),
        r matches Err(m) ==> m@ == chain_id_error_text(chain_id@),
{
    cosmrs::tendermint::chain::Id::try_from(chain_id.to_string()).map(|_| ()).map_err(|e| e.to_string())
}

/// Encodes the authorization info of a transaction signed in direct mode by
/// the key `secret` (`SigningKey::from_slice`, `SignerInfo::single_direct`,
/// `auth_info` with a `Fee` of one coin, payer and granter parsed as
/// `AccountId`, then `into_bytes`). The result is named
/// (`auth_info_encoding`).
#[verifier::external_body]
fn encode_auth_info(
    secret: &Vec<u8>,
    sequence: u64,
    fee_denom: &str,
    fee_amount: u64,
    gas_limit: u64,
    payer: &Option<String>,
    granter: &Option<String>,
) -> (r: Result<Vec<u8>, String>)
    ensures
        r is Ok ==> auth_info_encoding(secret@, sequence, (fee_denom@, fee_amount), gas_limit, opt_text(*payer), opt_text(*granter))
            == Ok::<Seq<u8>, Seq<char>>(r->Ok_0@),
        r is Err ==> auth_info_encoding(secret@, sequence, (fee_denom@, fee_amount), gas_limit, opt_text(*payer), opt_text(*granter))
            == Err::<Seq<u8>, Seq<char>>(r->Err_0@),
{
    let build = || -> Result<Vec<u8>, cosmrs::ErrorReport> {
        let key = SigningKey::from_slice(secret)?;
        let payer = payer.as_deref().map(str::parse::<AccountId>).transpose()?;
        let granter = granter.as_deref().map(str::parse::<AccountId>).transpose()?;
        let fee = Fee { amount: vec![cosmrs::Coin { denom: fee_denom.parse()?, amount: fee_amount.into() }], gas_limit, payer, granter };
        SignerInfo::single_direct(Some(key.public_key()), sequence).auth_info(fee).into_bytes()
    };
    build().map_err(|e| e.to_string())
}

/// Signs a `cosmrs::tx::SignDoc` of the encoded body and authorization info
/// for `chain_id` and `account_number` with the key `secret` (`sign`), and
/// encodes the raw transaction (`Raw::to_bytes`). The result is named
/// (`signed_raw_tx`).
#[verifier::external_body]
fn sign_tx(body: &Vec<u8>, auth_info: &Vec<u8>, chain_id: &str, account_number: u64, secret: &Vec<u8>) -> (r: Result<
    Vec<u8>,
    String,
>)
    ensures
        r is Ok ==> signed_raw_tx(body@, auth_info@, chain_id@, account_number, secret@) == Ok::<Seq<u8>, Seq<char>>(
            r->Ok_0@,
        ),
        r is Err ==> signed_raw_tx(body@, auth_info@, chain_id@, account_number, secret@) == Err::<Seq<u8>, Seq<char>>(
            r->Err_0@,
        ),
{
    let key = SigningKey::from_slice(secret).map_err(|e| e.to_string())?;
    let doc = cosmrs::tx::SignDoc {
        body_bytes: body.clone(),
        auth_info_bytes: auth_info.clone(),
        chain_id: chain_id.to_string(),
        account_number,
    };
    let raw = doc.sign(&key).map_err(|e| e.to_string())?;
    raw.to_bytes().map_err(|e| e.to_string())
}

/// The encoded body of a transaction holding `msgs`, `memo` and
/// `timeout_height`; an encoder error is a serialization error.
pub fn tx_body_bytes(msgs: &Vec<ProtoAny>, memo: &str, timeout_height: u32) -> (r: Result<Vec<u8>, TxError>)
    ensures
        tx_body_encoding(msgs@.map_values(|a: ProtoAny| any_pair(a)), memo@, timeout_height) matches Ok(b) ==> (r matches Ok(v)
            && v@ == b),
        tx_body_encoding(msgs@.map_values(|a: ProtoAny| any_pair(a)), memo@, timeout_height) matches Err(e) ==> (r matches Err(
            TxError::Serialization(m),
        ) && m@ == e),
{
    match encode_tx_body(msgs, memo, timeout_height) {
        Ok(b) => Ok(b),
        Err(e) => Err(TxError::Serialization(e)),
    }
}

/// The signed transaction, encoded, that `account` makes of the encoded body
/// `body` for the chain `chain_id`, as the account numbered `account_number`
/// at `sequence`, with the fee, gas limit, payer and granter of `meta`. The
/// checks come in order: the fee's denomination (a fee error), the chain
/// identifier and the authorization info (type conversion errors), then the
/// signature (a signing error).
pub fn build_signed_tx(
    body: &Vec<u8>,
    account: &AccountInfo,
    account_number: u64,
    sequence: u64,
    chain_id: &str,
    meta: &TxMetadata,
) -> (r: Result<Vec<u8>, TxError>)
    ensures
        r is Ok ==> r->Ok_0@ == signed_tx(
            body@,
            account.secret(),
            sequence,
            account_number,
            chain_id@,
            (meta.fee.denom@, meta.fee.amount),
            meta.gas_limit,
            opt_text(meta.fee_payer),
            opt_text(meta.fee_granter),
        )->Ok_0,
        r is Ok <==> valid_denom(meta.fee.denom@) && valid_chain_id(chain_id@) && signed_tx(
            body@,
            account.secret(),
            sequence,
            account_number,
            chain_id@,
            (meta.fee.denom@, meta.fee.amount),
            meta.gas_limit,
            opt_text(meta.fee_payer),
            opt_text(meta.fee_granter),
        ) is Ok,
        !valid_denom(meta.fee.denom@) ==> (r matches Err(TxError::FeeParsing(m)) && m@ == denom_error_text(
            meta.fee.denom@,
        )),
        valid_denom(meta.fee.denom@) && !valid_chain_id(chain_id@) ==> (r matches Err(TxError::TypeConversion(m))
            && m@ == chain_id_error_text(chain_id@)),
        valid_denom(meta.fee.denom@) && valid_chain_id(chain_id@) ==> match auth_info_encoding(
            account.secret(),
            sequence,
            (meta.fee.denom@, meta.fee.amount),
            meta.gas_limit,
            opt_text(meta.fee_payer),
            opt_text(meta.fee_granter),
        ) {
            Err(e) => r matches Err(TxError::TypeConversion(m)) && m@ == e,
            Ok(info) => match signed_raw_tx(body@, info, chain_id@, account_number, account.secret()) {
                Err(e) => r matches Err(TxError::Signing(m)) && m@ == e,
                Ok(t) => r matches Ok(v) && v@ == t,
            },
        },
{
    let fee = meta.fee.to_chain_coin()?;
    match check_chain_id(chain_id) {
        Ok(()) => {},
        Err(e) => {
            return Err(TxError::TypeConversion(e));
        },
    }
    let secret = account.private_key();
    let info = match encode_auth_info(
        secret,
        sequence,
        fee.denom.as_str(),
        fee.amount,
        meta.gas_limit,
        &meta.fee_payer,
        &meta.fee_granter,
    ) {
        Ok(i) => i,
        Err(e) => {
            return Err(TxError::TypeConversion(e));
        },
    };
    match sign_tx(body, &info, chain_id, account_number, secret) {
        Ok(t) => Ok(t),
        Err(e) => Err(TxError::Signing(e)),
    }
}

} // verus!
