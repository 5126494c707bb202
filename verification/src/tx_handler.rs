//! Signing a single send of coins without a chain client.
use vstd::prelude::*;
use crate::account::AccountInfo;
use crate::chain::client::authz::{any_pair, ProtoAny};
use crate::chain::client::bank::{encode_msg_send, encoded_msg_send};
use crate::chain::client::signing::{
    auth_info_encoding, build_signed_tx, chain_id_error_text, opt_text, signed_raw_tx, signed_tx, tx_body_bytes,
    tx_body_encoding, valid_chain_id,
};
use crate::chain::client::tx::coin_pairs;
use crate::error::TxError;
use crate::tx::{denom_error_text, valid_denom, Coin, TxMetadata};

verus! {

/// Transaction handler off of which single transactions are built.
pub struct TransactionHandler {}

/// The encoded body of a transaction that holds just the send of `amount`
/// (denomination, amount) from `sender` to `recipient`, with `memo` and the
/// timeout height.
pub open spec fn send_body(
    sender: Seq<char>,
    recipient: Seq<char>,
    amount: (Seq<char>, u64),
    memo: Seq<char>,
    timeout_height: u32,
) -> Result<Seq<u8>, Seq<char>> {
    tx_body_encoding(
        seq![("/cosmos.bank.v1beta1.MsgSend"@, encoded_msg_send(sender, recipient, seq![amount]))],
        memo,
        timeout_height,
    )
}

/// The `MsgSend` message, as (type URL, encoded value), that moves `amount`
/// out of the account `from` into the account `to`.
pub open spec fn bank_send_message(from: Seq<char>, to: Seq<char>, amount: (Seq<char>, u64)) -> (Seq<char>, Seq<u8>) {
    ("/cosmos.bank.v1beta1.MsgSend"@, encoded_msg_send(from, to, seq![amount]))
}

/// The body of a signed send holds one message, a `MsgSend` whose from
/// address is the sender and whose to address is the recipient: the funds
/// move out of the sender's account into the recipient's, never the other
/// way.
pub proof fn lemma_send_body_moves_funds_from_sender(
    from: Seq<char>,
    to: Seq<char>,
    amount: (Seq<char>, u64),
    memo: Seq<char>,
    timeout_height: u32,
)
    ensures
        send_body(from, to, amount, memo, timeout_height) == tx_body_encoding(
            seq![bank_send_message(from, to, amount)],
            memo,
            timeout_height,
        ),
{
}

impl TransactionHandler {
    /// Creates and signs, with the key of `sender`, a transaction that sends
    /// `amount` from `sender_account` to `recipient_account` (both written as
    /// the chain writes account addresses), paying `amount` as the fee with
    /// `gas_limit`, for the account numbered `account_number` at
    /// `sequence_number` on `chain_id`. Gives the encoded signed transaction.
    pub fn create_and_sign_send_message(
        sender_account: &str,
        sender: &AccountInfo,
        recipient_account: &str,
        amount: &Coin,
        chain_id: &str,
        account_number: u64,
        sequence_number: u64,
        gas_limit: u64,
        timeout_height: u16,
        memo: &str,
    ) -> (r: Result<Vec<u8>, TxError>)
        ensures
            send_body(sender_account@, recipient_account@, (amount.denom@, amount.amount), memo@, timeout_height as u32)
                matches Err(e) ==> (r matches Err(TxError::Serialization(m)) && m@ == e),
            send_body(sender_account@, recipient_account@, (amount.denom@, amount.amount), memo@, timeout_height as u32)
                matches Ok(body) ==> {
                &&& !valid_denom(amount.denom@) ==> (r matches Err(TxError::FeeParsing(m)) && m@ == denom_error_text(
                    amount.denom@,
                ))
                &&& valid_denom(amount.denom@) && !valid_chain_id(chain_id@) ==> (r matches Err(
                    TxError::TypeConversion(m),
                ) && m@ == chain_id_error_text(chain_id@))
                &&& valid_denom(amount.denom@) && valid_chain_id(chain_id@) ==> match auth_info_encoding(
                    sender.secret(),
                    sequence_number,
                    (amount.denom@, amount.amount),
                    gas_limit,
                    None,
                    None,
                ) {
                    Err(e) => r matches Err(TxError::TypeConversion(m)) && m@ == e,
                    Ok(info) => match signed_raw_tx(body, info, chain_id@, account_number, sender.secret()) {
                        Err(e) => r matches Err(TxError::Signing(m)) && m@ == e,
                        Ok(t) => r matches Ok(v) && v@ == t,
                    },
                }
                &&& r is Ok ==> tx_body_encoding(
                    seq![bank_send_message(sender_account@, recipient_account@, (amount.denom@, amount.amount))],
                    memo@,
                    timeout_height as u32,
                ) == Ok::<Seq<u8>, Seq<char>>(body)
                &&& r is Ok ==> r->Ok_0@ == signed_tx(
                    body,
                    sender.secret(),
                    sequence_number,
                    account_number,
                    chain_id@,
                    (amount.denom@, amount.amount),
                    gas_limit,
                    None,
                    None,
                )->Ok_0
            },
    {
        proof {
            lemma_send_body_moves_funds_from_sender(
                sender_account@,
                recipient_account@,
                (amount.denom@, amount.amount),
                memo@,
                timeout_height as u32,
            );
        }
        let coins = vec![amount.clone()];
        assert(coin_pairs(coins.deep_view()) =~= seq![(amount.denom@, amount.amount)]);
        let value = encode_msg_send(sender_account, recipient_account, &coins);
        let msgs = vec![ProtoAny { type_url: String::from_str("/cosmos.bank.v1beta1.MsgSend"), value }];
        proof {
            reveal_strlit("/cosmos.bank.v1beta1.MsgSend");
            assert(msgs@.map_values(|a: ProtoAny| any_pair(a)) =~= seq![
                ("/cosmos.bank.v1beta1.MsgSend"@, encoded_msg_send(sender_account@, recipient_account@, seq![(amount.denom@, amount.amount)])),
            ]);
        }
        let body = tx_body_bytes(&msgs, memo, timeout_height as u32)?;
        let meta = TxMetadata {
            fee: amount.clone(),
            fee_payer: None,
            fee_granter: None,
            gas_limit,
            timeout_height: timeout_height as u32,
            memo: String::from_str(memo),
        };
        assert(opt_text(meta.fee_payer) == None::<Seq<char>>);
        assert(opt_text(meta.fee_granter) == None::<Seq<char>>);
        build_signed_tx(&body, sender, account_number, sequence_number, chain_id, &meta)
    }
}

} // verus!
