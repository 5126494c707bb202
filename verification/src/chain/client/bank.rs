//! Bank module messages: a send of coins from one account to another, and a
//! multi-send from inputs to outputs, each checked and then encoded as the
//! chain's protobuf message.
use vstd::prelude::*;
use cosmos_sdk_proto::cosmos::bank::v1beta1::{Input, MsgMultiSend, MsgSend, Output};
use cosmos_sdk_proto::cosmos::base::v1beta1::Coin as WireCoin;
use cosmos_sdk_proto::prost::Message;
use crate::chain::client::authz::ProtoAny;
use crate::chain::client::automated_tx_handler::SendPlan;
use crate::chain::client::tx::{
    bad_recipient_message, chain_io_view, chain_ios, check_recipient, coin_pairs, first_failing_io, io_error,
    io_pairs, wrong_prefix_message,
};
use crate::error::TxError;
use crate::tx::{account_id_parse, denom_error_text, valid_denom, Coin, CoinView, MultiSendIo, MultiSendIoView};

verus! {

/// The protobuf encoding of a `cosmos.bank.v1beta1.MsgSend` of `coins`
/// (denomination, amount) from `from` to `to`.
pub uninterp spec fn encoded_msg_send(from: Seq<char>, to: Seq<char>, coins: Seq<(Seq<char>, u64)>) -> Seq<u8>;

/// The protobuf encoding of a `cosmos.bank.v1beta1.MsgMultiSend` of
/// `inputs` and `outputs`, each (address, coins).
pub uninterp spec fn encoded_msg_multi_send(
    inputs: Seq<(Seq<char>, Seq<(Seq<char>, u64)>)>,
    outputs: Seq<(Seq<char>, Seq<(Seq<char>, u64)>)>,
) -> Seq<u8>;

/// Encodes a `cosmos.bank.v1beta1.MsgSend` with prost's
/// `Message::encode_to_vec`, each amount written as decimal text, as
/// `cosmrs`'s `MsgSend::to_any` does. Claimed: the bytes are the named
/// encoding of its fields.
#[verifier::external_body]
pub(crate) fn encode_msg_send(from: &str, to: &str, coins: &Vec<Coin>) -> (r: Vec<u8>)
    ensures
        r@ == encoded_msg_send(from@, to@, coin_pairs(coins.deep_view())),
{
    let amount = coins.iter().map(|c| WireCoin { denom: c.denom.clone(), amount: c.amount.to_string() }).collect();
    MsgSend { from_address: from.to_string(), to_address: to.to_string(), amount }.encode_to_vec()
}

/// Encodes a `cosmos.bank.v1beta1.MsgMultiSend` with prost's
/// `Message::encode_to_vec`, each amount written as decimal text, as
/// `cosmrs`'s `MsgMultiSend::to_any` does. Claimed: the bytes are the named
/// encoding of its inputs and outputs, in order.
#[verifier::external_body]
pub(crate) fn encode_msg_multi_send(inputs: &Vec<MultiSendIo>, outputs: &Vec<MultiSendIo>) -> (r: Vec<u8>)
    ensures
        r@ == encoded_msg_multi_send(io_pairs(inputs.deep_view()), io_pairs(outputs.deep_view())),
{
    let wire = |cs: &Vec<Coin>| cs.iter().map(|c| WireCoin { denom: c.denom.clone(), amount: c.amount.to_string() }).collect();
    let inputs = inputs.iter().map(|io| Input { address: io.address.clone(), coins: wire(&io.coins) }).collect();
    let outputs = outputs.iter().map(|io| Output { address: io.address.clone(), coins: wire(&io.coins) }).collect();
    MsgMultiSend { inputs, outputs }.encode_to_vec()
}

/// The `MsgSend` message, as an `Any`, that sends `amount` from
/// `sender_address` (written as the chain writes it) to `recipient`. The
/// recipient is checked first (`check_recipient`: it must parse and carry
/// `account_prefix`), then the coin's denomination.
pub fn send_msg(sender_address: &str, recipient: &str, account_prefix: &str, amount: &Coin) -> (r: Result<
    ProtoAny,
    TxError,
>)
    ensures
        account_id_parse(recipient@) matches Err(e) ==> (r matches Err(TxError::Address(m)) && m@
            == bad_recipient_message(recipient@, e)),
        account_id_parse(recipient@) matches Ok((id, prefix)) ==> if prefix != account_prefix@ {
            r matches Err(TxError::Address(m)) && m@ == wrong_prefix_message(account_prefix@, prefix)
        } else if !valid_denom(amount.denom@) {
            r matches Err(TxError::FeeParsing(m)) && m@ == denom_error_text(amount.denom@)
        } else {
            r matches Ok(a) && a.type_url@ == "/cosmos.bank.v1beta1.MsgSend"@ && a.value@ == encoded_msg_send(
                sender_address@,
                id,
                seq![(amount.denom@, amount.amount)],
            )
        },
{
    let to = check_recipient(recipient, account_prefix)?;
    let coin = amount.to_chain_coin()?;
    let coins = vec![coin];
    assert(coin_pairs(coins.deep_view()) =~= seq![(amount.denom@, amount.amount)]);
    let value = encode_msg_send(sender_address, to.as_str(), &coins);
    Ok(ProtoAny { type_url: String::from_str("/cosmos.bank.v1beta1.MsgSend"), value })
}

/// The `MsgMultiSend` message, as an `Any`, from `inputs` to `outputs`, with
/// each address as the chain writes it. The inputs are checked first, then
/// the outputs (see `check_multi_send_ios`); the first that fails gives the
/// error.
pub fn multi_send_msg(inputs: &Vec<MultiSendIo>, outputs: &Vec<MultiSendIo>) -> (r: Result<ProtoAny, TxError>)
    ensures
        first_failing_io(inputs.deep_view()) < inputs.len() ==> (r matches Err(TxError::FeeParsing(m)) && Some(m@)
            == io_error(inputs.deep_view()[first_failing_io(inputs.deep_view())])),
        first_failing_io(inputs.deep_view()) == inputs.len() && first_failing_io(outputs.deep_view())
            < outputs.len() ==> (r matches Err(TxError::FeeParsing(m)) && Some(m@) == io_error(
            outputs.deep_view()[first_failing_io(outputs.deep_view())],
        )),
        r is Ok <==> first_failing_io(inputs.deep_view()) == inputs.len() && first_failing_io(outputs.deep_view())
            == outputs.len(),
        r matches Ok(a) ==> a.type_url@ == "/cosmos.bank.v1beta1.MsgMultiSend"@ && a.value@ == encoded_msg_multi_send(
            inputs.deep_view().map_values(|io: MultiSendIoView| chain_io_view(io)),
            outputs.deep_view().map_values(|io: MultiSendIoView| chain_io_view(io)),
        ),
{
    let ins = chain_ios(inputs)?;
    let outs = chain_ios(outputs)?;
    let value = encode_msg_multi_send(&ins, &outs);
    Ok(ProtoAny { type_url: String::from_str("/cosmos.bank.v1beta1.MsgMultiSend"), value })
}

/// The `MsgSend` message of a planned send, as an `Any`.
pub open spec fn plan_msg(p: SendPlan) -> (Seq<char>, Seq<u8>) {
    (
        "/cosmos.bank.v1beta1.MsgSend"@,
        encoded_msg_send(p.from_address@, p.to_address@, seq![(p.amount.denom@, p.amount.amount)]),
    )
}

/// The `MsgSend` messages, as `Any`s, of the planned sends `plans`, in order.
pub fn send_plan_msgs(plans: &Vec<SendPlan>) -> (r: Vec<ProtoAny>)
    ensures
        r@.len() == plans@.len(),
        forall|i: int| 0 <= i < r@.len() ==> (#[trigger] r@[i]).type_url@ == plan_msg(plans@[i]).0 && r@[i].value@
            == plan_msg(plans@[i]).1,
{
    let mut out: Vec<ProtoAny> = Vec::new();
    let mut i: usize = 0;
    while i < plans.len()
        invariant
            i <= plans.len(),
            out@.len() == i,
            forall|j: int| 0 <= j < i ==> (#[trigger] out@[j]).type_url@ == plan_msg(plans@[j]).0 && out@[j].value@
                == plan_msg(plans@[j]).1,
        decreases plans.len() - i,
    {
        let p = &plans[i];
        let coins = vec![p.amount.clone()];
        assert(coin_pairs(coins.deep_view()) =~= seq![(p.amount.denom@, p.amount.amount)]);
        let value = encode_msg_send(p.from_address.as_str(), p.to_address.as_str(), &coins);
        out.push(ProtoAny { type_url: String::from_str("/cosmos.bank.v1beta1.MsgSend"), value });
        i = i + 1;
    }
    out
}

} // verus!
