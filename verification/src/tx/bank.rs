//! Bank module messages, checked before they are encoded.
use vstd::prelude::*;
use crate::tx::{account_id_parse, denom_error_text, parse_account_id, parse_denom, valid_denom, Coin};

verus! {

/// A bank module message.
#[derive(Clone, Debug)]
pub enum Bank<'m> {
    Send { from: &'m str, to: &'m str, amount: u64, denom: &'m str },
}

/// A checked send: both addresses as the chain writes them, and the coin.
#[derive(Debug)]
pub struct MsgSendParts {
    pub from_address: String,
    pub to_address: String,
    pub amount: Coin,
}

impl<'m> Bank<'m> {
    /// Checks a bank message for encoding, in the order the chain's types are
    /// built: the denomination, then the sender's address, then the
    /// recipient's; the first failure's text is the error.
    pub fn try_into_msg_send(self) -> (r: Result<MsgSendParts, String>)
        ensures
            match self {
                Bank::Send { from, to, amount, denom } => {
                    &&& !valid_denom(denom@) ==> (r is Err && r->Err_0@ == denom_error_text(denom@))
                    &&& valid_denom(denom@) && account_id_parse(from@) is Err ==> (r is Err && account_id_parse(from@)
                        == Err::<(Seq<char>, Seq<char>), Seq<char>>(r->Err_0@))
                    &&& valid_denom(denom@) && account_id_parse(from@) is Ok && account_id_parse(to@) is Err ==> (r is Err
                        && account_id_parse(to@) == Err::<(Seq<char>, Seq<char>), Seq<char>>(r->Err_0@))
                    &&& r is Ok <==> valid_denom(denom@) && account_id_parse(from@) is Ok && account_id_parse(to@) is Ok
                    &&& r is Ok ==> r->Ok_0.from_address@ == account_id_parse(from@)->Ok_0.0
                        && r->Ok_0.to_address@ == account_id_parse(to@)->Ok_0.0 && r->Ok_0.amount.amount == amount
                        && r->Ok_0.amount.denom@ == denom@
                },
            },
    {
        match self {
            Bank::Send { from, to, amount, denom } => {
                match parse_denom(denom) {
                    Ok(()) => {},
                    Err(e) => {
                        return Err(e);
                    },
                }
                let (from_address, _) = parse_account_id(from)?;
                let (to_address, _) = parse_account_id(to)?;
                Ok(MsgSendParts { from_address, to_address, amount: Coin { amount, denom: String::from_str(denom) } })
            },
        }
    }
}

} // verus!
