//! The decisions around signing and sending a transaction: default
//! transaction settings, the recipient check of a send, and where the record
//! of a sent transaction is kept.
use vstd::prelude::*;
use crate::error::TxError;
use crate::text::{concat_str, decimal, str_eq, u64_to_decimal};
use crate::chain::client::authz::Timestamp;
use crate::tx::{account_id_parse, denom_error_text, first_invalid_coin, parse_account_id, Coin, CoinView, MultiSendIo, MultiSendIoView, TxMetadata};

verus! {

/// The directory, under the home directory, where records of sent
/// transactions are kept.
pub const TX_LOGGING_DIR: &'static str = "/.ocular/logs/txs";

/// The default gas limit of a transaction.
pub const DEFAULT_GAS_LIMIT: u64 = 200000;

/// How many blocks past the current height a transaction stays valid by
/// default.
pub const DEFAULT_TIMEOUT_BLOCKS: u64 = 30;

/// Default settings for a transaction sent at block height `current_height`
/// paying `fee`: no fee payer or granter, a gas limit of 200000, no memo, and
/// a timeout 30 blocks ahead, cut to 32 bits.
pub fn basic_tx_metadata(current_height: u64, fee: Coin) -> (m: TxMetadata)
    requires
        current_height + 30 <= u64::MAX,
    ensures
        m.fee.deep_view() == fee.deep_view(),
        m.fee_payer is None,
        m.fee_granter is None,
        m.gas_limit == 200000,
        m.timeout_height == (current_height + 30) % 0x1_0000_0000,
        m.memo@.len() == 0,
{
    let h: u64 = current_height + DEFAULT_TIMEOUT_BLOCKS;
    let timeout_height: u32 = (h % 0x1_0000_0000) as u32;
    TxMetadata {
        fee,
        fee_payer: None,
        fee_granter: None,
        gas_limit: DEFAULT_GAS_LIMIT,
        timeout_height,
        memo: String::new(),
    }
}

/// The message of a recipient address that does not parse.
pub open spec fn bad_recipient_message(recipient: Seq<char>, err: Seq<char>) -> Seq<char> {
    "failed to get AccountId from string "@ + recipient + ": "@ + err
}

/// The message of a recipient address with another chain's prefix.
pub open spec fn wrong_prefix_message(expected: Seq<char>, got: Seq<char>) -> Seq<char> {
    "invalid address prefix. expected "@ + expected + ", got "@ + got
}

/// Checks the recipient of a send: it must parse as a bech32 account address
/// and carry the client's account prefix. Gives the address as the chain
/// writes it.
pub fn check_recipient(recipient: &str, account_prefix: &str) -> (r: Result<String, TxError>)
    ensures
        account_id_parse(recipient@) matches Err(e) ==> (r matches Err(TxError::Address(m)) && m@
            == bad_recipient_message(recipient@, e)),
        account_id_parse(recipient@) matches Ok((id, prefix)) ==> (if prefix == account_prefix@ {
            r matches Ok(s) && s@ == id
        } else {
            r matches Err(TxError::Address(m)) && m@ == wrong_prefix_message(account_prefix@, prefix)
        }),
{
    match parse_account_id(recipient) {
        Err(e) => {
            let m = concat_str("failed to get AccountId from string ", recipient);
            let m = concat_str(m.as_str(), ": ");
            let m = concat_str(m.as_str(), e.as_str());
            assert(m@ =~= bad_recipient_message(recipient@, e@));
            Err(TxError::Address(m))
        },
        Ok((id, prefix)) => {
            if str_eq(prefix.as_str(), account_prefix) {
                Ok(id)
            } else {
                let m = concat_str("invalid address prefix. expected ", account_prefix);
                let m = concat_str(m.as_str(), ", got ");
                let m = concat_str(m.as_str(), prefix.as_str());
                assert(m@ =~= wrong_prefix_message(account_prefix@, prefix@));
                Err(TxError::Address(m))
            }
        },
    }
}

/// The directory of transaction records under the home directory `home`.
pub fn tx_log_dir(home: &str) -> (r: String)
    ensures
        r@ == home@ + "/.ocular/logs/txs"@,
{
    proof {
        reveal_strlit("/.ocular/logs/txs");
    }
    concat_str(home, TX_LOGGING_DIR)
}

/// The file that records a transaction sent at `secs` seconds and `nanos`
/// nanoseconds past the Unix epoch: both numbers in decimal, one after the
/// other, with `.txt`, in the records directory under `home`.
pub fn tx_log_file(home: &str, secs: u64, nanos: u32) -> (r: String)
    ensures
        r@ == home@ + "/.ocular/logs/txs"@ + "/"@ + decimal(secs as nat) + decimal(nanos as nat) + ".txt"@,
{
    let dir = tx_log_dir(home);
    let f = concat_str(dir.as_str(), "/");
    let s = u64_to_decimal(secs);
    let f = concat_str(f.as_str(), s.as_str());
    let n = u64_to_decimal(nanos as u64);
    let f = concat_str(f.as_str(), n.as_str());
    let r = concat_str(f.as_str(), ".txt");
    assert(r@ =~= home@ + "/.ocular/logs/txs"@ + "/"@ + decimal(secs as nat) + decimal(nanos as nat) + ".txt"@);
    r
}

/// The error text that an input or output of a multi-send fails with, if
/// any: its address's parse error first, else the error of its first coin
/// with an invalid denomination.
pub open spec fn io_error(io: MultiSendIoView) -> Option<Seq<char>> {
    match account_id_parse(io.address) {
        Err(m) => Some(m),
        Ok(_) => if first_invalid_coin(io.coins) < io.coins.len() {
            Some(denom_error_text(io.coins[first_invalid_coin(io.coins)].denom))
        } else {
            None
        },
    }
}

/// The index of the first of `ios` that fails, or their number.
pub open spec fn first_failing_io(ios: Seq<MultiSendIoView>) -> int
    decreases ios.len(),
{
    if ios.len() == 0 {
        0
    } else if io_error(ios[0]) is Some {
        0
    } else {
        1 + first_failing_io(ios.drop_first())
    }
}

proof fn lemma_first_failing_io(ios: Seq<MultiSendIoView>, i: int)
    requires
        0 <= i <= ios.len(),
        i < ios.len() ==> io_error(ios[i]) is Some,
        forall|j: int| 0 <= j < i ==> io_error(#[trigger] ios[j]) is None,
    ensures
        first_failing_io(ios) == i,
    decreases i,
{
    if i > 0 {
        let t = ios.drop_first();
        assert forall|j: int| 0 <= j < i - 1 implies io_error(#[trigger] t[j]) is None by {
            assert(t[j] == ios[j + 1]);
        }
        if i < ios.len() {
            assert(t[i - 1] == ios[i]);
        }
        lemma_first_failing_io(t, i - 1);
    }
}

/// Checks the inputs or outputs of a multi-send in order, as the conversion to
/// the chain's message does: the first one that fails gives the error.
pub fn check_multi_send_ios(ios: &Vec<MultiSendIo>) -> (r: Result<(), TxError>)
    ensures
        r is Ok <==> first_failing_io(ios.deep_view()) == ios.len(),
        r is Err ==> (r matches Err(TxError::FeeParsing(m)) && Some(m@) == io_error(
            ios.deep_view()[first_failing_io(ios.deep_view())],
        )),
{
    let ghost vs = ios.deep_view();
    let mut i: usize = 0;
    while i < ios.len()
        invariant
            vs == ios.deep_view(),
            i <= ios.len(),
            forall|j: int| 0 <= j < i ==> io_error(#[trigger] vs[j]) is None,
        decreases ios.len() - i,
    {
        let ghost v = ios[i as int].deep_view();
        assert(vs[i as int] == v);
        match ios[i].to_chain_io() {
            Err(e) => {
                proof {
                    lemma_first_failing_io(vs, i as int);
                }
                return Err(e);
            },
            Ok(_) => {},
        }
        i = i + 1;
    }
    proof {
        lemma_first_failing_io(vs, i as int);
    }
    Ok(())
}

/// A coin as (denomination, amount).
pub open spec fn coin_pairs(cs: Seq<CoinView>) -> Seq<(Seq<char>, u64)> {
    cs.map_values(|c: CoinView| (c.denom, c.amount))
}

/// Inputs or outputs of a multi-send as (address, coins).
pub open spec fn io_pairs(ios: Seq<MultiSendIoView>) -> Seq<(Seq<char>, Seq<(Seq<char>, u64)>)> {
    ios.map_values(|io: MultiSendIoView| (io.address, coin_pairs(io.coins)))
}

/// An input or output of a multi-send as the chain's message holds it: its
/// address as the chain writes it, and its coins.
pub open spec fn chain_io_view(io: MultiSendIoView) -> (Seq<char>, Seq<(Seq<char>, u64)>) {
    (account_id_parse(io.address)->Ok_0.0, coin_pairs(io.coins))
}

/// The inputs or outputs of a multi-send in the chain's form, checked in
/// order as `check_multi_send_ios` does; the first that fails gives the
/// error.
pub fn chain_ios(ios: &Vec<MultiSendIo>) -> (r: Result<Vec<MultiSendIo>, TxError>)
    ensures
        r is Ok <==> first_failing_io(ios.deep_view()) == ios.len(),
        r is Err ==> (r matches Err(TxError::FeeParsing(m)) && Some(m@) == io_error(
            ios.deep_view()[first_failing_io(ios.deep_view())],
        )),
        r matches Ok(v) ==> io_pairs(v.deep_view()) == ios.deep_view().map_values(
            |io: MultiSendIoView| chain_io_view(io),
        ),
{
    let ghost vs = ios.deep_view();
    let mut out: Vec<MultiSendIo> = Vec::new();
    let mut i: usize = 0;
    while i < ios.len()
        invariant
            vs == ios.deep_view(),
            i <= ios.len(),
            out.len() == i,
            forall|j: int| 0 <= j < i ==> io_error(#[trigger] vs[j]) is None,
            forall|j: int|
                0 <= j < i ==> (#[trigger] out.deep_view()[j]).address == account_id_parse(vs[j].address)->Ok_0.0
                    && out.deep_view()[j].coins == vs[j].coins,
        decreases ios.len() - i,
    {
        let ghost v = ios[i as int].deep_view();
        assert(vs[i as int] == v);
        match ios[i].to_chain_io() {
            Err(e) => {
                proof {
                    lemma_first_failing_io(vs, i as int);
                }
                return Err(e);
            },
            Ok(io) => {
                let ghost before = out.deep_view();
                out.push(io);
                assert(out.deep_view() =~= before.push(io.deep_view()));
            },
        }
        i = i + 1;
    }
    proof {
        lemma_first_failing_io(vs, i as int);
        assert(io_pairs(out.deep_view()) =~= vs.map_values(|io: MultiSendIoView| chain_io_view(io)));
    }
    Ok(out)
}

/// How long a granted authorization lasts when no expiration is given, in
/// seconds: 24 hours.
pub const DEFAULT_GRANT_SECONDS: i64 = 86400;

/// The expiration of a grant: the one given, or 24 hours after `now`.
pub fn grant_expiration(expiration: Option<Timestamp>, now: Timestamp) -> (r: Timestamp)
    requires
        expiration is None ==> now.seconds + 86400 <= i64::MAX,
    ensures
        expiration matches Some(t) ==> r == t,
        expiration is None ==> r.seconds == now.seconds + 86400 && r.nanos == now.nanos,
{
    match expiration {
        Some(t) => t,
        None => Timestamp { seconds: now.seconds + DEFAULT_GRANT_SECONDS, nanos: now.nanos },
    }
}

} // verus!
