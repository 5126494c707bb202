//! Transaction-side value types: coins, payments and multi-send inputs and
//! outputs, with their conversions to the chain's wire forms.
use vstd::prelude::*;
use crate::error::TxError;
use crate::text::{decimal, int_error_message, parse_u64, parse_u64_spec, u64_to_decimal, IntErrorKind, lemma_decimal_round_trip};

pub mod bank;

verus! {

/// A coin amount in a denomination.
#[derive(Debug)]
pub struct Coin {
    pub amount: u64,
    pub denom: String,
}

/// The protobuf form of a coin, whose amount is decimal text.
#[derive(Debug)]
pub struct ProtoCoin {
    pub amount: String,
    pub denom: String,
}

/// A single payment of `amount` of `denom` to `recipient`.
#[derive(Debug)]
pub struct Payment {
    pub recipient: String,
    pub amount: u64,
    pub denom: String,
}

/// The contents of a payments file.
#[derive(Debug)]
pub struct PaymentsToml {
    pub sender_key_name: String,
    pub grantee_key_name: Option<String>,
    pub fee_granter: Option<String>,
    pub fee_payer: Option<String>,
    pub payments: Vec<Payment>,
}

/// One input or output of a multi-send message.
#[derive(Debug)]
pub struct MultiSendIo {
    pub address: String,
    pub coins: Vec<Coin>,
}

/// Fee, gas and timeout settings of a transaction. Fee payer and fee granter
/// are bech32 account addresses.
#[derive(Debug)]
pub struct TxMetadata {
    pub fee: Coin,
    pub fee_payer: Option<String>,
    pub fee_granter: Option<String>,
    pub gas_limit: u64,
    pub timeout_height: u32,
    pub memo: String,
}

pub struct CoinView {
    pub amount: u64,
    pub denom: Seq<char>,
}

pub struct PaymentView {
    pub recipient: Seq<char>,
    pub amount: u64,
    pub denom: Seq<char>,
}

pub struct MultiSendIoView {
    pub address: Seq<char>,
    pub coins: Seq<CoinView>,
}

impl DeepView for Coin {
    type V = CoinView;

    open spec fn deep_view(&self) -> CoinView {
        CoinView { amount: self.amount, denom: self.denom@ }
    }
}

impl DeepView for Payment {
    type V = PaymentView;

    open spec fn deep_view(&self) -> PaymentView {
        PaymentView { recipient: self.recipient@, amount: self.amount, denom: self.denom@ }
    }
}

impl DeepView for MultiSendIo {
    type V = MultiSendIoView;

    open spec fn deep_view(&self) -> MultiSendIoView {
        MultiSendIoView { address: self.address@, coins: self.coins.deep_view() }
    }
}

impl Clone for Coin {
    fn clone(&self) -> (c: Coin)
        ensures
            c.deep_view() == self.deep_view(),
    {
        Coin { amount: self.amount, denom: self.denom.clone() }
    }
}

impl Clone for Payment {
    fn clone(&self) -> (p: Payment)
        ensures
            p.deep_view() == self.deep_view(),
    {
        Payment { recipient: self.recipient.clone(), amount: self.amount, denom: self.denom.clone() }
    }
}

impl Clone for MultiSendIo {
    fn clone(&self) -> (m: MultiSendIo)
        ensures
            m.deep_view() == self.deep_view(),
    {
        let coins = self.coins.clone();
        proof {
            assert(coins.deep_view() =~= self.coins.deep_view());
        }
        MultiSendIo { address: self.address.clone(), coins }
    }
}

impl Default for Coin {
    fn default() -> (c: Coin)
        ensures
            c.amount == 0,
            c.denom@ == Seq::<char>::empty(),
    {
        Coin { amount: 0, denom: String::new() }
    }
}

/// A character allowed in a denomination name.
pub open spec fn valid_denom_char(c: char) -> bool {
    ('A' <= c && c <= 'Z') || ('a' <= c && c <= 'z') || ('0' <= c && c <= '9') || c == '/'
        || c == ':' || c == '.' || c == '_' || c == '-'
}

/// A denomination the chain accepts: 3 to 128 allowed characters.
pub open spec fn valid_denom(s: Seq<char>) -> bool {
    &&& 3 <= s.len() <= 128
    &&& forall|i: int| 0 <= i < s.len() ==> valid_denom_char(#[trigger] s[i])
}

/// The error text of `cosmrs::Denom::from_str` on `s`.
pub uninterp spec fn denom_error_text(s: Seq<char>) -> Seq<char>;

/// Checks `s` with `cosmrs::Denom::from_str`. Its source accepts exactly the
/// strings of 3 to 128 bytes whose characters are ASCII letters, digits or one
/// of `/:._-`; the error text is named, not stated.
#[verifier::external_body]
pub(crate) fn parse_denom(s: &str) -> (r: Result<(), String>)
    ensures
        r is Ok <==> valid_denom(s@),
        r matches Err(m) ==> m@ == denom_error_text(s@),
{
    match s.parse::<cosmrs::Denom>() {
        Ok(_) => Ok(()),
        Err(e) => Err(e.to_string()),
    }
}

/// What `cosmrs::AccountId::from_str` makes of a text: on success the account's
/// bech32 text and its human-readable prefix, on failure the error text.
pub uninterp spec fn account_id_parse(s: Seq<char>) -> Result<(Seq<char>, Seq<char>), Seq<char>>;

/// A prefix that `cosmrs::AccountId::new` accepts: lowercase letters and digits.
pub open spec fn lower_alnum(s: Seq<char>) -> bool {
    forall|i: int| 0 <= i < s.len() ==> (('a' <= #[trigger] s[i] && s[i] <= 'z') || ('0' <= s[i] && s[i] <= '9'))
}

/// Parses a bech32 account address with `cosmrs::AccountId::from_str` and
/// returns its text and prefix, or the error's text. The result is named
/// (`account_id_parse`); the one fact stated beside it is the prefix check that
/// `AccountId::new` makes before it accepts an address.
#[verifier::external_body]
pub(crate) fn parse_account_id(s: &str) -> (r: Result<(String, String), String>)
    ensures
        r is Ok ==> account_id_parse(s@) == Ok::<(Seq<char>, Seq<char>), Seq<char>>(
            (r->Ok_0.0@, r->Ok_0.1@),
        ),
        r is Err ==> account_id_parse(s@) == Err::<(Seq<char>, Seq<char>), Seq<char>>(r->Err_0@),
        r is Ok ==> lower_alnum(r->Ok_0.1@),
{
    match s.parse::<cosmrs::AccountId>() {
        Ok(id) => Ok((id.to_string(), id.prefix().to_string())),
        Err(e) => Err(e.to_string()),
    }
}

/// Whether the chain accepts `s` as a denomination.
pub fn denom_is_valid(s: &str) -> (r: bool)
    ensures
        r == valid_denom(s@),
{
    parse_denom(s).is_ok()
}

impl Coin {
    /// The protobuf form of this coin: the amount as decimal text.
    pub fn to_proto(&self) -> (p: ProtoCoin)
        ensures
            p.amount@ == decimal(self.amount as nat),
            p.denom@ == self.denom@,
    {
        ProtoCoin { amount: u64_to_decimal(self.amount), denom: self.denom.clone() }
    }

    /// Reads a protobuf coin; fails when its amount is not `u64` decimal text.
    pub fn try_from_proto(coin: &ProtoCoin) -> (r: Result<Coin, TxError>)
        ensures
            parse_u64_spec(coin.amount@) matches Ok(v) ==> (r matches Ok(c) && c.amount == v
                && c.denom@ == coin.denom@),
            parse_u64_spec(coin.amount@) matches Err(k) ==> (r matches Err(TxError::FeeParsing(m))
                && m@ == int_error_message(k)),
    {
        match parse_u64(coin.amount.as_str()) {
            Ok(v) => Ok(Coin { amount: v, denom: coin.denom.clone() }),
            Err(k) => Err(TxError::FeeParsing(int_error_message_text(k))),
        }
    }

    /// Checks that this coin can be sent on chain: its denomination must be one
    /// `cosmrs::Denom` accepts. The coin comes back unchanged.
    pub fn to_chain_coin(&self) -> (r: Result<Coin, TxError>)
        ensures
            r is Ok <==> valid_denom(self.denom@),
            r matches Ok(c) ==> c.deep_view() == self.deep_view(),
            r matches Err(TxError::FeeParsing(m)) ==> m@ == denom_error_text(self.denom@),
            r is Err ==> r matches Err(TxError::FeeParsing(_)),
    {
        match parse_denom(self.denom.as_str()) {
            Ok(()) => Ok(self.clone()),
            Err(m) => Err(TxError::FeeParsing(m)),
        }
    }
}

/// The text of std's `ParseIntError` of each kind.
pub fn int_error_message_text(k: IntErrorKind) -> (m: String)
    ensures
        m@ == int_error_message(k),
{
    match k {
        IntErrorKind::Empty => String::from_str("cannot parse integer from empty string"),
        IntErrorKind::InvalidDigit => String::from_str("invalid digit found in string"),
        IntErrorKind::PosOverflow => String::from_str("number too large to fit in target type"),
    }
}

/// The index of the first coin whose denomination is invalid, or the length.
pub open spec fn first_invalid_coin(coins: Seq<CoinView>) -> int
    decreases coins.len(),
{
    if coins.len() == 0 {
        0
    } else if !valid_denom(coins[0].denom) {
        0
    } else {
        1 + first_invalid_coin(coins.drop_first())
    }
}

impl MultiSendIo {
    /// Checks that this input or output can be sent on chain: the address must
    /// parse as an account id, then each coin's denomination must be valid, in
    /// order; the first failure is reported. On success the address comes back
    /// as the chain writes it, with the same coins.
    pub fn to_chain_io(&self) -> (r: Result<MultiSendIo, TxError>)
        ensures
            account_id_parse(self.address@) is Err ==> (r matches Err(TxError::FeeParsing(m))
                && account_id_parse(self.address@) == Err::<(Seq<char>, Seq<char>), Seq<char>>(m@)),
            account_id_parse(self.address@) is Ok && first_invalid_coin(self.coins.deep_view())
                < self.coins.len() ==> (r matches Err(TxError::FeeParsing(m)) && m@ == denom_error_text(
                self.coins.deep_view()[first_invalid_coin(self.coins.deep_view())].denom)),
            account_id_parse(self.address@) is Ok && first_invalid_coin(self.coins.deep_view())
                >= self.coins.len() ==> (r matches Ok(io) && io.address@ == account_id_parse(self.address@)->Ok_0.0
                && io.coins.deep_view() == self.coins.deep_view()),
    {
        let id = match parse_account_id(self.address.as_str()) {
            Err(m) => { return Err(TxError::FeeParsing(m)); },
            Ok((id, _)) => id,
        };
        assert(account_id_parse(self.address@) is Ok);
        let ghost cs = self.coins.deep_view();
        let mut i: usize = 0;
        while i < self.coins.len()
            invariant
                cs == self.coins.deep_view(),
                account_id_parse(self.address@) is Ok,
                i <= self.coins.len(),
                forall|j: int| 0 <= j < i ==> valid_denom(#[trigger] cs[j].denom),
            decreases self.coins.len() - i,
        {
            match self.coins[i].to_chain_coin() {
                Err(e) => {
                    proof { lemma_first_invalid_coin(cs, i as int); }
                    return Err(e);
                },
                Ok(_) => {},
            }
            i = i + 1;
        }
        proof { lemma_first_invalid_coin_none(cs); }
        let copy = self.clone();
        Ok(MultiSendIo { address: id, coins: copy.coins })
    }
}

proof fn lemma_first_invalid_coin(cs: Seq<CoinView>, i: int)
    requires
        0 <= i < cs.len(),
        !valid_denom(cs[i].denom),
        forall|j: int| 0 <= j < i ==> valid_denom(#[trigger] cs[j].denom),
    ensures
        first_invalid_coin(cs) == i,
    decreases i,
{
    if i > 0 {
        let t = cs.drop_first();
        assert forall|j: int| 0 <= j < i - 1 implies valid_denom(#[trigger] t[j].denom) by {
            assert(t[j] == cs[j + 1]);
        }
        lemma_first_invalid_coin(t, i - 1);
    }
}

proof fn lemma_first_invalid_coin_none(cs: Seq<CoinView>)
    requires
        forall|j: int| 0 <= j < cs.len() ==> valid_denom(#[trigger] cs[j].denom),
    ensures
        first_invalid_coin(cs) == cs.len(),
    decreases cs.len(),
{
    if cs.len() > 0 {
        let t = cs.drop_first();
        assert forall|j: int| 0 <= j < t.len() implies valid_denom(#[trigger] t[j].denom) by {
            assert(t[j] == cs[j + 1]);
        }
        lemma_first_invalid_coin_none(t);
    }
}

/// A coin survives the trip to its protobuf form and back unchanged.
pub proof fn lemma_coin_proto_round_trip(c: CoinView, p: Seq<char>)
    requires
        p == decimal(c.amount as nat),
    ensures
        parse_u64_spec(p) == Ok::<u64, IntErrorKind>(c.amount),
{
    lemma_decimal_round_trip(c.amount);
}

} // verus!
