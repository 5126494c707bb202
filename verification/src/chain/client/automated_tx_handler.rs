//! Automated transaction files: delegated sends executed by a grantee on a
//! granter's behalf, and batches of plain sends. This module holds the file
//! contents and the decisions: which grants authorize the transfers, and the
//! transfers each file asks for.
use vstd::prelude::*;
use crate::chain::client::authz::{
    decode_generic_authorization, decode_send_authorization, generic_authorization_msg,
    proto_coin_pair, send_authorization_limit, Grant, GrantView,
};
use crate::error::AirdropError;
use crate::text::{parse_u64, parse_u64_spec, str_eq};
use crate::tx::{account_id_parse, parse_account_id, valid_denom, Coin, CoinView, ProtoCoin};

verus! {

/// A delegated transaction file.
#[derive(Debug)]
pub struct DelegatedToml {
    pub sender: DelegatedSender,
    pub transaction: Vec<DelegateTransaction>,
}

/// Who sends in a delegated transaction file, and the fee settings of the
/// authz execution.
#[derive(Debug)]
pub struct DelegatedSender {
    pub grantee_private_key_path: String,
    pub granter_account: String,
    pub denom: String,
    pub gas_fee: u64,
    pub gas_limit: u64,
    pub timeout_height: u32,
    pub memo: String,
}

/// One transfer of a delegated transaction file.
#[derive(Debug)]
pub struct DelegateTransaction {
    pub name: String,
    pub destination_account: String,
    pub amount: u64,
}

/// A batch transaction file.
#[derive(Debug)]
pub struct BatchToml {
    pub sender: BatchSender,
    pub transactions: Vec<BatchTransaction>,
}

/// The key that signs a batch.
#[derive(Debug)]
pub struct BatchSender {
    pub source_private_key_path: String,
}

/// One send of a batch, with its own fee settings.
#[derive(Debug)]
pub struct BatchTransaction {
    pub name: String,
    pub destination_account: String,
    pub amount: u64,
    pub denom: String,
    pub gas_limit: u64,
    pub gas_fee: u64,
    pub timeout_height: u32,
    pub memo: String,
}

/// A bank send to perform: from one account to another, one coin.
#[derive(Debug)]
pub struct SendPlan {
    pub from_address: String,
    pub to_address: String,
    pub amount: Coin,
}

/// A send of a batch, with the fee settings of its own transaction.
#[derive(Debug)]
pub struct BatchSendPlan {
    pub to_address: String,
    pub amount: Coin,
    pub fee: Coin,
    pub gas_limit: u64,
    pub timeout_height: u32,
    pub memo: String,
}

/// What one grant means for a delegated send.
#[derive(Clone, Copy, Debug, PartialEq, Eq, Structural)]
pub enum GrantOutcome {
    /// The grant authorizes the transfers.
    Valid,
    /// The grant does not apply; look further.
    Skip,
    /// Examining the grant cannot complete (undecodable authorization,
    /// unreadable limit, or a clock past what an `i64` holds).
    Aborts,
}

/// The sum of the amounts of `txs`.
pub open spec fn txs_total(txs: Seq<u64>) -> nat
    decreases txs.len(),
{
    if txs.len() == 0 {
        0
    } else {
        txs_total(txs.drop_last()) + txs.last() as nat
    }
}

pub open spec fn tx_amounts(txs: Seq<DelegateTransaction>) -> Seq<u64> {
    txs.map_values(|t: DelegateTransaction| t.amount)
}

/// The total spend limit in `denom` of spend-limit coins `cs`, read left to
/// right, or `None` when an amount in `denom` is not `u64` text or the running
/// total leaves the `u64` range.
pub open spec fn spend_limit_total(cs: Seq<(Seq<char>, Seq<char>)>, denom: Seq<char>) -> Option<nat>
    decreases cs.len(),
{
    if cs.len() == 0 {
        Some(0)
    } else {
        match spend_limit_total(cs.drop_last(), denom) {
            None => None,
            Some(t) => if cs.last().0 == denom {
                match parse_u64_spec(cs.last().1) {
                    Err(_) => None,
                    Ok(v) => if t + v > u64::MAX {
                        None
                    } else {
                        Some((t + v) as nat)
                    },
                }
            } else {
                Some(t)
            },
        }
    }
}

/// What grant `g` means for delegated sends of `total` in `denom` at time
/// `now`: it must not expire within a minute, and carry either a generic
/// authorization for `MsgSend` or a send authorization whose limit in `denom`
/// covers `total`.
pub open spec fn delegated_grant_outcome(g: GrantView, denom: Seq<char>, total: nat, now: nat) -> GrantOutcome {
    if g.expiration is Some && now + 60 > i64::MAX {
        GrantOutcome::Aborts
    } else if g.expiration matches Some(e) && e < now + 60 {
        GrantOutcome::Skip
    } else {
        match g.authorization {
            None => GrantOutcome::Skip,
            Some(a) => if a.0 == "/cosmos.authz.v1beta1.GenericAuthorization"@ {
                match generic_authorization_msg(a.1) {
                    None => GrantOutcome::Aborts,
                    Some(m) => if m == "/cosmos.bank.v1beta1.MsgSend"@ {
                        GrantOutcome::Valid
                    } else {
                        GrantOutcome::Skip
                    },
                }
            } else if a.0 == "/cosmos.bank.v1beta1.SendAuthorization"@ {
                match send_authorization_limit(a.1) {
                    None => GrantOutcome::Aborts,
                    Some(cs) => match spend_limit_total(cs, denom) {
                        None => GrantOutcome::Aborts,
                        Some(t) => if t < total {
                            GrantOutcome::Skip
                        } else {
                            GrantOutcome::Valid
                        },
                    },
                }
            } else {
                GrantOutcome::Skip
            },
        }
    }
}

/// Grants examined in order: the outcome of the first that does not skip.
pub open spec fn delegated_grant_scan(gs: Seq<GrantView>, denom: Seq<char>, total: nat, now: nat) -> GrantOutcome
    decreases gs.len(),
{
    if gs.len() == 0 {
        GrantOutcome::Skip
    } else {
        let o = delegated_grant_outcome(gs[0], denom, total, now);
        if o == GrantOutcome::Skip {
            delegated_grant_scan(gs.drop_first(), denom, total, now)
        } else {
            o
        }
    }
}

/// The sum of the transfer amounts of a delegated file.
pub fn transactions_total(txs: &Vec<DelegateTransaction>) -> (r: u64)
    requires
        txs_total(tx_amounts(txs@)) <= u64::MAX,
    ensures
        r == txs_total(tx_amounts(txs@)),
{
    let mut total: u64 = 0;
    let mut i: usize = 0;
    while i < txs.len()
        invariant
            i <= txs.len(),
            txs_total(tx_amounts(txs@)) <= u64::MAX,
            total == txs_total(tx_amounts(txs@).take(i as int)),
        decreases txs.len() - i,
    {
        proof {
            let a = tx_amounts(txs@);
            assert(a.take(i + 1).drop_last() == a.take(i as int));
            lemma_txs_total_prefix(a, i + 1);
        }
        total = total + txs[i].amount;
        i = i + 1;
    }
    assert(tx_amounts(txs@).take(txs.len() as int) == tx_amounts(txs@));
    total
}

/// The sum of the transfer amounts of a delegated file, or `None` when it
/// leaves the `u64` range.
pub fn try_transactions_total(txs: &Vec<DelegateTransaction>) -> (r: Option<u64>)
    ensures
        r is Some <==> txs_total(tx_amounts(txs@)) <= u64::MAX,
        r matches Some(t) ==> t == txs_total(tx_amounts(txs@)),
{
    let ghost a = tx_amounts(txs@);
    let mut total: u64 = 0;
    let mut i: usize = 0;
    while i < txs.len()
        invariant
            a == tx_amounts(txs@),
            i <= txs.len(),
            total == txs_total(a.take(i as int)),
        decreases txs.len() - i,
    {
        proof {
            assert(a.take(i + 1).drop_last() == a.take(i as int));
        }
        match total.checked_add(txs[i].amount) {
            Some(t) => {
                total = t;
            },
            None => {
                proof {
                    lemma_txs_total_prefix(a, i + 1);
                }
                return None;
            },
        }
        i = i + 1;
    }
    assert(a.take(txs.len() as int) == a);
    Some(total)
}

/// A prefix never sums to more than the whole.
pub proof fn lemma_txs_total_prefix(a: Seq<u64>, k: int)
    requires
        0 <= k <= a.len(),
    ensures
        txs_total(a.take(k)) <= txs_total(a),
    decreases a.len() - k,
{
    if k < a.len() {
        lemma_txs_total_prefix(a, k + 1);
        assert(a.take(k + 1).drop_last() == a.take(k));
    } else {
        assert(a.take(k) == a);
    }
}

/// Sums the spend limits in `denom`, as `spend_limit_total` describes.
fn spend_limit_in_denom(coins: &Vec<ProtoCoin>, denom: &str) -> (r: Option<u64>)
    ensures
        r is None <==> spend_limit_total(coins@.map_values(|c: ProtoCoin| proto_coin_pair(c)), denom@) is None,
        r is Some ==> spend_limit_total(coins@.map_values(|c: ProtoCoin| proto_coin_pair(c)), denom@)
            == Some(r->Some_0 as nat),
{
    let ghost cs = coins@.map_values(|c: ProtoCoin| proto_coin_pair(c));
    let mut total: u64 = 0;
    let mut i: usize = 0;
    while i < coins.len()
        invariant
            cs == coins@.map_values(|c: ProtoCoin| proto_coin_pair(c)),
            i <= coins.len(),
            spend_limit_total(cs.take(i as int), denom@) == Some(total as nat),
        decreases coins.len() - i,
    {
        let ghost pre = cs.take(i as int);
        let ghost post = cs.take(i + 1);
        assert(post.drop_last() == pre);
        assert(post.last() == (coins@[i as int].denom@, coins@[i as int].amount@));
        if str_eq(coins[i].denom.as_str(), denom) {
            match parse_u64(coins[i].amount.as_str()) {
                Err(_) => {
                    proof { lemma_spend_limit_none_persists(cs, i + 1, denom@); }
                    return None;
                },
                Ok(v) => match total.checked_add(v) {
                    None => {
                        proof { lemma_spend_limit_none_persists(cs, i + 1, denom@); }
                        return None;
                    },
                    Some(t) => {
                        total = t;
                    },
                },
            }
        }
        i = i + 1;
    }
    assert(cs.take(coins.len() as int) == cs);
    Some(total)
}

proof fn lemma_spend_limit_none_persists(cs: Seq<(Seq<char>, Seq<char>)>, k: int, denom: Seq<char>)
    requires
        0 <= k <= cs.len(),
        spend_limit_total(cs.take(k), denom) is None,
    ensures
        spend_limit_total(cs, denom) is None,
    decreases cs.len() - k,
{
    if k < cs.len() {
        assert(cs.take(k + 1).drop_last() == cs.take(k));
        lemma_spend_limit_none_persists(cs, k + 1, denom);
    } else {
        assert(cs.take(k) == cs);
    }
}

/// A grant with no expiration that carries a generic authorization for
/// `MsgSend` authorizes delegated sends of any coin, any total, at any time.
pub proof fn lemma_unexpiring_send_grant_is_valid(g: GrantView, denom: Seq<char>, total: nat, now: nat)
    ensures
        (g.expiration is None && (g.authorization matches Some(a) && a.0
            == "/cosmos.authz.v1beta1.GenericAuthorization"@ && generic_authorization_msg(a.1) == Some(
            "/cosmos.bank.v1beta1.MsgSend"@,
        ))) ==> delegated_grant_outcome(g, denom, total, now) == GrantOutcome::Valid,
{
}

/// The expiration only decides when it is present: a grant without one is
/// treated as the same grant expiring at any time `e` at least a minute after
/// `now`.
pub proof fn lemma_missing_expiration_never_expires(g: GrantView, denom: Seq<char>, total: nat, now: nat, e: i64)
    requires
        g.expiration is None,
        now + 60 <= e,
    ensures
        delegated_grant_outcome(g, denom, total, now) == delegated_grant_outcome(
            GrantView { authorization: g.authorization, expiration: Some(e) },
            denom,
            total,
            now,
        ),
{
}

/// Examines one grant, as `delegated_grant_outcome` describes.
pub fn delegated_grant_outcome_of(g: &Grant, denom: &str, total: u64, now: u64) -> (r: GrantOutcome)
    ensures
        r == delegated_grant_outcome(g.deep_view(), denom@, total as nat, now as nat),
        (g.expiration is None && (g.authorization matches Some(a) && a.type_url@
            == "/cosmos.authz.v1beta1.GenericAuthorization"@ && generic_authorization_msg(a.value@) == Some(
            "/cosmos.bank.v1beta1.MsgSend"@,
        ))) ==> r == GrantOutcome::Valid,
{
    proof {
        lemma_unexpiring_send_grant_is_valid(g.deep_view(), denom@, total as nat, now as nat);
    }
    match &g.expiration {
        Some(exp) => {
            if now > 9223372036854775807u64 - 60 {
                return GrantOutcome::Aborts;
            }
            let cutoff: i64 = (now + 60) as i64;
            if exp.seconds < cutoff {
                return GrantOutcome::Skip;
            }
        },
        None => {},
    }
    match &g.authorization {
        None => GrantOutcome::Skip,
        Some(a) => {
            if str_eq(a.type_url.as_str(), "/cosmos.authz.v1beta1.GenericAuthorization") {
                match decode_generic_authorization(&a.value) {
                    None => GrantOutcome::Aborts,
                    Some(m) => if str_eq(m.as_str(), "/cosmos.bank.v1beta1.MsgSend") {
                        GrantOutcome::Valid
                    } else {
                        GrantOutcome::Skip
                    },
                }
            } else if str_eq(a.type_url.as_str(), "/cosmos.bank.v1beta1.SendAuthorization") {
                match decode_send_authorization(&a.value) {
                    None => GrantOutcome::Aborts,
                    Some(cs) => match spend_limit_in_denom(&cs, denom) {
                        None => GrantOutcome::Aborts,
                        Some(t) => if t < total {
                            GrantOutcome::Skip
                        } else {
                            GrantOutcome::Valid
                        },
                    },
                }
            } else {
                GrantOutcome::Skip
            }
        },
    }
}

/// Examines `grants` in order, as `delegated_grant_scan` describes.
pub fn delegated_grant_scan_of(grants: &Vec<Grant>, denom: &str, total: u64, now: u64) -> (r: GrantOutcome)
    ensures
        r == delegated_grant_scan(grants.deep_view(), denom@, total as nat, now as nat),
{
    let ghost gs = grants.deep_view();
    assert(gs.subrange(0, gs.len() as int) == gs);
    let mut i: usize = 0;
    while i < grants.len()
        invariant
            gs == grants.deep_view(),
            i <= grants.len(),
            delegated_grant_scan(gs.subrange(i as int, gs.len() as int), denom@, total as nat, now as nat)
                == delegated_grant_scan(gs, denom@, total as nat, now as nat),
        decreases grants.len() - i,
    {
        let ghost rest = gs.subrange(i as int, gs.len() as int);
        assert(rest[0] == grants[i as int].deep_view());
        assert(rest.drop_first() == gs.subrange(i + 1, gs.len() as int));
        let o = delegated_grant_outcome_of(&grants[i], denom, total, now);
        if o != GrantOutcome::Skip {
            return o;
        }
        i = i + 1;
    }
    assert(gs.subrange(i as int, gs.len() as int).len() == 0);
    GrantOutcome::Skip
}

/// Whether `grants` hold one that authorizes delegated sends of `total` in
/// `denom` at time `now`: grants are examined in order until one is valid.
pub fn delegated_grant_found(grants: &Vec<Grant>, denom: &str, total: u64, now: u64) -> (r: bool)
    requires
        delegated_grant_scan(grants.deep_view(), denom@, total as nat, now as nat) != GrantOutcome::Aborts,
    ensures
        r == (delegated_grant_scan(grants.deep_view(), denom@, total as nat, now as nat) == GrantOutcome::Valid),
{
    delegated_grant_scan_of(grants, denom, total, now) == GrantOutcome::Valid
}

/// Like `delegated_grant_found`, for any grants: `None` when examining them
/// cannot complete.
pub fn check_delegated_grants(grants: &Vec<Grant>, denom: &str, total: u64, now: u64) -> (r: Option<bool>)
    ensures
        r is None <==> delegated_grant_scan(grants.deep_view(), denom@, total as nat, now as nat)
            == GrantOutcome::Aborts,
        r is Some ==> r->Some_0 == (delegated_grant_scan(grants.deep_view(), denom@, total as nat, now as nat)
            == GrantOutcome::Valid),
{
    if delegated_grant_scan_of(grants, denom, total, now) == GrantOutcome::Aborts {
        None
    } else {
        Some(delegated_grant_found(grants, denom, total, now))
    }
}

/// The error when no grant authorizes the delegated sends.
pub fn missing_send_grant_error() -> (e: AirdropError)
    ensures
        e matches AirdropError::Authorization(m) && m@ == "/cosmos.bank.v1beta1.MsgSend"@,
{
    AirdropError::Authorization(String::from_str("/cosmos.bank.v1beta1.MsgSend"))
}

/// The granter's account of a delegated file, checked as an account address.
pub fn parse_granter_account(toml: &DelegatedToml) -> (r: Result<String, AirdropError>)
    ensures
        account_id_parse(toml.sender.granter_account@) is Ok ==> (r is Ok && r->Ok_0@
            == account_id_parse(toml.sender.granter_account@)->Ok_0.0),
        account_id_parse(toml.sender.granter_account@) is Err ==> (r matches Err(AirdropError::KeyHandling(m))
            && m@ == account_id_parse(toml.sender.granter_account@)->Err_0),
{
    match parse_account_id(toml.sender.granter_account.as_str()) {
        Ok((id, _)) => Ok(id),
        Err(m) => Err(AirdropError::KeyHandling(m)),
    }
}

/// The sends a delegated file asks for, from `granter`: the first destination
/// that is not an account address stops it with its error.
pub open spec fn delegated_sends_spec(granter: Seq<char>, toml_denom: Seq<char>, txs: Seq<DelegateTransaction>) -> Result<Seq<(Seq<char>, Seq<char>, CoinView)>, Seq<char>>
    decreases txs.len(),
{
    if txs.len() == 0 {
        Ok(Seq::empty())
    } else {
        match delegated_sends_spec(granter, toml_denom, txs.drop_last()) {
            Err(e) => Err(e),
            Ok(s) => match account_id_parse(txs.last().destination_account@) {
                Err(e) => Err(e),
                Ok(id) => Ok(s.push((granter, id.0, CoinView { amount: txs.last().amount, denom: toml_denom }))),
            },
        }
    }
}

pub open spec fn send_plan_view(p: SendPlan) -> (Seq<char>, Seq<char>, CoinView) {
    (p.from_address@, p.to_address@, p.amount.deep_view())
}

/// The denomination of a delegated file can be parsed whenever a transfer
/// message gets built: that is, when the first destination is an account.
pub open spec fn delegated_denom_usable(toml: DelegatedToml) -> bool {
    toml.transaction@.len() > 0 && account_id_parse(toml.transaction@[0].destination_account@) is Ok
        ==> valid_denom(toml.sender.denom@)
}

/// The sends of a delegated file, each from `granter`, in file order.
pub fn plan_delegated_sends(granter: &str, toml: &DelegatedToml) -> (r: Result<Vec<SendPlan>, AirdropError>)
    requires
        delegated_denom_usable(*toml),
    ensures
        delegated_sends_spec(granter@, toml.sender.denom@, toml.transaction@) is Ok ==> (r is Ok
            && r->Ok_0@.map_values(|p: SendPlan| send_plan_view(p)) == delegated_sends_spec(
            granter@,
            toml.sender.denom@,
            toml.transaction@,
        )->Ok_0),
        delegated_sends_spec(granter@, toml.sender.denom@, toml.transaction@) is Err ==> (r matches Err(
            AirdropError::KeyHandling(m),
        ) && m@ == delegated_sends_spec(granter@, toml.sender.denom@, toml.transaction@)->Err_0),
{
    let txs = &toml.transaction;
    let mut plans: Vec<SendPlan> = Vec::new();
    let mut i: usize = 0;
    while i < txs.len()
        invariant
            txs == &toml.transaction,
            i <= txs.len(),
            delegated_sends_spec(granter@, toml.sender.denom@, txs@.take(i as int)) is Ok,
            plans@.map_values(|p: SendPlan| send_plan_view(p)) == delegated_sends_spec(
                granter@,
                toml.sender.denom@,
                txs@.take(i as int),
            )->Ok_0,
        decreases txs.len() - i,
    {
        let ghost pre = txs@.take(i as int);
        let ghost post = txs@.take(i + 1);
        assert(post.drop_last() == pre);
        assert(post.last() == txs@[i as int]);
        match parse_account_id(txs[i].destination_account.as_str()) {
            Err(m) => {
                proof { lemma_delegated_err_persists(granter@, toml.sender.denom@, txs@, i + 1); }
                return Err(AirdropError::KeyHandling(m));
            },
            Ok((id, _)) => {
                let p = SendPlan {
                    from_address: String::from_str(granter),
                    to_address: id,
                    amount: Coin { amount: txs[i].amount, denom: toml.sender.denom.clone() },
                };
                let ghost old_plans = plans@;
                plans.push(p);
                assert(plans@.map_values(|p: SendPlan| send_plan_view(p)) =~= old_plans.map_values(
                    |p: SendPlan| send_plan_view(p),
                ).push(send_plan_view(p)));
            },
        }
        i = i + 1;
    }
    assert(txs@.take(txs.len() as int) == txs@);
    Ok(plans)
}

proof fn lemma_delegated_err_persists(granter: Seq<char>, denom: Seq<char>, txs: Seq<DelegateTransaction>, k: int)
    requires
        0 <= k <= txs.len(),
        delegated_sends_spec(granter, denom, txs.take(k)) is Err,
    ensures
        delegated_sends_spec(granter, denom, txs) == delegated_sends_spec(granter, denom, txs.take(k)),
    decreases txs.len() - k,
{
    if k < txs.len() {
        assert(txs.take(k + 1).drop_last() == txs.take(k));
        lemma_delegated_err_persists(granter, denom, txs, k + 1);
    } else {
        assert(txs.take(k) == txs);
    }
}

/// The fee of a delegated file's authz execution: its gas fee in its
/// denomination.
pub fn delegated_fee(toml: &DelegatedToml) -> (c: Coin)
    requires
        valid_denom(toml.sender.denom@),
    ensures
        c.amount == toml.sender.gas_fee,
        c.denom@ == toml.sender.denom@,
{
    Coin { amount: toml.sender.gas_fee, denom: toml.sender.denom.clone() }
}

/// The send of one batch transaction: its destination must be an account
/// address; its amount and fee are in its own denomination.
pub fn plan_batch_send(tx: &BatchTransaction) -> (r: Result<BatchSendPlan, AirdropError>)
    requires
        account_id_parse(tx.destination_account@) is Ok ==> valid_denom(tx.denom@),
    ensures
        account_id_parse(tx.destination_account@) is Err ==> (r matches Err(AirdropError::KeyHandling(m))
            && m@ == account_id_parse(tx.destination_account@)->Err_0),
        account_id_parse(tx.destination_account@) is Ok ==> (r matches Ok(p)
            && p.to_address@ == account_id_parse(tx.destination_account@)->Ok_0.0
            && p.amount.amount == tx.amount && p.amount.denom@ == tx.denom@
            && p.fee.amount == tx.gas_fee && p.fee.denom@ == tx.denom@
            && p.gas_limit == tx.gas_limit && p.timeout_height == tx.timeout_height
            && p.memo@ == tx.memo@),
{
    match parse_account_id(tx.destination_account.as_str()) {
        Err(m) => Err(AirdropError::KeyHandling(m)),
        Ok((id, _)) => Ok(BatchSendPlan {
            to_address: id,
            amount: Coin { amount: tx.amount, denom: tx.denom.clone() },
            fee: Coin { amount: tx.gas_fee, denom: tx.denom.clone() },
            gas_limit: tx.gas_limit,
            timeout_height: tx.timeout_height,
            memo: tx.memo.clone(),
        }),
    }
}

/// Like `plan_batch_send`, for any transaction: `None` when its destination is
/// an account but its denomination is not one the chain accepts.
pub fn try_plan_batch_send(tx: &BatchTransaction) -> (r: Option<Result<BatchSendPlan, AirdropError>>)
    ensures
        r is None <==> (account_id_parse(tx.destination_account@) is Ok && !valid_denom(tx.denom@)),
        r is Some ==> (account_id_parse(tx.destination_account@) is Err ==> (r->Some_0 matches Err(
            AirdropError::KeyHandling(m),
        ) && m@ == account_id_parse(tx.destination_account@)->Err_0)),
        r is Some ==> (account_id_parse(tx.destination_account@) is Ok ==> (r->Some_0 matches Ok(p)
            && p.to_address@ == account_id_parse(tx.destination_account@)->Ok_0.0
            && p.amount.amount == tx.amount && p.amount.denom@ == tx.denom@)),
{
    let id = parse_account_id(tx.destination_account.as_str());
    if id.is_ok() && !crate::tx::denom_is_valid(tx.denom.as_str()) {
        None
    } else {
        Some(plan_batch_send(tx))
    }
}

/// Like `plan_delegated_sends`, for any file: `None` when a transfer message
/// would be built with a denomination the chain does not accept.
pub fn try_plan_delegated_sends(granter: &str, toml: &DelegatedToml) -> (r: Option<Result<Vec<SendPlan>, AirdropError>>)
    ensures
        r is None <==> !delegated_denom_usable(*toml),
        r is Some ==> (delegated_sends_spec(granter@, toml.sender.denom@, toml.transaction@) is Ok ==> (
        r->Some_0 is Ok && r->Some_0->Ok_0@.map_values(|p: SendPlan| send_plan_view(p))
            == delegated_sends_spec(granter@, toml.sender.denom@, toml.transaction@)->Ok_0)),
        r is Some ==> (delegated_sends_spec(granter@, toml.sender.denom@, toml.transaction@) is Err ==> (
        r->Some_0 matches Err(AirdropError::KeyHandling(m)) && m@ == delegated_sends_spec(
            granter@,
            toml.sender.denom@,
            toml.transaction@,
        )->Err_0)),
{
    if toml.transaction.len() > 0 {
        let first = parse_account_id(toml.transaction[0].destination_account.as_str());
        if first.is_ok() && !crate::tx::denom_is_valid(toml.sender.denom.as_str()) {
            return None;
        }
    }
    Some(plan_delegated_sends(granter, toml))
}

} // verus!
