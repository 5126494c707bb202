//! Airdrops: turning a list of payments into the single input and the outputs
//! of a multi-send message.
use vstd::prelude::*;
use crate::chain::client::authz::{Grant, GrantView};
use crate::text::{concat_str, str_eq};
use crate::tx::{Coin, CoinView, MultiSendIo, MultiSendIoView, Payment, PaymentView, PaymentsToml};
use crate::error::AirdropError;

verus! {

/// The total amount that the payments `ps` send in denomination `d`.
pub open spec fn denom_total(ps: Seq<PaymentView>, d: Seq<char>) -> nat
    decreases ps.len(),
{
    if ps.len() == 0 {
        0
    } else {
        denom_total(ps.drop_last(), d) + if ps.last().denom == d {
            ps.last().amount as nat
        } else {
            0nat
        }
    }
}

/// The denominations of `ps`, each once, in the order they first appear.
pub open spec fn seen_denoms(ps: Seq<PaymentView>) -> Seq<Seq<char>>
    decreases ps.len(),
{
    if ps.len() == 0 {
        Seq::empty()
    } else {
        let s = seen_denoms(ps.drop_last());
        if s.contains(ps.last().denom) {
            s
        } else {
            s.push(ps.last().denom)
        }
    }
}

/// No payment denomination's total exceeds what a `u64` holds.
pub open spec fn totals_fit(ps: Seq<PaymentView>) -> bool {
    forall|i: int| 0 <= i < ps.len() ==> denom_total(ps, #[trigger] ps[i].denom) <= u64::MAX
}

/// The coins of the single input: one per denomination, first-seen order,
/// each carrying the denomination's total.
pub open spec fn input_coins(ps: Seq<PaymentView>) -> Seq<CoinView> {
    seen_denoms(ps).map_values(|d: Seq<char>| CoinView { amount: denom_total(ps, d) as u64, denom: d })
}

/// The output that pays `p`: its recipient receives one coin.
pub open spec fn output_for(p: PaymentView) -> MultiSendIoView {
    MultiSendIoView { address: p.recipient, coins: seq![CoinView { amount: p.amount, denom: p.denom }] }
}

/// The inputs and outputs of the multi-send that makes the payments `ps` from
/// `sender`.
pub open spec fn multi_send_args_spec(sender: Seq<char>, ps: Seq<PaymentView>) -> (Seq<MultiSendIoView>, Seq<MultiSendIoView>) {
    (
        seq![MultiSendIoView { address: sender, coins: input_coins(ps) }],
        ps.map_values(|p: PaymentView| output_for(p)),
    )
}

/// The total that coins `cs` hold in denomination `d`.
pub open spec fn coins_total(cs: Seq<CoinView>, d: Seq<char>) -> nat
    decreases cs.len(),
{
    if cs.len() == 0 {
        0
    } else {
        coins_total(cs.drop_last(), d) + if cs.last().denom == d {
            cs.last().amount as nat
        } else {
            0nat
        }
    }
}

/// The total that inputs or outputs `ios` move in denomination `d`.
pub open spec fn ios_total(ios: Seq<MultiSendIoView>, d: Seq<char>) -> nat
    decreases ios.len(),
{
    if ios.len() == 0 {
        0
    } else {
        ios_total(ios.drop_last(), d) + coins_total(ios.last().coins, d)
    }
}

/// A grant that authorizes a multi-send: it has no expiration or expires
/// more than a minute after `now` (seconds since the Unix epoch), and it
/// carries a generic authorization.
pub open spec fn multi_send_grant_valid(g: GrantView, now: nat) -> bool {
    &&& (g.expiration is None || (g.expiration matches Some(exp) && exp > now + 60))
    &&& g.authorization matches Some(a) && a.0 == "/cosmos.authz.v1beta1.GenericAuthorization"@
}

/// The clock reading is one the grant check can use whenever some grant has an
/// expiration: a minute past it still fits an `i64`.
pub open spec fn clock_fits_grants(grants: Seq<GrantView>, now: nat) -> bool {
    (exists|i: int| 0 <= i < grants.len() && (#[trigger] grants[i]).expiration is Some) ==> now + 60
        <= i64::MAX
}

/// Whether some grant among `grants` authorizes a multi-send at time `now`.
pub fn has_multi_send_grant(grants: &Vec<Grant>, now: u64) -> (r: bool)
    requires
        clock_fits_grants(grants.deep_view(), now as nat),
    ensures
        r == exists|i: int| 0 <= i < grants.len() && multi_send_grant_valid(
            #[trigger] grants.deep_view()[i],
            now as nat,
        ),
{
    let ghost gs = grants.deep_view();
    let mut i: usize = 0;
    while i < grants.len()
        invariant
            gs == grants.deep_view(),
            clock_fits_grants(gs, now as nat),
            i <= grants.len(),
            forall|j: int| 0 <= j < i ==> !multi_send_grant_valid(#[trigger] gs[j], now as nat),
        decreases grants.len() - i,
    {
        let g = &grants[i];
        assert(g.deep_view() == gs[i as int]);
        let unexpired = match &g.expiration {
            None => true,
            Some(exp) => {
                assert(gs[i as int].expiration is Some);
                let cutoff: i64 = (now + 60) as i64;
                exp.seconds > cutoff
            },
        };
        if unexpired {
            match &g.authorization {
                None => {},
                Some(a) => {
                    if str_eq(a.type_url.as_str(), "/cosmos.authz.v1beta1.GenericAuthorization") {
                        assert(multi_send_grant_valid(gs[i as int], now as nat));
                        return true;
                    }
                },
            }
        }
        i = i + 1;
    }
    false
}

/// The message when no grant authorizes `grantee` to multi-send for `granter`.
pub open spec fn unauthorized_multi_send_message(granter: Seq<char>, grantee: Seq<char>) -> Seq<char> {
    "no relevant grant exists for "@ + grantee + " on behalf of "@ + granter
}

/// Verifies that `grants` (those from `granter` to `grantee` for multi-send)
/// hold one that authorizes the transaction at time `now`; otherwise the error
/// names both accounts.
pub fn verify_multi_send_grant(grants: &Vec<Grant>, now: u64, granter: &str, grantee: &str) -> (r: Result<(), String>)
    requires
        clock_fits_grants(grants.deep_view(), now as nat),
    ensures
        r is Ok <==> exists|i: int| 0 <= i < grants.len() && multi_send_grant_valid(
            #[trigger] grants.deep_view()[i],
            now as nat,
        ),
        r is Err ==> r->Err_0@ == unauthorized_multi_send_message(granter@, grantee@),
{
    if has_multi_send_grant(grants, now) {
        Ok(())
    } else {
        let a = concat_str("no relevant grant exists for ", grantee);
        let b = concat_str(a.as_str(), " on behalf of ");
        Err(concat_str(b.as_str(), granter))
    }
}

/// Creates the arguments of a multi-send transaction from a list of payments:
/// one input from `sender_addr` holding the total of each denomination, and
/// one output per payment, in payment order. A single input keeps the
/// transaction to one signer, as authz execution requires.
pub fn multi_send_args_from_payments(sender_addr: &str, payments: Vec<Payment>) -> (r: (Vec<MultiSendIo>, Vec<MultiSendIo>))
    requires
        totals_fit(payments.deep_view()),
    ensures
        (r.0.deep_view(), r.1.deep_view()) == multi_send_args_spec(sender_addr@, payments.deep_view()),
{
    let ghost ps = payments.deep_view();
    let mut outputs: Vec<MultiSendIo> = Vec::new();
    let mut totals: Vec<Coin> = Vec::new();
    let mut i: usize = 0;
    while i < payments.len()
        invariant
            ps == payments.deep_view(),
            totals_fit(ps),
            i <= payments.len(),
            outputs.deep_view() == ps.take(i as int).map_values(|p: PaymentView| output_for(p)),
            totals.deep_view() == input_coins(ps.take(i as int)),
        decreases payments.len() - i,
    {
        let p = &payments[i];
        let ghost pre = ps.take(i as int);
        let ghost post = ps.take(i + 1);
        assert(post.drop_last() == pre);
        assert(post.last() == p.deep_view());
        let mut coins: Vec<Coin> = Vec::new();
        coins.push(Coin { amount: p.amount, denom: p.denom.clone() });
        assert(coins.deep_view() =~= seq![CoinView { amount: p.amount, denom: p.denom@ }]);
        let io = MultiSendIo { address: p.recipient.clone(), coins };
        assert(io.deep_view() == output_for(p.deep_view()));
        let ghost old_outputs = outputs.deep_view();
        outputs.push(io);
        assert(outputs.deep_view() =~= old_outputs.push(output_for(p.deep_view())));
        assert(post.map_values(|p: PaymentView| output_for(p)) =~= pre.map_values(|p: PaymentView| output_for(p)).push(output_for(p.deep_view())));

        proof {
            lemma_seen_denoms_distinct(pre);
            lemma_denom_total_prefix(ps, i + 1, p.denom@);
            assert(ps.take(i + 1) == post);
            assert(ps[i as int].denom == p.denom@);
        }
        let found = find_denom(&totals, p.denom.as_str());
        match found {
            Some(k) => {
                let old_amount = totals[k].amount;
                proof {
                    assert(totals.deep_view().len() == totals@.len());
                    assert(input_coins(pre)[k as int] == CoinView {
                        amount: denom_total(pre, seen_denoms(pre)[k as int]) as u64,
                        denom: seen_denoms(pre)[k as int],
                    });
                    assert(totals.deep_view()[k as int].denom == seen_denoms(pre)[k as int]);
                    assert(seen_denoms(pre).contains(p.denom@));
                    assert(seen_denoms(post) == seen_denoms(pre));
                    assert(old_amount == denom_total(pre, p.denom@));
                }
                let new_amount = old_amount + p.amount;
                let c = Coin { amount: new_amount, denom: p.denom.clone() };
                let ghost old_totals = totals.deep_view();
                totals.set(k, c);
                proof {
                    lemma_totals_step(pre, p.deep_view());
                    assert(post == pre.push(p.deep_view()));
                    assert(totals.deep_view() =~= old_totals.update(k as int, c.deep_view()));
                    assert forall|j: int| 0 <= j < totals.deep_view().len() implies totals.deep_view()[j]
                        == input_coins(post)[j] by {
                        let d = seen_denoms(pre)[j];
                        assert(input_coins(post)[j] == CoinView {
                            amount: denom_total(post, d) as u64,
                            denom: d,
                        });
                        assert(input_coins(pre)[j] == CoinView { amount: denom_total(pre, d) as u64, denom: d });
                        assert(denom_total(post, d) == denom_total(pre, d) + if d == p.denom@ {
                            p.amount as nat
                        } else {
                            0nat
                        });
                        if j != k {
                            assert(d != seen_denoms(pre)[k as int]);
                        }
                    }
                }
                assert(totals.deep_view() =~= input_coins(post));
            },
            None => {
                proof {
                    assert(totals.deep_view().len() == seen_denoms(pre).len());
                    assert forall|j: int| 0 <= j < seen_denoms(pre).len() implies seen_denoms(pre)[j] != p.denom@ by {
                        assert(totals.deep_view()[j] == input_coins(pre)[j]);
                        assert(totals.deep_view()[j].denom != p.denom@);
                        assert(input_coins(pre)[j] == CoinView {
                            amount: denom_total(pre, seen_denoms(pre)[j]) as u64,
                            denom: seen_denoms(pre)[j],
                        });
                        assert(totals.deep_view()[j].denom == seen_denoms(pre)[j]);
                    }
                    assert(!seen_denoms(pre).contains(p.denom@));
                    assert(seen_denoms(post) == seen_denoms(pre).push(p.denom@));
                    lemma_denom_total_absent(pre, p.denom@);
                }
                let c = Coin { amount: p.amount, denom: p.denom.clone() };
                let ghost old_totals = totals.deep_view();
                totals.push(c);
                proof {
                    lemma_totals_step(pre, p.deep_view());
                    assert(post == pre.push(p.deep_view()));
                    assert(totals.deep_view() =~= old_totals.push(c.deep_view()));
                    assert forall|j: int| 0 <= j < totals.deep_view().len() implies totals.deep_view()[j]
                        == input_coins(post)[j] by {
                        let d = seen_denoms(post)[j];
                        assert(input_coins(post)[j] == CoinView {
                            amount: denom_total(post, d) as u64,
                            denom: d,
                        });
                        assert(denom_total(post, d) == denom_total(pre, d) + if d == p.denom@ {
                            p.amount as nat
                        } else {
                            0nat
                        });
                        if j < old_totals.len() {
                            assert(d == seen_denoms(pre)[j]);
                            assert(input_coins(pre)[j] == CoinView { amount: denom_total(pre, d) as u64, denom: d });
                        }
                    }
                }
                assert(totals.deep_view() =~= input_coins(post));
            },
        }
        i = i + 1;
    }
    assert(ps.take(payments.len() as int) == ps);
    let mut inputs: Vec<MultiSendIo> = Vec::new();
    inputs.push(MultiSendIo { address: String::from_str(sender_addr), coins: totals });
    assert(inputs.deep_view() =~= seq![MultiSendIoView { address: sender_addr@, coins: input_coins(ps) }]);
    (inputs, outputs)
}

/// The total that `payments` send in `denom`, or `None` when it leaves the
/// `u64` range.
pub fn denom_total_checked(payments: &Vec<Payment>, denom: &str) -> (r: Option<u64>)
    ensures
        r is Some <==> denom_total(payments.deep_view(), denom@) <= u64::MAX,
        r matches Some(t) ==> t == denom_total(payments.deep_view(), denom@),
{
    let ghost ps = payments.deep_view();
    let mut total: u64 = 0;
    let mut i: usize = 0;
    while i < payments.len()
        invariant
            ps == payments.deep_view(),
            i <= payments.len(),
            total == denom_total(ps.take(i as int), denom@),
        decreases payments.len() - i,
    {
        proof {
            assert(ps.take(i + 1).drop_last() == ps.take(i as int));
            assert(ps.take(i + 1).last() == payments[i as int].deep_view());
        }
        if str_eq(payments[i].denom.as_str(), denom) {
            match total.checked_add(payments[i].amount) {
                Some(t) => {
                    total = t;
                },
                None => {
                    proof {
                        lemma_denom_total_prefix(ps, i + 1, denom@);
                    }
                    return None;
                },
            }
        }
        i = i + 1;
    }
    assert(ps.take(payments.len() as int) == ps);
    Some(total)
}

/// Whether no denomination's total among `payments` exceeds what a `u64`
/// holds.
pub fn payment_totals_fit(payments: &Vec<Payment>) -> (r: bool)
    ensures
        r == totals_fit(payments.deep_view()),
{
    let ghost ps = payments.deep_view();
    let mut i: usize = 0;
    while i < payments.len()
        invariant
            ps == payments.deep_view(),
            i <= payments.len(),
            forall|k: int| 0 <= k < i ==> denom_total(ps, #[trigger] ps[k].denom) <= u64::MAX,
        decreases payments.len() - i,
    {
        assert(ps[i as int].denom == payments[i as int].denom@);
        if denom_total_checked(payments, payments[i].denom.as_str()).is_none() {
            return false;
        }
        i = i + 1;
    }
    true
}

/// The multi-send arguments of `multi_send_args_from_payments`, or `None` when
/// a denomination's total leaves the `u64` range.
pub fn try_multi_send_args_from_payments(sender_addr: &str, payments: Vec<Payment>) -> (r: Option<
    (Vec<MultiSendIo>, Vec<MultiSendIo>),
>)
    ensures
        r is Some <==> totals_fit(payments.deep_view()),
        r matches Some(a) ==> (a.0.deep_view(), a.1.deep_view()) == multi_send_args_spec(
            sender_addr@,
            payments.deep_view(),
        ),
{
    if payment_totals_fit(&payments) {
        Some(multi_send_args_from_payments(sender_addr, payments))
    } else {
        None
    }
}

/// The position of the coin in denomination `denom`, if there is one.
fn find_denom(coins: &Vec<Coin>, denom: &str) -> (r: Option<usize>)
    ensures
        r matches Some(k) ==> k < coins.len() && coins.deep_view()[k as int].denom == denom@,
        r is None ==> forall|j: int| 0 <= j < coins.len() ==> coins.deep_view()[j].denom != denom@,
{
    let mut j: usize = 0;
    while j < coins.len()
        invariant
            j <= coins.len(),
            forall|q: int| 0 <= q < j ==> coins.deep_view()[q].denom != denom@,
        decreases coins.len() - j,
    {
        if str_eq(coins[j].denom.as_str(), denom) {
            return Some(j);
        }
        j = j + 1;
    }
    None
}

/// No denomination appears twice among those first seen.
pub proof fn lemma_seen_denoms_distinct(ps: Seq<PaymentView>)
    ensures
        forall|a: int, b: int| 0 <= a < b < seen_denoms(ps).len() ==> seen_denoms(ps)[a] != seen_denoms(ps)[b],
    decreases ps.len(),
{
    if ps.len() > 0 {
        lemma_seen_denoms_distinct(ps.drop_last());
        let s = seen_denoms(ps.drop_last());
        if !s.contains(ps.last().denom) {
            assert forall|a: int| 0 <= a < s.len() implies s[a] != ps.last().denom by {
                if s[a] == ps.last().denom {
                    assert(s.contains(ps.last().denom));
                }
            }
        }
    }
}

/// A denomination that was never seen has a zero total.
pub proof fn lemma_denom_total_absent(ps: Seq<PaymentView>, d: Seq<char>)
    requires
        !seen_denoms(ps).contains(d),
    ensures
        denom_total(ps, d) == 0,
    decreases ps.len(),
{
    if ps.len() > 0 {
        let s = seen_denoms(ps.drop_last());
        if s.contains(d) {
            let k = choose|k: int| 0 <= k < s.len() && s[k] == d;
            if !s.contains(ps.last().denom) {
                assert(seen_denoms(ps)[k] == d);
            } else {
                assert(seen_denoms(ps)[k] == d);
            }
        }
        if !s.contains(ps.last().denom) {
            assert(seen_denoms(ps).last() == ps.last().denom);
        }
        lemma_denom_total_absent(ps.drop_last(), d);
    }
}

/// The total of a prefix never exceeds the total of the whole.
pub proof fn lemma_denom_total_prefix(ps: Seq<PaymentView>, k: int, d: Seq<char>)
    requires
        0 <= k <= ps.len(),
    ensures
        denom_total(ps.take(k), d) <= denom_total(ps, d),
    decreases ps.len() - k,
{
    if k < ps.len() {
        lemma_denom_total_prefix(ps, k + 1, d);
        assert(ps.take(k + 1).drop_last() == ps.take(k));
    } else {
        assert(ps.take(k) == ps);
    }
}

/// Adding one payment updates the input coins by one step.
proof fn lemma_totals_step(pre: Seq<PaymentView>, p: PaymentView)
    ensures
        forall|d: Seq<char>| #[trigger] denom_total(pre.push(p), d) == denom_total(pre, d) + if d == p.denom {
            p.amount as nat
        } else {
            0nat
        },
        seen_denoms(pre.push(p)) == if seen_denoms(pre).contains(p.denom) {
            seen_denoms(pre)
        } else {
            seen_denoms(pre).push(p.denom)
        },
{
    assert(pre.push(p).drop_last() == pre);
}

/// The coins built from distinct denominations `s` hold `f(d)` of `d` when `d`
/// is among them, and nothing otherwise.
proof fn lemma_coins_total_distinct(s: Seq<Seq<char>>, ps: Seq<PaymentView>, d: Seq<char>)
    requires
        forall|a: int, b: int| 0 <= a < b < s.len() ==> s[a] != s[b],
        forall|i: int| 0 <= i < s.len() ==> denom_total(ps, #[trigger] s[i]) <= u64::MAX,
    ensures
        coins_total(s.map_values(|x: Seq<char>| CoinView { amount: denom_total(ps, x) as u64, denom: x }), d)
            == if s.contains(d) { denom_total(ps, d) } else { 0 },
    decreases s.len(),
{
    let cs = s.map_values(|x: Seq<char>| CoinView { amount: denom_total(ps, x) as u64, denom: x });
    if s.len() > 0 {
        let t = s.drop_last();
        assert(cs.drop_last() == t.map_values(|x: Seq<char>| CoinView { amount: denom_total(ps, x) as u64, denom: x }));
        assert forall|i: int| 0 <= i < t.len() implies denom_total(ps, #[trigger] t[i]) <= u64::MAX by {
            assert(t[i] == s[i]);
        }
        lemma_coins_total_distinct(t, ps, d);
        assert(denom_total(ps, s[s.len() - 1]) <= u64::MAX);
        if s.last() == d {
            assert(!t.contains(d)) by {
                if t.contains(d) {
                    let k = choose|k: int| 0 <= k < t.len() && t[k] == d;
                    assert(s[k] == s[s.len() - 1]);
                }
            }
        } else {
            assert(s.contains(d) == t.contains(d)) by {
                if s.contains(d) {
                    let k = choose|k: int| 0 <= k < s.len() && s[k] == d;
                    assert(t[k] == d);
                }
                if t.contains(d) {
                    let k = choose|k: int| 0 <= k < t.len() && t[k] == d;
                    assert(s[k] == d);
                }
            }
        }
    }
}

/// The outputs built for payments `ps` move exactly each denomination's total.
proof fn lemma_outputs_total(ps: Seq<PaymentView>, d: Seq<char>)
    ensures
        ios_total(ps.map_values(|p: PaymentView| output_for(p)), d) == denom_total(ps, d),
    decreases ps.len(),
{
    let os = ps.map_values(|p: PaymentView| output_for(p));
    if ps.len() > 0 {
        assert(os.drop_last() == ps.drop_last().map_values(|p: PaymentView| output_for(p)));
        lemma_outputs_total(ps.drop_last(), d);
        assert(os.last() == output_for(ps.last()));
        let c = os.last().coins;
        assert(c.drop_last() =~= Seq::<CoinView>::empty());
        assert(coins_total(c.drop_last(), d) == 0);
        assert(coins_total(c, d) == if ps.last().denom == d { ps.last().amount as nat } else { 0nat });
    }
}

/// A multi-send built from payments neither creates nor loses value: for every
/// denomination, the single input carries exactly what all outputs together
/// pay out.
pub proof fn lemma_multi_send_conserves_value(sender: Seq<char>, ps: Seq<PaymentView>, d: Seq<char>)
    requires
        totals_fit(ps),
    ensures
        ios_total(multi_send_args_spec(sender, ps).0, d) == ios_total(multi_send_args_spec(sender, ps).1, d),
        multi_send_args_spec(sender, ps).0.len() == 1,
        multi_send_args_spec(sender, ps).1.len() == ps.len(),
{
    let args = multi_send_args_spec(sender, ps);
    let s = seen_denoms(ps);
    lemma_seen_denoms_distinct(ps);
    assert forall|i: int| 0 <= i < s.len() implies denom_total(ps, #[trigger] s[i]) <= u64::MAX by {
        lemma_seen_denoms_sources(ps, i);
    }
    lemma_coins_total_distinct(s, ps, d);
    if !s.contains(d) {
        lemma_denom_total_absent(ps, d);
    }
    assert(args.0.drop_last() =~= Seq::<MultiSendIoView>::empty());
    assert(ios_total(args.0.drop_last(), d) == 0);
    assert(args.0.last().coins == input_coins(ps));
    assert(ios_total(args.0, d) == coins_total(input_coins(ps), d));
    lemma_outputs_total(ps, d);
}

/// Each denomination first seen comes from some payment.
proof fn lemma_seen_denoms_sources(ps: Seq<PaymentView>, i: int)
    requires
        0 <= i < seen_denoms(ps).len(),
    ensures
        exists|j: int| 0 <= j < ps.len() && ps[j].denom == seen_denoms(ps)[i],
    decreases ps.len(),
{
    let s = seen_denoms(ps.drop_last());
    if i < s.len() {
        lemma_seen_denoms_sources(ps.drop_last(), i);
        let j = choose|j: int| 0 <= j < ps.drop_last().len() && ps.drop_last()[j].denom == s[i];
        assert(ps[j] == ps.drop_last()[j]);
    } else {
        assert(ps[ps.len() - 1].denom == seen_denoms(ps)[i]);
    }
}

/// The grantee key name of a delegated airdrop's payments file; an error
/// when it names none.
pub fn delegated_grantee_name(toml: &PaymentsToml) -> (r: Result<String, AirdropError>)
    ensures
        toml.grantee_key_name matches Some(g) ==> (r matches Ok(n) && n@ == g@),
        toml.grantee_key_name is None ==> (r matches Err(AirdropError::Toml(m)) && m@
            == "no grantee key name was provided for the delegated airdrop."@),
{
    match &toml.grantee_key_name {
        Some(g) => Ok(g.clone()),
        None => Err(AirdropError::Toml(String::from_str("no grantee key name was provided for the delegated airdrop."))),
    }
}

} // verus!
