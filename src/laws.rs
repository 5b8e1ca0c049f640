use vstd::prelude::*;
use crate::fee::{fraction_of, FeeFraction};
use crate::error::MintError;
use crate::market::{
    referral_registered, shares_total, Contract, MintOutcome, MintRequest, TokenData,
    TIMESTAMP_MAX_INTERVAL,
};

verus! {

/// The seller and both referral fractions together are at most one.
pub open spec fn fractions_fit(s: FeeFraction, r1: FeeFraction, r2: FeeFraction) -> bool {
    s.numerator * r1.denominator * r2.denominator + r1.numerator * s.denominator * r2.denominator
        + r2.numerator * s.denominator * r1.denominator <= s.denominator * r1.denominator
        * r2.denominator
}

proof fn lemma_fraction_times_denominator(x: int, n: int, d: int)
    requires
        0 <= x,
        0 <= n,
        0 < d,
    ensures
        fraction_of(x, n, d) * d <= x * n,
        0 <= fraction_of(x, n, d),
{
    vstd::arithmetic::div_mod::lemma_fundamental_div_mod(x * n, d);
    assert((x * n / d) * d == d * (x * n / d)) by (nonlinear_arith);
    assert(0 <= x * n) by (nonlinear_arith)
        requires 0 <= x, 0 <= n;
    vstd::arithmetic::div_mod::lemma_div_pos_is_pos(x * n, d);
    assert(0 <= (x * n) % d) by {
        vstd::arithmetic::div_mod::lemma_mod_pos_bound(x * n, d);
    }
}

proof fn lemma_regroup(a: int, b: int, c: int, d: int)
    ensures
        a * (b * c * d) == (a * b) * (c * d),
        a * (b * c * d) == (a * c) * (b * d),
        a * (b * c * d) == (a * d) * (b * c),
{
    assert(a * (b * c * d) == (a * b) * (c * d)) by (nonlinear_arith);
    assert(a * (b * c * d) == (a * c) * (b * d)) by (nonlinear_arith);
    assert(a * (b * c * d) == (a * d) * (b * c)) by (nonlinear_arith);
}

/// When the seller and referral fractions add up to at most one, the system
/// share is always paid, and the four shares add up to exactly the price
/// increase: a fee split never pays out more than the increase.
pub proof fn lemma_fee_shares_within_increase(
    c: Contract,
    initial_sale: bool,
    price_increase: u128,
    has_referral_1: bool,
    has_referral_2: bool,
)
    requires
        c.wf(),
        fractions_fit(c.spec_seller_fee(), c.spec_referral_1_fee(), c.spec_referral_2_fee()),
    ensures
        ({
            let shares = c.spec_split_fees(initial_sale, price_increase, has_referral_1, has_referral_2);
            shares.system_fee.is_some() && shares_total(shares) == price_increase
                && shares_total(shares) <= price_increase
        }),
{
    c.lemma_fees_valid();
    let x = price_increase as int;
    let s = c.spec_seller_fee();
    let a = c.spec_referral_1_fee();
    let b = c.spec_referral_2_fee();
    let (ns, ds) = (s.numerator as int, s.denominator as int);
    let (n1, d1) = (a.numerator as int, a.denominator as int);
    let (n2, d2) = (b.numerator as int, b.denominator as int);
    let fs = fraction_of(x, ns, ds);
    let f1 = fraction_of(x, n1, d1);
    let f2 = fraction_of(x, n2, d2);
    lemma_fraction_times_denominator(x, ns, ds);
    lemma_fraction_times_denominator(x, n1, d1);
    lemma_fraction_times_denominator(x, n2, d2);
    let big_d = ds * d1 * d2;
    assert(0 < d1 * d2 && 0 < ds * d2 && 0 < ds * d1 && 0 < big_d) by (nonlinear_arith)
        requires 0 < ds, 0 < d1, 0 < d2, big_d == ds * d1 * d2;
    vstd::arithmetic::mul::lemma_mul_inequality(fs * ds, x * ns, d1 * d2);
    vstd::arithmetic::mul::lemma_mul_inequality(f1 * d1, x * n1, ds * d2);
    vstd::arithmetic::mul::lemma_mul_inequality(f2 * d2, x * n2, ds * d1);
    let weight = ns * d1 * d2 + n1 * ds * d2 + n2 * ds * d1;
    lemma_regroup(fs, ds, d1, d2);
    lemma_regroup(f1, ds, d1, d2);
    lemma_regroup(f2, ds, d1, d2);
    lemma_regroup(x, ns, d1, d2);
    assert((fs + f1 + f2) * big_d == fs * big_d + f1 * big_d + f2 * big_d) by (nonlinear_arith);
    assert(x * ns * (d1 * d2) == x * (ns * d1 * d2)) by (nonlinear_arith);
    assert(x * n1 * (ds * d2) == x * (n1 * ds * d2)) by (nonlinear_arith);
    assert(x * n2 * (ds * d1) == x * (n2 * ds * d1)) by (nonlinear_arith);
    assert(weight * x == x * (ns * d1 * d2) + x * (n1 * ds * d2) + x * (n2 * ds * d1)) by (nonlinear_arith)
        requires weight == ns * d1 * d2 + n1 * ds * d2 + n2 * ds * d1;
    vstd::arithmetic::mul::lemma_mul_inequality(weight, big_d, x);
    assert((fs + f1 + f2) * big_d <= x * big_d) by (nonlinear_arith)
        requires (fs + f1 + f2) * big_d <= big_d * x;
    assert(fs + f1 + f2 <= x) by (nonlinear_arith)
        requires
            (fs + f1 + f2) * big_d <= x * big_d,
            0 < big_d,
    ;
}

/// A resale price never falls, and it rises whenever the increase fraction of
/// the old price is at least one unit.
pub proof fn lemma_resale_price_increases(fee: FeeFraction, price: u128)
    requires
        fee.valid(),
    ensures
        price + fee.spec_multiply(price) >= price,
        fee.numerator * price >= fee.denominator ==> price + fee.spec_multiply(price) > price,
{
    let x = price as int;
    let n = fee.numerator as int;
    let d = fee.denominator as int;
    assert(0 <= x * n) by (nonlinear_arith)
        requires 0 <= x, 0 <= n;
    vstd::arithmetic::div_mod::lemma_div_pos_is_pos(x * n, d);
    assert(x * n / d <= x) by {
        assert(x * n <= x * d) by (nonlinear_arith)
            requires 0 <= x, n <= d;
        vstd::arithmetic::div_mod::lemma_div_is_ordered(x * n, x * d, d);
        vstd::arithmetic::div_mod::lemma_div_multiples_vanish(x, d);
        assert(x * d == d * x) by (nonlinear_arith);
    }
    if n * x >= d {
        assert(x * n == n * x) by (nonlinear_arith);
        vstd::arithmetic::div_mod::lemma_div_is_ordered(d, x * n, d);
        vstd::arithmetic::div_mod::lemma_div_by_self(d);
    }
}

/// A first referrer, once recorded, is kept: offering a second one changes nothing.
pub proof fn lemma_referral_first_write_wins(
    m: Map<Seq<char>, String>,
    account: Seq<char>,
    first: String,
    second: String,
)
    ensures
        referral_registered(referral_registered(m, account, first), account, second)
            == referral_registered(m, account, first),
        referral_registered(m, account, first).contains_key(account),
        !m.contains_key(account) ==> referral_registered(m, account, first)[account] == first,
        m.contains_key(account) ==> referral_registered(m, account, first)[account] == m[account],
{
}

/// After a mint is accepted at block time `accepted_at`, the same request, or
/// any request of that account with a timestamp no later than `accepted_at`,
/// is refused.
pub proof fn lemma_replay_rejected(
    pre: Contract,
    post: Contract,
    accepted_at: u64,
    request: MintRequest,
    signature_ok: bool,
    receiver_id: Seq<char>,
    deposit: u128,
    block_timestamp: u64,
)
    requires
        post.last_action_map() == pre.last_action_map().insert(request.account_id@, accepted_at),
        request.timestamp <= accepted_at,
    ensures
        post.mint_error(request, signature_ok, receiver_id, deposit, block_timestamp).is_some(),
        signature_ok && receiver_id == request.account_id@ && request.timestamp
            + TIMESTAMP_MAX_INTERVAL >= block_timestamp ==> post.mint_error(
            request,
            signature_ok,
            receiver_id,
            deposit,
            block_timestamp,
        ) == Some(MintError::TimestampNotAfterLastAction),
{
}

/// An accepted first mint of a token leaves it at generation 0 and the
/// minimum price, owned by the buyer.
pub proof fn lemma_first_mint_state(
    pre: Contract,
    post: Contract,
    request: MintRequest,
    signature_ok: bool,
    receiver_id: Seq<char>,
    deposit: u128,
    block_timestamp: u64,
    r: Result<MintOutcome, MintError>,
)
    requires
        Contract::mint_effect(pre, post, request, signature_ok, receiver_id, deposit, block_timestamp, r),
        r.is_ok(),
        !pre.is_resale(request.token_id@),
    ensures
        post.spec_token_data(request.token_id@) == (TokenData {
            generation: 0,
            price: pre.spec_min_mint_price(),
        }),
        post.owner_map()[request.token_id@]@ == receiver_id,
        r == Ok::<MintOutcome, MintError>(MintOutcome::Minted),
{
}

/// An accepted mint request records its (token id, timestamp) pair.
pub proof fn lemma_accepted_request_recorded(
    pre: Contract,
    post: Contract,
    request: MintRequest,
    signature_ok: bool,
    receiver_id: Seq<char>,
    deposit: u128,
    block_timestamp: u64,
    r: Result<MintOutcome, MintError>,
)
    requires
        Contract::mint_effect(pre, post, request, signature_ok, receiver_id, deposit, block_timestamp, r),
        r.is_ok(),
    ensures
        post.used_seq().contains((request.token_id@, request.timestamp)),
{
    assert(post.used_seq()[post.used_seq().len() - 1] == (request.token_id@, request.timestamp));
}

/// A request whose (token id, timestamp) pair was already used is refused,
/// whoever sends it, whatever it pays and whenever it comes.
pub proof fn lemma_used_request_rejected(
    c: Contract,
    request: MintRequest,
    signature_ok: bool,
    receiver_id: Seq<char>,
    deposit: u128,
    block_timestamp: u64,
)
    requires
        c.used_seq().contains((request.token_id@, request.timestamp)),
    ensures
        c.mint_error(request, signature_ok, receiver_id, deposit, block_timestamp).is_some(),
{
}

/// How often `e` occurs in `s`.
pub open spec fn occurrences<T>(s: Seq<T>, e: T) -> nat
    decreases s.len(),
{
    if s.len() == 0 {
        0
    } else {
        occurrences(s.drop_last(), e) + if s.last() == e {
            1nat
        } else {
            0nat
        }
    }
}

proof fn lemma_absent_no_occurrences<T>(s: Seq<T>, e: T)
    requires
        !s.contains(e),
    ensures
        occurrences(s, e) == 0,
    decreases s.len(),
{
    if s.len() > 0 {
        assert(!s.drop_last().contains(e)) by {
            if s.drop_last().contains(e) {
                let k = choose|k: int| 0 <= k < s.drop_last().len() && s.drop_last()[k] == e;
                assert(s[k] == e);
            }
        }
        lemma_absent_no_occurrences(s.drop_last(), e);
        assert(s[s.len() - 1] != e);
    }
}

proof fn lemma_distinct_single_occurrence<T>(s: Seq<T>, e: T)
    requires
        s.contains(e),
        forall|i: int, j: int| 0 <= i < j < s.len() ==> s[i] != s[j],
    ensures
        occurrences(s, e) == 1,
    decreases s.len(),
{
    let t = s.drop_last();
    if s.last() == e {
        assert(!t.contains(e)) by {
            if t.contains(e) {
                let k = choose|k: int| 0 <= k < t.len() && t[k] == e;
                assert(s[k] == s[s.len() - 1]);
            }
        }
        lemma_absent_no_occurrences(t, e);
    } else {
        let k = choose|k: int| 0 <= k < s.len() && s[k] == e;
        assert(k < s.len() - 1);
        assert(t[k] == e);
        assert forall|i: int, j: int| 0 <= i < j < t.len() implies t[i] != t[j] by {
            assert(s[i] != s[j]);
        }
        lemma_distinct_single_occurrence(t, e);
    }
}

/// An archived generation is held exactly once in the archive, however often it
/// was archived.
pub proof fn lemma_archived_once(c: Contract, account: Seq<char>, token_id: Seq<char>, generation: u32)
    requires
        c.wf(),
        c.spec_archived(account, token_id, generation),
    ensures
        occurrences(c.archive_seq(), (account, token_id, generation)) == 1,
{
    c.lemma_archive_distinct();
    lemma_distinct_single_occurrence(c.archive_seq(), (account, token_id, generation));
}

} // verus!
