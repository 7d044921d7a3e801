//! The price oracle: interpretation of a day's spot-price curve.
//!
//! A curve is an ordered sequence of [`PriceRecord`]s. The oracle computes the
//! current price (the first record whose window contains "now"), the average
//! price, the price at a configured percentile of the sorted distribution, and
//! the all-in price including fees and VAT.

use vstd::prelude::*;

verus! {

use crate::{AMOUNT_LIMIT, RATE_SCALE};
use crate::config::{amount_ok, Config};
use crate::device_model::{clamp_ratio, clamp_ratio_spec};
use vstd::arithmetic::div_mod::{
    lemma_div_is_ordered,
    lemma_div_multiples_vanish,
    lemma_div_pos_is_pos,
};
use vstd::relations::{sorted_by, total_ordering};
use vstd::seq_lib::lemma_sorted_unique;

/// One time-bucketed price: a fixed-point amount and the half-open window
/// `[window_start, window_end)` it applies to, as Unix timestamps in seconds.
#[derive(Clone, Copy, Debug, PartialEq, Eq, Structural)]
pub struct PriceRecord {
    pub price: i64,
    pub window_start: i64,
    pub window_end: i64,
}

/// Whether `now` falls inside the record's half-open window.
pub open spec fn window_contains(r: PriceRecord, now: int) -> bool {
    r.window_start <= now < r.window_end
}

/// Every price of the curve within the range the arithmetic supports.
pub open spec fn curve_wf(c: Seq<PriceRecord>) -> bool {
    forall|i: int| 0 <= i < c.len() ==> amount_ok(#[trigger] c[i].price as int)
}

/// The price of the first record whose window contains `now`; `None` if no
/// window does.
pub open spec fn current_price_spec(c: Seq<PriceRecord>, now: int) -> Option<i64>
    decreases c.len(),
{
    if c.len() == 0 {
        None
    } else if window_contains(c[0], now) {
        Some(c[0].price)
    } else {
        current_price_spec(c.drop_first(), now)
    }
}

/// Index `i` holds the first record of `c` whose window contains `now`.
pub open spec fn is_first_match(c: Seq<PriceRecord>, now: int, i: int) -> bool {
    &&& 0 <= i < c.len()
    &&& window_contains(c[i], now)
    &&& forall|j: int| 0 <= j < i ==> !window_contains(#[trigger] c[j], now)
}

/// Return the current price: the price of the first record whose window
/// satisfies `window_start <= now < window_end`, `None` if no record matches.
/// No interpolation.
pub fn current_price(curve: &Vec<PriceRecord>, now: i64) -> (r: Option<i64>)
    ensures
        r == current_price_spec(curve@, now as int),
{
    let ghost c = curve@;
    proof {
        assert(c.skip(0) =~= c);
    }
    let mut i: usize = 0;
    while i < curve.len()
        invariant
            0 <= i <= c.len(),
            c == curve@,
            current_price_spec(c, now as int) == current_price_spec(
                c.skip(i as int),
                now as int,
            ),
        decreases c.len() - i,
    {
        let rec = curve[i];
        proof {
            assert(c.skip(i as int)[0] == c[i as int]);
        }
        if rec.window_start <= now && now < rec.window_end {
            return Some(rec.price);
        }
        proof {
            assert(c.skip(i as int).drop_first() =~= c.skip(i as int + 1));
        }
        i = i + 1;
    }
    None
}

/// The current price is `None` exactly when no window of the curve contains
/// `now`; otherwise it is the price of the first record, in array order, whose
/// window contains `now` — so for a malformed curve with overlapping windows,
/// the first match wins.
pub proof fn lemma_current_price_characterizes(c: Seq<PriceRecord>, now: int)
    ensures
        (current_price_spec(c, now) is None) <==> (forall|i: int|
            0 <= i < c.len() ==> !window_contains(#[trigger] c[i], now)),
        (current_price_spec(c, now) is Some) ==> exists|i: int|
            #[trigger] is_first_match(c, now, i) && current_price_spec(c, now) == Some(c[i].price),
    decreases c.len(),
{
    if c.len() == 0 {
    } else if window_contains(c[0], now) {
        assert(is_first_match(c, now, 0));
    } else {
        let d = c.drop_first();
        lemma_current_price_characterizes(d, now);
        if current_price_spec(c, now) is None {
            assert forall|i: int| 0 <= i < c.len() implies !window_contains(
                #[trigger] c[i],
                now,
            ) by {
                if i > 0 {
                    assert(c[i] == d[i - 1]);
                }
            }
        } else {
            let k = choose|k: int|
                #[trigger] is_first_match(d, now, k) && current_price_spec(d, now) == Some(
                    d[k].price,
                );
            assert forall|j: int| 0 <= j < k + 1 implies !window_contains(
                #[trigger] c[j],
                now,
            ) by {
                if j > 0 {
                    assert(c[j] == d[j - 1]);
                }
            }
            assert(c[k + 1] == d[k]);
            assert(is_first_match(c, now, k + 1));
        }
        if forall|i: int| 0 <= i < c.len() ==> !window_contains(#[trigger] c[i], now) {
            assert forall|i: int| 0 <= i < d.len() implies !window_contains(
                #[trigger] d[i],
                now,
            ) by {
                assert(d[i] == c[i + 1]);
            }
        }
    }
}

/// Sum of all prices of the curve.
pub open spec fn sum_prices(c: Seq<PriceRecord>) -> int
    decreases c.len(),
{
    if c.len() == 0 {
        0
    } else {
        sum_prices(c.drop_last()) + c.last().price
    }
}

/// Integer division truncating toward zero (the rounding that `/` performs on
/// machine integers), for a positive divisor.
pub open spec fn div_trunc(a: int, b: int) -> int
    recommends
        b > 0,
{
    if a >= 0 {
        a / b
    } else {
        -((-a) / b)
    }
}

/// The arithmetic mean of the curve's prices, truncated toward zero; `None`
/// on an empty curve.
pub open spec fn average_price_spec(c: Seq<PriceRecord>) -> Option<i64> {
    if c.len() == 0 {
        None
    } else {
        Some(div_trunc(sum_prices(c), c.len() as int) as i64)
    }
}

/// A sum of `n` amounts, each within `[-limit, limit]`, divided by `n`
/// (truncating toward zero) stays within `[-limit, limit]`.
proof fn lemma_avg_in_range(s: int, n: int, limit: int)
    requires
        n > 0,
        0 <= limit,
        -(n * limit) <= s <= n * limit,
    ensures
        -limit <= div_trunc(s, n) <= limit,
{
    lemma_div_multiples_vanish(limit, n);
    assert((n * limit) / n == limit);
    if s >= 0 {
        lemma_div_is_ordered(s, n * limit, n);
        lemma_div_pos_is_pos(s, n);
    } else {
        lemma_div_is_ordered(-s, n * limit, n);
        lemma_div_pos_is_pos(-s, n);
    }
}

/// Return the average price: the arithmetic mean of all prices in the curve,
/// truncated toward zero; `None` on an empty curve.
pub fn average_price(curve: &Vec<PriceRecord>) -> (r: Option<i64>)
    requires
        curve_wf(curve@),
    ensures
        r == average_price_spec(curve@),
{
    let ghost c = curve@;
    if curve.len() == 0 {
        return None;
    }
    let mut sum: i128 = 0;
    let mut i: usize = 0;
    while i < curve.len()
        invariant
            0 <= i <= c.len(),
            c == curve@,
            curve_wf(c),
            sum == sum_prices(c.take(i as int)),
            -(i as int * AMOUNT_LIMIT) <= sum <= i as int * AMOUNT_LIMIT,
        decreases c.len() - i,
    {
        let p = curve[i].price;
        proof {
            assert(c.take(i as int + 1).drop_last() =~= c.take(i as int));
            assert(c.take(i as int + 1).last() == c[i as int]);
            assert(amount_ok(c[i as int].price as int));
            assert((i as int + 1) * AMOUNT_LIMIT == i as int * AMOUNT_LIMIT + AMOUNT_LIMIT);
        }
        sum = sum + p as i128;
        i = i + 1;
    }
    proof {
        assert(c.take(c.len() as int) =~= c);
    }
    let n = curve.len() as i128;
    let ghost s = sum_prices(c);
    proof {
        assert(n as int * AMOUNT_LIMIT >= c.len() as int * AMOUNT_LIMIT);
        lemma_avg_in_range(s, n as int, AMOUNT_LIMIT as int);
    }
    let q = match sum.checked_div(n) {
        Some(q) => q,
        None => {
            proof {
                assert(false);
            }
            0
        },
    };
    proof {
        assert(q == div_trunc(s, n as int));
    }
    Some(q as i64)
}

/// The ordering by which the percentile lookup sorts prices.
pub open spec fn price_leq() -> spec_fn(i64, i64) -> bool {
    |x: i64, y: i64| x <= y
}

/// The prices of the curve, in curve order.
pub open spec fn prices_of(c: Seq<PriceRecord>) -> Seq<i64> {
    c.map_values(|r: PriceRecord| r.price)
}

/// The prices of the curve, sorted ascending.
pub open spec fn sorted_prices(c: Seq<PriceRecord>) -> Seq<i64> {
    prices_of(c).sort_by(price_leq())
}

/// The nearest-rank index for a ratio: `floor((len - 1) * ratio)` with the
/// ratio clamped to `[0, 1]` in fixed point.
pub open spec fn ratio_index(len: int, ratio: int) -> int {
    ((len - 1) * clamp_ratio_spec(ratio)) / (RATE_SCALE as int)
}

/// The price at the configured percentile of the sorted price distribution;
/// `None` on an empty curve.
pub open spec fn ratio_price_spec(c: Seq<PriceRecord>, ratio: int) -> Option<i64> {
    if c.len() == 0 {
        None
    } else {
        Some(sorted_prices(c)[ratio_index(c.len() as int, ratio)])
    }
}

/// `<=` on prices is a total order.
proof fn lemma_price_leq_total()
    ensures
        total_ordering(price_leq()),
{
}

/// The nearest-rank index is a valid index of a non-empty curve.
pub proof fn lemma_ratio_index_bounds(len: int, ratio: int)
    requires
        len >= 1,
    ensures
        0 <= ratio_index(len, ratio) < len,
{
    let cl = clamp_ratio_spec(ratio);
    let num = (len - 1) * cl;
    assert(0 <= (len - 1) * cl <= (len - 1) * 1_000_000) by (nonlinear_arith)
        requires
            0 <= cl <= 1_000_000,
            len >= 1,
    ;
    lemma_div_pos_is_pos(num, RATE_SCALE as int);
    lemma_div_is_ordered(num, (len - 1) * (RATE_SCALE as int), RATE_SCALE as int);
    lemma_div_multiples_vanish(len - 1, RATE_SCALE as int);
    assert((RATE_SCALE as int) * (len - 1) == (len - 1) * (RATE_SCALE as int));
}

/// Sort a list of amounts ascending by insertion into a sorted prefix.
fn sort_amounts(v: &Vec<i64>) -> (r: Vec<i64>)
    ensures
        sorted_by(r@, price_leq()),
        r@.to_multiset() == v@.to_multiset(),
{
    let mut out: Vec<i64> = Vec::new();
    let mut i: usize = 0;
    proof {
        assert(v@.take(0) =~= Seq::<i64>::empty());
        assert(out@.to_multiset() =~= v@.take(0).to_multiset());
    }
    while i < v.len()
        invariant
            0 <= i <= v@.len(),
            sorted_by(out@, price_leq()),
            out@.to_multiset() == v@.take(i as int).to_multiset(),
            out@.len() == i,
        decreases v@.len() - i,
    {
        let x = v[i];
        let mut j: usize = 0;
        while j < out.len() && out[j] <= x
            invariant
                0 <= j <= out@.len(),
                forall|k: int| 0 <= k < j ==> out@[k] <= x,
            decreases out@.len() - j,
        {
            j = j + 1;
        }
        proof {
            broadcast use vstd::seq_lib::group_to_multiset_ensures;

            let o = out@;
            let w = o.insert(j as int, x);
            o.insert_ensures(j as int, x);
            assert forall|a: int, b: int| 0 <= a < b < w.len() implies #[trigger] price_leq()(
                w[a],
                w[b],
            ) by {
                if b < j {
                    assert(price_leq()(o[a], o[b]));
                } else if a > j {
                    assert(price_leq()(o[a - 1], o[b - 1]));
                } else if a < j && b == j {
                    assert(w[a] == o[a] && w[b] == x);
                } else if a == j && b > j {
                    if j < o.len() {
                        assert(price_leq()(o[j as int], o[b - 1]));
                    }
                } else if a < j && b > j {
                    assert(price_leq()(o[a], o[b - 1]));
                }
            }
            vstd::seq_lib::to_multiset_insert(o, j as int, x);
            assert(v@.take(i as int + 1) =~= v@.take(i as int).push(x));
        }
        out.insert(j, x);
        i = i + 1;
    }
    proof {
        assert(v@.take(v@.len() as int) =~= v@);
    }
    out
}

/// Return the price at the given percentile of the sorted price distribution:
/// the ratio (fixed point, `RATE_SCALE` standing for 1.0) is clamped to
/// `[0, 1]`, the prices sorted ascending, and the entry at index
/// `floor((count - 1) * ratio)` returned. `None` on an empty curve.
pub fn ratio_price(curve: &Vec<PriceRecord>, ratio: i64) -> (r: Option<i64>)
    ensures
        r == ratio_price_spec(curve@, ratio as int),
{
    let ghost c = curve@;
    if curve.len() == 0 {
        return None;
    }
    let mut prices: Vec<i64> = Vec::new();
    let mut i: usize = 0;
    proof {
        assert(prices@ =~= prices_of(c.take(0)));
    }
    while i < curve.len()
        invariant
            0 <= i <= c.len(),
            c == curve@,
            prices@ == prices_of(c.take(i as int)),
            prices@.len() == i,
        decreases c.len() - i,
    {
        prices.push(curve[i].price);
        proof {
            assert(prices@ =~= prices_of(c.take(i as int + 1)));
        }
        i = i + 1;
    }
    proof {
        assert(c.take(c.len() as int) =~= c);
    }
    let sorted = sort_amounts(&prices);
    proof {
        broadcast use vstd::seq_lib::group_to_multiset_ensures;

        lemma_price_leq_total();
        prices_of(c).lemma_sort_by_ensures(price_leq());
        lemma_sorted_unique(sorted@, sorted_prices(c), price_leq());
        assert(sorted@ == sorted_prices(c));
        assert(sorted@.len() == sorted@.to_multiset().len());
        assert(prices_of(c).len() == prices_of(c).to_multiset().len());
        assert(sorted@.len() == c.len());
    }
    let clamped = clamp_ratio(ratio);
    let last = curve.len() - 1;
    let ghost a = (last as u128) as int;
    let ghost b = (clamped as u128) as int;
    proof {
        assert(a * b < 0x1_0000_0000_0000_0000_0000_0000 && a * b == (c.len() - 1)
            * clamp_ratio_spec(ratio as int)) by (nonlinear_arith)
            requires
                0 <= a < 0x1_0000_0000_0000_0000,
                0 <= b <= 1_000_000,
                a == c.len() - 1,
                b == clamp_ratio_spec(ratio as int),
        ;
    }
    let num: u128 = (last as u128) * (clamped as u128);
    let idx128: u128 = num / (RATE_SCALE as u128);
    proof {
        lemma_ratio_index_bounds(c.len() as int, ratio as int);
        assert(idx128 as int == ratio_index(c.len() as int, ratio as int));
    }
    let idx = idx128 as usize;
    Some(sorted[idx])
}

/// For every ratio, the percentile price of a non-empty curve is a price that
/// occurs in the curve.
pub proof fn lemma_ratio_price_from_curve(c: Seq<PriceRecord>, ratio: int)
    requires
        c.len() > 0,
    ensures
        exists|i: int|
            0 <= i < c.len() && ratio_price_spec(c, ratio) == Some(#[trigger] c[i].price),
{
    broadcast use vstd::seq_lib::group_to_multiset_ensures;

    lemma_price_leq_total();
    prices_of(c).lemma_sort_by_ensures(price_leq());
    lemma_ratio_index_bounds(c.len() as int, ratio);
    let s = sorted_prices(c);
    let k = ratio_index(c.len() as int, ratio);
    assert(s.to_multiset() =~= prices_of(c).to_multiset());
    assert(s.len() == s.to_multiset().len());
    assert(prices_of(c).len() == prices_of(c).to_multiset().len());
    assert(s.len() == c.len());
    assert(s.contains(s[k]));
    assert(s.to_multiset().count(s[k]) > 0);
    assert(prices_of(c).contains(s[k]));
    let i = choose|i: int| 0 <= i < prices_of(c).len() && prices_of(c)[i] == s[k];
    assert(c[i].price == s[k]);
}

/// The percentile price at ratio 0 is at most the percentile price at ratio
/// `RATE_SCALE` (that is, at 1.0): the lowest rank never exceeds the highest.
pub proof fn lemma_ratio_price_monotone_extremes(c: Seq<PriceRecord>)
    requires
        c.len() > 0,
    ensures
        ratio_price_spec(c, 0) is Some,
        ratio_price_spec(c, RATE_SCALE as int) is Some,
        ratio_price_spec(c, 0)->Some_0 <= ratio_price_spec(c, RATE_SCALE as int)->Some_0,
{
    broadcast use vstd::seq_lib::group_to_multiset_ensures;

    lemma_price_leq_total();
    prices_of(c).lemma_sort_by_ensures(price_leq());
    let s = sorted_prices(c);
    assert(s.to_multiset() =~= prices_of(c).to_multiset());
    assert(s.len() == s.to_multiset().len());
    assert(prices_of(c).len() == prices_of(c).to_multiset().len());
    assert(s.len() == prices_of(c).len());
    let n = c.len() as int;
    assert(ratio_index(n, 0) == 0) by {
        assert((n - 1) * clamp_ratio_spec(0) == 0) by (nonlinear_arith)
            requires
                clamp_ratio_spec(0) == 0,
        ;
        vstd::arithmetic::div_mod::lemma_div_of0(RATE_SCALE as int);
    }
    assert(ratio_index(n, RATE_SCALE as int) == n - 1) by {
        lemma_div_multiples_vanish(n - 1, RATE_SCALE as int);
        assert((RATE_SCALE as int) * (n - 1) == (n - 1) * (RATE_SCALE as int));
    }
    if n > 1 {
        assert(price_leq()(s[0], s[n - 1]));
    }
}

/// Percentile lookup has no hidden time dependency: two results obtained for
/// the same curve and the same ratio are equal, because the contract of
/// [`ratio_price`] pins each to `ratio_price_spec` of the arguments alone.
pub proof fn lemma_ratio_price_deterministic(
    c: Seq<PriceRecord>,
    ratio: int,
    r1: Option<i64>,
    r2: Option<i64>,
)
    requires
        r1 == ratio_price_spec(c, ratio),
        r2 == ratio_price_spec(c, ratio),
    ensures
        r1 == r2,
{
}

/// The all-in price: spot plus the five configured fees, times one plus VAT.
/// The result is expressed in thousandths of a currency unit scaled by a
/// further `RATE_SCALE`, so that the computation is exact; dividing by
/// `RATE_SCALE` (a presentation concern) yields the amount.
pub open spec fn total_price_spec(
    spot: int,
    grid_fee: int,
    energy_tax: int,
    variable_costs: int,
    spot_fee: int,
    cert_fee: int,
    vat: int,
) -> int {
    (spot + grid_fee + energy_tax + variable_costs + spot_fee + cert_fee) * (RATE_SCALE + vat)
}

/// Total price including fees and VAT, exact in fixed point. See
/// [`total_price_spec`] for the scale of the result.
pub fn total_price(spot: i64, config: &Config) -> (r: i64)
    requires
        amount_ok(spot as int),
        config.wf(),
    ensures
        r == total_price_spec(
            spot as int,
            config.grid_fee as int,
            config.energy_tax as int,
            config.variable_costs as int,
            config.spot_fee as int,
            config.cert_fee as int,
            config.vat as int,
        ),
{
    let base = spot + config.grid_fee + config.energy_tax + config.variable_costs
        + config.spot_fee + config.cert_fee;
    let factor = RATE_SCALE + config.vat;
    proof {
        assert(-6_000_000_000_000_000_000 <= base * factor <= 6_000_000_000_000_000_000)
            by (nonlinear_arith)
            requires
                -3_000_000_000_000 <= base <= 3_000_000_000_000,
                0 < factor <= 2_000_000,
        ;
    }
    base * factor
}

/// The all-in price is linear in the spot price and the fees, at a fixed VAT
/// rate: splitting spot and every fee into two parts and summing the two
/// all-in prices gives the all-in price of the sums. With everything zero,
/// including the VAT rate, the all-in price is zero.
pub proof fn lemma_total_price_linear(
    s1: int,
    g1: int,
    e1: int,
    v1: int,
    f1: int,
    c1: int,
    s2: int,
    g2: int,
    e2: int,
    v2: int,
    f2: int,
    c2: int,
    vat: int,
)
    ensures
        total_price_spec(s1 + s2, g1 + g2, e1 + e2, v1 + v2, f1 + f2, c1 + c2, vat)
            == total_price_spec(s1, g1, e1, v1, f1, c1, vat) + total_price_spec(
            s2,
            g2,
            e2,
            v2,
            f2,
            c2,
            vat,
        ),
        total_price_spec(0, 0, 0, 0, 0, 0, 0) == 0,
{
    let a = s1 + g1 + e1 + v1 + f1 + c1;
    let b = s2 + g2 + e2 + v2 + f2 + c2;
    let k = RATE_SCALE + vat;
    assert((a + b) * k == a * k + b * k) by (nonlinear_arith);
}

} // verus!
