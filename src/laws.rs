//! Properties that relate several calls or hold for all inputs, proved over
//! the specifications the operations are verified against.
use crate::curve::{curve_return, fee_of, quote, swap_result, threshold_step, Config};
use crate::math::{e18, Decimal18};
use crate::registry::{
    in_range, is_page, key_lt, key_of, lemma_key_order, page_limit, FlambeBaseInfo, FlambesFilter,
};
use crate::types::{status_rank, FlambeStatus};
use vstd::arithmetic::div_mod::{
    lemma_div_is_ordered, lemma_div_is_ordered_by_denominator, lemma_div_multiples_vanish_fancy,
    lemma_fundamental_div_mod,
};
use vstd::arithmetic::mul::lemma_mul_inequality;
use vstd::prelude::*;

verus! {

/// Adding `k` whole multiples of `d` adds `k` to the quotient.
proof fn lemma_div_add_multiple(x: int, k: int, d: int)
    requires
        d > 0,
    ensures
        (x + k * d) / d == x / d + k,
{
    lemma_fundamental_div_mod(x, d);
    let q = x / d;
    let r = x % d;
    assert(x + k * d == d * (q + k) + r) by (nonlinear_arith)
        requires
            x == d * q + r,
    ;
    lemma_div_multiples_vanish_fancy(q + k, r, d);
}

/// With a fee below one, what is left of an offer after the fee never shrinks
/// as the offer grows.
pub proof fn lemma_net_monotonic(a1: int, a2: int, fee: Decimal18)
    requires
        0 <= a1 <= a2,
        fee.atomics < e18(),
    ensures
        0 <= a1 - fee_of(a1, fee) <= a2 - fee_of(a2, fee),
{
    let f = fee.atomics as int;
    let e = e18();
    assert(a2 * f <= a1 * f + (a2 - a1) * e) by (nonlinear_arith)
        requires
            0 <= a1 <= a2,
            0 <= f < e,
    ;
    lemma_div_is_ordered(a2 * f, a1 * f + (a2 - a1) * e, e);
    lemma_div_add_multiple(a1 * f, a2 - a1, e);
    assert(a1 * f <= a1 * e) by (nonlinear_arith)
        requires
            0 <= a1,
            0 <= f < e,
    ;
    lemma_div_is_ordered(a1 * f, a1 * e, e);
    lemma_div_add_multiple(0, a1, e);
    assert(a1 * e == 0 + a1 * e);
    lemma_mul_inequality(0, a1, f);
    lemma_div_is_ordered(0, a1 * f, e);
}

/// The curve pays more, or the same, for a larger net offer.
pub proof fn lemma_curve_return_monotonic(ask: int, offer: int, n1: int, n2: int)
    requires
        0 <= ask,
        0 <= offer,
        0 <= n1 <= n2,
        offer + n1 > 0,
    ensures
        curve_return(ask, offer, n1) <= curve_return(ask, offer, n2),
{
    let e = e18();
    assert(offer * ask * e >= 0) by (nonlinear_arith)
        requires
            0 <= ask,
            0 <= offer,
            e > 0,
    ;
    lemma_div_is_ordered_by_denominator(offer * ask * e, offer + n1, offer + n2);
    lemma_div_is_ordered(ask * e - (offer * ask * e) / (offer + n1), ask * e - (offer * ask * e) / (offer + n2), e);
}

/// A larger offer never returns less: against the same reserves, with a fee
/// below one, whenever two quotes both succeed, the larger offer's return is
/// at least the smaller one's.
pub proof fn law_return_monotonic(is_buy: bool, ask: int, offer: int, a1: int, a2: int, fee: Decimal18)
    requires
        0 <= ask,
        0 <= offer,
        0 <= a1 <= a2,
        fee.atomics < e18(),
        quote(is_buy, ask, offer, a1, fee) is Some,
        quote(is_buy, ask, offer, a2, fee) is Some,
    ensures
        quote(is_buy, ask, offer, a1, fee)->Some_0.0 <= quote(is_buy, ask, offer, a2, fee)->Some_0.0,
{
    lemma_net_monotonic(a1, a2, fee);
    lemma_curve_return_monotonic(ask, offer, a1 - fee_of(a1, fee), a2 - fee_of(a2, fee));
}

/// A simulation matches the trade it simulates: quoting an offer against the
/// balances before it arrives gives the same return, fee and price impact as
/// executing it against the balances once it has arrived on the offer side.
pub proof fn law_simulation_matches_execution(config: Config, offer_denom: Seq<char>, amount: int, main_balance: int, pair_balance: int)
    requires
        0 <= amount,
        0 <= main_balance,
        0 <= pair_balance,
        offer_denom == config.main_denom@ || offer_denom == config.flambe_setting.pair_denom@,
        offer_denom == config.main_denom@ ==> main_balance + amount <= u128::MAX,
        offer_denom != config.main_denom@ ==> pair_balance + amount + config.virtual_reserve <= u128::MAX,
    ensures
        ({
            let is_buy = offer_denom != config.main_denom@;
            let main_after = if is_buy { main_balance } else { main_balance + amount };
            let pair_after = if is_buy { pair_balance + amount } else { pair_balance };
            swap_result(config, offer_denom, amount, main_after, pair_after, false)
                == swap_result(config, offer_denom, amount, main_balance, pair_balance, true)
        }),
{
}

/// The threshold check is idempotent, and it only ever moves a curve forward:
/// below the threshold it changes nothing, and a pending or closed curve stays
/// as it is.
pub proof fn law_threshold_check_idempotent(config: Config, pair_balance: int)
    ensures
        threshold_step(threshold_step(config, pair_balance), pair_balance) == threshold_step(config, pair_balance),
        pair_balance < config.flambe_setting.threshold ==> threshold_step(config, pair_balance) == config,
        config.status != FlambeStatus::OPEN ==> threshold_step(config, pair_balance) == config,
        status_rank(config.status) <= status_rank(threshold_step(config, pair_balance).status),
{
}

/// With no swap fee the whole offer goes into the curve, and offering nothing
/// returns nothing when the offer reserve is not empty.
pub proof fn law_boundaries(is_buy: bool, ask: int, offer: int, amount: int, fee: Decimal18)
    requires
        0 <= ask,
        0 <= amount,
    ensures
        fee.atomics == 0 ==> fee_of(amount, fee) == 0 && amount - fee_of(amount, fee) == amount,
        offer > 0 ==> curve_return(ask, offer, 0) == 0,
        offer > 0 && ask > 0 ==> quote(is_buy, ask, offer, 0, fee) == Some((0int, 0int, e18())),
{
    let e = e18();
    assert(offer * ask * e == offer * (ask * e)) by (nonlinear_arith);
    if offer > 0 {
        vstd::arithmetic::div_mod::lemma_div_multiples_vanish(ask * e, offer);
        assert((ask * e - ask * e) / e == 0);
    }
    assert(amount * 0 == 0);
    assert(0 * (fee.atomics as int) == 0);
    if offer > 0 && ask > 0 {
        assert(fee_of(0, fee) == 0);
        assert(offer * ask > 0) by (nonlinear_arith)
            requires
                offer > 0,
                ask > 0,
        ;
        assert((offer + 0) * ask == offer * ask && (ask - 0) * offer == offer * ask) by (nonlinear_arith);
        assert((offer * ask) * e == e * (offer * ask)) by (nonlinear_arith);
        vstd::arithmetic::div_mod::lemma_div_multiples_vanish(e, offer * ask);
    }
}

/// Offering nothing against two non-empty reserves never fails: the quote
/// returns nothing, takes no fee and has no price impact (exactly one).
pub proof fn law_zero_offer(config: Config, offer_denom: Seq<char>, main_balance: int, pair_balance: int, is_simulation: bool)
    requires
        offer_denom == config.main_denom@ || offer_denom == config.flambe_setting.pair_denom@,
        main_balance > 0,
        pair_balance >= 0,
        0 < pair_balance + config.virtual_reserve <= u128::MAX,
    ensures
        swap_result(config, offer_denom, 0, main_balance, pair_balance, is_simulation) == Ok::<(int, int, int), crate::types::ContractError>((0int, 0int, e18())),
{
    let is_buy = offer_denom != config.main_denom@;
    let pair_side = pair_balance + config.virtual_reserve;
    if is_buy {
        law_boundaries(is_buy, main_balance, pair_side, 0, config.swap_fee);
    } else {
        law_boundaries(is_buy, pair_side, main_balance, 0, config.swap_fee);
    }
}

/// The filter for the page after the one that ended with `last`: the same
/// index, with `last`'s key as the cursor.
pub open spec fn next_filter(filter: FlambesFilter, last: FlambeBaseInfo) -> FlambesFilter {
    let pk = last.main_token.denom;
    match filter {
        FlambesFilter::Empty { .. } => FlambesFilter::Empty { start_after: Some(pk) },
        FlambesFilter::ByStatus { status, .. } => FlambesFilter::ByStatus { status, start_after: Some(pk) },
        FlambesFilter::ByCreator { creator, .. } => FlambesFilter::ByCreator { creator, start_after: Some(pk) },
        FlambesFilter::ByPrice { .. } => FlambesFilter::ByPrice { start_after: Some((last.last_price, pk)) },
        FlambesFilter::ByLiquidity { .. } => FlambesFilter::ByLiquidity { start_after: Some((last.last_liquidity, pk)) },
    }
}

/// Paging neither repeats nor skips: after a full page, the page that starts
/// after its last key shares no record with it, and together the two hold
/// every record in range down to where the second one stops.
pub proof fn law_pages_continue(records: Seq<FlambeBaseInfo>, filter: FlambesFilter, limit: Option<u32>, first: Seq<FlambeBaseInfo>, second: Seq<FlambeBaseInfo>)
    requires
        is_page(records, filter, limit, first),
        first.len() == page_limit(limit),
        first.len() > 0,
        is_page(records, next_filter(filter, first.last()), limit, second),
    ensures
        forall|i: int, j: int| 0 <= i < first.len() && 0 <= j < second.len() ==> first[i] != second[j],
        forall|k: int| 0 <= k < records.len() && in_range(filter, #[trigger] records[k]) && (second.len() < page_limit(limit) || (second.len() > 0 && !key_lt(key_of(filter, records[k]), key_of(filter, second.last())))) ==> first.contains(records[k]) || second.contains(records[k]),
{
    let next = next_filter(filter, first.last());
    let last_key = key_of(filter, first.last());
    assert forall|r: FlambeBaseInfo| key_of(next, r) == key_of(filter, r) by {}
    assert forall|i: int| 0 <= i < first.len() implies !key_lt(key_of(filter, #[trigger] first[i]), last_key) by {
        lemma_key_order(key_of(filter, first[i]), last_key, key_of(filter, first[i]));
        if i < first.len() - 1 {
            assert(key_lt(key_of(filter, first[first.len() - 1]), key_of(filter, first[i])));
        }
    }
    assert forall|i: int, j: int| 0 <= i < first.len() && 0 <= j < second.len() implies first[i] != second[j] by {
        assert(in_range(next, second[j]));
        assert(key_lt(key_of(filter, second[j]), last_key));
        assert(!key_lt(key_of(filter, first[i]), last_key));
    }
    assert forall|k: int| 0 <= k < records.len() && in_range(filter, #[trigger] records[k]) && (second.len() < page_limit(limit) || (second.len() > 0 && !key_lt(key_of(filter, records[k]), key_of(filter, second.last())))) implies first.contains(records[k]) || second.contains(records[k]) by {
        if key_lt(key_of(filter, records[k]), last_key) {
            assert(in_range(next, records[k]));
        }
    }
}

} // verus!