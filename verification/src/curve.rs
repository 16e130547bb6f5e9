//! Bonding-curve pricing: the spot price of a cycle and the cost of a purchase.
use vstd::prelude::*;
use crate::error::MammothError;
use crate::state::{CurveType, CycleState};
use vstd::arithmetic::div_mod::{
    lemma_div_is_ordered, lemma_fundamental_div_mod, lemma_fundamental_div_mod_converse,
    lemma_mod_pos_bound,
};
use vstd::arithmetic::mul::lemma_mul_inequality;

verus! {

/// Most price buckets one purchase may walk before it must be split.
pub const MAX_COST_ITERATIONS: u32 = 5000;

/// The largest `u64`, as an integer.
pub open spec fn u64_limit() -> int {
    u64::MAX as int
}

/// `a - b`, or 0 when `b` exceeds `a`.
pub open spec fn sub_floor(a: int, b: int) -> int {
    if a >= b {
        a - b
    } else {
        0
    }
}

/// The smaller of two integers.
pub open spec fn min_int(a: int, b: int) -> int {
    if a <= b {
        a
    } else {
        b
    }
}

/// Step curve: the price rises by `step_increment` after every `step_size` tokens sold.
pub open spec fn step_price(c: CycleState, sold: int) -> int {
    c.base_price + (sold / (c.step_size as int)) * c.step_increment
}

/// Linear curve: how far the end price lies above the base price (0 if below).
pub open spec fn linear_spread(c: CycleState) -> int {
    sub_floor(c.end_price as int, c.base_price as int)
}

/// Linear curve: base price plus the spread scaled by the share of the cap sold.
pub open spec fn linear_price(c: CycleState, sold: int) -> int {
    c.base_price + (linear_spread(c) * sold) / (c.supply_cap as int)
}

/// Share of the cap sold, in basis points, rounded down.
pub open spec fn pct_consumed(c: CycleState, sold: int) -> int {
    (sold * 10000) / (c.supply_cap as int)
}

/// ExpLite curve: base price grown by `k` basis points per basis point of the cap sold,
/// i.e. `base + base * k * pct / 10000 / 10000`.
pub open spec fn exp_price(c: CycleState, sold: int) -> int {
    c.base_price + (c.base_price * c.growth_factor_k * pct_consumed(c, sold)) / 10000 / 10000
}

/// The price of the token at position `sold` of the cycle, with the errors of a
/// computation in `u64` that fails on overflow.
pub open spec fn price_at(c: CycleState, sold: int) -> Result<u64, MammothError> {
    match c.curve_type {
        CurveType::Step => {
            if c.step_size == 0 {
                Err(MammothError::ZeroStepSize)
            } else if step_price(c, sold) > u64_limit() {
                Err(MammothError::MathOverflow)
            } else {
                Ok(step_price(c, sold) as u64)
            }
        },
        CurveType::Linear => {
            if c.supply_cap == 0 {
                Ok(c.base_price)
            } else if linear_spread(c) * sold > u64_limit() || linear_price(c, sold) > u64_limit() {
                Err(MammothError::MathOverflow)
            } else {
                Ok(linear_price(c, sold) as u64)
            }
        },
        CurveType::ExpLite => {
            if c.supply_cap == 0 {
                Ok(c.base_price)
            } else if sold * 10000 > u64_limit() || c.base_price * c.growth_factor_k > u64_limit()
                || c.base_price * c.growth_factor_k * pct_consumed(c, sold) > u64_limit()
                || exp_price(c, sold) > u64_limit() {
                Err(MammothError::MathOverflow)
            } else {
                Ok(exp_price(c, sold) as u64)
            }
        },
    }
}

/// The price of the token at position `sold` on the cycle's curve.
pub fn price_at_sold(cycle: &CycleState, sold: u64) -> (r: Result<u64, MammothError>)
    ensures
        r == price_at(*cycle, sold as int),
{
    match cycle.curve_type {
        CurveType::Step => {
            if cycle.step_size == 0 {
                return Err(MammothError::ZeroStepSize);
            }
            let step_number = sold / cycle.step_size;
            let rise = match step_number.checked_mul(cycle.step_increment) {
                Some(v) => v,
                None => return Err(MammothError::MathOverflow),
            };
            match cycle.base_price.checked_add(rise) {
                Some(p) => Ok(p),
                None => Err(MammothError::MathOverflow),
            }
        },
        CurveType::Linear => {
            if cycle.supply_cap == 0 {
                return Ok(cycle.base_price);
            }
            let spread = cycle.end_price.saturating_sub(cycle.base_price);
            let scaled = match spread.checked_mul(sold) {
                Some(v) => v,
                None => return Err(MammothError::MathOverflow),
            };
            match cycle.base_price.checked_add(scaled / cycle.supply_cap) {
                Some(p) => Ok(p),
                None => Err(MammothError::MathOverflow),
            }
        },
        CurveType::ExpLite => {
            if cycle.supply_cap == 0 {
                return Ok(cycle.base_price);
            }
            let pct_consumed = match sold.checked_mul(10000) {
                Some(v) => v / cycle.supply_cap,
                None => return Err(MammothError::MathOverflow),
            };
            let bk = match cycle.base_price.checked_mul(cycle.growth_factor_k) {
                Some(v) => v,
                None => return Err(MammothError::MathOverflow),
            };
            let bkp = match bk.checked_mul(pct_consumed) {
                Some(v) => v,
                None => return Err(MammothError::MathOverflow),
            };
            match cycle.base_price.checked_add(bkp / 10000 / 10000) {
                Some(p) => Ok(p),
                None => Err(MammothError::MathOverflow),
            }
        },
    }
}

/// The spot price of the cycle: the price of the next token to be sold.
pub fn compute_price(cycle: &CycleState) -> (r: Result<u64, MammothError>)
    ensures
        r == price_at(*cycle, cycle.minted as int),
{
    price_at_sold(cycle, cycle.minted)
}


/// The price a purchase pays for the run of tokens that starts at `sold`: the curve
/// price, after checking that `sold` in basis points of the cap fits in `u64`
/// (the Linear and ExpLite walks compute that share for every run).
pub open spec fn run_price(c: CycleState, sold: int) -> Result<u64, MammothError> {
    if !(c.curve_type is Step) && sold * 10000 > u64_limit() {
        Err(MammothError::MathOverflow)
    } else {
        price_at(c, sold)
    }
}

/// Linear and ExpLite: the basis-point bucket after the one that holds `sold`, saturated.
pub open spec fn next_pct(c: CycleState, sold: int) -> int {
    if pct_consumed(c, sold) + 1 > u64_limit() {
        u64_limit()
    } else {
        pct_consumed(c, sold) + 1
    }
}

/// Linear and ExpLite: rounding the next bucket boundary up overflows `u64`.
pub open spec fn run_end_overflows(c: CycleState, sold: int) -> bool {
    &&& !(c.curve_type is Step)
    &&& next_pct(c, sold) * c.supply_cap <= u64_limit()
    &&& next_pct(c, sold) * c.supply_cap + 9999 > u64_limit()
}

/// Where the run of tokens priced at `run_price(c, sold)` ends, for a purchase
/// that ends at `end`. Step: at the next step boundary. Linear and ExpLite: at the
/// first token of the next basis-point bucket (never past the cap), and at least
/// one token further.
pub open spec fn run_end(c: CycleState, sold: int, end: int) -> int {
    if c.curve_type is Step {
        let b = (sold / (c.step_size as int) + 1) * c.step_size;
        let boundary = if b > u64_limit() { u64_limit() } else { b };
        sold + sub_floor(min_int(end, boundary), sold)
    } else {
        let v = next_pct(c, sold) * c.supply_cap;
        let rounded = if v > u64_limit() { u64_limit() } else { (v + 9999) / 10000 };
        let boundary = min_int(rounded, c.supply_cap as int);
        let in_bucket = sub_floor(min_int(end, boundary), sold);
        let at_least_one = if in_bucket >= 1 { in_bucket } else { 1 };
        sold + min_int(sub_floor(end, sold), at_least_one)
    }
}

/// The cost of tokens `sold..end`, added to `acc`, when `iters` runs were already
/// priced: the runs are priced one after another, each at `run_price`; a purchase
/// needing more than `MAX_COST_ITERATIONS` runs is refused. `None` marks the inputs
/// on which rounding up a bucket boundary overflows.
pub open spec fn cost_walk(c: CycleState, sold: int, end: int, acc: int, iters: int) -> Option<
    Result<u64, MammothError>,
>
    decreases MAX_COST_ITERATIONS - iters,
{
    if sold >= end {
        Some(Ok(acc as u64))
    } else if iters >= MAX_COST_ITERATIONS {
        Some(Err(MammothError::PurchaseTooLarge))
    } else {
        match run_price(c, sold) {
            Err(e) => Some(Err(e)),
            Ok(price) => {
                if run_end_overflows(c, sold) {
                    None
                } else {
                    let next = run_end(c, sold, end);
                    let cost = price * (next - sold);
                    if cost > u64_limit() || acc + cost > u64_limit() {
                        Some(Err(MammothError::MathOverflow))
                    } else {
                        cost_walk(c, next, end, acc + cost, iters + 1)
                    }
                }
            },
        }
    }
}

/// The cost of buying `amount` tokens from position `c.minted` on: the sum, over
/// the runs of equally priced tokens, of run price times run length. `None` marks
/// the inputs on which the computation overflows in rounding a boundary.
pub open spec fn total_cost_spec(c: CycleState, amount: u64) -> Option<Result<u64, MammothError>> {
    if amount == 0 {
        Some(Ok(0))
    } else if c.minted + amount > u64_limit() {
        Some(Err(MammothError::MathOverflow))
    } else if c.curve_type is Step {
        if c.step_size == 0 {
            Some(Err(MammothError::ZeroStepSize))
        } else {
            cost_walk(c, c.minted as int, c.minted + amount, 0, 0)
        }
    } else if c.supply_cap == 0 {
        if c.base_price * amount > u64_limit() {
            Some(Err(MammothError::MathOverflow))
        } else {
            Some(Ok((c.base_price * amount) as u64))
        }
    } else {
        cost_walk(c, c.minted as int, c.minted + amount, 0, 0)
    }
}

/// The cost of buying `amount` tokens starting at `cycle.minted`, walking the curve
/// run by run; `None` on the inputs where rounding a bucket boundary up overflows
/// (where `compute_total_cost` is not defined).
pub fn purchase_cost(cycle: &CycleState, amount: u64) -> (r: Option<Result<u64, MammothError>>)
    ensures
        r == total_cost_spec(*cycle, amount),
{
    if amount == 0 {
        return Some(Ok(0));
    }
    let mut sold = cycle.minted;
    let end_sold = match sold.checked_add(amount) {
        Some(e) => e,
        None => return Some(Err(MammothError::MathOverflow)),
    };
    let mut total: u64 = 0;
    let mut iterations: u32 = 0;
    match cycle.curve_type {
        CurveType::Step => {
            if cycle.step_size == 0 {
                return Some(Err(MammothError::ZeroStepSize));
            }
            while sold < end_sold
                invariant
                    cycle.curve_type is Step,
                    cycle.step_size > 0,
                    sold <= end_sold,
                    iterations <= MAX_COST_ITERATIONS,
                    cost_walk(*cycle, sold as int, end_sold as int, total as int, iterations as int)
                        == total_cost_spec(*cycle, amount),
                decreases MAX_COST_ITERATIONS - iterations,
            {
                iterations = iterations + 1;
                if iterations > MAX_COST_ITERATIONS {
                    return Some(Err(MammothError::PurchaseTooLarge));
                }
                let price = match price_at_sold(cycle, sold) {
                    Ok(p) => p,
                    Err(e) => return Some(Err(e)),
                };
                let step_number = sold / cycle.step_size;
                let next_boundary = match (step_number + 1).checked_mul(cycle.step_size) {
                    Some(b) => b,
                    None => u64::MAX,
                };
                let stop = if end_sold < next_boundary { end_sold } else { next_boundary };
                let tokens_in_step = stop.saturating_sub(sold);
                let cost = match price.checked_mul(tokens_in_step) {
                    Some(v) => v,
                    None => return Some(Err(MammothError::MathOverflow)),
                };
                total = match total.checked_add(cost) {
                    Some(v) => v,
                    None => return Some(Err(MammothError::MathOverflow)),
                };
                sold = sold + tokens_in_step;
            }
        },
        _ => {
            if cycle.supply_cap == 0 {
                return match cycle.base_price.checked_mul(amount) {
                    Some(v) => Some(Ok(v)),
                    None => Some(Err(MammothError::MathOverflow)),
                };
            }
            while sold < end_sold
                invariant
                    !(cycle.curve_type is Step),
                    cycle.supply_cap > 0,
                    sold <= end_sold,
                    iterations <= MAX_COST_ITERATIONS,
                    cost_walk(*cycle, sold as int, end_sold as int, total as int, iterations as int)
                        == total_cost_spec(*cycle, amount),
                decreases MAX_COST_ITERATIONS - iterations,
            {
                iterations = iterations + 1;
                if iterations > MAX_COST_ITERATIONS {
                    return Some(Err(MammothError::PurchaseTooLarge));
                }
                let pct_consumed = match sold.checked_mul(10000) {
                    Some(v) => v / cycle.supply_cap,
                    None => return Some(Err(MammothError::MathOverflow)),
                };
                let price = match price_at_sold(cycle, sold) {
                    Ok(p) => p,
                    Err(e) => return Some(Err(e)),
                };
                let next_pct = pct_consumed.saturating_add(1);
                let next_boundary = match next_pct.checked_mul(cycle.supply_cap) {
                    Some(v) => match v.checked_add(9999) {
                        Some(w) => w / 10000,
                        None => return None,
                    },
                    None => u64::MAX,
                };
                let next_boundary = if next_boundary < cycle.supply_cap {
                    next_boundary
                } else {
                    cycle.supply_cap
                };
                let stop = if end_sold < next_boundary { end_sold } else { next_boundary };
                let tokens_in_bucket = stop.saturating_sub(sold);
                let tokens_in_bucket = if tokens_in_bucket < 1 { 1 } else { tokens_in_bucket };
                let remaining = end_sold.saturating_sub(sold);
                let effective = if remaining < tokens_in_bucket { remaining } else { tokens_in_bucket };
                let cost = match price.checked_mul(effective) {
                    Some(v) => v,
                    None => return Some(Err(MammothError::MathOverflow)),
                };
                total = match total.checked_add(cost) {
                    Some(v) => v,
                    None => return Some(Err(MammothError::MathOverflow)),
                };
                sold = sold + effective;
            }
        },
    }
    Some(Ok(total))
}

/// The exact cost of buying `amount` tokens starting at `cycle.minted`, walking the
/// curve run by run so that a bulk purchase pays the same progression of prices as the
/// runs it spans; on a curve priced token by token, the sum of the tokens' prices. Not
/// defined where rounding a bucket boundary up overflows.
pub fn compute_total_cost(cycle: &CycleState, amount: u64) -> (r: Result<u64, MammothError>)
    requires
        total_cost_spec(*cycle, amount) is Some,
    ensures
        total_cost_spec(*cycle, amount) == Some(r),
        r is Ok && priced_per_token(*cycle, cycle.minted + amount) ==> r->Ok_0 == token_prices_sum(
            *cycle,
            cycle.minted as int,
            cycle.minted + amount,
        ),
{
    let r = match purchase_cost(cycle, amount) {
        Some(r) => r,
        // Unreachable: the precondition rules this input out.
        None => Err(MammothError::MathOverflow),
    };
    proof {
        if r is Ok && priced_per_token(*cycle, cycle.minted + amount) {
            cost_is_sum_of_token_prices(*cycle, amount);
        }
    }
    r
}


/// The price of a cycle never falls as its tokens sell: on every curve, the price at a
/// later position is at least the price at an earlier one.
pub proof fn price_never_decreases(c: CycleState, earlier: int, later: int)
    requires
        0 <= earlier <= later,
        price_at(c, earlier) is Ok,
        price_at(c, later) is Ok,
    ensures
        price_at(c, earlier)->Ok_0 <= price_at(c, later)->Ok_0,
{
    match c.curve_type {
        CurveType::Step => {
            lemma_div_is_ordered(earlier, later, c.step_size as int);
            lemma_mul_inequality(
                earlier / (c.step_size as int),
                later / (c.step_size as int),
                c.step_increment as int,
            );
        },
        CurveType::Linear => {
            if c.supply_cap != 0 {
                lemma_mul_inequality(earlier, later, linear_spread(c));
                assert(linear_spread(c) * earlier <= linear_spread(c) * later) by (nonlinear_arith)
                    requires
                        earlier * linear_spread(c) <= later * linear_spread(c),
                ;
                lemma_div_is_ordered(
                    linear_spread(c) * earlier,
                    linear_spread(c) * later,
                    c.supply_cap as int,
                );
            }
        },
        CurveType::ExpLite => {
            if c.supply_cap != 0 {
                let bk = c.base_price * c.growth_factor_k;
                assert(earlier * 10000 <= later * 10000);
                lemma_div_is_ordered(earlier * 10000, later * 10000, c.supply_cap as int);
                assert(bk >= 0) by (nonlinear_arith)
                    requires
                        bk == c.base_price * c.growth_factor_k,
                ;
                lemma_mul_inequality(pct_consumed(c, earlier), pct_consumed(c, later), bk);
                assert(bk * pct_consumed(c, earlier) <= bk * pct_consumed(c, later)) by (nonlinear_arith)
                    requires
                        pct_consumed(c, earlier) * bk <= pct_consumed(c, later) * bk,
                ;
                lemma_div_is_ordered(
                    bk * pct_consumed(c, earlier),
                    bk * pct_consumed(c, later),
                    10000,
                );
                lemma_div_is_ordered(
                    bk * pct_consumed(c, earlier) / 10000,
                    bk * pct_consumed(c, later) / 10000,
                    10000,
                );
            }
        },
    }
}


/// A run never goes backwards and never passes the end of the purchase.
proof fn run_end_bounds(c: CycleState, sold: int, end: int)
    requires
        sold < end,
    ensures
        sold <= run_end(c, sold, end) <= end,
{
}

/// Each run of the walk is priced at no less than `floor` when every price from
/// `sold` on is; so the total is at least `acc` plus `floor` per remaining token.
proof fn cost_walk_at_least(c: CycleState, sold: int, end: int, acc: int, iters: int, floor: int, start: int)
    requires
        0 <= start <= sold,
        0 <= acc <= u64_limit(),
        floor >= 0,
        price_at(c, start) is Ok,
        floor == price_at(c, start)->Ok_0,
        cost_walk(c, sold, end, acc, iters) matches Some(Ok(_)),
    ensures
        cost_walk(c, sold, end, acc, iters)->Some_0->Ok_0 >= acc + floor * (end - sold),
    decreases MAX_COST_ITERATIONS - iters,
{
    if sold >= end {
        assert(floor * (end - sold) <= 0) by (nonlinear_arith)
            requires
                floor >= 0,
                end - sold <= 0,
        ;
    } else {
        let price = run_price(c, sold)->Ok_0;
        price_never_decreases(c, start, sold);
        let next = run_end(c, sold, end);
        run_end_bounds(c, sold, end);
        cost_walk_at_least(c, next, end, acc + price * (next - sold), iters + 1, floor, start);
        lemma_mul_inequality(floor, price as int, next - sold);
        assert(floor * (end - sold) == floor * (next - sold) + floor * (end - next)) by (nonlinear_arith);
    }
}

/// A purchase never costs less than the spot price times the amount bought: buying
/// in bulk cannot bypass the price progression.
pub proof fn bulk_purchase_pays_at_least_spot(c: CycleState, amount: u64)
    requires
        total_cost_spec(c, amount) matches Some(Ok(_)),
        price_at(c, c.minted as int) is Ok,
    ensures
        total_cost_spec(c, amount)->Some_0->Ok_0 >= price_at(c, c.minted as int)->Ok_0 * amount,
{
    let spot = price_at(c, c.minted as int)->Ok_0;
    if amount == 0 {
    } else if !(c.curve_type is Step) && c.supply_cap == 0 {
    } else {
        cost_walk_at_least(c, c.minted as int, c.minted + amount, 0, 0, spot as int, c.minted as int);
    }
}


/// The curve price of the token at position `sold`, as an integer; on a Linear or
/// ExpLite curve without a cap every token costs the base price.
pub open spec fn curve_price(c: CycleState, sold: int) -> int {
    match c.curve_type {
        CurveType::Step => step_price(c, sold),
        CurveType::Linear => if c.supply_cap == 0 {
            c.base_price as int
        } else {
            linear_price(c, sold)
        },
        CurveType::ExpLite => if c.supply_cap == 0 {
            c.base_price as int
        } else {
            exp_price(c, sold)
        },
    }
}

/// The sum of the curve prices of the tokens at positions `from..to`.
pub open spec fn token_prices_sum(c: CycleState, from: int, to: int) -> int
    decreases to - from,
{
    if from >= to {
        0
    } else {
        curve_price(c, from) + token_prices_sum(c, from + 1, to)
    }
}

/// ExpLite: scaled by the cap, the end of the basis-point bucket of every token below
/// `end` (and below the cap) still fits in `u64`.
pub open spec fn buckets_fit(c: CycleState, end: int) -> bool {
    (pct_consumed(c, min_int(end, c.supply_cap as int) - 1) + 1) * c.supply_cap <= u64_limit()
}

/// The curves on which the walk of a purchase ending at `end` prices each token at its
/// own curve price: every Step curve, Linear curves whose cap is at most 10000 tokens (so
/// that every basis point of the cap holds at most one token), and ExpLite curves whose
/// bucket ends up to `end` fit in `u64`.
pub open spec fn priced_per_token(c: CycleState, end: int) -> bool {
    match c.curve_type {
        CurveType::Step => true,
        CurveType::Linear => c.supply_cap <= 10000,
        CurveType::ExpLite => buckets_fit(c, end),
    }
}

/// The curves on which buying in two parts costs what buying at once costs, overflow and
/// the run limit aside: every curve but a Linear one whose cap exceeds 10000 tokens
/// (whose runs span several tokens priced at the run's first).
pub open spec fn split_keeps_cost(c: CycleState) -> bool {
    c.curve_type is Linear ==> c.supply_cap <= 10000
}

/// `split_keeps_cost` on the curves that are priced by walking runs.
spec fn walked_evenly(c: CycleState) -> bool {
    match c.curve_type {
        CurveType::Step => c.step_size > 0,
        CurveType::Linear => 0 < c.supply_cap <= 10000,
        CurveType::ExpLite => c.supply_cap > 0,
    }
}

/// `priced_per_token` on the curves that are priced by walking runs.
spec fn walked_per_token(c: CycleState, end: int) -> bool {
    match c.curve_type {
        CurveType::Step => c.step_size > 0,
        CurveType::Linear => 0 < c.supply_cap <= 10000,
        CurveType::ExpLite => c.supply_cap > 0 && buckets_fit(c, end),
    }
}

pub(crate) proof fn token_prices_sum_split(c: CycleState, a: int, b: int, d: int)
    requires
        a <= b <= d,
    ensures
        token_prices_sum(c, a, d) == token_prices_sum(c, a, b) + token_prices_sum(c, b, d),
    decreases b - a,
{
    if a < b {
        token_prices_sum_split(c, a + 1, b, d);
    }
}

pub(crate) proof fn token_prices_sum_flat(c: CycleState, from: int, to: int, x: int)
    requires
        from <= to,
        forall|t: int| from <= t < to ==> #[trigger] curve_price(c, t) == x,
    ensures
        token_prices_sum(c, from, to) == (to - from) * x,
    decreases to - from,
{
    if from == to {
        assert((to - from) * x == 0) by (nonlinear_arith)
            requires
                to - from == 0,
        ;
    } else {
        token_prices_sum_flat(c, from + 1, to, x);
        assert(curve_price(c, from) == x);
        assert((to - from) * x == x + (to - (from + 1)) * x) by (nonlinear_arith);
    }
}

/// When no token of `from..to` costs more than `x`, together they cost at most
/// `(to - from) * x`.
pub(crate) proof fn token_prices_sum_at_most(c: CycleState, from: int, to: int, x: int)
    requires
        from <= to,
        forall|t: int| from <= t < to ==> #[trigger] curve_price(c, t) <= x,
    ensures
        token_prices_sum(c, from, to) <= (to - from) * x,
    decreases to - from,
{
    if from == to {
        assert((to - from) * x == 0) by (nonlinear_arith)
            requires
                to - from == 0,
        ;
    } else {
        token_prices_sum_at_most(c, from + 1, to, x);
        assert(curve_price(c, from) <= x);
        assert((to - from) * x == x + (to - (from + 1)) * x) by (nonlinear_arith);
    }
}

/// The walk depends on the curve terms, not on how many tokens are sold.
proof fn walk_ignores_minted(c: CycleState, d: CycleState, sold: int, end: int, acc: int, iters: int)
    requires
        d == (CycleState { minted: d.minted, ..c }),
    ensures
        cost_walk(c, sold, end, acc, iters) == cost_walk(d, sold, end, acc, iters),
    decreases MAX_COST_ITERATIONS - iters,
{
    if sold < end && iters < MAX_COST_ITERATIONS {
        assert(run_price(c, sold) == run_price(d, sold));
        assert(run_end_overflows(c, sold) == run_end_overflows(d, sold));
        assert(run_end(c, sold, end) == run_end(d, sold, end));
        if run_price(c, sold) is Ok {
            let price = run_price(c, sold)->Ok_0;
            let next = run_end(c, sold, end);
            walk_ignores_minted(c, d, next, end, acc + price * (next - sold), iters + 1);
        }
    }
}

/// A price that the curve computes without overflow is the curve price.
proof fn price_at_is_curve_price(c: CycleState, sold: int)
    requires
        0 <= sold,
        price_at(c, sold) is Ok,
    ensures
        price_at(c, sold)->Ok_0 == curve_price(c, sold),
{
    match c.curve_type {
        CurveType::Step => {
            assert((sold / (c.step_size as int)) * c.step_increment >= 0) by (nonlinear_arith)
                requires
                    sold >= 0,
                    c.step_size > 0,
            ;
        },
        CurveType::Linear => {
            if c.supply_cap != 0 {
                assert((linear_spread(c) * sold) / (c.supply_cap as int) >= 0) by (nonlinear_arith)
                    requires
                        sold >= 0,
                        linear_spread(c) >= 0,
                        c.supply_cap > 0,
                ;
            }
        },
        CurveType::ExpLite => {
            if c.supply_cap != 0 {
                let bk = c.base_price * c.growth_factor_k;
                assert(bk * pct_consumed(c, sold) / 10000 / 10000 >= 0) by (nonlinear_arith)
                    requires
                        sold >= 0,
                        bk >= 0,
                        c.supply_cap > 0,
                        pct_consumed(c, sold) == (sold * 10000) / (c.supply_cap as int),
                ;
            }
        },
    }
}

/// Where a run stops for a purchase ending at `mid` or at a later `end`: the same place,
/// unless the longer purchase's run reaches `mid`, where the shorter one stops.
proof fn run_end_cases(c: CycleState, sold: int, mid: int, end: int)
    requires
        sold < mid <= end,
    ensures
        run_end(c, sold, end) < mid ==> run_end(c, sold, mid) == run_end(c, sold, end),
        run_end(c, sold, end) >= mid ==> run_end(c, sold, mid) == mid,
{
}

/// A run holds tokens of one price: a walk that started inside it, at `mid`, would price
/// `mid` as the run does and end where it ends. On ExpLite, where the run's bucket end
/// saturates, this holds of the tokens that can be priced at all.
proof fn mid_run_split(c: CycleState, sold: int, mid: int, end: int)
    requires
        walked_evenly(c),
        c.curve_type is ExpLite && !buckets_fit(c, end) ==> run_price(c, mid) is Ok,
        0 <= sold < mid < run_end(c, sold, end),
        end <= u64_limit(),
        run_price(c, sold) is Ok,
        !run_end_overflows(c, sold),
    ensures
        run_price(c, mid) == run_price(c, sold),
        !run_end_overflows(c, mid),
        run_end(c, mid, end) == run_end(c, sold, end),
{
    run_end_bounds(c, sold, end);
    if c.curve_type is Step {
        let ss = c.step_size as int;
        let q = sold / ss;
        lemma_fundamental_div_mod(sold, ss);
        lemma_mod_pos_bound(sold, ss);
        assert(q * ss <= sold < (q + 1) * ss) by (nonlinear_arith)
            requires
                sold == ss * q + sold % ss,
                0 <= sold % ss < ss,
        ;
        assert((q + 1) * ss == q * ss + ss) by (nonlinear_arith);
        lemma_fundamental_div_mod_converse(mid, ss, q, mid - q * ss);
        assert(mid / ss == q);
    } else {
        let cap = c.supply_cap as int;
        if sold >= cap {
            assert(run_end(c, sold, end) == sold + 1);
        } else {
            let p = pct_consumed(c, sold);
            lemma_fundamental_div_mod(sold * 10000, cap);
            lemma_mod_pos_bound(sold * 10000, cap);
            assert(p * cap <= sold * 10000 < (p + 1) * cap) by (nonlinear_arith)
                requires
                    sold * 10000 == cap * p + (sold * 10000) % cap,
                    0 <= (sold * 10000) % cap < cap,
            ;
            assert(0 <= p < 10000) by (nonlinear_arith)
                requires
                    p * cap <= sold * 10000,
                    sold * 10000 < (p + 1) * cap,
                    0 <= sold < cap,
            ;
            let v = (p + 1) * cap;
            if c.curve_type is Linear {
                assert(v <= 100000000) by (nonlinear_arith)
                    requires
                        v == (p + 1) * cap,
                        0 <= p,
                        p + 1 <= 10000,
                        0 < cap <= 10000,
                ;
                assert(v <= sold * 10000 + 10000) by (nonlinear_arith)
                    requires
                        v == (p + 1) * cap,
                        p * cap <= sold * 10000,
                        cap <= 10000,
                ;
            } else if buckets_fit(c, end) {
                let last = min_int(end, cap) - 1;
                lemma_div_is_ordered(sold * 10000, last * 10000, cap);
                lemma_mul_inequality(p + 1, pct_consumed(c, last) + 1, cap);
            }
            assert(next_pct(c, sold) == p + 1);
            assert(v == p * cap + cap) by (nonlinear_arith)
                requires
                    v == (p + 1) * cap,
            ;
            if v <= u64_limit() {
                let q = (v + 9999) / 10000;
                lemma_fundamental_div_mod(v + 9999, 10000);
                lemma_mod_pos_bound(v + 9999, 10000);
                assert(q * 10000 <= v + 9999);
                assert(q * 10000 >= v);
                assert(mid * 10000 < v);
                assert(p * cap <= mid * 10000);
                lemma_fundamental_div_mod_converse(mid * 10000, cap, p, mid * 10000 - p * cap);
            } else {
                // the bucket end saturates and the run reaches the cap; `mid` can be priced,
                // so it lies in the last bucket that can be, the bucket of `sold`
                assert(mid * 10000 <= u64_limit());
                lemma_div_is_ordered(sold * 10000, mid * 10000, cap);
                let pm = pct_consumed(c, mid);
                lemma_fundamental_div_mod(mid * 10000, cap);
                lemma_mod_pos_bound(mid * 10000, cap);
                assert(pm < p + 1) by (nonlinear_arith)
                    requires
                        mid * 10000 == cap * pm + (mid * 10000) % cap,
                        0 <= (mid * 10000) % cap,
                        mid * 10000 <= u64_limit(),
                        u64_limit() < v,
                        v == (p + 1) * cap,
                        cap > 0,
                ;
            }
            assert(pct_consumed(c, mid) == p);
        }
    }
}

/// Each run of a walk on a curve priced token by token charges every token its curve
/// price, so the walk adds up the prices of the tokens `sold..end`.
proof fn walk_is_per_token(c: CycleState, sold: int, end: int, acc: int, iters: int)
    requires
        walked_per_token(c, end),
        0 <= sold,
        end <= u64_limit(),
        0 <= acc <= u64_limit(),
        cost_walk(c, sold, end, acc, iters) matches Some(Ok(_)),
    ensures
        sold <= end ==> cost_walk(c, sold, end, acc, iters)->Some_0->Ok_0 == acc
            + token_prices_sum(c, sold, end),
    decreases MAX_COST_ITERATIONS - iters,
{
    if sold < end {
        let price = run_price(c, sold)->Ok_0;
        let next = run_end(c, sold, end);
        run_end_bounds(c, sold, end);
        assert forall|t: int| sold <= t < next implies #[trigger] curve_price(c, t) == price by {
            price_at_is_curve_price(c, sold);
            if sold < t {
                mid_run_split(c, sold, t, end);
                price_at_is_curve_price(c, t);
            }
        }
        token_prices_sum_flat(c, sold, next, price as int);
        token_prices_sum_split(c, sold, next, end);
        walk_is_per_token(c, next, end, acc + price * (next - sold), iters + 1);
        assert(price * (next - sold) == (next - sold) * price) by (nonlinear_arith);
    }
}

/// A purchase on a curve priced token by token (`priced_per_token`) costs exactly the
/// sum of the curve prices of the tokens it buys.
pub proof fn cost_is_sum_of_token_prices(c: CycleState, amount: u64)
    requires
        priced_per_token(c, c.minted + amount),
        total_cost_spec(c, amount) matches Some(Ok(_)),
    ensures
        total_cost_spec(c, amount)->Some_0->Ok_0 == token_prices_sum(
            c,
            c.minted as int,
            c.minted + amount,
        ),
{
    if amount > 0 {
        if !(c.curve_type is Step) && c.supply_cap == 0 {
            token_prices_sum_flat(c, c.minted as int, c.minted + amount, c.base_price as int);
            assert(c.base_price * amount == (c.minted + amount - c.minted) * c.base_price)
                by (nonlinear_arith);
        } else {
            walk_is_per_token(c, c.minted as int, c.minted + amount, 0, 0);
        }
    }
}

/// What one purchase may cost when its two parts cost `x` and `y`: `x + y`; or a refusal
/// because the purchase spans too many runs; or an overflow, where `x + y` exceeds `u64`.
pub open spec fn joined_cost(r: Option<Result<u64, MammothError>>, x: int, y: int) -> bool {
    ||| (x + y <= u64_limit() && r == Some(Ok::<u64, MammothError>((x + y) as u64)))
    ||| r == Some(Err::<u64, MammothError>(MammothError::PurchaseTooLarge))
    ||| (x + y > u64_limit() && r == Some(Err::<u64, MammothError>(MammothError::MathOverflow)))
}

/// A walk that succeeds never ends below the amount it started from.
proof fn walk_result_at_least(c: CycleState, sold: int, end: int, acc: int, iters: int)
    requires
        0 <= acc <= u64_limit(),
        cost_walk(c, sold, end, acc, iters) matches Some(Ok(_)),
    ensures
        cost_walk(c, sold, end, acc, iters)->Some_0->Ok_0 >= acc,
    decreases MAX_COST_ITERATIONS - iters,
{
    if sold < end && iters < MAX_COST_ITERATIONS {
        let price = run_price(c, sold)->Ok_0;
        let next = run_end(c, sold, end);
        run_end_bounds(c, sold, end);
        assert(price * (next - sold) >= 0) by (nonlinear_arith)
            requires
                next - sold >= 0,
                price >= 0,
        ;
        walk_result_at_least(c, next, end, acc + price * (next - sold), iters + 1);
    }
}

/// Two walks over the same runs from `sold`, one ahead by `acc_ahead - acc_behind` and by
/// at least as many runs: the one ahead ends at the other's result plus its lead, or
/// stops on the run limit, or overflows where that sum exceeds `u64`.
proof fn walk_with_lead(
    c: CycleState,
    sold: int,
    end: int,
    acc_ahead: int,
    iters_ahead: int,
    acc_behind: int,
    iters_behind: int,
)
    requires
        0 <= acc_behind <= acc_ahead <= u64_limit(),
        0 <= iters_behind <= iters_ahead,
        cost_walk(c, sold, end, acc_behind, iters_behind) matches Some(Ok(_)),
    ensures
        joined_cost(
            cost_walk(c, sold, end, acc_ahead, iters_ahead),
            acc_ahead - acc_behind,
            cost_walk(c, sold, end, acc_behind, iters_behind)->Some_0->Ok_0 as int,
        ),
    decreases MAX_COST_ITERATIONS - iters_behind,
{
    if sold < end && iters_ahead < MAX_COST_ITERATIONS {
        let price = run_price(c, sold)->Ok_0;
        let next = run_end(c, sold, end);
        let cost = price * (next - sold);
        if acc_ahead + cost <= u64_limit() {
            walk_with_lead(c, next, end, acc_ahead + cost, iters_ahead + 1, acc_behind + cost, iters_behind + 1);
        } else {
            walk_result_at_least(c, next, end, acc_behind + cost, iters_behind + 1);
        }
    }
}

/// The walk of a purchase `sold..end` against the walks of its parts `sold..mid` and
/// `mid..end`: it takes the first part's runs up to the run that holds `mid`, charges that
/// run as the two parts do together, and from there takes the second part's runs.
proof fn walk_of_two_parts(c: CycleState, sold: int, mid: int, end: int, acc: int, iters: int)
    requires
        walked_evenly(c),
        0 <= sold < mid < end,
        end <= u64_limit(),
        0 <= acc <= u64_limit(),
        0 <= iters,
        cost_walk(c, sold, mid, acc, iters) matches Some(Ok(_)),
        cost_walk(c, mid, end, 0, 0) matches Some(Ok(_)),
    ensures
        joined_cost(
            cost_walk(c, sold, end, acc, iters),
            cost_walk(c, sold, mid, acc, iters)->Some_0->Ok_0 as int,
            cost_walk(c, mid, end, 0, 0)->Some_0->Ok_0 as int,
        ),
    decreases MAX_COST_ITERATIONS - iters,
{
    let price = run_price(c, sold)->Ok_0;
    let next = run_end(c, sold, end);
    run_end_cases(c, sold, mid, end);
    run_end_bounds(c, sold, end);
    let cost = price * (next - sold);
    if next < mid {
        assert(cost_walk(c, sold, mid, acc, iters) == cost_walk(c, next, mid, acc + cost, iters + 1));
        assert(cost_walk(c, sold, end, acc, iters) == cost_walk(c, next, end, acc + cost, iters + 1));
        walk_of_two_parts(c, next, mid, end, acc + cost, iters + 1);
    } else if next == mid {
        assert(cost_walk(c, sold, mid, acc, iters) == cost_walk(c, mid, mid, acc + cost, iters + 1));
        assert(cost_walk(c, mid, mid, acc + cost, iters + 1) == Some(
            Ok::<u64, MammothError>((acc + cost) as u64),
        ));
        assert(cost_walk(c, sold, end, acc, iters) == cost_walk(c, mid, end, acc + cost, iters + 1));
        walk_with_lead(c, mid, end, acc + cost, iters + 1, 0, 0);
    } else {
        assert(run_price(c, mid) is Ok);
        mid_run_split(c, sold, mid, end);
        let cost_first = price * (mid - sold);
        let cost_second = price * (next - mid);
        assert(price * (next - sold) == cost_first + cost_second) by (nonlinear_arith)
            requires
                cost_first == price * (mid - sold),
                cost_second == price * (next - mid),
        ;
        assert(cost_first >= 0) by (nonlinear_arith)
            requires
                cost_first == price * (mid - sold),
                mid - sold >= 0,
                price >= 0,
        ;
        assert(run_end(c, sold, mid) == mid);
        assert(cost_walk(c, sold, mid, acc, iters) == cost_walk(c, mid, mid, acc + cost_first, iters + 1));
        assert(cost_walk(c, mid, mid, acc + cost_first, iters + 1) == Some(
            Ok::<u64, MammothError>((acc + cost_first) as u64),
        ));
        assert(cost_walk(c, mid, end, 0, 0) == cost_walk(c, next, end, cost_second, 1));
        if acc + cost_first + cost_second <= u64_limit() {
            assert(cost_walk(c, sold, end, acc, iters) == cost_walk(c, next, end, acc + cost, iters + 1));
            walk_with_lead(c, next, end, acc + cost_first + cost_second, iters + 1, cost_second, 1);
        } else {
            walk_result_at_least(c, next, end, cost_second, 1);
        }
    }
}

/// On every Step and ExpLite curve, and on Linear curves whose cap is at most 10000 tokens,
/// buying `first` then `second` tokens costs what buying `first + second` at once costs:
/// the single purchase costs the sum of the two, unless it spans more runs than one
/// purchase may walk or the sum overflows `u64`.
pub proof fn split_purchase_costs_the_same(c: CycleState, first: u64, second: u64)
    requires
        split_keeps_cost(c),
        total_cost_spec(c, first) matches Some(Ok(_)),
        total_cost_spec(CycleState { minted: (c.minted + first) as u64, ..c }, second) matches Some(
            Ok(_),
        ),
    ensures
        first + second <= u64::MAX,
        joined_cost(
            total_cost_spec(c, (first + second) as u64),
            total_cost_spec(c, first)->Some_0->Ok_0 as int,
            total_cost_spec(CycleState { minted: (c.minted + first) as u64, ..c }, second)->Some_0->Ok_0 as int,
        ),
{
    let d = CycleState { minted: (c.minted + first) as u64, ..c };
    if first == 0 {
        assert(d == c);
    } else if second == 0 {
    } else {
        let mid = c.minted + first;
        let end = mid + second;
        if !(c.curve_type is Step) && c.supply_cap == 0 {
            assert(c.base_price * (first + second) == c.base_price * first + c.base_price * second)
                by (nonlinear_arith);
        } else {
            walk_ignores_minted(c, d, mid, end, 0, 0);
            walk_of_two_parts(c, c.minted as int, mid, end, 0, 0);
        }
    }
}

/// Each run of a walk is priced at no more than the price of the purchase's last token.
proof fn cost_walk_at_most(c: CycleState, sold: int, end: int, acc: int, iters: int, ceiling: int)
    requires
        0 <= sold,
        0 <= acc <= u64_limit(),
        price_at(c, end - 1) is Ok,
        ceiling == price_at(c, end - 1)->Ok_0,
        cost_walk(c, sold, end, acc, iters) matches Some(Ok(_)),
    ensures
        sold <= end ==> cost_walk(c, sold, end, acc, iters)->Some_0->Ok_0 <= acc + ceiling * (end
            - sold),
    decreases MAX_COST_ITERATIONS - iters,
{
    if sold < end {
        let price = run_price(c, sold)->Ok_0;
        price_never_decreases(c, sold, end - 1);
        let next = run_end(c, sold, end);
        run_end_bounds(c, sold, end);
        cost_walk_at_most(c, next, end, acc + price * (next - sold), iters + 1, ceiling);
        lemma_mul_inequality(price as int, ceiling, next - sold);
        assert(ceiling * (end - sold) == ceiling * (next - sold) + ceiling * (end - next))
            by (nonlinear_arith);
    } else if sold == end {
        assert(ceiling * (end - sold) == 0) by (nonlinear_arith)
            requires
                end - sold == 0,
        ;
    }
}

/// A purchase never costs more than the price of its last token times the amount bought,
/// and a purchase of one token costs the spot price.
pub proof fn bulk_purchase_pays_at_most_last_price(c: CycleState, amount: u64)
    requires
        amount > 0,
        total_cost_spec(c, amount) matches Some(Ok(_)),
        price_at(c, c.minted + amount - 1) is Ok,
    ensures
        total_cost_spec(c, amount)->Some_0->Ok_0 <= price_at(c, c.minted + amount - 1)->Ok_0
            * amount,
        amount == 1 ==> total_cost_spec(c, amount)->Some_0->Ok_0 == price_at(
            c,
            c.minted as int,
        )->Ok_0,
{
    let last = price_at(c, c.minted + amount - 1)->Ok_0;
    if !(c.curve_type is Step) && c.supply_cap == 0 {
    } else {
        cost_walk_at_most(c, c.minted as int, c.minted + amount, 0, 0, last as int);
        assert(last * (c.minted + amount - c.minted) == last * amount);
    }
    if amount == 1 {
        bulk_purchase_pays_at_least_spot(c, amount);
        let spot = price_at(c, c.minted as int)->Ok_0;
        assert(spot * amount == spot && last * amount == last) by (nonlinear_arith)
            requires
                amount == 1,
        ;
    }
}

} // verus!
