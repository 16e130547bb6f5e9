//! The life of a cycle: opening, the move from rights window to public sale, and
//! closing with the split of proceeds.
use vstd::prelude::*;
use crate::accounting::{bps_share, bps_share_spec};
use crate::authority::{authority_check, check_authority, config_of};
use crate::curve::{
    curve_price, linear_spread, pct_consumed, sub_floor, token_prices_sum,
    token_prices_sum_at_most, token_prices_sum_flat, token_prices_sum_split, u64_limit,
};
use vstd::arithmetic::div_mod::{
    lemma_div_is_ordered, lemma_fundamental_div_mod, lemma_fundamental_div_mod_converse,
    lemma_mod_pos_bound,
};
use crate::error::MammothError;
use crate::keys::Pubkey;
use crate::state::{
    AuthorityConfig, CurveType, CycleActivated, CycleClosed, CycleOpened, CycleState, CycleStatus,
    ProjectState,
};

verus! {

/// Smallest step size of a Step curve (bounds the work of pricing one purchase).
pub const MIN_STEP_SIZE: u64 = 100;

/// Largest growth factor of an ExpLite curve (10x growth at full fill).
pub const MAX_GROWTH_FACTOR_K: u64 = 100000;

/// Shortest rights window: 60 seconds.
pub const MIN_RIGHTS_WINDOW_SECS: i64 = 60;

/// Longest rights window: 30 days.
pub const MAX_RIGHTS_WINDOW_SECS: i64 = 2592000;

/// `x`, capped at the largest `u64`.
pub open spec fn sat(x: int) -> int {
    if x > u64_limit() {
        u64_limit()
    } else {
        x
    }
}

/// `a * b`, saturating at the largest `u64`.
pub fn saturating_product(a: u64, b: u64) -> (r: u64)
    ensures
        r == sat(a * b),
{
    match a.checked_mul(b) {
        Some(p) => p,
        None => u64::MAX,
    }
}

/// Upper estimate of what a cycle with these terms can raise, each step of the
/// computation saturating at the largest `u64`.
/// Step: full steps as an arithmetic series, `step_size * (n * base + inc * n * (n - 1) / 2)`,
/// plus the remainder at the last step's price. Linear: the cap at the average of base and
/// end price. ExpLite: the cap at the price reached at full fill, `base + base * k / 10000`.
pub open spec fn max_raise_estimate(
    curve_type: CurveType,
    supply_cap: u64,
    base_price: u64,
    step_size: u64,
    step_increment: u64,
    end_price: u64,
    growth_factor_k: u64,
) -> int {
    match curve_type {
        CurveType::Step => {
            let n: int = if step_size > 0 { (supply_cap / step_size) as int } else { 0 };
            let remainder: int = if step_size > 0 { (supply_cap % step_size) as int } else { 0 };
            let series = sat(sat(step_increment * n) * sub_floor(n, 1)) / 2;
            let base_total = sat(step_size * sat(sat(n * base_price) + series));
            let final_price = sat(base_price + sat(n * step_increment));
            sat(base_total + sat(remainder * final_price))
        },
        CurveType::Linear => sat(supply_cap * (sat(base_price + end_price) / 2)),
        CurveType::ExpLite => sat(
            supply_cap * sat(base_price + sat(base_price * growth_factor_k) / 10000),
        ),
    }
}

/// The estimate of what a cycle with these terms can raise, checked against an
/// operator's spending limit.
pub fn estimate_max_raise(
    curve_type: CurveType,
    supply_cap: u64,
    base_price: u64,
    step_size: u64,
    step_increment: u64,
    end_price: u64,
    growth_factor_k: u64,
) -> (r: u64)
    ensures
        r == max_raise_estimate(
            curve_type,
            supply_cap,
            base_price,
            step_size,
            step_increment,
            end_price,
            growth_factor_k,
        ),
{
    match curve_type {
        CurveType::Step => {
            let num_steps = if step_size > 0 { supply_cap / step_size } else { 0 };
            let remainder = if step_size > 0 { supply_cap % step_size } else { 0 };
            let series = saturating_product(
                saturating_product(step_increment, num_steps),
                num_steps.saturating_sub(1),
            ) / 2;
            let base_total = saturating_product(
                step_size,
                saturating_product(num_steps, base_price).saturating_add(series),
            );
            let final_price = base_price.saturating_add(
                saturating_product(num_steps, step_increment),
            );
            let remainder_total = saturating_product(remainder, final_price);
            base_total.saturating_add(remainder_total)
        },
        CurveType::Linear => {
            let avg_price = base_price.saturating_add(end_price) / 2;
            saturating_product(supply_cap, avg_price)
        },
        CurveType::ExpLite => {
            let max_price = base_price.saturating_add(
                saturating_product(base_price, growth_factor_k) / 10000,
            );
            saturating_product(supply_cap, max_price)
        },
    }
}

/// The spending estimate for a cycle's own terms.
pub open spec fn cycle_raise_estimate(c: CycleState) -> int {
    max_raise_estimate(
        c.curve_type,
        c.supply_cap,
        c.base_price,
        c.step_size,
        c.step_increment,
        c.end_price,
        c.growth_factor_k,
    )
}

/// Step: the tokens of step `j` all cost `base + j * step_increment`.
proof fn step_block_sum(c: CycleState, j: int)
    requires
        c.curve_type is Step,
        c.step_size > 0,
        j >= 0,
    ensures
        token_prices_sum(c, j * c.step_size, j * c.step_size + c.step_size) == c.step_size * (
        c.base_price + j * c.step_increment),
{
    let ss = c.step_size as int;
    let x = c.base_price + j * c.step_increment;
    assert forall|t: int| j * ss <= t < j * ss + ss implies #[trigger] curve_price(c, t) == x by {
        lemma_fundamental_div_mod_converse(t, ss, j, t - j * ss);
    }
    token_prices_sum_flat(c, j * ss, j * ss + ss, x);
    assert((j * ss + ss - j * ss) * x == ss * x) by (nonlinear_arith);
}

/// Step: the first `n` full steps cost the arithmetic series
/// `step_size * (n * base + step_increment * n * (n - 1) / 2)`, here doubled.
proof fn step_series_sum(c: CycleState, n: int)
    requires
        c.curve_type is Step,
        c.step_size > 0,
        n >= 0,
    ensures
        2 * token_prices_sum(c, 0, n * c.step_size) == c.step_size * (2 * n * c.base_price
            + c.step_increment * n * (n - 1)),
    decreases n,
{
    let ss = c.step_size as int;
    let b = c.base_price as int;
    let inc = c.step_increment as int;
    if n == 0 {
        assert(n * ss == 0 && ss * (2 * n * b + inc * n * (n - 1)) == 0) by (nonlinear_arith)
            requires
                n == 0,
        ;
    } else {
        step_series_sum(c, n - 1);
        step_block_sum(c, n - 1);
        assert((n - 1) * ss + ss == n * ss && 0 <= (n - 1) * ss) by (nonlinear_arith)
            requires
                n >= 1,
                ss > 0,
        ;
        token_prices_sum_split(c, 0, (n - 1) * ss, n * ss);
        assert(ss * (2 * (n - 1) * b + inc * (n - 1) * (n - 1 - 1)) + 2 * (ss * (b + (n - 1) * inc))
            == ss * (2 * n * b + inc * n * (n - 1))) by (nonlinear_arith);
    }
}

/// Saturating a summand first saturates the same sum.
proof fn sat_of_sat_sum(a: int, b: int)
    requires
        a >= 0,
        b >= 0,
    ensures
        sat(a + sat(b)) == sat(a + b),
        sat(sat(b) + a) == sat(b + a),
{
}

/// Saturating a factor first saturates the same product.
proof fn sat_of_sat_product(k: int, x: int)
    requires
        k >= 0,
        x >= 0,
    ensures
        sat(k * sat(x)) == sat(k * x),
{
    if x > u64_limit() && k > 0 {
        assert(k * u64_limit() >= u64_limit() && k * x >= x) by (nonlinear_arith)
            requires
                k >= 1,
                x >= 0,
        ;
    } else if x > u64_limit() {
        assert(k * u64_limit() == 0 && k * x == 0) by (nonlinear_arith)
            requires
                k == 0,
        ;
    }
}

/// Step: wherever the doubled series `step_increment * n * (n - 1)` (n full steps) fits in
/// `u64`, the spending estimate is what selling the whole cap raises, each token at its
/// curve price, saturated at the largest `u64`.
pub proof fn step_estimate_is_full_raise(c: CycleState)
    requires
        c.curve_type is Step,
        c.step_size > 0,
        c.step_increment * (c.supply_cap / c.step_size) * sub_floor(
            (c.supply_cap / c.step_size) as int,
            1,
        ) <= u64::MAX,
    ensures
        cycle_raise_estimate(c) == sat(token_prices_sum(c, 0, c.supply_cap as int)),
{
    let ss = c.step_size as int;
    let cap = c.supply_cap as int;
    let b = c.base_price as int;
    let inc = c.step_increment as int;
    let n = (c.supply_cap / c.step_size) as int;
    let rem = (c.supply_cap % c.step_size) as int;
    lemma_fundamental_div_mod(cap, ss);
    lemma_mod_pos_bound(cap, ss);
    assert(n >= 0);
    let full = n * ss;
    assert(cap == full + rem);
    step_series_sum(c, n);
    let last = b + n * inc;
    assert forall|t: int| full <= t < cap implies #[trigger] curve_price(c, t) == last by {
        lemma_fundamental_div_mod_converse(t, ss, n, t - n * ss);
    }
    assert(0 <= full) by (nonlinear_arith)
        requires
            full == n * ss,
            n >= 0,
            ss > 0,
    ;
    token_prices_sum_flat(c, full, cap, last);
    token_prices_sum_split(c, 0, full, cap);
    let big_s = token_prices_sum(c, 0, full);
    let big_r = rem * last;
    assert(big_r >= 0 && n * b >= 0 && n * inc >= 0) by (nonlinear_arith)
        requires
            big_r == rem * last,
            rem >= 0,
            last >= 0,
            n >= 0,
            b >= 0,
            inc >= 0,
    ;
    // the series term is even, so halving it is exact
    let series = inc * n * sub_floor(n, 1);
    assert(series == inc * n * (n - 1)) by (nonlinear_arith)
        requires
            series == inc * n * sub_floor(n, 1),
            n >= 0,
            sub_floor(n, 1) == (if n >= 1 { n - 1 } else { 0 }),
    ;
    lemma_fundamental_div_mod(n, 2);
    let h = if n % 2 == 0 {
        inc * (n / 2) * (n - 1)
    } else {
        inc * n * (n / 2)
    };
    assert(series == 2 * h) by (nonlinear_arith)
        requires
            series == inc * n * (n - 1),
            n == 2 * (n / 2) + n % 2,
            n % 2 == 0 || n % 2 == 1,
            h == (if n % 2 == 0 {
                inc * (n / 2) * (n - 1)
            } else {
                inc * n * (n / 2)
            }),
    ;
    assert(h >= 0) by (nonlinear_arith)
        requires
            series == 2 * h,
            series == inc * n * (n - 1),
            inc >= 0,
            n >= 0,
    ;
    assert(big_s == ss * (n * b + h)) by (nonlinear_arith)
        requires
            2 * big_s == ss * (2 * n * b + inc * n * (n - 1)),
            series == inc * n * (n - 1),
            series == 2 * h,
    ;
    assert(inc * n <= u64::MAX) by (nonlinear_arith)
        requires
            series == inc * n * sub_floor(n, 1),
            series <= u64::MAX,
            sub_floor(n, 1) == (if n >= 1 { n - 1 } else { 0 }),
            inc <= u64::MAX,
            inc >= 0,
            n >= 0,
    ;
    assert((cap - full) * last == big_r);
    assert(n * inc == inc * n) by (nonlinear_arith);
    assert(sat(sat(inc * n) * sub_floor(n, 1)) / 2 == h);
    // every other stage of the estimate saturates the exact value of that stage
    sat_of_sat_sum(h, n * b);
    sat_of_sat_product(ss, n * b + h);
    sat_of_sat_sum(b, n * inc);
    sat_of_sat_product(rem, last);
    sat_of_sat_sum(sat(big_r), big_s);
    sat_of_sat_sum(big_s, big_r);
    assert(sat(c.step_size * sat(sat(n * b) + h)) == sat(big_s));
    assert(sat(rem * sat(b + sat(n * inc))) == sat(big_r));
}

/// ExpLite: every token below the cap costs at most the price at full fill,
/// `base + base * k / 10000`.
proof fn exp_price_below_full_fill(c: CycleState, t: int)
    requires
        c.curve_type is ExpLite,
        c.supply_cap > 0,
        0 <= t < c.supply_cap,
    ensures
        curve_price(c, t) <= c.base_price + (c.base_price * c.growth_factor_k) / 10000,
{
    let cap = c.supply_cap as int;
    let bk = c.base_price * c.growth_factor_k;
    let p = pct_consumed(c, t);
    lemma_fundamental_div_mod(t * 10000, cap);
    lemma_mod_pos_bound(t * 10000, cap);
    assert(0 <= p < 10000) by (nonlinear_arith)
        requires
            t * 10000 == cap * p + (t * 10000) % cap,
            0 <= (t * 10000) % cap < cap,
            0 <= t < cap,
    ;
    assert(0 <= bk * p <= bk * 10000) by (nonlinear_arith)
        requires
            0 <= p < 10000,
            bk >= 0,
    ;
    lemma_div_is_ordered(bk * p, bk * 10000, 10000);
    assert((bk * 10000) / 10000 == bk);
    lemma_div_is_ordered((bk * p) / 10000, bk, 10000);
}

/// ExpLite: where the product of base price and growth factor fits in `u64` (without which
/// no price can be computed), selling the whole cap at each token's curve price raises no
/// more than the spending estimate, unless the estimate saturates at the largest `u64`.
pub proof fn explite_estimate_bounds_full_raise(c: CycleState)
    requires
        c.curve_type is ExpLite,
        c.base_price * c.growth_factor_k <= u64::MAX,
    ensures
        cycle_raise_estimate(c) == u64::MAX || token_prices_sum(c, 0, c.supply_cap as int)
            <= cycle_raise_estimate(c),
{
    let cap = c.supply_cap as int;
    let top = c.base_price + (c.base_price * c.growth_factor_k) / 10000;
    if cap > 0 {
        assert forall|t: int| 0 <= t < cap implies #[trigger] curve_price(c, t) <= top by {
            exp_price_below_full_fill(c, t);
        }
        token_prices_sum_at_most(c, 0, cap, top);
        if top > u64_limit() {
            assert(cap * u64_limit() >= u64_limit()) by (nonlinear_arith)
                requires
                    cap >= 1,
            ;
        }
    }
}

/// Linear: a token and its mirror image below the cap (`t` and `cap - 1 - t`) together
/// cost at most twice the base price plus the spread less one.
proof fn linear_mirror_pair(c: CycleState, t: int)
    requires
        c.curve_type is Linear,
        c.supply_cap > 0,
        linear_spread(c) > 0,
        0 <= t < c.supply_cap,
    ensures
        curve_price(c, t) + curve_price(c, c.supply_cap - 1 - t) <= 2 * c.base_price
            + linear_spread(c) - 1,
{
    let cap = c.supply_cap as int;
    let s = linear_spread(c);
    let x = s * t;
    let y = s * (cap - 1 - t);
    lemma_fundamental_div_mod(x, cap);
    lemma_mod_pos_bound(x, cap);
    lemma_fundamental_div_mod(y, cap);
    lemma_mod_pos_bound(y, cap);
    assert(x + y == s * cap - s) by (nonlinear_arith)
        requires
            x == s * t,
            y == s * (cap - 1 - t),
    ;
    assert(x / cap + y / cap <= s - 1) by (nonlinear_arith)
        requires
            x == cap * (x / cap) + x % cap,
            y == cap * (y / cap) + y % cap,
            0 <= x % cap,
            0 <= y % cap,
            x + y == s * cap - s,
            s > 0,
            cap > 0,
    ;
}

/// Linear: the tokens of `a..cap - a`, paired from both ends, cost at most
/// `(cap - 2a) * (2 * base + spread - 1) / 2`, here doubled.
proof fn linear_mirror_sum(c: CycleState, a: int)
    requires
        c.curve_type is Linear,
        c.supply_cap > 0,
        linear_spread(c) > 0,
        0 <= a,
        2 * a <= c.supply_cap,
    ensures
        2 * token_prices_sum(c, a, c.supply_cap - a) <= (c.supply_cap - 2 * a) * (2 * c.base_price
            + linear_spread(c) - 1),
    decreases c.supply_cap - 2 * a,
{
    let cap = c.supply_cap as int;
    let w = 2 * c.base_price + linear_spread(c) - 1;
    if 2 * a == cap {
        assert((cap - 2 * a) * w == 0) by (nonlinear_arith)
            requires
                cap - 2 * a == 0,
        ;
    } else if 2 * a + 1 == cap {
        linear_mirror_pair(c, a);
        assert(token_prices_sum(c, a + 1, cap - a) == 0);
        assert((cap - 2 * a) * w == w) by (nonlinear_arith)
            requires
                cap - 2 * a == 1,
        ;
    } else {
        linear_mirror_pair(c, a);
        linear_mirror_sum(c, a + 1);
        token_prices_sum_split(c, a + 1, cap - a - 1, cap - a);
        assert(token_prices_sum(c, cap - a, cap - a) == 0);
        assert(token_prices_sum(c, cap - a - 1, cap - a) == curve_price(c, cap - 1 - a));
        assert((cap - 2 * a) * w == (cap - 2 * (a + 1)) * w + 2 * w) by (nonlinear_arith);
    }
}

/// Linear, with an end price at least the base price and the two adding up within `u64`:
/// selling the whole cap at each token's curve price raises no more than the spending
/// estimate (the cap at the average of base and end price), unless the estimate
/// saturates at the largest `u64`.
pub proof fn linear_estimate_bounds_full_raise(c: CycleState)
    requires
        c.curve_type is Linear,
        c.base_price <= c.end_price,
        c.base_price + c.end_price <= u64::MAX,
    ensures
        cycle_raise_estimate(c) == u64::MAX || token_prices_sum(c, 0, c.supply_cap as int)
            <= cycle_raise_estimate(c),
{
    let cap = c.supply_cap as int;
    let b = c.base_price as int;
    let s = linear_spread(c);
    let avg = (c.base_price + c.end_price) / 2;
    assert(avg == b + s / 2);
    if cap > 0 {
        if s == 0 {
            assert forall|t: int| 0 <= t < cap implies #[trigger] curve_price(c, t) == b by {
                assert(s * t == 0) by (nonlinear_arith)
                    requires
                        s == 0,
                ;
            }
            token_prices_sum_flat(c, 0, cap, b);
        } else {
            linear_mirror_sum(c, 0);
        }
        let total = token_prices_sum(c, 0, cap);
        assert(total <= cap * avg) by (nonlinear_arith)
            requires
                s == 0 ==> total == (cap - 0) * b,
                s > 0 ==> 2 * total <= (cap - 2 * 0) * (2 * b + s - 1),
                avg == b + s / 2,
                s >= 0,
                cap > 0,
        ;
    }
}

/// Rank of a status in the order a cycle goes through them.
pub open spec fn status_rank(s: CycleStatus) -> int {
    match s {
        CycleStatus::Pending => 0,
        CycleStatus::RightsWindow => 1,
        CycleStatus::Active => 2,
        CycleStatus::Closed => 3,
    }
}

/// The terms a cycle was opened with, and its identity, are the same in both states.
pub open spec fn cycle_terms_unchanged(a: CycleState, b: CycleState) -> bool {
    &&& a.project == b.project
    &&& a.cycle_index == b.cycle_index
    &&& a.curve_type == b.curve_type
    &&& a.supply_cap == b.supply_cap
    &&& a.base_price == b.base_price
    &&& a.rights_window_end == b.rights_window_end
    &&& a.step_size == b.step_size
    &&& a.step_increment == b.step_increment
    &&& a.end_price == b.end_price
    &&& a.growth_factor_k == b.growth_factor_k
    &&& a.bump == b.bump
}

/// Byte code of a curve type in events.
pub open spec fn curve_type_code(t: CurveType) -> u8 {
    match t {
        CurveType::Step => 0,
        CurveType::Linear => 1,
        CurveType::ExpLite => 2,
    }
}

/// The byte that stands for a curve type in events.
pub fn curve_type_byte(t: CurveType) -> (r: u8)
    ensures
        r == curve_type_code(t),
{
    match t {
        CurveType::Step => 0u8,
        CurveType::Linear => 1u8,
        CurveType::ExpLite => 2u8,
    }
}

/// The optional authority configuration, borrowed.
pub fn config_ref(o: &Option<AuthorityConfig>) -> (r: Option<&AuthorityConfig>)
    ensures
        config_of(r) == *o,
{
    match o {
        Some(c) => Some(c),
        None => None,
    }
}

/// The accounts `open_cycle` reads and writes.
#[derive(Clone, Copy, Debug, PartialEq, Eq)]
pub struct OpenCycle {
    pub project_state: ProjectState,
    /// Address of the project account.
    pub project_key: Pubkey,
    /// The cycle account being initialized.
    pub cycle_state: CycleState,
    pub cycle_state_bump: u8,
    /// Tokens held by the project escrow.
    pub escrow_amount: u64,
    /// The mint account passed in.
    pub mint: Pubkey,
    pub authority_config: Option<AuthorityConfig>,
    /// The signer.
    pub caller: Pubkey,
    /// Current unix time.
    pub now: i64,
}

/// An operator (not the creator) with a non-zero spending limit may only open cycles
/// whose estimated raise is within that limit.
pub open spec fn over_spending_limit(
    ctx: OpenCycle,
    curve_type: CurveType,
    supply_cap: u64,
    base_price: u64,
    step_size: u64,
    step_increment: u64,
    end_price: u64,
    growth_factor_k: u64,
) -> bool {
    &&& ctx.authority_config is Some
    &&& ctx.authority_config->Some_0.spending_limit_lamports > 0
    &&& ctx.caller != ctx.project_state.creator
    &&& max_raise_estimate(
        curve_type,
        supply_cap,
        base_price,
        step_size,
        step_increment,
        end_price,
        growth_factor_k,
    ) > ctx.authority_config->Some_0.spending_limit_lamports
}

/// The cycle `open_cycle` writes.
pub open spec fn opened_cycle(
    ctx: OpenCycle,
    curve_type: CurveType,
    supply_cap: u64,
    base_price: u64,
    rights_window_duration: i64,
    step_size: u64,
    step_increment: u64,
    end_price: u64,
    growth_factor_k: u64,
) -> CycleState {
    CycleState {
        project: ctx.project_key,
        cycle_index: ctx.project_state.current_cycle,
        curve_type,
        supply_cap,
        minted: 0,
        base_price,
        status: CycleStatus::RightsWindow,
        rights_window_end: (ctx.now + rights_window_duration) as i64,
        step_size,
        step_increment,
        end_price,
        growth_factor_k,
        sol_raised: 0,
        rights_merkle_root: None,
        rights_allocated: 0,
        rights_reserved_at_activation: 0,
        rights_committed: 0,
        closed_at: 0,
        bump: ctx.cycle_state_bump,
    }
}

/// What `open_cycle` does: the caller must be allowed to open cycles (an operator also
/// within its spending limit), the launch time reached, no cycle active, the curve
/// terms sane, the rights window between a minute and 30 days, the cap within the
/// escrow. The new cycle starts in its rights window with nothing sold, and the
/// project's cycle counter moves on by one.
pub open spec fn open_cycle_outcome(
    ctx: OpenCycle,
    curve_type: CurveType,
    supply_cap: u64,
    base_price: u64,
    rights_window_duration: i64,
    step_size: u64,
    step_increment: u64,
    end_price: u64,
    growth_factor_k: u64,
) -> Result<(OpenCycle, CycleOpened), MammothError> {
    let p = ctx.project_state;
    let auth = authority_check(
        ctx.caller,
        p,
        ctx.project_key,
        ctx.authority_config,
        "open_cycle"@,
    );
    if auth is Err {
        Err(auth->Err_0)
    } else if over_spending_limit(
        ctx,
        curve_type,
        supply_cap,
        base_price,
        step_size,
        step_increment,
        end_price,
        growth_factor_k,
    ) {
        Err(MammothError::SpendingLimitExceeded)
    } else if p.launch_at is Some && ctx.now < p.launch_at->Some_0 {
        Err(MammothError::LaunchTimeNotReached)
    } else if p.has_active_cycle {
        Err(MammothError::CycleStillActive)
    } else if curve_type is Step && step_size < MIN_STEP_SIZE {
        Err(MammothError::ZeroStepSize)
    } else if curve_type is ExpLite && growth_factor_k > MAX_GROWTH_FACTOR_K {
        Err(MammothError::InvalidCurveParam)
    } else if rights_window_duration < MIN_RIGHTS_WINDOW_SECS || rights_window_duration
        > MAX_RIGHTS_WINDOW_SECS {
        Err(MammothError::InvalidRightsWindow)
    } else if ctx.mint != p.mint {
        Err(MammothError::InvalidProjectMint)
    } else if supply_cap > ctx.escrow_amount {
        Err(MammothError::SupplyCapExceedsEscrow)
    } else if p.hard_cap is Some && p.total_supply > p.hard_cap->Some_0 {
        Err(MammothError::SupplyCapExceeded)
    } else if ctx.now + rights_window_duration > i64::MAX {
        Err(MammothError::MathOverflow)
    } else if p.current_cycle + 1 > u8::MAX {
        Err(MammothError::MathOverflow)
    } else {
        let cycle = opened_cycle(
            ctx,
            curve_type,
            supply_cap,
            base_price,
            rights_window_duration,
            step_size,
            step_increment,
            end_price,
            growth_factor_k,
        );
        Ok(
            (
                OpenCycle {
                    cycle_state: cycle,
                    project_state: ProjectState {
                        current_cycle: (p.current_cycle + 1) as u8,
                        has_active_cycle: true,
                        ..p
                    },
                    ..ctx
                },
                CycleOpened {
                    project_mint: p.mint,
                    project_state: ctx.project_key,
                    cycle_index: p.current_cycle,
                    curve_type: curve_type_code(curve_type),
                    supply_cap,
                    base_price,
                    rights_window_end: cycle.rights_window_end,
                    timestamp: ctx.now,
                },
            ),
        )
    }
}

/// Opens the project's next cycle with the given curve terms, starting its rights window.
pub fn open_cycle(
    ctx: &mut OpenCycle,
    curve_type: CurveType,
    supply_cap: u64,
    base_price: u64,
    rights_window_duration: i64,
    step_size: u64,
    step_increment: u64,
    end_price: u64,
    growth_factor_k: u64,
) -> (r: Result<CycleOpened, MammothError>)
    ensures
        match r {
            Ok(ev) => open_cycle_outcome(
                *old(ctx),
                curve_type,
                supply_cap,
                base_price,
                rights_window_duration,
                step_size,
                step_increment,
                end_price,
                growth_factor_k,
            ) == Ok::<(OpenCycle, CycleOpened), MammothError>((*final(ctx), ev)),
            Err(e) => open_cycle_outcome(
                *old(ctx),
                curve_type,
                supply_cap,
                base_price,
                rights_window_duration,
                step_size,
                step_increment,
                end_price,
                growth_factor_k,
            ) == Err::<(OpenCycle, CycleOpened), MammothError>(e) && *final(ctx) == *old(ctx),
        },
        r is Ok ==> !old(ctx).project_state.has_active_cycle && final(ctx).project_state.has_active_cycle,
        r is Ok ==> final(ctx).project_state.current_cycle == old(ctx).project_state.current_cycle + 1,
        r is Ok ==> final(ctx).project_state.hard_cap == old(ctx).project_state.hard_cap,
{
    check_authority(
        &ctx.caller,
        &ctx.project_state,
        &ctx.project_key,
        config_ref(&ctx.authority_config),
        "open_cycle",
    )?;
    match &ctx.authority_config {
        Some(auth) => {
            if auth.spending_limit_lamports > 0 && !ctx.caller.equals(&ctx.project_state.creator) {
                let max_raise = estimate_max_raise(
                    curve_type,
                    supply_cap,
                    base_price,
                    step_size,
                    step_increment,
                    end_price,
                    growth_factor_k,
                );
                if max_raise > auth.spending_limit_lamports {
                    return Err(MammothError::SpendingLimitExceeded);
                }
            }
        },
        None => {},
    }
    match ctx.project_state.launch_at {
        Some(launch_at) => {
            if ctx.now < launch_at {
                return Err(MammothError::LaunchTimeNotReached);
            }
        },
        None => {},
    }
    if ctx.project_state.has_active_cycle {
        return Err(MammothError::CycleStillActive);
    }
    if curve_type == CurveType::Step && step_size < MIN_STEP_SIZE {
        return Err(MammothError::ZeroStepSize);
    }
    if curve_type == CurveType::ExpLite && growth_factor_k > MAX_GROWTH_FACTOR_K {
        return Err(MammothError::InvalidCurveParam);
    }
    if rights_window_duration < MIN_RIGHTS_WINDOW_SECS || rights_window_duration
        > MAX_RIGHTS_WINDOW_SECS {
        return Err(MammothError::InvalidRightsWindow);
    }
    if !ctx.mint.equals(&ctx.project_state.mint) {
        return Err(MammothError::InvalidProjectMint);
    }
    if supply_cap > ctx.escrow_amount {
        return Err(MammothError::SupplyCapExceedsEscrow);
    }
    match ctx.project_state.hard_cap {
        Some(hard_cap) => {
            if ctx.project_state.total_supply > hard_cap {
                return Err(MammothError::SupplyCapExceeded);
            }
        },
        None => {},
    }
    let rights_window_end = match ctx.now.checked_add(rights_window_duration) {
        Some(t) => t,
        None => return Err(MammothError::MathOverflow),
    };
    let cycle_index = ctx.project_state.current_cycle;
    let next_cycle = match cycle_index.checked_add(1) {
        Some(n) => n,
        None => return Err(MammothError::MathOverflow),
    };
    ctx.cycle_state = CycleState {
        project: ctx.project_key,
        cycle_index,
        curve_type,
        supply_cap,
        minted: 0,
        base_price,
        status: CycleStatus::RightsWindow,
        rights_window_end,
        step_size,
        step_increment,
        end_price,
        growth_factor_k,
        sol_raised: 0,
        rights_merkle_root: None,
        rights_allocated: 0,
        rights_reserved_at_activation: 0,
        rights_committed: 0,
        closed_at: 0,
        bump: ctx.cycle_state_bump,
    };
    ctx.project_state.current_cycle = next_cycle;
    ctx.project_state.has_active_cycle = true;
    Ok(
        CycleOpened {
            project_mint: ctx.project_state.mint,
            project_state: ctx.project_key,
            cycle_index,
            curve_type: curve_type_byte(curve_type),
            supply_cap,
            base_price,
            rights_window_end,
            timestamp: ctx.now,
        },
    )
}


/// The accounts `activate_cycle` reads and writes.
#[derive(Clone, Copy, Debug, PartialEq, Eq)]
pub struct ActivateCycle {
    pub project_state: ProjectState,
    /// Address of the project account.
    pub project_key: Pubkey,
    pub cycle_state: CycleState,
    /// Current unix time.
    pub now: i64,
}

/// Rights still owed when the public sale starts: the larger of the rights handed out
/// and the rights committed by the Merkle tree, less what was already exercised.
pub open spec fn unexercised_rights(c: CycleState) -> int {
    let effective = if c.rights_allocated >= c.rights_committed {
        c.rights_allocated
    } else {
        c.rights_committed
    };
    sub_floor(effective as int, c.minted as int)
}

/// What `activate_cycle` does: once the rights window of a cycle of this project has
/// passed, anyone may start the public sale; the unexercised rights are frozen as a
/// reservation public buyers cannot take.
pub open spec fn activate_cycle_outcome(ctx: ActivateCycle) -> Result<
    (ActivateCycle, CycleActivated),
    MammothError,
> {
    let c = ctx.cycle_state;
    if c.project != ctx.project_key {
        Err(MammothError::InvalidCycleProject)
    } else if c.status != CycleStatus::RightsWindow {
        Err(MammothError::NotRightsWindow)
    } else if ctx.now < c.rights_window_end {
        Err(MammothError::RightsWindowStillOpen)
    } else {
        Ok(
            (
                ActivateCycle {
                    cycle_state: CycleState {
                        status: CycleStatus::Active,
                        rights_reserved_at_activation: unexercised_rights(c) as u64,
                        ..c
                    },
                    ..ctx
                },
                CycleActivated {
                    project_mint: ctx.project_state.mint,
                    project_state: ctx.project_key,
                    cycle_index: c.cycle_index,
                    timestamp: ctx.now,
                },
            ),
        )
    }
}

/// Permissionless. Moves a cycle from its rights window to the public sale once the
/// window has ended.
pub fn activate_cycle(ctx: &mut ActivateCycle) -> (r: Result<CycleActivated, MammothError>)
    ensures
        match r {
            Ok(ev) => activate_cycle_outcome(*old(ctx)) == Ok::<
                (ActivateCycle, CycleActivated),
                MammothError,
            >((*final(ctx), ev)),
            Err(e) => activate_cycle_outcome(*old(ctx)) == Err::<
                (ActivateCycle, CycleActivated),
                MammothError,
            >(e) && *final(ctx) == *old(ctx),
        },
        r is Ok ==> cycle_terms_unchanged(old(ctx).cycle_state, final(ctx).cycle_state),
        r is Ok ==> old(ctx).cycle_state.status == CycleStatus::RightsWindow
            && final(ctx).cycle_state.status == CycleStatus::Active,
{
    if !ctx.cycle_state.project.equals(&ctx.project_key) {
        return Err(MammothError::InvalidCycleProject);
    }
    if ctx.cycle_state.status != CycleStatus::RightsWindow {
        return Err(MammothError::NotRightsWindow);
    }
    if ctx.now < ctx.cycle_state.rights_window_end {
        return Err(MammothError::RightsWindowStillOpen);
    }
    ctx.cycle_state.status = CycleStatus::Active;
    let effective_rights = if ctx.cycle_state.rights_allocated >= ctx.cycle_state.rights_committed {
        ctx.cycle_state.rights_allocated
    } else {
        ctx.cycle_state.rights_committed
    };
    ctx.cycle_state.rights_reserved_at_activation = effective_rights.saturating_sub(
        ctx.cycle_state.minted,
    );
    Ok(
        CycleActivated {
            project_mint: ctx.project_state.mint,
            project_state: ctx.project_key,
            cycle_index: ctx.cycle_state.cycle_index,
            timestamp: ctx.now,
        },
    )
}

/// The accounts `close_cycle` reads and writes.
#[derive(Clone, Copy, Debug, PartialEq, Eq)]
pub struct CloseCycle {
    pub project_state: ProjectState,
    /// Address of the project account.
    pub project_key: Pubkey,
    pub cycle_state: CycleState,
    /// The account passed to receive the creator's share.
    pub creator: Pubkey,
    pub authority_config: Option<AuthorityConfig>,
    /// The signer.
    pub caller: Pubkey,
    /// Lamports held by the cycle account.
    pub cycle_lamports: u64,
    /// Rent-exempt minimum of a cycle account.
    pub rent_exempt_minimum: u64,
    /// Current unix time.
    pub now: i64,
}

/// Lamport transfers out of the cycle account that `close_cycle` asks for.
#[derive(Clone, Copy, Debug, PartialEq, Eq)]
pub struct ProceedsSplit {
    /// To the project creator.
    pub creator_share: u64,
    /// To the project's reserve account.
    pub reserve_share: u64,
    /// To the project's sink account, which nothing withdraws from.
    pub sink_share: u64,
    pub event: CycleClosed,
}

/// What `close_cycle` does: an active cycle of this project is closed by its creator or
/// an operator allowed to close cycles. Everything above the cycle account's rent-exempt
/// minimum is split: `creator_bps` to the creator, `reserve_bps` to the reserve, the rest
/// to the sink. The cycle records when it closed.
pub open spec fn close_cycle_outcome(ctx: CloseCycle) -> Result<(CloseCycle, ProceedsSplit), MammothError> {
    let p = ctx.project_state;
    let c = ctx.cycle_state;
    let auth = authority_check(
        ctx.caller,
        p,
        ctx.project_key,
        ctx.authority_config,
        "close_cycle"@,
    );
    let distributable = sub_floor(ctx.cycle_lamports as int, ctx.rent_exempt_minimum as int) as u64;
    if ctx.creator != p.creator {
        Err(MammothError::Unauthorized)
    } else if c.project != ctx.project_key {
        Err(MammothError::InvalidCycleProject)
    } else if c.status != CycleStatus::Active {
        Err(MammothError::NotActive)
    } else if auth is Err {
        Err(auth->Err_0)
    } else if distributable > 0 && (bps_share_spec(distributable, p.creator_bps) is None
        || bps_share_spec(distributable, p.reserve_bps) is None) {
        Err(MammothError::MathOverflow)
    } else {
        let creator_share = if distributable > 0 {
            bps_share_spec(distributable, p.creator_bps)->Some_0
        } else {
            0
        };
        let reserve_share = if distributable > 0 {
            bps_share_spec(distributable, p.reserve_bps)->Some_0
        } else {
            0
        };
        let sink_share = sub_floor(
            sub_floor(distributable as int, creator_share as int),
            reserve_share as int,
        ) as u64;
        Ok(
            (
                CloseCycle {
                    cycle_state: CycleState { status: CycleStatus::Closed, closed_at: ctx.now, ..c },
                    project_state: ProjectState { has_active_cycle: false, ..p },
                    ..ctx
                },
                ProceedsSplit {
                    creator_share,
                    reserve_share,
                    sink_share,
                    event: CycleClosed {
                        project_mint: p.mint,
                        project_state: ctx.project_key,
                        cycle_index: c.cycle_index,
                        tokens_sold: c.minted,
                        sol_raised: c.sol_raised,
                        timestamp: ctx.now,
                    },
                },
            ),
        )
    }
}

/// Closes an active cycle and splits its proceeds between creator, reserve and sink.
pub fn close_cycle(ctx: &mut CloseCycle) -> (r: Result<ProceedsSplit, MammothError>)
    ensures
        match r {
            Ok(split) => close_cycle_outcome(*old(ctx)) == Ok::<
                (CloseCycle, ProceedsSplit),
                MammothError,
            >((*final(ctx), split)),
            Err(e) => close_cycle_outcome(*old(ctx)) == Err::<(CloseCycle, ProceedsSplit), MammothError>(
                e,
            ) && *final(ctx) == *old(ctx),
        },
        r is Ok ==> cycle_terms_unchanged(old(ctx).cycle_state, final(ctx).cycle_state),
        r is Ok ==> old(ctx).cycle_state.status == CycleStatus::Active
            && final(ctx).cycle_state.status == CycleStatus::Closed
            && !final(ctx).project_state.has_active_cycle,
        r matches Ok(split) ==> old(ctx).project_state.creator_bps + old(ctx).project_state.reserve_bps
            <= 10000 ==> split.creator_share + split.reserve_share + split.sink_share == sub_floor(
            old(ctx).cycle_lamports as int,
            old(ctx).rent_exempt_minimum as int,
        ),
{
    if !ctx.creator.equals(&ctx.project_state.creator) {
        return Err(MammothError::Unauthorized);
    }
    if !ctx.cycle_state.project.equals(&ctx.project_key) {
        return Err(MammothError::InvalidCycleProject);
    }
    if ctx.cycle_state.status != CycleStatus::Active {
        return Err(MammothError::NotActive);
    }
    check_authority(
        &ctx.caller,
        &ctx.project_state,
        &ctx.project_key,
        config_ref(&ctx.authority_config),
        "close_cycle",
    )?;
    let distributable = ctx.cycle_lamports.saturating_sub(ctx.rent_exempt_minimum);
    let mut creator_share: u64 = 0;
    let mut reserve_share: u64 = 0;
    let mut sink_share: u64 = 0;
    if distributable > 0 {
        creator_share = bps_share(distributable, ctx.project_state.creator_bps)?;
        reserve_share = bps_share(distributable, ctx.project_state.reserve_bps)?;
        sink_share = distributable.saturating_sub(creator_share).saturating_sub(reserve_share);
        proof {
            let d = distributable as int;
            let cb = ctx.project_state.creator_bps as int;
            let rb = ctx.project_state.reserve_bps as int;
            if cb + rb <= 10000 {
                assert((d * cb) / 10000 + (d * rb) / 10000 <= d) by (nonlinear_arith)
                    requires
                        d >= 0,
                        cb >= 0,
                        rb >= 0,
                        cb + rb <= 10000,
                {
                    assert((d * cb) / 10000 + (d * rb) / 10000 <= (d * cb + d * rb) / 10000);
                    assert(d * cb + d * rb <= d * 10000);
                }
            }
        }
    }
    ctx.cycle_state.status = CycleStatus::Closed;
    ctx.cycle_state.closed_at = ctx.now;
    ctx.project_state.has_active_cycle = false;
    Ok(
        ProceedsSplit {
            creator_share,
            reserve_share,
            sink_share,
            event: CycleClosed {
                project_mint: ctx.project_state.mint,
                project_state: ctx.project_key,
                cycle_index: ctx.cycle_state.cycle_index,
                tokens_sold: ctx.cycle_state.minted,
                sol_raised: ctx.cycle_state.sol_raised,
                timestamp: ctx.now,
            },
        },
    )
}

} // verus!
