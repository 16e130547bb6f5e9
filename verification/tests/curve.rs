use mammoth::curve::purchase_cost;
use mammoth::cycle::estimate_max_raise;
use mammoth::sale::buy_tokens_aborts;
use mammoth::{
    compute_price, compute_total_cost, BuyTokens, CurveType, CycleState, CycleStatus, MammothError,
    OperatorType, ProjectState, ProtocolConfig, Pubkey, SupplyMode,
};

fn cycle(curve_type: CurveType) -> CycleState {
    CycleState {
        project: Pubkey([7u8; 32]),
        cycle_index: 0,
        curve_type,
        supply_cap: 1_000_000,
        minted: 0,
        base_price: 100,
        status: CycleStatus::Active,
        rights_window_end: 0,
        step_size: 1000,
        step_increment: 10,
        end_price: 300,
        growth_factor_k: 10000,
        sol_raised: 0,
        rights_merkle_root: None,
        rights_allocated: 0,
        rights_reserved_at_activation: 0,
        rights_committed: 0,
        closed_at: 0,
        bump: 255,
    }
}

#[test]
fn step_price_rises_per_step() {
    let mut c = cycle(CurveType::Step);
    assert_eq!(compute_price(&c), Ok(100));
    c.minted = 999;
    assert_eq!(compute_price(&c), Ok(100));
    c.minted = 1000;
    assert_eq!(compute_price(&c), Ok(110));
    c.minted = 25_500;
    assert_eq!(compute_price(&c), Ok(350));
}

#[test]
fn step_price_needs_a_step_size() {
    let mut c = cycle(CurveType::Step);
    c.step_size = 0;
    assert_eq!(compute_price(&c), Err(MammothError::ZeroStepSize));
    assert_eq!(compute_total_cost(&c, 5), Err(MammothError::ZeroStepSize));
}

#[test]
fn step_price_overflow_is_reported() {
    let mut c = cycle(CurveType::Step);
    c.step_size = 1;
    c.step_increment = u64::MAX;
    c.minted = 2;
    assert_eq!(compute_price(&c), Err(MammothError::MathOverflow));
}

#[test]
fn linear_price_interpolates() {
    let mut c = cycle(CurveType::Linear);
    assert_eq!(compute_price(&c), Ok(100));
    c.minted = 500_000;
    assert_eq!(compute_price(&c), Ok(200));
    c.minted = 1_000_000;
    assert_eq!(compute_price(&c), Ok(300));
    c.end_price = 50;
    assert_eq!(compute_price(&c), Ok(100));
}

#[test]
fn zero_cap_curves_are_flat() {
    let mut c = cycle(CurveType::Linear);
    c.supply_cap = 0;
    c.minted = 77;
    assert_eq!(compute_price(&c), Ok(100));
    assert_eq!(compute_total_cost(&c, 3), Ok(300));
    let mut e = cycle(CurveType::ExpLite);
    e.supply_cap = 0;
    assert_eq!(compute_price(&e), Ok(100));
    e.base_price = u64::MAX;
    assert_eq!(compute_total_cost(&e, 2), Err(MammothError::MathOverflow));
}

#[test]
fn explite_price_doubles_at_full_fill_with_k_10000() {
    let mut c = cycle(CurveType::ExpLite);
    assert_eq!(compute_price(&c), Ok(100));
    c.minted = 500_000;
    assert_eq!(compute_price(&c), Ok(150));
    c.minted = 1_000_000;
    assert_eq!(compute_price(&c), Ok(200));
}

#[test]
fn explite_pct_overflow_is_reported() {
    let mut c = cycle(CurveType::ExpLite);
    c.minted = u64::MAX / 100;
    assert_eq!(compute_price(&c), Err(MammothError::MathOverflow));
}

#[test]
fn zero_amount_costs_nothing() {
    assert_eq!(compute_total_cost(&cycle(CurveType::Step), 0), Ok(0));
    assert_eq!(compute_total_cost(&cycle(CurveType::Linear), 0), Ok(0));
}

#[test]
fn step_cost_walks_step_boundaries() {
    let mut c = cycle(CurveType::Step);
    c.minted = 500;
    // 500 tokens at 100, 1000 at 110, 500 at 120
    assert_eq!(compute_total_cost(&c, 2000), Ok(500 * 100 + 1000 * 110 + 500 * 120));
}

#[test]
fn step_cost_splits_exactly() {
    let c = cycle(CurveType::Step);
    let whole = compute_total_cost(&c, 3500).unwrap();
    let first = compute_total_cost(&c, 1200).unwrap();
    let mut rest = c;
    rest.minted = 1200;
    let second = compute_total_cost(&rest, 2300).unwrap();
    assert_eq!(whole, first + second);
}

#[test]
fn bulk_purchase_pays_at_least_spot() {
    for curve in [CurveType::Step, CurveType::Linear, CurveType::ExpLite] {
        let mut c = cycle(curve);
        c.minted = 123_456;
        let spot = compute_price(&c).unwrap();
        let cost = compute_total_cost(&c, 40_000).unwrap();
        assert!(cost >= spot * 40_000);
    }
}

#[test]
fn linear_cost_prices_each_bucket_at_its_start() {
    let mut c = cycle(CurveType::Linear);
    c.supply_cap = 20_000;
    c.base_price = 0;
    c.end_price = 20_000;
    // price(s) = s; buckets of two tokens: [0,2) at 0, [2,4) at 2
    assert_eq!(compute_total_cost(&c, 4), Ok(0 + 0 + 2 + 2));
    // a purchase starting inside a bucket pays its own start price for the rest of it
    c.minted = 1;
    assert_eq!(compute_total_cost(&c, 1), Ok(1));
}

#[test]
fn linear_split_purchase_can_differ() {
    let mut c = cycle(CurveType::Linear);
    c.supply_cap = 20_000;
    c.base_price = 0;
    c.end_price = 20_000;
    let whole = compute_total_cost(&c, 2).unwrap();
    let first = compute_total_cost(&c, 1).unwrap();
    c.minted = 1;
    let second = compute_total_cost(&c, 1).unwrap();
    assert_eq!(whole, 0);
    assert_eq!(first + second, 1);
}

#[test]
fn explite_cost_per_token_past_small_buckets() {
    let mut c = cycle(CurveType::ExpLite);
    c.supply_cap = 100;
    c.base_price = 10_000;
    c.growth_factor_k = 10_000;
    // each token is its own bucket of 100 bps: price = 10000 + 10000 * pct / 10000
    assert_eq!(compute_total_cost(&c, 3), Ok(10_000 + 10_100 + 10_200));
}

#[test]
fn purchase_needing_too_many_runs_is_refused() {
    let mut c = cycle(CurveType::Step);
    c.step_size = 100;
    c.step_increment = 0;
    assert_eq!(compute_total_cost(&c, 5000 * 100), Ok(500_000 * 100));
    assert_eq!(compute_total_cost(&c, 5000 * 100 + 1), Err(MammothError::PurchaseTooLarge));
}

#[test]
fn purchase_past_u64_is_refused() {
    let mut c = cycle(CurveType::Step);
    c.minted = u64::MAX - 1;
    assert_eq!(compute_total_cost(&c, 2), Err(MammothError::MathOverflow));
}

#[test]
fn cost_overflow_is_reported() {
    let mut c = cycle(CurveType::Step);
    c.base_price = u64::MAX / 2;
    assert_eq!(compute_total_cost(&c, 3), Err(MammothError::MathOverflow));
}

#[test]
fn explite_split_purchase_costs_the_same() {
    let mut c = cycle(CurveType::ExpLite);
    c.minted = 3_333;
    let whole = compute_total_cost(&c, 25_000).unwrap();
    let first = compute_total_cost(&c, 7_777).unwrap();
    let mut rest = c;
    rest.minted = 3_333 + 7_777;
    let second = compute_total_cost(&rest, 25_000 - 7_777).unwrap();
    assert_eq!(whole, first + second);
}

#[test]
fn purchase_cost_agrees_with_compute_total_cost() {
    for curve in [CurveType::Step, CurveType::Linear, CurveType::ExpLite] {
        let c = cycle(curve);
        assert_eq!(purchase_cost(&c, 12_345), Some(compute_total_cost(&c, 12_345)));
    }
}

#[test]
fn rounding_overflow_is_undefined_and_detected() {
    let mut c = cycle(CurveType::Linear);
    c.supply_cap = u64::MAX - 5000;
    assert_eq!(purchase_cost(&c, 1), None);
    let ctx = BuyTokens {
        project_state: ProjectState {
            creator: Pubkey([1u8; 32]),
            mint: Pubkey([2u8; 32]),
            supply_mode: SupplyMode::Fixed,
            hard_cap: None,
            total_supply: 0,
            public_allocation: 0,
            treasury_allocation: 0,
            protocol_allocation: 0,
            total_minted: 0,
            current_cycle: 1,
            creator_bps: 5000,
            reserve_bps: 3000,
            sink_bps: 2000,
            launch_at: None,
            operator_type: OperatorType::Human,
            has_active_cycle: true,
            bump: 0,
        },
        project_key: Pubkey([7u8; 32]),
        cycle_state: c,
        protocol_config: ProtocolConfig {
            admin: Pubkey([0u8; 32]),
            protocol_treasury: Pubkey([0u8; 32]),
            fee_bps: 200,
            default_creator_bps: 5000,
            default_reserve_bps: 3000,
            default_sink_bps: 2000,
        },
        mint: Pubkey([2u8; 32]),
        buyer: Pubkey([3u8; 32]),
        now: 0,
    };
    assert!(buy_tokens_aborts(&ctx, 1));
    assert!(!buy_tokens_aborts(&ctx, 0));
    let fine = BuyTokens { cycle_state: cycle(CurveType::Linear), ..ctx };
    assert!(!buy_tokens_aborts(&fine, 1));
}

fn per_token_sum(c: &CycleState, amount: u64) -> u64 {
    let mut at = *c;
    let mut sum = 0;
    for i in 0..amount {
        at.minted = c.minted + i;
        sum += compute_price(&at).unwrap();
    }
    sum
}

#[test]
fn small_linear_cap_is_priced_per_token() {
    let mut c = cycle(CurveType::Linear);
    c.supply_cap = 7_000;
    c.base_price = 1_000;
    c.end_price = 8_000;
    c.minted = 1_234;
    let cost = compute_total_cost(&c, 3_000).unwrap();
    assert_eq!(cost, per_token_sum(&c, 3_000));
    let mut d = c;
    d.minted = 0;
    // price(t) = 1000 + 7000 * t / 7000 = 1000 + t
    assert_eq!(compute_total_cost(&d, 4), Ok(1_000 + 1_001 + 1_002 + 1_003));
}

#[test]
fn large_explite_cap_is_priced_per_token_while_buckets_fit() {
    let mut c = cycle(CurveType::ExpLite);
    c.supply_cap = 10_000_000_000_000_000;
    c.base_price = 10_000;
    c.growth_factor_k = 10_000;
    // bucket 0 holds tokens below 10^12; its price is 10000, bucket 1 costs 10001
    c.minted = 1_000_000_000_000 - 2;
    assert_eq!(compute_total_cost(&c, 4), Ok(10_000 + 10_000 + 10_001 + 10_001));
    assert_eq!(per_token_sum(&c, 4), 40_002);
    // bought in two parts of two tokens, the same total
    let first = compute_total_cost(&c, 2).unwrap();
    let mut rest = c;
    rest.minted += 2;
    assert_eq!(first + compute_total_cost(&rest, 2).unwrap(), 40_002);
}

#[test]
fn split_purchase_that_overflows_as_one_is_refused() {
    let mut c = cycle(CurveType::Step);
    c.base_price = u64::MAX / 4;
    c.step_increment = 0;
    let first = compute_total_cost(&c, 2).unwrap();
    let mut rest = c;
    rest.minted = 2;
    let second = compute_total_cost(&rest, 3).unwrap();
    assert!(first.checked_add(second).is_none());
    assert_eq!(compute_total_cost(&c, 5), Err(MammothError::MathOverflow));
}

#[test]
fn split_purchase_too_large_as_one_is_refused() {
    let mut c = cycle(CurveType::Step);
    c.step_size = 100;
    c.step_increment = 0;
    assert!(compute_total_cost(&c, 300_000).is_ok());
    let mut rest = c;
    rest.minted = 300_000;
    assert!(compute_total_cost(&rest, 300_000).is_ok());
    assert_eq!(compute_total_cost(&c, 600_000), Err(MammothError::PurchaseTooLarge));
}

#[test]
fn bulk_purchase_pays_at_most_last_price() {
    for curve in [CurveType::Step, CurveType::Linear, CurveType::ExpLite] {
        let mut c = cycle(curve);
        c.minted = 123_456;
        let cost = compute_total_cost(&c, 40_000).unwrap();
        let mut last = c;
        last.minted = 123_456 + 40_000 - 1;
        let last_price = compute_price(&last).unwrap();
        assert!(cost <= last_price * 40_000);
        assert_eq!(compute_total_cost(&c, 1), compute_price(&c));
    }
}

#[test]
fn step_estimate_is_the_full_raise() {
    let mut c = cycle(CurveType::Step);
    c.supply_cap = 2_500;
    // 1000 tokens at 100, 1000 at 110, 500 at 120
    let estimate = estimate_max_raise(CurveType::Step, 2_500, 100, 1_000, 10, 0, 0);
    assert_eq!(estimate, 270_000);
    assert_eq!(compute_total_cost(&c, 2_500), Ok(270_000));
}

#[test]
fn explite_estimate_bounds_the_full_raise() {
    let mut c = cycle(CurveType::ExpLite);
    c.supply_cap = 10_000;
    c.base_price = 100;
    c.growth_factor_k = 10_000;
    let estimate = estimate_max_raise(CurveType::ExpLite, 10_000, 100, 0, 0, 0, 10_000);
    assert_eq!(estimate, 2_000_000);
    // a purchase may walk at most 5000 runs: sell the cap in two halves
    let first = compute_total_cost(&c, 5_000).unwrap();
    let mut rest = c;
    rest.minted = 5_000;
    let second = compute_total_cost(&rest, 5_000).unwrap();
    assert_eq!(first + second, 1_495_000);
    assert!(first + second <= estimate);
}

#[test]
fn linear_estimate_bounds_the_full_raise() {
    let c = cycle(CurveType::Linear);
    // cap 1_000_000 at the average of 100 and 300
    let estimate = estimate_max_raise(CurveType::Linear, 1_000_000, 100, 0, 0, 300, 0);
    assert_eq!(estimate, 200_000_000);
    let first = compute_total_cost(&c, 500_000).unwrap();
    let mut rest = c;
    rest.minted = 500_000;
    let second = compute_total_cost(&rest, 500_000).unwrap();
    assert!(first + second <= estimate);
}

#[test]
fn explite_split_purchase_costs_the_same_past_a_saturated_bucket_end() {
    let mut c = cycle(CurveType::ExpLite);
    c.supply_cap = 1 << 63;
    c.base_price = 10_000;
    c.growth_factor_k = 10_000;
    // bucket 0 ends at token 922337203685478; the end of bucket 1, scaled by the cap,
    // overflows u64, so its run reaches the cap
    c.minted = 922_337_203_685_476;
    assert_eq!(compute_total_cost(&c, 7), Ok(2 * 10_000 + 5 * 10_001));
    let first = compute_total_cost(&c, 4).unwrap();
    let mut rest = c;
    rest.minted += 4;
    let second = compute_total_cost(&rest, 3).unwrap();
    assert_eq!((first, second), (2 * 10_000 + 2 * 10_001, 3 * 10_001));
    assert_eq!(first + second, 70_005);
}

#[test]
fn step_estimate_saturates_with_the_full_raise() {
    // 2500 tokens at about u64::MAX / 1000 each raise more than u64 holds
    let estimate = estimate_max_raise(CurveType::Step, 2_500, u64::MAX / 1000, 1_000, 10, 0, 0);
    assert_eq!(estimate, u64::MAX);
}

#[test]
fn step_estimate_undercounts_where_its_series_saturates() {
    // one token per step, price = position: n * (n - 1) overflows u64, its half does not
    let n: u64 = 4_294_967_297;
    let estimate = estimate_max_raise(CurveType::Step, n, 0, 1, 1, 0, 0);
    let full_raise = (n as u128) * ((n - 1) as u128) / 2;
    assert_eq!(estimate, (1u64 << 63) - 1);
    assert!((estimate as u128) < full_raise);
    assert!(full_raise <= u64::MAX as u128);
}
