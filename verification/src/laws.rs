//! Properties of the protocol that span several instructions.
use vstd::prelude::*;
use crate::admin::{
    reclaim_cycle_rent_outcome, rotate_creator_outcome, set_hard_cap_outcome, ReclaimCycleRent,
    RotateCreator, SetHardCap, RECLAIM_DELAY_SECS,
};
use crate::authority::{authority_check, permission_granted};
use crate::cycle::{
    activate_cycle_outcome, close_cycle_outcome, max_raise_estimate, open_cycle_outcome,
    status_rank, ActivateCycle, CloseCycle, OpenCycle,
};
use crate::error::MammothError;
use crate::keys::Pubkey;
use crate::rights::{
    claim_rights_outcome, create_holder_rights_outcome, set_rights_merkle_root_outcome, ClaimRights,
    CreateHolderRights, SetRightsMerkleRoot,
};
use crate::sale::{buy_tokens_outcome, exercise_rights_outcome, BuyTokens, ExerciseRights};
use crate::curve::{
    bulk_purchase_pays_at_least_spot, cost_is_sum_of_token_prices, price_at, priced_per_token,
    token_prices_sum, total_cost_spec,
};
use crate::state::{AuthorityConfig, CurveType, CycleStatus, HolderRights, ProjectState};

use vstd::arithmetic::div_mod::{lemma_fundamental_div_mod, lemma_mod_pos_bound};

verus! {

/// A closed cycle's account stays for seven days: reclaiming its rent less than
/// `RECLAIM_DELAY_SECS` after the close is refused, and once that time has passed the
/// creator gets back what the drained account holds.
pub proof fn cycle_rent_waits_after_close(close: CloseCycle, reclaim: ReclaimCycleRent)
    requires
        close_cycle_outcome(close) is Ok,
        reclaim.cycle_state == close_cycle_outcome(close)->Ok_0.0.cycle_state,
    ensures
        reclaim.now < close.now + RECLAIM_DELAY_SECS ==> reclaim_cycle_rent_outcome(reclaim) is Err,
        reclaim.now >= close.now + RECLAIM_DELAY_SECS && reclaim.creator
            == reclaim.project_state.creator && reclaim.cycle_lamports <= reclaim.rent_exempt_minimum
            ==> reclaim_cycle_rent_outcome(reclaim) == Ok::<u64, MammothError>(
            reclaim.cycle_lamports,
        ),
{
}

/// The hard cap is irreversible: once `set_hard_cap` has set it, every later attempt to
/// set it again is refused.
pub proof fn hard_cap_is_irreversible(
    ctx: SetHardCap,
    hard_cap: u64,
    later: SetHardCap,
    other_cap: u64,
)
    requires
        set_hard_cap_outcome(ctx, hard_cap) is Ok,
        later.project_state.hard_cap == set_hard_cap_outcome(
            ctx,
            hard_cap,
        )->Ok_0.0.project_state.hard_cap,
    ensures
        set_hard_cap_outcome(ctx, hard_cap)->Ok_0.0.project_state.hard_cap == Some(hard_cap),
        set_hard_cap_outcome(later, other_cap) is Err,
{
}

/// No other instruction that writes a project changes its hard cap.
pub proof fn hard_cap_is_kept_by_other_instructions(
    open: OpenCycle,
    curve_type: CurveType,
    supply_cap: u64,
    base_price: u64,
    rights_window_duration: i64,
    step_size: u64,
    step_increment: u64,
    end_price: u64,
    growth_factor_k: u64,
    close: CloseCycle,
    rotate: RotateCreator,
    new_creator: Pubkey,
)
    ensures
        open_cycle_outcome(
            open,
            curve_type,
            supply_cap,
            base_price,
            rights_window_duration,
            step_size,
            step_increment,
            end_price,
            growth_factor_k,
        ) matches Ok((after, _)) ==> after.project_state.hard_cap == open.project_state.hard_cap,
        close_cycle_outcome(close) matches Ok((after, _)) ==> after.project_state.hard_cap
            == close.project_state.hard_cap,
        rotate_creator_outcome(rotate, new_creator) matches Ok(after)
            ==> after.project_state.hard_cap == rotate.project_state.hard_cap,
{
}

/// A project's supply terms as fixed at creation: supply, allocations, mint, supply
/// mode, proceeds split, launch time and disclosure.
pub open spec fn supply_terms_unchanged(a: ProjectState, b: ProjectState) -> bool {
    &&& a.mint == b.mint
    &&& a.supply_mode == b.supply_mode
    &&& a.total_supply == b.total_supply
    &&& a.public_allocation == b.public_allocation
    &&& a.treasury_allocation == b.treasury_allocation
    &&& a.protocol_allocation == b.protocol_allocation
    &&& a.total_minted == b.total_minted
    &&& a.creator_bps == b.creator_bps
    &&& a.reserve_bps == b.reserve_bps
    &&& a.sink_bps == b.sink_bps
    &&& a.launch_at == b.launch_at
    &&& a.operator_type == b.operator_type
    &&& a.bump == b.bump
}

/// The total supply is immutable after creation, and so are the other supply terms:
/// no instruction that writes a project changes them.
pub proof fn supply_terms_never_change(
    open: OpenCycle,
    curve_type: CurveType,
    supply_cap: u64,
    base_price: u64,
    rights_window_duration: i64,
    step_size: u64,
    step_increment: u64,
    end_price: u64,
    growth_factor_k: u64,
    close: CloseCycle,
    cap: SetHardCap,
    hard_cap: u64,
    rotate: RotateCreator,
    new_creator: Pubkey,
)
    ensures
        open_cycle_outcome(
            open,
            curve_type,
            supply_cap,
            base_price,
            rights_window_duration,
            step_size,
            step_increment,
            end_price,
            growth_factor_k,
        ) matches Ok((after, _)) ==> supply_terms_unchanged(open.project_state, after.project_state),
        close_cycle_outcome(close) matches Ok((after, _)) ==> supply_terms_unchanged(
            close.project_state,
            after.project_state,
        ),
        set_hard_cap_outcome(cap, hard_cap) matches Ok((after, _)) ==> supply_terms_unchanged(
            cap.project_state,
            after.project_state,
        ),
        rotate_creator_outcome(rotate, new_creator) matches Ok(after) ==> supply_terms_unchanged(
            rotate.project_state,
            after.project_state,
        ),
{
}

/// A project has at most one cycle in progress: no cycle opens while one is active.
pub proof fn no_cycle_opens_while_one_is_active(
    ctx: OpenCycle,
    curve_type: CurveType,
    supply_cap: u64,
    base_price: u64,
    rights_window_duration: i64,
    step_size: u64,
    step_increment: u64,
    end_price: u64,
    growth_factor_k: u64,
)
    requires
        ctx.project_state.has_active_cycle,
    ensures
        open_cycle_outcome(
            ctx,
            curve_type,
            supply_cap,
            base_price,
            rights_window_duration,
            step_size,
            step_increment,
            end_price,
            growth_factor_k,
        ) is Err,
{
}

/// A cycle's status only moves forward, one stage at a time: activation moves it from
/// its rights window to the public sale, closing from the public sale to closed. (Every
/// other instruction keeps the status, as its own contract states.)
pub proof fn cycle_status_only_moves_forward(activate: ActivateCycle, close: CloseCycle)
    ensures
        activate_cycle_outcome(activate) matches Ok((after, _)) ==> status_rank(
            after.cycle_state.status,
        ) == status_rank(activate.cycle_state.status) + 1,
        close_cycle_outcome(close) matches Ok((after, _)) ==> status_rank(after.cycle_state.status)
            == status_rank(close.cycle_state.status) + 1,
{
}

/// A closed cycle sells nothing more: neither rights holders nor the public can buy.
pub proof fn closed_cycle_sells_nothing(
    buy: BuyTokens,
    amount: u64,
    max_sol_cost: u64,
    exercise: ExerciseRights,
    rights_amount: u64,
    max_rights_cost: u64,
)
    requires
        buy.cycle_state.status == CycleStatus::Closed,
        exercise.cycle_state.status == CycleStatus::Closed,
    ensures
        buy_tokens_outcome(buy, amount, max_sol_cost) is Err,
        exercise_rights_outcome(exercise, rights_amount, max_rights_cost) is Err,
{
}

/// A closed cycle stays closed: it cannot be activated or closed (and paid out) again,
/// and it takes no more rights.
pub proof fn closed_cycle_stays_closed(
    activate: ActivateCycle,
    close: CloseCycle,
    claim: ClaimRights,
    computed_root: Seq<u8>,
    claimed_amount: u64,
    create: CreateHolderRights,
    holder: Pubkey,
    rights_amount: u64,
    expiry: i64,
    commit: SetRightsMerkleRoot,
    merkle_root: [u8; 32],
    holder_count: u32,
    total_committed: u64,
)
    requires
        activate.cycle_state.status == CycleStatus::Closed,
        close.cycle_state.status == CycleStatus::Closed,
        claim.cycle_state.status == CycleStatus::Closed,
        create.cycle_state.status == CycleStatus::Closed,
        commit.cycle_state.status == CycleStatus::Closed,
    ensures
        activate_cycle_outcome(activate) is Err,
        close_cycle_outcome(close) is Err,
        claim_rights_outcome(claim, computed_root, claimed_amount) is Err,
        create_holder_rights_outcome(create, holder, rights_amount, expiry) is Err,
        set_rights_merkle_root_outcome(commit, merkle_root, holder_count, total_committed) is Err,
{
}

/// The project creator may always act, whatever the permission and configuration.
pub proof fn creator_is_always_authorized(
    project_state: ProjectState,
    project_key: Pubkey,
    config: Option<AuthorityConfig>,
    permission: Seq<char>,
)
    ensures
        authority_check(project_state.creator, project_state, project_key, config, permission)
            == Ok::<(), MammothError>(()),
{
}

/// Anyone but the creator acts only as the registered operator of this very project,
/// with the permission granted, and is otherwise refused with `InsufficientAuthority`;
/// unknown permissions grant nothing.
pub proof fn operators_act_only_within_their_grant(
    caller: Pubkey,
    project_state: ProjectState,
    project_key: Pubkey,
    config: Option<AuthorityConfig>,
    permission: Seq<char>,
)
    requires
        caller != project_state.creator,
    ensures
        authority_check(caller, project_state, project_key, config, permission) is Ok <==> (
        config is Some && config->Some_0.project == project_key && caller == config->Some_0.operator
            && permission_granted(config->Some_0, permission)),
        authority_check(caller, project_state, project_key, config, permission) is Err
            ==> authority_check(caller, project_state, project_key, config, permission) == Err::<
            (),
            MammothError,
        >(MammothError::InsufficientAuthority),
        permission != "open_cycle"@ && permission != "close_cycle"@ && permission
            != "set_hard_cap"@ && permission != "route_treasury"@ && permission
            != "set_merkle_root"@ ==> authority_check(
            caller,
            project_state,
            project_key,
            config,
            permission,
        ) is Err,
{
}

/// A cycle's rights come by one path only: once a Merkle root is committed, no rights
/// are handed out one by one, and once rights were handed out, no root is committed.
pub proof fn rights_paths_are_exclusive(
    create: CreateHolderRights,
    holder: Pubkey,
    rights_amount: u64,
    expiry: i64,
    commit: SetRightsMerkleRoot,
    merkle_root: [u8; 32],
    holder_count: u32,
    total_committed: u64,
)
    ensures
        create.cycle_state.rights_merkle_root is Some ==> create_holder_rights_outcome(
            create,
            holder,
            rights_amount,
            expiry,
        ) is Err,
        commit.cycle_state.rights_allocated != 0 ==> set_rights_merkle_root_outcome(
            commit,
            merkle_root,
            holder_count,
            total_committed,
        ) is Err,
        commit.cycle_state.rights_merkle_root is Some ==> set_rights_merkle_root_outcome(
            commit,
            merkle_root,
            holder_count,
            total_committed,
        ) is Err,
{
}

/// Rights are claimed only with a proof that leads to the committed root.
pub proof fn claims_need_the_committed_root(
    ctx: ClaimRights,
    computed_root: Seq<u8>,
    rights_amount: u64,
)
    ensures
        claim_rights_outcome(ctx, computed_root, rights_amount) is Ok ==> ctx.cycle_state.rights_merkle_root
            is Some && computed_root == ctx.cycle_state.rights_merkle_root->Some_0@,
{
}

/// Public purchases never eat into the rights reserved at activation: after any
/// purchase, the tokens sold plus the reserved rights still fit in the cap.
pub proof fn public_purchases_leave_reserved_rights(ctx: BuyTokens, amount: u64, max_sol_cost: u64)
    requires
        ctx.cycle_state.rights_reserved_at_activation <= ctx.cycle_state.supply_cap,
    ensures
        buy_tokens_outcome(ctx, amount, max_sol_cost) matches Ok((after, _))
            ==> after.cycle_state.minted + after.cycle_state.rights_reserved_at_activation
            <= after.cycle_state.supply_cap,
{
}

/// Activation reserves no more than the cycle's cap, as long as the rights handed out
/// and committed fit in the cap (which creating and committing rights ensure).
pub proof fn activation_reserves_within_cap(ctx: ActivateCycle)
    requires
        ctx.cycle_state.rights_allocated <= ctx.cycle_state.supply_cap,
        ctx.cycle_state.rights_committed <= ctx.cycle_state.supply_cap,
    ensures
        activate_cycle_outcome(ctx) matches Ok((after, _))
            ==> after.cycle_state.rights_reserved_at_activation <= after.cycle_state.supply_cap,
{
}

/// Activation reserves every right still owed: the reservation is the larger of the
/// rights handed out and the rights committed by a Merkle root, less the tokens already
/// sold, and never below zero. So rights committed but not yet claimed stay reserved.
pub proof fn activation_reserves_committed_rights(ctx: ActivateCycle)
    ensures
        activate_cycle_outcome(ctx) is Ok <==> ctx.cycle_state.project == ctx.project_key
            && ctx.cycle_state.status == CycleStatus::RightsWindow && ctx.now
            >= ctx.cycle_state.rights_window_end,
        activate_cycle_outcome(ctx) is Ok ==> ({
            let c = ctx.cycle_state;
            let reserved = activate_cycle_outcome(ctx)->Ok_0.0.cycle_state.rights_reserved_at_activation;
            &&& reserved >= c.rights_allocated - c.minted
            &&& reserved >= c.rights_committed - c.minted
            &&& reserved == 0 || reserved == c.rights_allocated - c.minted || reserved
                == c.rights_committed - c.minted
        }),
{
}

/// Exercising rights always pays the base price: the holder pays `base_price * amount`,
/// whatever has been sold and whatever the curve, of which the protocol takes its fee in
/// basis points (rounded down) and the cycle the rest.
pub proof fn rights_are_exercised_at_the_base_price(
    ctx: ExerciseRights,
    amount: u64,
    max_sol_cost: u64,
)
    requires
        exercise_rights_outcome(ctx, amount, max_sol_cost) is Ok,
    ensures
        ({
            let pay = exercise_rights_outcome(ctx, amount, max_sol_cost)->Ok_0.1;
            &&& pay.total_cost == ctx.cycle_state.base_price * amount
            &&& pay.fee == (ctx.cycle_state.base_price * amount * ctx.protocol_config.fee_bps) / 10000
            &&& pay.net_cost == pay.total_cost - pay.fee
            &&& pay.amount == amount
        }),
        ({
            let after = exercise_rights_outcome(ctx, amount, max_sol_cost)->Ok_0.0;
            let pay = exercise_rights_outcome(ctx, amount, max_sol_cost)->Ok_0.1;
            &&& after.holder_rights.exercised_amount == ctx.holder_rights.exercised_amount + amount
            &&& after.holder_rights.exercised_amount <= ctx.holder_rights.rights_amount
            &&& after.cycle_state.minted == ctx.cycle_state.minted + amount
            &&& after.cycle_state.minted <= ctx.cycle_state.supply_cap
            &&& after.cycle_state.sol_raised == ctx.cycle_state.sol_raised + pay.net_cost
            &&& pay.total_cost <= max_sol_cost
            &&& ctx.now < ctx.cycle_state.rights_window_end
            &&& ctx.now < ctx.holder_rights.expiry
            &&& ctx.holder_rights.holder == ctx.holder
        }),
{
}

/// Each operator permission is decided by its own flag alone: for a caller other than the
/// creator, a permission is granted exactly when the configuration belongs to this
/// project, the caller is its operator, and the flag of that permission is set.
pub proof fn operator_permissions_follow_their_own_flag(
    caller: Pubkey,
    project_state: ProjectState,
    project_key: Pubkey,
    cfg: AuthorityConfig,
)
    requires
        caller != project_state.creator,
    ensures
        ({
            let own = cfg.project == project_key && caller == cfg.operator;
            &&& authority_check(caller, project_state, project_key, Some(cfg), "open_cycle"@) is Ok
                <==> own && cfg.can_open_cycle
            &&& authority_check(caller, project_state, project_key, Some(cfg), "close_cycle"@) is Ok
                <==> own && cfg.can_close_cycle
            &&& authority_check(caller, project_state, project_key, Some(cfg), "set_hard_cap"@)
                is Ok <==> own && cfg.can_set_hard_cap
            &&& authority_check(caller, project_state, project_key, Some(cfg), "route_treasury"@)
                is Ok <==> own && cfg.can_route_treasury
            &&& authority_check(caller, project_state, project_key, Some(cfg), "set_merkle_root"@)
                is Ok <==> own && cfg.can_set_merkle_root
        }),
{
    reveal_strlit("open_cycle");
    reveal_strlit("close_cycle");
    reveal_strlit("set_hard_cap");
    reveal_strlit("route_treasury");
    reveal_strlit("set_merkle_root");
    // the five names have five different lengths, so no two are equal
    assert("open_cycle"@.len() == 10 && "close_cycle"@.len() == 11 && "set_hard_cap"@.len() == 12
        && "route_treasury"@.len() == 14 && "set_merkle_root"@.len() == 15);
    assert("close_cycle"@ != "open_cycle"@);
    assert("set_hard_cap"@ != "open_cycle"@ && "set_hard_cap"@ != "close_cycle"@);
    assert("route_treasury"@ != "open_cycle"@ && "route_treasury"@ != "close_cycle"@
        && "route_treasury"@ != "set_hard_cap"@);
    assert("set_merkle_root"@ != "open_cycle"@ && "set_merkle_root"@ != "close_cycle"@
        && "set_merkle_root"@ != "set_hard_cap"@ && "set_merkle_root"@ != "route_treasury"@);
}

/// The rights the creator hands out are exactly the ones asked for: this project and
/// cycle, the given holder, amount and expiry, nothing exercised yet.
pub proof fn handed_out_rights_are_as_asked(
    ctx: CreateHolderRights,
    holder: Pubkey,
    rights_amount: u64,
    expiry: i64,
)
    requires
        create_holder_rights_outcome(ctx, holder, rights_amount, expiry) is Ok,
    ensures
        ({
            let hr = create_holder_rights_outcome(ctx, holder, rights_amount, expiry)->Ok_0.holder_rights;
            &&& hr.project == ctx.project_key
            &&& hr.cycle_index == ctx.cycle_state.cycle_index
            &&& hr.holder == holder
            &&& hr.rights_amount == rights_amount
            &&& hr.exercised_amount == 0
            &&& hr.expiry == expiry
        }),
        create_holder_rights_outcome(ctx, holder, rights_amount, expiry)->Ok_0.cycle_state.rights_allocated
            == ctx.cycle_state.rights_allocated + rights_amount,
{
}

/// Rights expire when their creator said: once rights are handed out with `expiry`, any
/// exercise of them at or after `expiry` is refused.
pub proof fn handed_out_rights_expire_when_asked(
    ctx: CreateHolderRights,
    holder: Pubkey,
    rights_amount: u64,
    expiry: i64,
    exercise: ExerciseRights,
    amount: u64,
    max_sol_cost: u64,
)
    requires
        create_holder_rights_outcome(ctx, holder, rights_amount, expiry) is Ok,
        exercise.holder_rights == create_holder_rights_outcome(
            ctx,
            holder,
            rights_amount,
            expiry,
        )->Ok_0.holder_rights,
        exercise.now >= expiry,
    ensures
        exercise_rights_outcome(exercise, amount, max_sol_cost) is Err,
{
}

/// A spending limit of zero means no limit: `open_cycle` refuses a cycle as over the
/// spending limit only when the caller is an operator, not the creator, whose limit is
/// positive and below the cycle's estimated raise; and it does refuse every such cycle
/// that the operator is otherwise allowed to open.
pub proof fn spending_limit_zero_means_unlimited(
    ctx: OpenCycle,
    curve_type: CurveType,
    supply_cap: u64,
    base_price: u64,
    rights_window_duration: i64,
    step_size: u64,
    step_increment: u64,
    end_price: u64,
    growth_factor_k: u64,
)
    ensures
        ({
            let r = open_cycle_outcome(
                ctx,
                curve_type,
                supply_cap,
                base_price,
                rights_window_duration,
                step_size,
                step_increment,
                end_price,
                growth_factor_k,
            );
            let estimate = max_raise_estimate(
                curve_type,
                supply_cap,
                base_price,
                step_size,
                step_increment,
                end_price,
                growth_factor_k,
            );
            let limited = ctx.caller != ctx.project_state.creator && ctx.authority_config is Some
                && ctx.authority_config->Some_0.spending_limit_lamports > 0 && estimate
                > ctx.authority_config->Some_0.spending_limit_lamports;
            &&& r == Err::<(OpenCycle, crate::state::CycleOpened), MammothError>(
                MammothError::SpendingLimitExceeded,
            ) ==> limited
            &&& limited && authority_check(
                ctx.caller,
                ctx.project_state,
                ctx.project_key,
                ctx.authority_config,
                "open_cycle"@,
            ) is Ok ==> r == Err::<(OpenCycle, crate::state::CycleOpened), MammothError>(
                MammothError::SpendingLimitExceeded,
            )
        }),
{
    reveal_strlit("open_cycle");
}

/// Closing splits everything above the cycle account's rent-exempt minimum, and nothing
/// more: the creator gets `creator_bps` of it and the reserve `reserve_bps` (each rounded
/// down), the sink the rest.
pub proof fn closing_splits_the_proceeds(close: CloseCycle)
    requires
        close_cycle_outcome(close) is Ok,
    ensures
        ({
            let split = close_cycle_outcome(close)->Ok_0.1;
            let d = if close.cycle_lamports >= close.rent_exempt_minimum {
                close.cycle_lamports - close.rent_exempt_minimum
            } else {
                0
            };
            &&& split.creator_share == (d * close.project_state.creator_bps) / 10000
            &&& split.reserve_share == (d * close.project_state.reserve_bps) / 10000
            &&& close.project_state.creator_bps + close.project_state.reserve_bps <= 10000
                ==> split.creator_share + split.reserve_share + split.sink_share == d
        }),
{
    let p = close.project_state;
    let d = if close.cycle_lamports >= close.rent_exempt_minimum {
        close.cycle_lamports - close.rent_exempt_minimum
    } else {
        0
    };
    if d == 0 {
        assert(d * p.creator_bps == 0 && d * p.reserve_bps == 0) by (nonlinear_arith)
            requires
                d == 0,
        ;
    } else if p.creator_bps + p.reserve_bps <= 10000 {
        let a = d * p.creator_bps;
        let b = d * p.reserve_bps;
        lemma_fundamental_div_mod(a, 10000);
        lemma_fundamental_div_mod(b, 10000);
        lemma_mod_pos_bound(a, 10000);
        lemma_mod_pos_bound(b, 10000);
        assert(a + b <= d * 10000) by (nonlinear_arith)
            requires
                a == d * p.creator_bps,
                b == d * p.reserve_bps,
                p.creator_bps + p.reserve_bps <= 10000,
                d > 0,
        ;
    }
}

/// A public purchase pays the curve: at least the spot price for every token, the sum of
/// the tokens' own prices on a curve priced token by token, never more than the buyer's
/// limit; the protocol takes its fee in basis points (rounded down), the cycle the rest,
/// and exactly `amount` tokens are sold.
pub proof fn public_purchases_pay_the_curve(ctx: BuyTokens, amount: u64, max_sol_cost: u64)
    requires
        total_cost_spec(ctx.cycle_state, amount) is Some,
        buy_tokens_outcome(ctx, amount, max_sol_cost) is Ok,
    ensures
        ({
            let c = ctx.cycle_state;
            let after = buy_tokens_outcome(ctx, amount, max_sol_cost)->Ok_0.0;
            let pay = buy_tokens_outcome(ctx, amount, max_sol_cost)->Ok_0.1;
            &&& price_at(c, c.minted as int) == Ok::<u64, MammothError>(pay.price_per_token)
            &&& pay.total_cost >= pay.price_per_token * amount
            &&& priced_per_token(c, c.minted + amount) ==> pay.total_cost == token_prices_sum(
                c,
                c.minted as int,
                c.minted + amount,
            )
            &&& pay.total_cost <= max_sol_cost
            &&& pay.fee == (pay.total_cost * ctx.protocol_config.fee_bps) / 10000
            &&& pay.net_cost == pay.total_cost - pay.fee
            &&& pay.amount == amount
            &&& after.cycle_state.minted == c.minted + amount
            &&& after.cycle_state.sol_raised == c.sol_raised + pay.net_cost
        }),
{
    let c = ctx.cycle_state;
    bulk_purchase_pays_at_least_spot(c, amount);
    if priced_per_token(c, c.minted + amount) {
        cost_is_sum_of_token_prices(c, amount);
    }
}

} // verus!
