//! Selling a cycle's tokens: to rights holders at the base price during the rights
//! window, then to the public along the curve.
use vstd::prelude::*;
use crate::accounting::{fee_split_spec, split_protocol_fee};
use crate::curve::{
    compute_price, compute_total_cost, price_at, purchase_cost, sub_floor, total_cost_spec,
    u64_limit,
};
use crate::cycle::cycle_terms_unchanged;
use crate::error::MammothError;
use crate::keys::Pubkey;
use crate::state::{
    CycleState, CycleStatus, HolderRights, ProjectState, ProtocolConfig, RightsExercised,
    TokensPurchased,
};

verus! {

/// The accounts `exercise_rights` reads and writes.
#[derive(Clone, Copy, Debug, PartialEq, Eq)]
pub struct ExerciseRights {
    pub project_state: ProjectState,
    /// Address of the project account.
    pub project_key: Pubkey,
    pub cycle_state: CycleState,
    pub holder_rights: HolderRights,
    pub protocol_config: ProtocolConfig,
    /// The signer.
    pub holder: Pubkey,
    /// Current unix time.
    pub now: i64,
}

/// Payments and token transfer that `exercise_rights` asks for.
#[derive(Clone, Copy, Debug, PartialEq, Eq)]
pub struct RightsPayment {
    /// Lamports from the holder to the protocol treasury.
    pub fee: u64,
    /// Lamports from the holder to the cycle account.
    pub net_cost: u64,
    /// What the holder pays in all: `fee + net_cost`.
    pub total_cost: u64,
    /// Tokens from the project escrow to the holder.
    pub amount: u64,
    pub event: RightsExercised,
}

/// What `exercise_rights` does: during an open rights window, a holder buys up to the
/// rest of their own rights in this cycle at the base price, within the cycle's cap and
/// the holder's slippage limit; the protocol fee comes out of the payment.
pub open spec fn exercise_rights_outcome(ctx: ExerciseRights, amount: u64, max_sol_cost: u64) -> Result<
    (ExerciseRights, RightsPayment),
    MammothError,
> {
    let c = ctx.cycle_state;
    let hr = ctx.holder_rights;
    let total_cost = c.base_price * amount;
    if amount == 0 {
        Err(MammothError::ZeroAmount)
    } else if c.status != CycleStatus::RightsWindow {
        Err(MammothError::NotRightsWindow)
    } else if ctx.now >= c.rights_window_end {
        Err(MammothError::RightsWindowExpired)
    } else if hr.project != ctx.project_key {
        Err(MammothError::InvalidRightsProject)
    } else if hr.cycle_index != c.cycle_index {
        Err(MammothError::InvalidRightsCycle)
    } else if hr.holder != ctx.holder {
        Err(MammothError::InvalidRightsHolder)
    } else if ctx.now >= hr.expiry {
        Err(MammothError::RightsWindowExpired)
    } else if hr.exercised_amount + amount > u64_limit() {
        Err(MammothError::MathOverflow)
    } else if hr.exercised_amount + amount > hr.rights_amount {
        Err(MammothError::ExceedsRightsAllocation)
    } else if c.minted + amount > u64_limit() {
        Err(MammothError::MathOverflow)
    } else if c.minted + amount > c.supply_cap {
        Err(MammothError::SupplyCapExceeded)
    } else if total_cost > u64_limit() {
        Err(MammothError::MathOverflow)
    } else if total_cost > max_sol_cost {
        Err(MammothError::SlippageExceeded)
    } else if fee_split_spec(total_cost as u64, ctx.protocol_config.fee_bps) is Err {
        Err(MammothError::MathOverflow)
    } else if c.sol_raised + fee_split_spec(total_cost as u64, ctx.protocol_config.fee_bps)->Ok_0.1
        > u64_limit() {
        Err(MammothError::MathOverflow)
    } else {
        let (fee, net_cost) = fee_split_spec(total_cost as u64, ctx.protocol_config.fee_bps)->Ok_0;
        Ok(
            (
                ExerciseRights {
                    holder_rights: HolderRights {
                        exercised_amount: (hr.exercised_amount + amount) as u64,
                        ..hr
                    },
                    cycle_state: CycleState {
                        minted: (c.minted + amount) as u64,
                        sol_raised: (c.sol_raised + net_cost) as u64,
                        ..c
                    },
                    ..ctx
                },
                RightsPayment {
                    fee,
                    net_cost,
                    total_cost: total_cost as u64,
                    amount,
                    event: RightsExercised {
                        project_mint: ctx.project_state.mint,
                        holder: ctx.holder,
                        cycle_index: c.cycle_index,
                        amount,
                        sol_paid: total_cost as u64,
                        timestamp: ctx.now,
                    },
                },
            ),
        )
    }
}

/// A rights holder buys `amount` tokens at the cycle's base price, paying at most
/// `max_sol_cost` lamports.
pub fn exercise_rights(ctx: &mut ExerciseRights, amount: u64, max_sol_cost: u64) -> (r: Result<
    RightsPayment,
    MammothError,
>)
    ensures
        match r {
            Ok(pay) => exercise_rights_outcome(*old(ctx), amount, max_sol_cost) == Ok::<
                (ExerciseRights, RightsPayment),
                MammothError,
            >((*final(ctx), pay)),
            Err(e) => exercise_rights_outcome(*old(ctx), amount, max_sol_cost) == Err::<
                (ExerciseRights, RightsPayment),
                MammothError,
            >(e) && *final(ctx) == *old(ctx),
        },
        r is Ok ==> cycle_terms_unchanged(old(ctx).cycle_state, final(ctx).cycle_state)
            && final(ctx).cycle_state.status == old(ctx).cycle_state.status,
        r is Ok ==> final(ctx).cycle_state.minted <= final(ctx).cycle_state.supply_cap
            && final(ctx).holder_rights.exercised_amount <= final(ctx).holder_rights.rights_amount,
        r matches Ok(pay) ==> pay.fee + pay.net_cost == pay.total_cost && pay.total_cost
            <= max_sol_cost,
{
    if amount == 0 {
        return Err(MammothError::ZeroAmount);
    }
    if ctx.cycle_state.status != CycleStatus::RightsWindow {
        return Err(MammothError::NotRightsWindow);
    }
    if ctx.now >= ctx.cycle_state.rights_window_end {
        return Err(MammothError::RightsWindowExpired);
    }
    if !ctx.holder_rights.project.equals(&ctx.project_key) {
        return Err(MammothError::InvalidRightsProject);
    }
    if ctx.holder_rights.cycle_index != ctx.cycle_state.cycle_index {
        return Err(MammothError::InvalidRightsCycle);
    }
    if !ctx.holder_rights.holder.equals(&ctx.holder) {
        return Err(MammothError::InvalidRightsHolder);
    }
    if ctx.now >= ctx.holder_rights.expiry {
        return Err(MammothError::RightsWindowExpired);
    }
    let exercised = match ctx.holder_rights.exercised_amount.checked_add(amount) {
        Some(v) => v,
        None => return Err(MammothError::MathOverflow),
    };
    if exercised > ctx.holder_rights.rights_amount {
        return Err(MammothError::ExceedsRightsAllocation);
    }
    let minted = match ctx.cycle_state.minted.checked_add(amount) {
        Some(v) => v,
        None => return Err(MammothError::MathOverflow),
    };
    if minted > ctx.cycle_state.supply_cap {
        return Err(MammothError::SupplyCapExceeded);
    }
    let price_per_token = ctx.cycle_state.base_price;
    let total_cost = match price_per_token.checked_mul(amount) {
        Some(v) => v,
        None => return Err(MammothError::MathOverflow),
    };
    if total_cost > max_sol_cost {
        return Err(MammothError::SlippageExceeded);
    }
    let (fee, net_cost) = split_protocol_fee(total_cost, ctx.protocol_config.fee_bps)?;
    let sol_raised = match ctx.cycle_state.sol_raised.checked_add(net_cost) {
        Some(v) => v,
        None => return Err(MammothError::MathOverflow),
    };
    ctx.holder_rights.exercised_amount = exercised;
    ctx.cycle_state.minted = minted;
    ctx.cycle_state.sol_raised = sol_raised;
    Ok(
        RightsPayment {
            fee,
            net_cost,
            total_cost,
            amount,
            event: RightsExercised {
                project_mint: ctx.project_state.mint,
                holder: ctx.holder,
                cycle_index: ctx.cycle_state.cycle_index,
                amount,
                sol_paid: total_cost,
                timestamp: ctx.now,
            },
        },
    )
}

/// The accounts `buy_tokens` reads and writes.
#[derive(Clone, Copy, Debug, PartialEq, Eq)]
pub struct BuyTokens {
    pub project_state: ProjectState,
    /// Address of the project account.
    pub project_key: Pubkey,
    pub cycle_state: CycleState,
    pub protocol_config: ProtocolConfig,
    /// The mint account passed in.
    pub mint: Pubkey,
    /// The signer.
    pub buyer: Pubkey,
    /// Current unix time.
    pub now: i64,
}

/// Payments and token transfer that `buy_tokens` asks for.
#[derive(Clone, Copy, Debug, PartialEq, Eq)]
pub struct Purchase {
    /// Lamports from the buyer to the protocol treasury.
    pub fee: u64,
    /// Lamports from the buyer to the cycle account.
    pub net_cost: u64,
    /// What the buyer pays in all: `fee + net_cost`.
    pub total_cost: u64,
    /// The spot price before the purchase.
    pub price_per_token: u64,
    /// Tokens from the project escrow to the buyer.
    pub amount: u64,
    /// Whether the purchase filled the cycle's cap (the creator should then close it).
    pub cap_reached: bool,
    pub event: TokensPurchased,
}

/// Tokens the public may buy in an active cycle: the cap less the rights reserved at
/// activation.
pub open spec fn public_cap(c: CycleState) -> int {
    sub_floor(c.supply_cap as int, c.rights_reserved_at_activation as int)
}

/// The checks `buy_tokens` makes before it prices the purchase.
pub open spec fn buy_precheck(ctx: BuyTokens, amount: u64) -> Result<(), MammothError> {
    let c = ctx.cycle_state;
    if amount == 0 {
        Err(MammothError::ZeroAmount)
    } else if c.project != ctx.project_key {
        Err(MammothError::InvalidCycleProject)
    } else if ctx.mint != ctx.project_state.mint {
        Err(MammothError::InvalidProjectMint)
    } else if c.status != CycleStatus::Active {
        Err(MammothError::NotActive)
    } else if c.minted + amount > u64_limit() {
        Err(MammothError::MathOverflow)
    } else if c.minted + amount > public_cap(c) {
        Err(MammothError::SupplyCapExceeded)
    } else {
        Ok(())
    }
}

/// The checks `buy_tokens` makes before pricing a purchase; on success, the number of
/// tokens sold once the purchase is made.
pub fn check_purchase(ctx: &BuyTokens, amount: u64) -> (r: Result<u64, MammothError>)
    ensures
        match buy_precheck(*ctx, amount) {
            Ok(_) => r == Ok::<u64, MammothError>((ctx.cycle_state.minted + amount) as u64),
            Err(e) => r == Err::<u64, MammothError>(e),
        },
{
    if amount == 0 {
        return Err(MammothError::ZeroAmount);
    }
    if !ctx.cycle_state.project.equals(&ctx.project_key) {
        return Err(MammothError::InvalidCycleProject);
    }
    if !ctx.mint.equals(&ctx.project_state.mint) {
        return Err(MammothError::InvalidProjectMint);
    }
    if ctx.cycle_state.status != CycleStatus::Active {
        return Err(MammothError::NotActive);
    }
    let public_cap = ctx.cycle_state.supply_cap.saturating_sub(
        ctx.cycle_state.rights_reserved_at_activation,
    );
    let minted = match ctx.cycle_state.minted.checked_add(amount) {
        Some(v) => v,
        None => return Err(MammothError::MathOverflow),
    };
    if minted > public_cap {
        return Err(MammothError::SupplyCapExceeded);
    }
    Ok(minted)
}

/// Whether `buy_tokens` is undefined on these inputs: the purchase passes the first
/// checks but pricing it overflows while rounding a bucket boundary up, where the
/// transaction aborts.
pub fn buy_tokens_aborts(ctx: &BuyTokens, amount: u64) -> (r: bool)
    ensures
        r == (buy_precheck(*ctx, amount) is Ok && total_cost_spec(ctx.cycle_state, amount) is None),
{
    match check_purchase(ctx, amount) {
        Ok(_) => purchase_cost(&ctx.cycle_state, amount).is_none(),
        Err(_) => false,
    }
}

/// What `buy_tokens` does: in an active cycle of this project, a buyer takes tokens
/// from the public part of the cap and pays their cost along the curve (see
/// `total_cost_spec`), within the buyer's slippage limit; the protocol fee comes out of
/// the payment.
pub open spec fn buy_tokens_outcome(ctx: BuyTokens, amount: u64, max_sol_cost: u64) -> Result<
    (BuyTokens, Purchase),
    MammothError,
> {
    let c = ctx.cycle_state;
    let cost = total_cost_spec(c, amount)->Some_0;
    let spot = price_at(c, c.minted as int);
    if buy_precheck(ctx, amount) is Err {
        Err(buy_precheck(ctx, amount)->Err_0)
    } else if cost is Err {
        Err(cost->Err_0)
    } else if spot is Err {
        Err(spot->Err_0)
    } else if cost->Ok_0 > max_sol_cost {
        Err(MammothError::SlippageExceeded)
    } else if fee_split_spec(cost->Ok_0, ctx.protocol_config.fee_bps) is Err {
        Err(MammothError::MathOverflow)
    } else if c.sol_raised + fee_split_spec(cost->Ok_0, ctx.protocol_config.fee_bps)->Ok_0.1
        > u64_limit() {
        Err(MammothError::MathOverflow)
    } else {
        let (fee, net_cost) = fee_split_spec(cost->Ok_0, ctx.protocol_config.fee_bps)->Ok_0;
        let minted = (c.minted + amount) as u64;
        Ok(
            (
                BuyTokens {
                    cycle_state: CycleState {
                        minted,
                        sol_raised: (c.sol_raised + net_cost) as u64,
                        ..c
                    },
                    ..ctx
                },
                Purchase {
                    fee,
                    net_cost,
                    total_cost: cost->Ok_0,
                    price_per_token: spot->Ok_0,
                    amount,
                    cap_reached: minted >= c.supply_cap,
                    event: TokensPurchased {
                        project_mint: ctx.project_state.mint,
                        buyer: ctx.buyer,
                        cycle_index: c.cycle_index,
                        amount,
                        sol_paid: cost->Ok_0,
                        price_per_token: spot->Ok_0,
                        timestamp: ctx.now,
                    },
                },
            ),
        )
    }
}

/// A buyer purchases `amount` tokens in the public sale, paying at most `max_sol_cost`
/// lamports.
pub fn buy_tokens(ctx: &mut BuyTokens, amount: u64, max_sol_cost: u64) -> (r: Result<
    Purchase,
    MammothError,
>)
    requires
        buy_precheck(*old(ctx), amount) is Ok ==> total_cost_spec(old(ctx).cycle_state, amount) is Some,
    ensures
        match r {
            Ok(p) => buy_tokens_outcome(*old(ctx), amount, max_sol_cost) == Ok::<
                (BuyTokens, Purchase),
                MammothError,
            >((*final(ctx), p)),
            Err(e) => buy_tokens_outcome(*old(ctx), amount, max_sol_cost) == Err::<
                (BuyTokens, Purchase),
                MammothError,
            >(e) && *final(ctx) == *old(ctx),
        },
        r is Ok ==> cycle_terms_unchanged(old(ctx).cycle_state, final(ctx).cycle_state)
            && final(ctx).cycle_state.status == old(ctx).cycle_state.status,
        r is Ok ==> final(ctx).cycle_state.minted <= public_cap(final(ctx).cycle_state)
            && final(ctx).cycle_state.minted <= final(ctx).cycle_state.supply_cap,
        r matches Ok(p) ==> p.fee + p.net_cost == p.total_cost && p.total_cost <= max_sol_cost,
{
    let minted = check_purchase(ctx, amount)?;
    let total_cost = compute_total_cost(&ctx.cycle_state, amount)?;
    let price_per_token = compute_price(&ctx.cycle_state)?;
    if total_cost > max_sol_cost {
        return Err(MammothError::SlippageExceeded);
    }
    let (fee, net_cost) = split_protocol_fee(total_cost, ctx.protocol_config.fee_bps)?;
    let sol_raised = match ctx.cycle_state.sol_raised.checked_add(net_cost) {
        Some(v) => v,
        None => return Err(MammothError::MathOverflow),
    };
    ctx.cycle_state.minted = minted;
    ctx.cycle_state.sol_raised = sol_raised;
    let cap_reached = ctx.cycle_state.minted >= ctx.cycle_state.supply_cap;
    Ok(
        Purchase {
            fee,
            net_cost,
            total_cost,
            price_per_token,
            amount,
            cap_reached,
            event: TokensPurchased {
                project_mint: ctx.project_state.mint,
                buyer: ctx.buyer,
                cycle_index: ctx.cycle_state.cycle_index,
                amount,
                sol_paid: total_cost,
                price_per_token,
                timestamp: ctx.now,
            },
        },
    )
}

} // verus!
