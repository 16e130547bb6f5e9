//! Project administration: the hard cap, operator delegation, creator rotation,
//! reserve withdrawals and reclaiming the rent of closed cycles.
use vstd::prelude::*;
use crate::authority::{authority_check, check_authority};
use crate::curve::sub_floor;
use crate::cycle::config_ref;
use crate::error::MammothError;
use crate::keys::Pubkey;
use crate::state::{
    AuthorityConfig, CycleState, CycleStatus, HardCapSet, ProjectState, SupplyMode,
};

verus! {

/// The accounts `set_hard_cap` reads and writes.
#[derive(Clone, Copy, Debug, PartialEq, Eq)]
pub struct SetHardCap {
    pub project_state: ProjectState,
    /// Address of the project account.
    pub project_key: Pubkey,
    pub authority_config: Option<AuthorityConfig>,
    /// The signer.
    pub caller: Pubkey,
    /// Current unix time.
    pub now: i64,
}

/// What `set_hard_cap` does: the creator (or an operator allowed to) sets the hard cap
/// of an Elastic project, once; it can never be changed or removed afterwards.
pub open spec fn set_hard_cap_outcome(ctx: SetHardCap, hard_cap: u64) -> Result<
    (SetHardCap, HardCapSet),
    MammothError,
> {
    let p = ctx.project_state;
    let auth = authority_check(
        ctx.caller,
        p,
        ctx.project_key,
        ctx.authority_config,
        "set_hard_cap"@,
    );
    if auth is Err {
        Err(auth->Err_0)
    } else if p.supply_mode != SupplyMode::Elastic {
        Err(MammothError::NotElasticMode)
    } else if p.hard_cap is Some {
        Err(MammothError::HardCapAlreadySet)
    } else {
        Ok(
            (
                SetHardCap { project_state: ProjectState { hard_cap: Some(hard_cap), ..p }, ..ctx },
                HardCapSet { project_mint: p.mint, hard_cap, timestamp: ctx.now },
            ),
        )
    }
}

/// Sets the irreversible hard cap of an Elastic project.
pub fn set_hard_cap(ctx: &mut SetHardCap, hard_cap: u64) -> (r: Result<HardCapSet, MammothError>)
    ensures
        match r {
            Ok(ev) => set_hard_cap_outcome(*old(ctx), hard_cap) == Ok::<
                (SetHardCap, HardCapSet),
                MammothError,
            >((*final(ctx), ev)),
            Err(e) => set_hard_cap_outcome(*old(ctx), hard_cap) == Err::<
                (SetHardCap, HardCapSet),
                MammothError,
            >(e) && *final(ctx) == *old(ctx),
        },
        old(ctx).project_state.hard_cap is Some ==> r is Err,
        r is Ok ==> final(ctx).project_state.hard_cap == Some(hard_cap),
{
    check_authority(
        &ctx.caller,
        &ctx.project_state,
        &ctx.project_key,
        config_ref(&ctx.authority_config),
        "set_hard_cap",
    )?;
    if ctx.project_state.supply_mode != SupplyMode::Elastic {
        return Err(MammothError::NotElasticMode);
    }
    if ctx.project_state.hard_cap.is_some() {
        return Err(MammothError::HardCapAlreadySet);
    }
    ctx.project_state.hard_cap = Some(hard_cap);
    Ok(
        HardCapSet {
            project_mint: ctx.project_state.mint,
            hard_cap,
            timestamp: ctx.now,
        },
    )
}

/// The accounts `initialize_authority` reads and writes.
#[derive(Clone, Copy, Debug, PartialEq, Eq)]
pub struct InitializeAuthority {
    pub project_state: ProjectState,
    /// Address of the project account.
    pub project_key: Pubkey,
    /// The authority account being initialized.
    pub authority_config: AuthorityConfig,
    pub authority_config_bump: u8,
    /// The signer; must be the project creator.
    pub principal: Pubkey,
}

/// What `initialize_authority` does: the project creator becomes the principal of a
/// delegation to `operator` with exactly the given permissions.
pub open spec fn initialize_authority_outcome(
    ctx: InitializeAuthority,
    operator: Pubkey,
    can_open_cycle: bool,
    can_close_cycle: bool,
    can_set_hard_cap: bool,
    can_route_treasury: bool,
    spending_limit_lamports: u64,
    can_set_merkle_root: bool,
) -> Result<InitializeAuthority, MammothError> {
    if ctx.project_state.creator != ctx.principal {
        Err(MammothError::Unauthorized)
    } else {
        Ok(
            InitializeAuthority {
                authority_config: AuthorityConfig {
                    project: ctx.project_key,
                    principal: ctx.principal,
                    operator,
                    can_open_cycle,
                    can_close_cycle,
                    can_set_hard_cap,
                    can_route_treasury,
                    spending_limit_lamports,
                    can_set_merkle_root,
                    bump: ctx.authority_config_bump,
                },
                ..ctx
            },
        )
    }
}

/// Creator-only. Delegates authority over the project to an operator.
pub fn initialize_authority(
    ctx: &mut InitializeAuthority,
    operator: Pubkey,
    can_open_cycle: bool,
    can_close_cycle: bool,
    can_set_hard_cap: bool,
    can_route_treasury: bool,
    spending_limit_lamports: u64,
    can_set_merkle_root: bool,
) -> (r: Result<(), MammothError>)
    ensures
        match r {
            Ok(_) => initialize_authority_outcome(
                *old(ctx),
                operator,
                can_open_cycle,
                can_close_cycle,
                can_set_hard_cap,
                can_route_treasury,
                spending_limit_lamports,
                can_set_merkle_root,
            ) == Ok::<InitializeAuthority, MammothError>(*final(ctx)),
            Err(e) => initialize_authority_outcome(
                *old(ctx),
                operator,
                can_open_cycle,
                can_close_cycle,
                can_set_hard_cap,
                can_route_treasury,
                spending_limit_lamports,
                can_set_merkle_root,
            ) == Err::<InitializeAuthority, MammothError>(e) && *final(ctx) == *old(ctx),
        },
{
    if !ctx.project_state.creator.equals(&ctx.principal) {
        return Err(MammothError::Unauthorized);
    }
    ctx.authority_config = AuthorityConfig {
        project: ctx.project_key,
        principal: ctx.principal,
        operator,
        can_open_cycle,
        can_close_cycle,
        can_set_hard_cap,
        can_route_treasury,
        spending_limit_lamports,
        can_set_merkle_root,
        bump: ctx.authority_config_bump,
    };
    Ok(())
}

/// The accounts `update_authority` reads and writes.
#[derive(Clone, Copy, Debug, PartialEq, Eq)]
pub struct UpdateAuthority {
    pub authority_config: AuthorityConfig,
    /// The signer; must be the delegation's principal.
    pub principal: Pubkey,
}

/// What `update_authority` does: the principal replaces the operator, its permissions
/// and its spending limit; the project, principal and bump stay.
pub open spec fn update_authority_outcome(
    ctx: UpdateAuthority,
    operator: Pubkey,
    can_open_cycle: bool,
    can_close_cycle: bool,
    can_set_hard_cap: bool,
    can_route_treasury: bool,
    spending_limit_lamports: u64,
    can_set_merkle_root: bool,
) -> Result<UpdateAuthority, MammothError> {
    if ctx.authority_config.principal != ctx.principal {
        Err(MammothError::Unauthorized)
    } else {
        Ok(
            UpdateAuthority {
                authority_config: AuthorityConfig {
                    operator,
                    can_open_cycle,
                    can_close_cycle,
                    can_set_hard_cap,
                    can_route_treasury,
                    spending_limit_lamports,
                    can_set_merkle_root,
                    ..ctx.authority_config
                },
                ..ctx
            },
        )
    }
}

/// Principal-only. Updates the operator, its permissions or its spending limit.
pub fn update_authority(
    ctx: &mut UpdateAuthority,
    operator: Pubkey,
    can_open_cycle: bool,
    can_close_cycle: bool,
    can_set_hard_cap: bool,
    can_route_treasury: bool,
    spending_limit_lamports: u64,
    can_set_merkle_root: bool,
) -> (r: Result<(), MammothError>)
    ensures
        match r {
            Ok(_) => update_authority_outcome(
                *old(ctx),
                operator,
                can_open_cycle,
                can_close_cycle,
                can_set_hard_cap,
                can_route_treasury,
                spending_limit_lamports,
                can_set_merkle_root,
            ) == Ok::<UpdateAuthority, MammothError>(*final(ctx)),
            Err(e) => update_authority_outcome(
                *old(ctx),
                operator,
                can_open_cycle,
                can_close_cycle,
                can_set_hard_cap,
                can_route_treasury,
                spending_limit_lamports,
                can_set_merkle_root,
            ) == Err::<UpdateAuthority, MammothError>(e) && *final(ctx) == *old(ctx),
        },
{
    if !ctx.authority_config.principal.equals(&ctx.principal) {
        return Err(MammothError::Unauthorized);
    }
    ctx.authority_config.operator = operator;
    ctx.authority_config.can_open_cycle = can_open_cycle;
    ctx.authority_config.can_close_cycle = can_close_cycle;
    ctx.authority_config.can_set_hard_cap = can_set_hard_cap;
    ctx.authority_config.can_route_treasury = can_route_treasury;
    ctx.authority_config.spending_limit_lamports = spending_limit_lamports;
    ctx.authority_config.can_set_merkle_root = can_set_merkle_root;
    Ok(())
}

/// The accounts `rotate_creator` reads and writes.
#[derive(Clone, Copy, Debug, PartialEq, Eq)]
pub struct RotateCreator {
    pub project_state: ProjectState,
    /// The signer; must be the current creator.
    pub current_creator: Pubkey,
}

/// What `rotate_creator` does: the current creator hands the project to a new creator;
/// nothing else about the project changes.
pub open spec fn rotate_creator_outcome(ctx: RotateCreator, new_creator: Pubkey) -> Result<
    RotateCreator,
    MammothError,
> {
    if ctx.current_creator != ctx.project_state.creator {
        Err(MammothError::Unauthorized)
    } else {
        Ok(
            RotateCreator {
                project_state: ProjectState { creator: new_creator, ..ctx.project_state },
                ..ctx
            },
        )
    }
}

/// Transfers ownership of the project to a new wallet; signed by the current creator.
pub fn rotate_creator(ctx: &mut RotateCreator, new_creator: Pubkey) -> (r: Result<(), MammothError>)
    ensures
        match r {
            Ok(_) => rotate_creator_outcome(*old(ctx), new_creator) == Ok::<
                RotateCreator,
                MammothError,
            >(*final(ctx)),
            Err(e) => rotate_creator_outcome(*old(ctx), new_creator) == Err::<
                RotateCreator,
                MammothError,
            >(e) && *final(ctx) == *old(ctx),
        },
{
    if !ctx.current_creator.equals(&ctx.project_state.creator) {
        return Err(MammothError::Unauthorized);
    }
    ctx.project_state.creator = new_creator;
    Ok(())
}

/// The accounts `withdraw_reserve` reads.
#[derive(Clone, Copy, Debug, PartialEq, Eq)]
pub struct WithdrawReserve {
    pub project_state: ProjectState,
    /// The signer; must be the project creator.
    pub creator: Pubkey,
    /// Lamports held by the reserve account.
    pub reserve_lamports: u64,
    /// Rent-exempt minimum of an account without data; it stays in the reserve.
    pub rent_exempt_minimum: u64,
}

/// What `withdraw_reserve` decides: the creator may take any positive amount up to the
/// reserve's balance above its rent-exempt minimum. The answer is the lamports to move
/// from reserve to creator.
pub open spec fn withdraw_reserve_outcome(ctx: WithdrawReserve, amount: u64) -> Result<u64, MammothError> {
    if ctx.creator != ctx.project_state.creator {
        Err(MammothError::Unauthorized)
    } else if amount == 0 {
        Err(MammothError::ZeroAmount)
    } else if amount > sub_floor(ctx.reserve_lamports as int, ctx.rent_exempt_minimum as int) {
        Err(MammothError::InsufficientReserveBalance)
    } else {
        Ok(amount)
    }
}

/// Creator-only. Withdraws lamports from the project's reserve account.
pub fn withdraw_reserve(ctx: &WithdrawReserve, amount: u64) -> (r: Result<u64, MammothError>)
    ensures
        r == withdraw_reserve_outcome(*ctx, amount),
{
    if !ctx.creator.equals(&ctx.project_state.creator) {
        return Err(MammothError::Unauthorized);
    }
    if amount == 0 {
        return Err(MammothError::ZeroAmount);
    }
    if amount > ctx.reserve_lamports.saturating_sub(ctx.rent_exempt_minimum) {
        return Err(MammothError::InsufficientReserveBalance);
    }
    Ok(amount)
}

/// The accounts `reclaim_cycle_rent` reads.
#[derive(Clone, Copy, Debug, PartialEq, Eq)]
pub struct ReclaimCycleRent {
    pub project_state: ProjectState,
    pub cycle_state: CycleState,
    /// The signer; must be the project creator.
    pub creator: Pubkey,
    /// Lamports held by the cycle account.
    pub cycle_lamports: u64,
    /// Rent-exempt minimum of a cycle account.
    pub rent_exempt_minimum: u64,
    /// Current unix time.
    pub now: i64,
}

/// How long a closed cycle's account stays before its rent can be reclaimed: 7 days.
pub const RECLAIM_DELAY_SECS: i64 = 604800;

/// What `reclaim_cycle_rent` decides: the creator may close a cycle that has been closed
/// for at least 7 days and whose proceeds are gone (no more than its rent-exempt minimum
/// left). The answer is the lamports the closed account returns to the creator.
pub open spec fn reclaim_cycle_rent_outcome(ctx: ReclaimCycleRent) -> Result<u64, MammothError> {
    if ctx.creator != ctx.project_state.creator {
        Err(MammothError::Unauthorized)
    } else if ctx.cycle_state.status != CycleStatus::Closed {
        Err(MammothError::NotClosed)
    } else if ctx.now < ctx.cycle_state.closed_at + RECLAIM_DELAY_SECS {
        Err(MammothError::NotClosed)
    } else if ctx.cycle_lamports > ctx.rent_exempt_minimum {
        Err(MammothError::NotClosed)
    } else {
        Ok(ctx.cycle_lamports)
    }
}

/// Creator-only. Closes a distributed, closed cycle account, returning its rent.
pub fn reclaim_cycle_rent(ctx: &ReclaimCycleRent) -> (r: Result<u64, MammothError>)
    ensures
        r == reclaim_cycle_rent_outcome(*ctx),
{
    if !ctx.creator.equals(&ctx.project_state.creator) {
        return Err(MammothError::Unauthorized);
    }
    if ctx.cycle_state.status != CycleStatus::Closed {
        return Err(MammothError::NotClosed);
    }
    match ctx.cycle_state.closed_at.checked_add(RECLAIM_DELAY_SECS) {
        Some(reclaimable_at) => {
            if ctx.now < reclaimable_at {
                return Err(MammothError::NotClosed);
            }
        },
        None => return Err(MammothError::NotClosed),
    }
    if ctx.cycle_lamports > ctx.rent_exempt_minimum {
        return Err(MammothError::NotClosed);
    }
    Ok(ctx.cycle_lamports)
}

} // verus!
