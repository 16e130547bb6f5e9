//! Protocol set-up and project creation.
use vstd::prelude::*;
use crate::accounting::{
    bps_share, bps_share_spec, bps_split_is_whole, is_whole_split, rent_top_up, top_up_spec,
};
use crate::curve::sub_floor;
use crate::error::MammothError;
use crate::keys::Pubkey;
use crate::state::{OperatorType, ProjectCreated, ProjectState, ProtocolConfig, SupplyMode};

verus! {

/// Largest protocol fee: 10%.
pub const MAX_PROTOCOL_FEE_BPS: u16 = 1000;

/// The protocol fee is at most 10% and the default proceeds split makes up the whole.
pub open spec fn protocol_params_valid(
    fee_bps: u16,
    default_creator_bps: u16,
    default_reserve_bps: u16,
    default_sink_bps: u16,
) -> bool {
    fee_bps <= MAX_PROTOCOL_FEE_BPS && bps_split_is_whole(
        default_creator_bps,
        default_reserve_bps,
        default_sink_bps,
    )
}

/// The accounts `initialize_protocol` reads and writes.
#[derive(Clone, Copy, Debug, PartialEq, Eq)]
pub struct InitializeProtocol {
    /// The configuration account being initialized.
    pub protocol_config: ProtocolConfig,
    pub protocol_treasury: Pubkey,
    pub protocol_treasury_lamports: u64,
    /// The signer paying for the accounts; becomes the admin.
    pub admin: Pubkey,
    /// Rent-exempt minimum of an account without data.
    pub rent_exempt_minimum: u64,
}

/// What `initialize_protocol` does: on valid parameters it writes the configuration
/// and asks for the treasury to be topped up to the rent-exempt minimum (the second
/// component: lamports from admin to treasury).
pub open spec fn initialize_protocol_outcome(
    ctx: InitializeProtocol,
    fee_bps: u16,
    default_creator_bps: u16,
    default_reserve_bps: u16,
    default_sink_bps: u16,
) -> Result<(InitializeProtocol, u64), MammothError> {
    if !protocol_params_valid(fee_bps, default_creator_bps, default_reserve_bps, default_sink_bps) {
        Err(MammothError::InvalidBpsSplit)
    } else {
        Ok(
            (
                InitializeProtocol {
                    protocol_config: ProtocolConfig {
                        admin: ctx.admin,
                        protocol_treasury: ctx.protocol_treasury,
                        fee_bps,
                        default_creator_bps,
                        default_reserve_bps,
                        default_sink_bps,
                    },
                    ..ctx
                },
                top_up_spec(ctx.protocol_treasury_lamports, ctx.rent_exempt_minimum),
            ),
        )
    }
}

/// Sets up the protocol configuration. Returns the lamports the admin must transfer to
/// the protocol treasury so that it is rent-exempt.
pub fn initialize_protocol(
    ctx: &mut InitializeProtocol,
    fee_bps: u16,
    default_creator_bps: u16,
    default_reserve_bps: u16,
    default_sink_bps: u16,
) -> (r: Result<u64, MammothError>)
    ensures
        match r {
            Ok(top_up) => initialize_protocol_outcome(
                *old(ctx),
                fee_bps,
                default_creator_bps,
                default_reserve_bps,
                default_sink_bps,
            ) == Ok::<(InitializeProtocol, u64), MammothError>((*final(ctx), top_up)),
            Err(e) => initialize_protocol_outcome(
                *old(ctx),
                fee_bps,
                default_creator_bps,
                default_reserve_bps,
                default_sink_bps,
            ) == Err::<(InitializeProtocol, u64), MammothError>(e) && *final(ctx) == *old(ctx),
        },
        r is Ok <==> protocol_params_valid(
            fee_bps,
            default_creator_bps,
            default_reserve_bps,
            default_sink_bps,
        ),
{
    if fee_bps > MAX_PROTOCOL_FEE_BPS {
        return Err(MammothError::InvalidBpsSplit);
    }
    if !is_whole_split(default_creator_bps, default_reserve_bps, default_sink_bps) {
        return Err(MammothError::InvalidBpsSplit);
    }
    ctx.protocol_config = ProtocolConfig {
        admin: ctx.admin,
        protocol_treasury: ctx.protocol_treasury,
        fee_bps,
        default_creator_bps,
        default_reserve_bps,
        default_sink_bps,
    };
    Ok(rent_top_up(ctx.protocol_treasury_lamports, ctx.rent_exempt_minimum))
}

/// The accounts `update_protocol_config` reads and writes.
#[derive(Clone, Copy, Debug, PartialEq, Eq)]
pub struct UpdateProtocolConfig {
    pub protocol_config: ProtocolConfig,
    /// The signer; must be the configured admin.
    pub admin: Pubkey,
}

/// What `update_protocol_config` does: only the admin may change the fee and the
/// default split, and only to valid values; the admin and treasury stay.
pub open spec fn update_protocol_config_outcome(
    ctx: UpdateProtocolConfig,
    fee_bps: u16,
    default_creator_bps: u16,
    default_reserve_bps: u16,
    default_sink_bps: u16,
) -> Result<UpdateProtocolConfig, MammothError> {
    if ctx.protocol_config.admin != ctx.admin {
        Err(MammothError::Unauthorized)
    } else if !protocol_params_valid(
        fee_bps,
        default_creator_bps,
        default_reserve_bps,
        default_sink_bps,
    ) {
        Err(MammothError::InvalidBpsSplit)
    } else {
        Ok(
            UpdateProtocolConfig {
                protocol_config: ProtocolConfig {
                    fee_bps,
                    default_creator_bps,
                    default_reserve_bps,
                    default_sink_bps,
                    ..ctx.protocol_config
                },
                ..ctx
            },
        )
    }
}

/// Admin-only. Updates the protocol fee and the default proceeds split.
pub fn update_protocol_config(
    ctx: &mut UpdateProtocolConfig,
    fee_bps: u16,
    default_creator_bps: u16,
    default_reserve_bps: u16,
    default_sink_bps: u16,
) -> (r: Result<(), MammothError>)
    ensures
        match r {
            Ok(_) => update_protocol_config_outcome(
                *old(ctx),
                fee_bps,
                default_creator_bps,
                default_reserve_bps,
                default_sink_bps,
            ) == Ok::<UpdateProtocolConfig, MammothError>(*final(ctx)),
            Err(e) => update_protocol_config_outcome(
                *old(ctx),
                fee_bps,
                default_creator_bps,
                default_reserve_bps,
                default_sink_bps,
            ) == Err::<UpdateProtocolConfig, MammothError>(e) && *final(ctx) == *old(ctx),
        },
{
    if !ctx.protocol_config.admin.equals(&ctx.admin) {
        return Err(MammothError::Unauthorized);
    }
    if fee_bps > MAX_PROTOCOL_FEE_BPS {
        return Err(MammothError::InvalidBpsSplit);
    }
    if !is_whole_split(default_creator_bps, default_reserve_bps, default_sink_bps) {
        return Err(MammothError::InvalidBpsSplit);
    }
    ctx.protocol_config.fee_bps = fee_bps;
    ctx.protocol_config.default_creator_bps = default_creator_bps;
    ctx.protocol_config.default_reserve_bps = default_reserve_bps;
    ctx.protocol_config.default_sink_bps = default_sink_bps;
    Ok(())
}

/// The accounts `create_project` reads and writes.
#[derive(Clone, Copy, Debug, PartialEq, Eq)]
pub struct CreateProject {
    /// The project account being initialized.
    pub project_state: ProjectState,
    /// Address of the project account.
    pub project_state_key: Pubkey,
    pub project_state_bump: u8,
    /// The project's new mint.
    pub mint: Pubkey,
    /// The signer creating the project.
    pub creator: Pubkey,
    pub protocol_config: ProtocolConfig,
    pub reserve_lamports: u64,
    pub sink_lamports: u64,
    /// Rent-exempt minimum of an account without data.
    pub rent_exempt_minimum: u64,
    /// Current unix time.
    pub now: i64,
}

/// The transfers `create_project` asks for.
#[derive(Clone, Copy, Debug, PartialEq, Eq)]
pub struct GenesisMints {
    /// Tokens minted to the protocol treasury's token account.
    pub protocol_allocation: u64,
    /// Tokens minted to the creator's token account.
    pub treasury_allocation: u64,
    /// Tokens minted to the project escrow, released per cycle.
    pub public_allocation: u64,
    /// Lamports from the creator to the reserve account.
    pub reserve_top_up: u64,
    /// Lamports from the creator to the sink account.
    pub sink_top_up: u64,
    pub event: ProjectCreated,
}

/// Byte code of a supply mode in events.
pub open spec fn supply_mode_code(m: SupplyMode) -> u8 {
    match m {
        SupplyMode::Fixed => 0,
        SupplyMode::Elastic => 1,
    }
}

/// Byte code of an operator type in events.
pub open spec fn operator_type_code(t: OperatorType) -> u8 {
    match t {
        OperatorType::Human => 0,
        OperatorType::AiAssisted => 1,
        OperatorType::AiAutonomous => 2,
    }
}

/// The byte that stands for a supply mode in events.
pub fn supply_mode_byte(m: SupplyMode) -> (r: u8)
    ensures
        r == supply_mode_code(m),
{
    match m {
        SupplyMode::Fixed => 0u8,
        SupplyMode::Elastic => 1u8,
    }
}

/// The byte that stands for an operator type in events.
pub fn operator_type_byte(t: OperatorType) -> (r: u8)
    ensures
        r == operator_type_code(t),
{
    match t {
        OperatorType::Human => 0u8,
        OperatorType::AiAssisted => 1u8,
        OperatorType::AiAutonomous => 2u8,
    }
}

/// What `create_project` does: the supply must be positive, the proceeds split must
/// make up the whole and the
/// public share plus the protocol fee may not exceed the supply. The protocol takes
/// `fee_bps` of the supply, the public escrow `public_allocation_bps`, and the creator
/// the rest; the whole supply is minted at once.
pub open spec fn create_project_outcome(
    ctx: CreateProject,
    supply_mode: SupplyMode,
    total_supply: u64,
    public_allocation_bps: u16,
    creator_bps: u16,
    reserve_bps: u16,
    sink_bps: u16,
    launch_at: Option<i64>,
    operator_type: OperatorType,
) -> Result<(CreateProject, GenesisMints), MammothError> {
    let fee_bps = ctx.protocol_config.fee_bps;
    if !bps_split_is_whole(creator_bps, reserve_bps, sink_bps) {
        Err(MammothError::InvalidBpsSplit)
    } else if public_allocation_bps + fee_bps > 10000 {
        Err(MammothError::InvalidBpsSplit)
    } else if total_supply == 0 {
        Err(MammothError::ZeroAmount)
    } else if bps_share_spec(total_supply, fee_bps) is None || bps_share_spec(
        total_supply,
        public_allocation_bps,
    ) is None {
        Err(MammothError::MathOverflow)
    } else {
        let protocol_allocation = bps_share_spec(total_supply, fee_bps)->Some_0;
        let public_allocation = bps_share_spec(total_supply, public_allocation_bps)->Some_0;
        let treasury_allocation = sub_floor(
            sub_floor(total_supply as int, protocol_allocation as int),
            public_allocation as int,
        ) as u64;
        let project = ProjectState {
            creator: ctx.creator,
            mint: ctx.mint,
            supply_mode,
            hard_cap: None,
            total_supply,
            public_allocation,
            treasury_allocation,
            protocol_allocation,
            total_minted: total_supply,
            current_cycle: 0,
            creator_bps,
            reserve_bps,
            sink_bps,
            launch_at,
            operator_type,
            has_active_cycle: false,
            bump: ctx.project_state_bump,
        };
        Ok(
            (
                CreateProject { project_state: project, ..ctx },
                GenesisMints {
                    protocol_allocation,
                    treasury_allocation,
                    public_allocation,
                    reserve_top_up: top_up_spec(ctx.reserve_lamports, ctx.rent_exempt_minimum),
                    sink_top_up: top_up_spec(ctx.sink_lamports, ctx.rent_exempt_minimum),
                    event: ProjectCreated {
                        project_mint: ctx.mint,
                        project_state: ctx.project_state_key,
                        creator: ctx.creator,
                        supply_mode: supply_mode_code(supply_mode),
                        total_supply,
                        operator_type: operator_type_code(operator_type),
                        timestamp: ctx.now,
                    },
                },
            ),
        )
    }
}

/// Creates a project: validates the splits, records the project and works out the
/// genesis allocation, which the runtime then mints (each non-zero allocation to its
/// account), along with the rent top-ups of the reserve and sink accounts.
pub fn create_project(
    ctx: &mut CreateProject,
    supply_mode: SupplyMode,
    total_supply: u64,
    public_allocation_bps: u16,
    creator_bps: u16,
    reserve_bps: u16,
    sink_bps: u16,
    launch_at: Option<i64>,
    operator_type: OperatorType,
) -> (r: Result<GenesisMints, MammothError>)
    ensures
        match r {
            Ok(m) => create_project_outcome(
                *old(ctx),
                supply_mode,
                total_supply,
                public_allocation_bps,
                creator_bps,
                reserve_bps,
                sink_bps,
                launch_at,
                operator_type,
            ) == Ok::<(CreateProject, GenesisMints), MammothError>((*final(ctx), m)),
            Err(e) => create_project_outcome(
                *old(ctx),
                supply_mode,
                total_supply,
                public_allocation_bps,
                creator_bps,
                reserve_bps,
                sink_bps,
                launch_at,
                operator_type,
            ) == Err::<(CreateProject, GenesisMints), MammothError>(e) && *final(ctx) == *old(ctx),
        },
        r matches Ok(m) ==> m.protocol_allocation + m.public_allocation + m.treasury_allocation
            == total_supply,
{
    let protocol_fee_bps = ctx.protocol_config.fee_bps;
    if !is_whole_split(creator_bps, reserve_bps, sink_bps) {
        return Err(MammothError::InvalidBpsSplit);
    }
    if (public_allocation_bps as u64) + (protocol_fee_bps as u64) > 10000 {
        return Err(MammothError::InvalidBpsSplit);
    }
    if total_supply == 0 {
        return Err(MammothError::ZeroAmount);
    }
    let protocol_allocation = bps_share(total_supply, protocol_fee_bps)?;
    let public_allocation = bps_share(total_supply, public_allocation_bps)?;
    let treasury_allocation = total_supply.saturating_sub(protocol_allocation).saturating_sub(
        public_allocation,
    );
    proof {
        let t = total_supply as int;
        let f = protocol_fee_bps as int;
        let p = public_allocation_bps as int;
        assert((t * f) / 10000 + (t * p) / 10000 <= t) by (nonlinear_arith)
            requires
                t >= 0,
                f >= 0,
                p >= 0,
                f + p <= 10000,
        {
            assert((t * f) / 10000 + (t * p) / 10000 <= (t * f + t * p) / 10000);
            assert(t * f + t * p <= t * 10000);
        }
    }
    ctx.project_state = ProjectState {
        creator: ctx.creator,
        mint: ctx.mint,
        supply_mode,
        hard_cap: None,
        total_supply,
        public_allocation,
        treasury_allocation,
        protocol_allocation,
        total_minted: total_supply,
        current_cycle: 0,
        creator_bps,
        reserve_bps,
        sink_bps,
        launch_at,
        operator_type,
        has_active_cycle: false,
        bump: ctx.project_state_bump,
    };
    let reserve_top_up = rent_top_up(ctx.reserve_lamports, ctx.rent_exempt_minimum);
    let sink_top_up = rent_top_up(ctx.sink_lamports, ctx.rent_exempt_minimum);
    Ok(
        GenesisMints {
            protocol_allocation,
            treasury_allocation,
            public_allocation,
            reserve_top_up,
            sink_top_up,
            event: ProjectCreated {
                project_mint: ctx.mint,
                project_state: ctx.project_state_key,
                creator: ctx.creator,
                supply_mode: supply_mode_byte(supply_mode),
                total_supply,
                operator_type: operator_type_byte(operator_type),
                timestamp: ctx.now,
            },
        },
    )
}

} // verus!
