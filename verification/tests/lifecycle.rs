use mammoth::{
    activate_cycle, buy_tokens, close_cycle, create_holder_rights, create_project, exercise_rights,
    initialize_protocol, open_cycle, reclaim_cycle_rent, set_hard_cap, update_protocol_config,
    withdraw_reserve, ActivateCycle, BuyTokens, CloseCycle, CreateHolderRights, CreateProject,
    CurveType, CycleState, CycleStatus, ExerciseRights, HolderRights, InitializeProtocol,
    MammothError, OpenCycle, OperatorType, ProjectState, ProtocolConfig, Pubkey, ReclaimCycleRent,
    SetHardCap, SupplyMode, UpdateProtocolConfig, WithdrawReserve,
};

const ADMIN: Pubkey = Pubkey([1u8; 32]);
const TREASURY: Pubkey = Pubkey([2u8; 32]);
const CREATOR: Pubkey = Pubkey([3u8; 32]);
const MINT: Pubkey = Pubkey([4u8; 32]);
const PROJECT: Pubkey = Pubkey([5u8; 32]);
const HOLDER: Pubkey = Pubkey([6u8; 32]);
const BUYER: Pubkey = Pubkey([8u8; 32]);
const STRANGER: Pubkey = Pubkey([9u8; 32]);

fn empty_config() -> ProtocolConfig {
    ProtocolConfig {
        admin: Pubkey([0u8; 32]),
        protocol_treasury: Pubkey([0u8; 32]),
        fee_bps: 0,
        default_creator_bps: 0,
        default_reserve_bps: 0,
        default_sink_bps: 0,
    }
}

fn config() -> ProtocolConfig {
    ProtocolConfig {
        admin: ADMIN,
        protocol_treasury: TREASURY,
        fee_bps: 200,
        default_creator_bps: 5000,
        default_reserve_bps: 3000,
        default_sink_bps: 2000,
    }
}

fn empty_project() -> ProjectState {
    ProjectState {
        creator: Pubkey([0u8; 32]),
        mint: Pubkey([0u8; 32]),
        supply_mode: SupplyMode::Fixed,
        hard_cap: None,
        total_supply: 0,
        public_allocation: 0,
        treasury_allocation: 0,
        protocol_allocation: 0,
        total_minted: 0,
        current_cycle: 0,
        creator_bps: 0,
        reserve_bps: 0,
        sink_bps: 0,
        launch_at: None,
        operator_type: OperatorType::Human,
        has_active_cycle: false,
        bump: 0,
    }
}

fn empty_cycle() -> CycleState {
    CycleState {
        project: Pubkey([0u8; 32]),
        cycle_index: 0,
        curve_type: CurveType::Step,
        supply_cap: 0,
        minted: 0,
        base_price: 0,
        status: CycleStatus::Pending,
        rights_window_end: 0,
        step_size: 0,
        step_increment: 0,
        end_price: 0,
        growth_factor_k: 0,
        sol_raised: 0,
        rights_merkle_root: None,
        rights_allocated: 0,
        rights_reserved_at_activation: 0,
        rights_committed: 0,
        closed_at: 0,
        bump: 0,
    }
}

fn empty_rights() -> HolderRights {
    HolderRights {
        project: Pubkey([0u8; 32]),
        cycle_index: 0,
        holder: Pubkey([0u8; 32]),
        rights_amount: 0,
        exercised_amount: 0,
        expiry: 0,
        bump: 0,
    }
}

fn project(supply_mode: SupplyMode) -> ProjectState {
    let mut ctx = CreateProject {
        project_state: empty_project(),
        project_state_key: PROJECT,
        project_state_bump: 254,
        mint: MINT,
        creator: CREATOR,
        protocol_config: config(),
        reserve_lamports: 0,
        sink_lamports: 0,
        rent_exempt_minimum: 890_880,
        now: 1_000,
    };
    create_project(&mut ctx, supply_mode, 1_000_000_000, 4000, 5000, 3000, 2000, None, OperatorType::Human)
        .unwrap();
    ctx.project_state
}

fn open_ctx(project_state: ProjectState) -> OpenCycle {
    OpenCycle {
        project_state,
        project_key: PROJECT,
        cycle_state: empty_cycle(),
        cycle_state_bump: 250,
        escrow_amount: 400_000_000,
        mint: MINT,
        authority_config: None,
        caller: CREATOR,
        now: 10_000,
    }
}

fn opened_step_cycle() -> (ProjectState, CycleState) {
    let mut ctx = open_ctx(project(SupplyMode::Fixed));
    open_cycle(&mut ctx, CurveType::Step, 1_000_000, 100, 3600, 1000, 10, 0, 0).unwrap();
    (ctx.project_state, ctx.cycle_state)
}

#[test]
fn initialize_protocol_writes_config_and_tops_up_treasury() {
    let mut ctx = InitializeProtocol {
        protocol_config: empty_config(),
        protocol_treasury: TREASURY,
        protocol_treasury_lamports: 100,
        admin: ADMIN,
        rent_exempt_minimum: 890_880,
    };
    assert_eq!(initialize_protocol(&mut ctx, 200, 5000, 3000, 2000), Ok(890_780));
    assert_eq!(ctx.protocol_config, config());
    let mut funded = InitializeProtocol { protocol_treasury_lamports: 1_000_000, ..ctx };
    assert_eq!(initialize_protocol(&mut funded, 200, 5000, 3000, 2000), Ok(0));
}

#[test]
fn initialize_protocol_rejects_bad_bps() {
    let mut ctx = InitializeProtocol {
        protocol_config: empty_config(),
        protocol_treasury: TREASURY,
        protocol_treasury_lamports: 0,
        admin: ADMIN,
        rent_exempt_minimum: 0,
    };
    let before = ctx;
    assert_eq!(initialize_protocol(&mut ctx, 1001, 5000, 3000, 2000), Err(MammothError::InvalidBpsSplit));
    assert_eq!(initialize_protocol(&mut ctx, 200, 5000, 3000, 1999), Err(MammothError::InvalidBpsSplit));
    assert_eq!(ctx, before);
}

#[test]
fn update_protocol_config_is_admin_only() {
    let mut ctx = UpdateProtocolConfig { protocol_config: config(), admin: STRANGER };
    assert_eq!(update_protocol_config(&mut ctx, 100, 6000, 2000, 2000), Err(MammothError::Unauthorized));
    ctx.admin = ADMIN;
    assert_eq!(update_protocol_config(&mut ctx, 100, 6000, 2000, 2000), Ok(()));
    assert_eq!(ctx.protocol_config.fee_bps, 100);
    assert_eq!(ctx.protocol_config.default_creator_bps, 6000);
    assert_eq!(ctx.protocol_config.admin, ADMIN);
}

#[test]
fn create_project_splits_genesis_supply() {
    let mut ctx = CreateProject {
        project_state: empty_project(),
        project_state_key: PROJECT,
        project_state_bump: 254,
        mint: MINT,
        creator: CREATOR,
        protocol_config: config(),
        reserve_lamports: 0,
        sink_lamports: 900_000,
        rent_exempt_minimum: 890_880,
        now: 1_000,
    };
    let m = create_project(&mut ctx, SupplyMode::Elastic, 1_000_000_000, 4000, 5000, 3000, 2000, Some(5), OperatorType::AiAssisted).unwrap();
    assert_eq!(m.protocol_allocation, 20_000_000);
    assert_eq!(m.public_allocation, 400_000_000);
    assert_eq!(m.treasury_allocation, 580_000_000);
    assert_eq!(m.protocol_allocation + m.public_allocation + m.treasury_allocation, 1_000_000_000);
    assert_eq!(m.reserve_top_up, 890_880);
    assert_eq!(m.sink_top_up, 0);
    assert_eq!(m.event.supply_mode, 1);
    assert_eq!(m.event.operator_type, 1);
    assert_eq!(ctx.project_state.total_minted, 1_000_000_000);
    assert_eq!(ctx.project_state.hard_cap, None);
    assert!(!ctx.project_state.has_active_cycle);
    assert_eq!(ctx.project_state.launch_at, Some(5));
}

#[test]
fn create_project_validates_splits() {
    let mut ctx = CreateProject {
        project_state: empty_project(),
        project_state_key: PROJECT,
        project_state_bump: 254,
        mint: MINT,
        creator: CREATOR,
        protocol_config: config(),
        reserve_lamports: 0,
        sink_lamports: 0,
        rent_exempt_minimum: 0,
        now: 0,
    };
    assert_eq!(create_project(&mut ctx, SupplyMode::Fixed, 1000, 4000, 5000, 3000, 1000, None, OperatorType::Human), Err(MammothError::InvalidBpsSplit));
    assert_eq!(create_project(&mut ctx, SupplyMode::Fixed, 1000, 9900, 5000, 3000, 2000, None, OperatorType::Human), Err(MammothError::InvalidBpsSplit));
    assert_eq!(create_project(&mut ctx, SupplyMode::Fixed, u64::MAX, 4000, 5000, 3000, 2000, None, OperatorType::Human), Err(MammothError::MathOverflow));
    assert_eq!(create_project(&mut ctx, SupplyMode::Fixed, 0, 4000, 5000, 3000, 2000, None, OperatorType::Human), Err(MammothError::ZeroAmount));
    // the splits are checked before the supply
    assert_eq!(create_project(&mut ctx, SupplyMode::Fixed, 0, 4000, 5000, 3000, 1000, None, OperatorType::Human), Err(MammothError::InvalidBpsSplit));
    assert_eq!(create_project(&mut ctx, SupplyMode::Fixed, 0, 9900, 5000, 3000, 2000, None, OperatorType::Human), Err(MammothError::InvalidBpsSplit));
}

#[test]
fn open_cycle_starts_rights_window() {
    let mut ctx = open_ctx(project(SupplyMode::Fixed));
    let ev = open_cycle(&mut ctx, CurveType::Linear, 1_000_000, 100, 3600, 0, 0, 300, 0).unwrap();
    assert_eq!(ev.cycle_index, 0);
    assert_eq!(ev.curve_type, 1);
    assert_eq!(ev.rights_window_end, 13_600);
    assert_eq!(ctx.cycle_state.status, CycleStatus::RightsWindow);
    assert_eq!(ctx.cycle_state.project, PROJECT);
    assert_eq!(ctx.cycle_state.minted, 0);
    assert_eq!(ctx.project_state.current_cycle, 1);
    assert!(ctx.project_state.has_active_cycle);
}

#[test]
fn open_cycle_refusals() {
    let base = open_ctx(project(SupplyMode::Fixed));
    let mut c = base;
    c.project_state.has_active_cycle = true;
    assert_eq!(open_cycle(&mut c, CurveType::Step, 1000, 1, 3600, 100, 1, 0, 0), Err(MammothError::CycleStillActive));
    let mut c = base;
    assert_eq!(open_cycle(&mut c, CurveType::Step, 1000, 1, 3600, 99, 1, 0, 0), Err(MammothError::ZeroStepSize));
    let mut c = base;
    assert_eq!(open_cycle(&mut c, CurveType::ExpLite, 1000, 1, 3600, 0, 0, 0, 100_001), Err(MammothError::InvalidCurveParam));
    let mut c = base;
    assert_eq!(open_cycle(&mut c, CurveType::Linear, 1000, 1, 59, 0, 0, 0, 0), Err(MammothError::InvalidRightsWindow));
    let mut c = base;
    assert_eq!(open_cycle(&mut c, CurveType::Linear, 1000, 1, 2_592_001, 0, 0, 0, 0), Err(MammothError::InvalidRightsWindow));
    let mut c = base;
    c.mint = STRANGER;
    assert_eq!(open_cycle(&mut c, CurveType::Linear, 1000, 1, 3600, 0, 0, 0, 0), Err(MammothError::InvalidProjectMint));
    let mut c = base;
    assert_eq!(open_cycle(&mut c, CurveType::Linear, 400_000_001, 1, 3600, 0, 0, 0, 0), Err(MammothError::SupplyCapExceedsEscrow));
    let mut c = base;
    c.project_state.launch_at = Some(10_001);
    assert_eq!(open_cycle(&mut c, CurveType::Linear, 1000, 1, 3600, 0, 0, 0, 0), Err(MammothError::LaunchTimeNotReached));
    let mut c = base;
    c.project_state.hard_cap = Some(10);
    assert_eq!(open_cycle(&mut c, CurveType::Linear, 1000, 1, 3600, 0, 0, 0, 0), Err(MammothError::SupplyCapExceeded));
    let mut c = base;
    c.now = i64::MAX - 100;
    assert_eq!(open_cycle(&mut c, CurveType::Linear, 1000, 1, 3600, 0, 0, 0, 0), Err(MammothError::MathOverflow));
    let mut c = base;
    c.project_state.current_cycle = 255;
    assert_eq!(open_cycle(&mut c, CurveType::Linear, 1000, 1, 3600, 0, 0, 0, 0), Err(MammothError::MathOverflow));
    let mut c = base;
    c.caller = STRANGER;
    assert_eq!(open_cycle(&mut c, CurveType::Linear, 1000, 1, 3600, 0, 0, 0, 0), Err(MammothError::InsufficientAuthority));
}

#[test]
fn rights_then_public_sale_then_close() {
    let (project_state, cycle) = opened_step_cycle();
    // the creator hands rights to a holder
    let mut hr_ctx = CreateHolderRights {
        project_state,
        project_key: PROJECT,
        cycle_state: cycle,
        holder_rights: empty_rights(),
        holder_rights_bump: 9,
        creator: CREATOR,
    };
    assert_eq!(create_holder_rights(&mut hr_ctx, HOLDER, 5000, 13_000), Ok(()));
    assert_eq!(hr_ctx.cycle_state.rights_allocated, 5000);
    // the holder exercises 2000 of them at base price
    let mut ex = ExerciseRights {
        project_state,
        project_key: PROJECT,
        cycle_state: hr_ctx.cycle_state,
        holder_rights: hr_ctx.holder_rights,
        protocol_config: config(),
        holder: HOLDER,
        now: 11_000,
    };
    let pay = exercise_rights(&mut ex, 2000, u64::MAX).unwrap();
    assert_eq!(pay.total_cost, 200_000);
    assert_eq!(pay.fee, 4_000);
    assert_eq!(pay.net_cost, 196_000);
    assert_eq!(ex.holder_rights.exercised_amount, 2000);
    assert_eq!(ex.cycle_state.minted, 2000);
    assert_eq!(ex.cycle_state.sol_raised, 196_000);
    // activation reserves the 3000 unexercised rights
    let mut act = ActivateCycle { project_state, project_key: PROJECT, cycle_state: ex.cycle_state, now: 13_600 };
    assert_eq!(activate_cycle(&mut act).unwrap().cycle_index, 0);
    assert_eq!(act.cycle_state.status, CycleStatus::Active);
    assert_eq!(act.cycle_state.rights_reserved_at_activation, 3000);
    // public buyers cannot take the reserved rights
    let mut buy = BuyTokens {
        project_state,
        project_key: PROJECT,
        cycle_state: act.cycle_state,
        protocol_config: config(),
        mint: MINT,
        buyer: BUYER,
        now: 14_000,
    };
    assert_eq!(buy_tokens(&mut buy, 995_001, u64::MAX), Err(MammothError::SupplyCapExceeded));
    let p = buy_tokens(&mut buy, 500, u64::MAX).unwrap();
    assert_eq!(p.price_per_token, 120);
    assert_eq!(p.total_cost, 500 * 120);
    assert_eq!(p.fee, 1_200);
    assert_eq!(p.net_cost, 58_800);
    assert!(!p.cap_reached);
    assert_eq!(buy.cycle_state.minted, 2500);
    assert_eq!(buy.cycle_state.sol_raised, 196_000 + 58_800);
    // the creator closes and splits the proceeds
    let mut close = CloseCycle {
        project_state,
        project_key: PROJECT,
        cycle_state: buy.cycle_state,
        creator: CREATOR,
        authority_config: None,
        caller: CREATOR,
        cycle_lamports: 1_000_000 + 254_800,
        rent_exempt_minimum: 1_000_000,
        now: 15_000,
    };
    let split = close_cycle(&mut close).unwrap();
    assert_eq!(split.creator_share, 127_400);
    assert_eq!(split.reserve_share, 76_440);
    assert_eq!(split.sink_share, 50_960);
    assert_eq!(split.creator_share + split.reserve_share + split.sink_share, 254_800);
    assert_eq!(close.cycle_state.status, CycleStatus::Closed);
    assert!(!close.project_state.has_active_cycle);
    assert_eq!(split.event.tokens_sold, 2500);
    // a closed cycle is final
    let mut again = close;
    assert_eq!(close_cycle(&mut again), Err(MammothError::NotActive));
    let mut late_buy = BuyTokens { cycle_state: close.cycle_state, ..buy };
    assert_eq!(buy_tokens(&mut late_buy, 1, u64::MAX), Err(MammothError::NotActive));
    // its rent can be reclaimed once its proceeds are gone
    let reclaim = ReclaimCycleRent {
        project_state: close.project_state,
        cycle_state: close.cycle_state,
        creator: CREATOR,
        cycle_lamports: 1_000_000,
        rent_exempt_minimum: 1_000_000,
        now: 15_000 + 604_800,
    };
    assert_eq!(close.cycle_state.closed_at, 15_000);
    assert_eq!(reclaim_cycle_rent(&reclaim), Ok(1_000_000));
    // not before seven days have passed since the close
    let too_early = ReclaimCycleRent { now: 15_000 + 604_799, ..reclaim };
    assert_eq!(reclaim_cycle_rent(&too_early), Err(MammothError::NotClosed));
    let not_drained = ReclaimCycleRent { cycle_lamports: 1_000_001, ..reclaim };
    assert_eq!(reclaim_cycle_rent(&not_drained), Err(MammothError::NotClosed));
    let open = ReclaimCycleRent { cycle_state: buy.cycle_state, ..reclaim };
    assert_eq!(reclaim_cycle_rent(&open), Err(MammothError::NotClosed));
    let stranger = ReclaimCycleRent { creator: STRANGER, ..reclaim };
    assert_eq!(reclaim_cycle_rent(&stranger), Err(MammothError::Unauthorized));
}

#[test]
fn exercise_rights_refusals() {
    let (project_state, cycle) = opened_step_cycle();
    let mut rights = empty_rights();
    rights.project = PROJECT;
    rights.holder = HOLDER;
    rights.rights_amount = 100;
    rights.expiry = 13_000;
    let base = ExerciseRights {
        project_state,
        project_key: PROJECT,
        cycle_state: cycle,
        holder_rights: rights,
        protocol_config: config(),
        holder: HOLDER,
        now: 11_000,
    };
    let mut c = base;
    assert_eq!(exercise_rights(&mut c, 0, u64::MAX), Err(MammothError::ZeroAmount));
    let mut c = base;
    assert_eq!(exercise_rights(&mut c, 101, u64::MAX), Err(MammothError::ExceedsRightsAllocation));
    let mut c = base;
    assert_eq!(exercise_rights(&mut c, 10, 999), Err(MammothError::SlippageExceeded));
    let mut c = base;
    c.now = 13_600;
    assert_eq!(exercise_rights(&mut c, 10, u64::MAX), Err(MammothError::RightsWindowExpired));
    let mut c = base;
    c.now = 13_000;
    assert_eq!(exercise_rights(&mut c, 10, u64::MAX), Err(MammothError::RightsWindowExpired));
    let mut c = base;
    c.holder_rights.project = STRANGER;
    assert_eq!(exercise_rights(&mut c, 10, u64::MAX), Err(MammothError::InvalidRightsProject));
    let mut c = base;
    c.holder_rights.cycle_index = 3;
    assert_eq!(exercise_rights(&mut c, 10, u64::MAX), Err(MammothError::InvalidRightsCycle));
    let mut c = base;
    c.holder = STRANGER;
    assert_eq!(exercise_rights(&mut c, 10, u64::MAX), Err(MammothError::InvalidRightsHolder));
    let mut c = base;
    c.cycle_state.status = CycleStatus::Active;
    assert_eq!(exercise_rights(&mut c, 10, u64::MAX), Err(MammothError::NotRightsWindow));
    let mut c = base;
    c.cycle_state.supply_cap = 5;
    assert_eq!(exercise_rights(&mut c, 10, u64::MAX), Err(MammothError::SupplyCapExceeded));
    let mut c = base;
    c.holder_rights.exercised_amount = u64::MAX;
    assert_eq!(exercise_rights(&mut c, 10, u64::MAX), Err(MammothError::MathOverflow));
    let mut c = base;
    c.cycle_state.sol_raised = u64::MAX;
    assert_eq!(exercise_rights(&mut c, 10, u64::MAX), Err(MammothError::MathOverflow));
    assert_eq!(c, ExerciseRights { cycle_state: CycleState { sol_raised: u64::MAX, ..cycle }, ..base });
}

#[test]
fn buy_tokens_refusals() {
    let (project_state, mut cycle) = opened_step_cycle();
    cycle.status = CycleStatus::Active;
    let base = BuyTokens {
        project_state,
        project_key: PROJECT,
        cycle_state: cycle,
        protocol_config: config(),
        mint: MINT,
        buyer: BUYER,
        now: 20_000,
    };
    let mut c = base;
    assert_eq!(buy_tokens(&mut c, 0, u64::MAX), Err(MammothError::ZeroAmount));
    let mut c = base;
    c.cycle_state.project = STRANGER;
    assert_eq!(buy_tokens(&mut c, 1, u64::MAX), Err(MammothError::InvalidCycleProject));
    let mut c = base;
    c.mint = STRANGER;
    assert_eq!(buy_tokens(&mut c, 1, u64::MAX), Err(MammothError::InvalidProjectMint));
    let mut c = base;
    c.cycle_state.status = CycleStatus::RightsWindow;
    assert_eq!(buy_tokens(&mut c, 1, u64::MAX), Err(MammothError::NotActive));
    let mut c = base;
    assert_eq!(buy_tokens(&mut c, 1_000_001, u64::MAX), Err(MammothError::SupplyCapExceeded));
    let mut c = base;
    assert_eq!(buy_tokens(&mut c, 10, 999), Err(MammothError::SlippageExceeded));
    let mut c = base;
    c.cycle_state.step_size = 1;
    assert_eq!(buy_tokens(&mut c, 5001, u64::MAX), Err(MammothError::PurchaseTooLarge));
    let mut c = base;
    c.cycle_state.minted = u64::MAX;
    c.cycle_state.supply_cap = u64::MAX;
    assert_eq!(buy_tokens(&mut c, 1, u64::MAX), Err(MammothError::MathOverflow));
    let mut c = base;
    let p = buy_tokens(&mut c, 1_000_000, u64::MAX).unwrap();
    assert!(p.cap_reached);
}

#[test]
fn activate_and_close_refusals() {
    let (project_state, cycle) = opened_step_cycle();
    let mut a = ActivateCycle { project_state, project_key: PROJECT, cycle_state: cycle, now: 13_599 };
    assert_eq!(activate_cycle(&mut a), Err(MammothError::RightsWindowStillOpen));
    a.now = 13_600;
    a.project_key = STRANGER;
    assert_eq!(activate_cycle(&mut a), Err(MammothError::InvalidCycleProject));
    a.project_key = PROJECT;
    a.cycle_state.status = CycleStatus::Active;
    assert_eq!(activate_cycle(&mut a), Err(MammothError::NotRightsWindow));
    let mut c = CloseCycle {
        project_state,
        project_key: PROJECT,
        cycle_state: cycle,
        creator: CREATOR,
        authority_config: None,
        caller: CREATOR,
        cycle_lamports: 0,
        rent_exempt_minimum: 0,
        now: 0,
    };
    assert_eq!(close_cycle(&mut c), Err(MammothError::NotActive));
    c.cycle_state.status = CycleStatus::Active;
    c.creator = STRANGER;
    assert_eq!(close_cycle(&mut c), Err(MammothError::Unauthorized));
    c.creator = CREATOR;
    c.caller = STRANGER;
    assert_eq!(close_cycle(&mut c), Err(MammothError::InsufficientAuthority));
    c.caller = CREATOR;
    c.cycle_state.project = STRANGER;
    assert_eq!(close_cycle(&mut c), Err(MammothError::InvalidCycleProject));
    c.cycle_state.project = PROJECT;
    c.cycle_lamports = u64::MAX;
    assert_eq!(close_cycle(&mut c), Err(MammothError::MathOverflow));
    c.cycle_lamports = 500;
    c.rent_exempt_minimum = 1000;
    let split = close_cycle(&mut c).unwrap();
    assert_eq!((split.creator_share, split.reserve_share, split.sink_share), (0, 0, 0));
}

#[test]
fn hard_cap_is_set_once_on_elastic_projects() {
    let mut ctx = SetHardCap {
        project_state: project(SupplyMode::Elastic),
        project_key: PROJECT,
        authority_config: None,
        caller: CREATOR,
        now: 7,
    };
    assert_eq!(set_hard_cap(&mut ctx, 2_000_000_000).unwrap().hard_cap, 2_000_000_000);
    assert_eq!(ctx.project_state.hard_cap, Some(2_000_000_000));
    assert_eq!(set_hard_cap(&mut ctx, 3_000_000_000), Err(MammothError::HardCapAlreadySet));
    assert_eq!(ctx.project_state.hard_cap, Some(2_000_000_000));
    let mut fixed = SetHardCap { project_state: project(SupplyMode::Fixed), ..ctx };
    assert_eq!(set_hard_cap(&mut fixed, 1), Err(MammothError::NotElasticMode));
}

#[test]
fn reserve_withdrawals() {
    let ctx = WithdrawReserve { project_state: project(SupplyMode::Fixed), creator: CREATOR, reserve_lamports: 1000, rent_exempt_minimum: 0 };
    assert_eq!(withdraw_reserve(&ctx, 1000), Ok(1000));
    assert_eq!(withdraw_reserve(&ctx, 1001), Err(MammothError::InsufficientReserveBalance));
    // the rent-exempt minimum stays in the reserve
    let rented = WithdrawReserve { rent_exempt_minimum: 890, ..ctx };
    assert_eq!(withdraw_reserve(&rented, 110), Ok(110));
    assert_eq!(withdraw_reserve(&rented, 111), Err(MammothError::InsufficientReserveBalance));
    let below_rent = WithdrawReserve { reserve_lamports: 500, rent_exempt_minimum: 890, ..ctx };
    assert_eq!(withdraw_reserve(&below_rent, 1), Err(MammothError::InsufficientReserveBalance));
    assert_eq!(withdraw_reserve(&ctx, 0), Err(MammothError::ZeroAmount));
    let other = WithdrawReserve { creator: STRANGER, ..ctx };
    assert_eq!(withdraw_reserve(&other, 1), Err(MammothError::Unauthorized));
}

#[test]
fn supply_terms_survive_cycles_and_rotation() {
    let p = project(SupplyMode::Elastic);
    let mut open = open_ctx(p);
    open_cycle(&mut open, CurveType::ExpLite, 1000, 5, 60, 0, 0, 0, 500).unwrap();
    let after = open.project_state;
    assert_eq!((after.total_supply, after.public_allocation, after.treasury_allocation, after.protocol_allocation),
               (p.total_supply, p.public_allocation, p.treasury_allocation, p.protocol_allocation));
    assert_eq!(after.creator_bps, p.creator_bps);
    let mut cap = SetHardCap { project_state: after, project_key: PROJECT, authority_config: None, caller: CREATOR, now: 0 };
    set_hard_cap(&mut cap, 5_000_000_000).unwrap();
    assert_eq!(cap.project_state.total_supply, p.total_supply);
    let mut rotate = mammoth::RotateCreator { project_state: cap.project_state, current_creator: CREATOR };
    mammoth::rotate_creator(&mut rotate, STRANGER).unwrap();
    assert_eq!(rotate.project_state.total_supply, p.total_supply);
    assert_eq!(rotate.project_state.hard_cap, Some(5_000_000_000));
    assert_eq!(rotate.project_state.creator, STRANGER);
}

#[test]
fn a_second_cycle_opens_only_after_closing_the_first() {
    let (project_state, mut cycle) = opened_step_cycle();
    let mut again = open_ctx(project_state);
    assert_eq!(open_cycle(&mut again, CurveType::Linear, 10, 1, 60, 0, 0, 2, 0), Err(MammothError::CycleStillActive));
    cycle.status = CycleStatus::Active;
    let mut close = CloseCycle {
        project_state,
        project_key: PROJECT,
        cycle_state: cycle,
        creator: CREATOR,
        authority_config: None,
        caller: CREATOR,
        cycle_lamports: 0,
        rent_exempt_minimum: 0,
        now: 20_000,
    };
    close_cycle(&mut close).unwrap();
    let mut next = open_ctx(close.project_state);
    let ev = open_cycle(&mut next, CurveType::Linear, 10, 1, 60, 0, 0, 2, 0).unwrap();
    assert_eq!(ev.cycle_index, 1);
    assert_eq!(next.project_state.current_cycle, 2);
}
