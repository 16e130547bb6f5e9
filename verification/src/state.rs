//! The protocol's accounts and the events its instructions emit.
use vstd::prelude::*;
use crate::keys::Pubkey;

verus! {

/// Whether a project's supply is fixed at genesis or may grow up to a hard cap.
#[derive(Clone, Copy, Debug, PartialEq, Eq, Structural)]
pub enum SupplyMode {
    Fixed,
    Elastic,
}

/// The bonding curve that prices a cycle's public sale.
#[derive(Clone, Copy, Debug, PartialEq, Eq, Structural)]
pub enum CurveType {
    Step,
    Linear,
    ExpLite,
}

/// A cycle's stage. A cycle only moves forward: RightsWindow, then Active, then Closed.
#[derive(Clone, Copy, Debug, PartialEq, Eq, Structural)]
pub enum CycleStatus {
    Pending,
    RightsWindow,
    Active,
    Closed,
}

/// Disclosure-only field. Not enforced by the protocol; surfaced in the UI.
#[derive(Clone, Copy, Debug, PartialEq, Eq, Structural)]
pub enum OperatorType {
    Human,
    AiAssisted,
    AiAutonomous,
}

impl Default for OperatorType {
    fn default() -> (r: OperatorType)
        ensures
            r == OperatorType::Human,
    {
        OperatorType::Human
    }
}

/// Protocol-wide settings.
#[derive(Clone, Copy, Debug, PartialEq, Eq)]
pub struct ProtocolConfig {
    pub admin: Pubkey,
    pub protocol_treasury: Pubkey,
    pub fee_bps: u16,
    pub default_creator_bps: u16,
    pub default_reserve_bps: u16,
    pub default_sink_bps: u16,
}

impl ProtocolConfig {
    /// Account size in bytes, discriminator included.
    pub const LEN: usize = 8 + 32 + 32 + 2 + 2 + 2 + 2;
}

/// One project: its supply, allocations and proceeds split.
#[derive(Clone, Copy, Debug, PartialEq, Eq)]
pub struct ProjectState {
    pub creator: Pubkey,
    pub mint: Pubkey,
    pub supply_mode: SupplyMode,
    pub hard_cap: Option<u64>,
    pub total_supply: u64,
    pub public_allocation: u64,
    pub treasury_allocation: u64,
    pub protocol_allocation: u64,
    pub total_minted: u64,
    pub current_cycle: u8,
    pub creator_bps: u16,
    pub reserve_bps: u16,
    pub sink_bps: u16,
    /// Unix timestamp before which no cycle may open; `None` launches immediately.
    pub launch_at: Option<i64>,
    pub operator_type: OperatorType,
    /// Whether a cycle is open and not yet closed.
    pub has_active_cycle: bool,
    pub bump: u8,
}

impl ProjectState {
    /// Account size in bytes, discriminator included.
    pub const LEN: usize = 8 + 32 + 32 + 1 + 9 + 8 + 8 + 8 + 8 + 8 + 1 + 2 + 2 + 2 + 9 + 1 + 1 + 1;
}

/// One issuance cycle of a project.
#[derive(Clone, Copy, Debug, PartialEq, Eq)]
pub struct CycleState {
    pub project: Pubkey,
    pub cycle_index: u8,
    pub curve_type: CurveType,
    pub supply_cap: u64,
    pub minted: u64,
    pub base_price: u64,
    pub status: CycleStatus,
    pub rights_window_end: i64,
    pub step_size: u64,
    pub step_increment: u64,
    pub end_price: u64,
    pub growth_factor_k: u64,
    pub sol_raised: u64,
    /// Merkle root of (holder, rights amount) pairs; `None` when no tree was committed.
    pub rights_merkle_root: Option<[u8; 32]>,
    /// Rights handed out so far, by either path.
    pub rights_allocated: u64,
    /// Unexercised rights frozen at activation; public buyers cannot take them.
    pub rights_reserved_at_activation: u64,
    /// Total rights committed by the Merkle tree.
    pub rights_committed: u64,
    /// Unix time at which the cycle was closed; 0 while it is not.
    pub closed_at: i64,
    pub bump: u8,
}

impl CycleState {
    /// Account size in bytes, discriminator included.
    pub const LEN: usize = 8 + 32 + 1 + 1 + 8 + 8 + 8 + 1 + 8 + 8 + 8 + 8 + 8 + 8 + 33 + 8 + 8 + 8 + 8 + 1;
}

/// A holder's rights in one cycle.
#[derive(Clone, Copy, Debug, PartialEq, Eq)]
pub struct HolderRights {
    pub project: Pubkey,
    pub cycle_index: u8,
    pub holder: Pubkey,
    pub rights_amount: u64,
    pub exercised_amount: u64,
    pub expiry: i64,
    pub bump: u8,
}

impl HolderRights {
    /// Account size in bytes, discriminator included.
    pub const LEN: usize = 8 + 32 + 1 + 32 + 8 + 8 + 8 + 1;
}

/// What the principal lets an operator do on its own.
#[derive(Clone, Copy, Debug, PartialEq, Eq)]
pub struct AuthorityConfig {
    pub project: Pubkey,
    pub principal: Pubkey,
    pub operator: Pubkey,
    pub can_open_cycle: bool,
    pub can_close_cycle: bool,
    pub can_set_hard_cap: bool,
    pub can_route_treasury: bool,
    /// Largest estimated raise of a cycle the operator may open; 0 means no limit.
    pub spending_limit_lamports: u64,
    pub can_set_merkle_root: bool,
    pub bump: u8,
}

impl AuthorityConfig {
    /// Account size in bytes, discriminator included.
    pub const LEN: usize = 8 + 32 + 32 + 32 + 1 + 1 + 1 + 1 + 8 + 1 + 1;
}

// Events, emitted for subscribers.

#[derive(Clone, Copy, Debug, PartialEq, Eq)]
pub struct CycleOpened {
    pub project_mint: Pubkey,
    pub project_state: Pubkey,
    pub cycle_index: u8,
    /// 0 = Step, 1 = Linear, 2 = ExpLite.
    pub curve_type: u8,
    pub supply_cap: u64,
    pub base_price: u64,
    pub rights_window_end: i64,
    pub timestamp: i64,
}

#[derive(Clone, Copy, Debug, PartialEq, Eq)]
pub struct CycleActivated {
    pub project_mint: Pubkey,
    pub project_state: Pubkey,
    pub cycle_index: u8,
    pub timestamp: i64,
}

#[derive(Clone, Copy, Debug, PartialEq, Eq)]
pub struct CycleClosed {
    pub project_mint: Pubkey,
    pub project_state: Pubkey,
    pub cycle_index: u8,
    pub tokens_sold: u64,
    pub sol_raised: u64,
    pub timestamp: i64,
}

#[derive(Clone, Copy, Debug, PartialEq, Eq)]
pub struct TokensPurchased {
    pub project_mint: Pubkey,
    pub buyer: Pubkey,
    pub cycle_index: u8,
    pub amount: u64,
    pub sol_paid: u64,
    pub price_per_token: u64,
    pub timestamp: i64,
}

#[derive(Clone, Copy, Debug, PartialEq, Eq)]
pub struct RightsExercised {
    pub project_mint: Pubkey,
    pub holder: Pubkey,
    pub cycle_index: u8,
    pub amount: u64,
    pub sol_paid: u64,
    pub timestamp: i64,
}

#[derive(Clone, Copy, Debug, PartialEq, Eq)]
pub struct ProjectCreated {
    pub project_mint: Pubkey,
    pub project_state: Pubkey,
    pub creator: Pubkey,
    /// 0 = Fixed, 1 = Elastic.
    pub supply_mode: u8,
    pub total_supply: u64,
    /// 0 = Human, 1 = AiAssisted, 2 = AiAutonomous.
    pub operator_type: u8,
    pub timestamp: i64,
}

#[derive(Clone, Copy, Debug, PartialEq, Eq)]
pub struct HardCapSet {
    pub project_mint: Pubkey,
    pub hard_cap: u64,
    pub timestamp: i64,
}

#[derive(Clone, Copy, Debug, PartialEq, Eq)]
pub struct MerkleRightsSet {
    pub project_mint: Pubkey,
    pub cycle_index: u8,
    pub merkle_root: [u8; 32],
    /// Informational; not checked.
    pub holder_count: u32,
    pub timestamp: i64,
}

#[derive(Clone, Copy, Debug, PartialEq, Eq)]
pub struct RightsClaimed {
    pub project_mint: Pubkey,
    pub holder: Pubkey,
    pub cycle_index: u8,
    pub amount: u64,
    pub timestamp: i64,
}

} // verus!
