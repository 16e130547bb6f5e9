//! Mammoth: rights-based, cycle-driven token issuance.
//!
//! The library holds the protocol's rules: project set-up and genesis
//! allocation, cycle state and its transitions, bonding-curve pricing,
//! rights allocation (one by one, or committed in a Merkle tree), operator
//! authority, and the split of cycle proceeds. Each instruction is a verified
//! function from the accounts it reads to the accounts it writes and the
//! transfers that the runtime must then perform.
pub mod accounting;
pub mod admin;
pub mod authority;
pub mod curve;
pub mod cycle;
pub mod error;
pub mod keys;
pub mod laws;
pub mod merkle;
pub mod protocol;
pub mod rights;
pub mod sale;
pub mod state;

pub use admin::{
    initialize_authority, reclaim_cycle_rent, rotate_creator, set_hard_cap, update_authority,
    withdraw_reserve, InitializeAuthority, ReclaimCycleRent, RotateCreator, SetHardCap,
    UpdateAuthority, WithdrawReserve,
};
pub use authority::check_authority;
pub use curve::{compute_price, compute_total_cost};
pub use cycle::{
    activate_cycle, close_cycle, open_cycle, ActivateCycle, CloseCycle, OpenCycle, ProceedsSplit,
};
pub use error::MammothError;
pub use keys::Pubkey;
pub use protocol::{
    create_project, initialize_protocol, update_protocol_config, CreateProject, GenesisMints,
    InitializeProtocol, UpdateProtocolConfig,
};
pub use rights::{
    claim_rights, create_holder_rights, set_rights_merkle_root, ClaimRights, CreateHolderRights,
    SetRightsMerkleRoot,
};
pub use sale::{buy_tokens, exercise_rights, BuyTokens, ExerciseRights, Purchase, RightsPayment};
pub use state::{
    AuthorityConfig, CurveType, CycleActivated, CycleClosed, CycleOpened, CycleState, CycleStatus,
    HardCapSet, HolderRights, MerkleRightsSet, OperatorType, ProjectCreated, ProjectState,
    ProtocolConfig, RightsClaimed, RightsExercised, SupplyMode, TokensPurchased,
};
