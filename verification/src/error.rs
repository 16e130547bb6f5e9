//! The ways an instruction can be refused.
use vstd::prelude::*;

verus! {

/// Why an instruction was refused. Every refusal leaves all accounts as they were.
#[derive(Clone, Copy, Debug, PartialEq, Eq, Structural)]
pub enum MammothError {
    /// Not authorized.
    Unauthorized,
    /// Hard cap already set; it is irreversible.
    HardCapAlreadySet,
    /// Hard cap only settable for Elastic supply mode.
    NotElasticMode,
    /// Cycle is not in RightsWindow status.
    NotRightsWindow,
    /// Rights window has expired.
    RightsWindowExpired,
    /// Exercised amount would exceed rights allocation.
    ExceedsRightsAllocation,
    /// Cycle is not in Active status.
    NotActive,
    /// Cycle supply cap reached.
    SupplyCapExceeded,
    /// Cycle params immutable once opened.
    CycleParamsImmutable,
    /// Elastic supply requires rights-based issuance.
    ElasticRequiresRights,
    /// Arithmetic overflow.
    MathOverflow,
    /// Cycle is not closed.
    NotClosed,
    /// Amount must be greater than zero.
    ZeroAmount,
    /// Step size cannot be zero (or is below the minimum).
    ZeroStepSize,
    /// Rights window is still open; cannot activate yet.
    RightsWindowStillOpen,
    /// Scheduled launch time has not been reached yet.
    LaunchTimeNotReached,
    /// Merkle root not set for this cycle.
    MerkleRootNotSet,
    /// Merkle proof does not verify against the stored root.
    InvalidMerkleProof,
    /// Operator lacks permission for this instruction.
    InsufficientAuthority,
    /// Action exceeds operator spending limit.
    SpendingLimitExceeded,
    /// No AuthorityConfig found.
    OperatorNotRegistered,
    /// BPS split must sum to 10000 and public + protocol fee must not exceed 10000.
    InvalidBpsSplit,
    /// Cycle supply cap exceeds available escrow balance.
    SupplyCapExceedsEscrow,
    /// Funds already distributed for this cycle.
    AlreadyDistributed,
    /// Merkle root already set.
    MerkleRootAlreadySet,
    /// A previous cycle is still active.
    CycleStillActive,
    /// Rights window duration must be between 60 seconds and 30 days.
    InvalidRightsWindow,
    /// Transaction cost exceeds the caller's slippage cap.
    SlippageExceeded,
    /// Withdrawal amount exceeds reserve balance.
    InsufficientReserveBalance,
    /// Invalid curve parameter.
    InvalidCurveParam,
    /// Purchase too large for a single transaction.
    PurchaseTooLarge,
    /// Legacy and Merkle-based rights cannot be mixed.
    RightsPathConflict,
    /// Cycle does not belong to project.
    InvalidCycleProject,
    /// Mint does not match project mint.
    InvalidProjectMint,
    /// Rights account does not belong to project.
    InvalidRightsProject,
    /// Rights account cycle does not match the cycle.
    InvalidRightsCycle,
    /// Rights account holder does not match signer.
    InvalidRightsHolder,
}

} // verus!
