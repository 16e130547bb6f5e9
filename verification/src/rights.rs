//! Rights allocation during a cycle's rights window: either handed out one by one by
//! the creator, or committed at once in a Merkle tree and claimed by each holder with
//! a proof. A cycle uses one path or the other, never both.
use vstd::prelude::*;
use crate::authority::{authority_check, check_authority};
use crate::curve::u64_limit;
use crate::cycle::{config_ref, cycle_terms_unchanged};
use crate::error::MammothError;
use crate::keys::{bytes32_equal, Pubkey};
use crate::merkle::{compute_merkle_root, leaf_hash, merkle_fold, merkle_leaf};
use crate::state::{
    AuthorityConfig, CycleState, CycleStatus, HolderRights, MerkleRightsSet, ProjectState,
    RightsClaimed,
};

verus! {

/// The accounts `create_holder_rights` reads and writes.
#[derive(Clone, Copy, Debug, PartialEq, Eq)]
pub struct CreateHolderRights {
    pub project_state: ProjectState,
    /// Address of the project account.
    pub project_key: Pubkey,
    pub cycle_state: CycleState,
    /// The rights account being initialized.
    pub holder_rights: HolderRights,
    pub holder_rights_bump: u8,
    /// The signer; must be the project creator.
    pub creator: Pubkey,
}

/// What `create_holder_rights` does: during the rights window of a cycle of this
/// project that has no Merkle commitment, the creator hands a holder rights, as long
/// as all rights handed out stay within the cycle's cap.
pub open spec fn create_holder_rights_outcome(
    ctx: CreateHolderRights,
    holder: Pubkey,
    rights_amount: u64,
    expiry: i64,
) -> Result<CreateHolderRights, MammothError> {
    let c = ctx.cycle_state;
    if ctx.project_state.creator != ctx.creator {
        Err(MammothError::Unauthorized)
    } else if c.project != ctx.project_key {
        Err(MammothError::InvalidCycleProject)
    } else if c.status != CycleStatus::RightsWindow {
        Err(MammothError::NotRightsWindow)
    } else if !(c.rights_merkle_root is None && c.rights_committed == 0) {
        Err(MammothError::RightsPathConflict)
    } else if rights_amount == 0 {
        Err(MammothError::ZeroAmount)
    } else if c.rights_allocated + rights_amount > u64_limit() {
        Err(MammothError::MathOverflow)
    } else if c.rights_allocated + rights_amount > c.supply_cap {
        Err(MammothError::SupplyCapExceeded)
    } else {
        Ok(
            CreateHolderRights {
                cycle_state: CycleState {
                    rights_allocated: (c.rights_allocated + rights_amount) as u64,
                    ..c
                },
                holder_rights: HolderRights {
                    project: ctx.project_key,
                    cycle_index: c.cycle_index,
                    holder,
                    rights_amount,
                    exercised_amount: 0,
                    expiry,
                    bump: ctx.holder_rights_bump,
                },
                ..ctx
            },
        )
    }
}

/// Creator-only. Allocates rights to a holder during the rights window.
pub fn create_holder_rights(
    ctx: &mut CreateHolderRights,
    holder: Pubkey,
    rights_amount: u64,
    expiry: i64,
) -> (r: Result<(), MammothError>)
    ensures
        match r {
            Ok(_) => create_holder_rights_outcome(*old(ctx), holder, rights_amount, expiry) == Ok::<
                CreateHolderRights,
                MammothError,
            >(*final(ctx)),
            Err(e) => create_holder_rights_outcome(*old(ctx), holder, rights_amount, expiry)
                == Err::<CreateHolderRights, MammothError>(e) && *final(ctx) == *old(ctx),
        },
        r is Ok ==> cycle_terms_unchanged(old(ctx).cycle_state, final(ctx).cycle_state)
            && final(ctx).cycle_state.status == old(ctx).cycle_state.status,
        r is Ok ==> final(ctx).cycle_state.rights_allocated <= final(ctx).cycle_state.supply_cap,
{
    if !ctx.project_state.creator.equals(&ctx.creator) {
        return Err(MammothError::Unauthorized);
    }
    if !ctx.cycle_state.project.equals(&ctx.project_key) {
        return Err(MammothError::InvalidCycleProject);
    }
    if ctx.cycle_state.status != CycleStatus::RightsWindow {
        return Err(MammothError::NotRightsWindow);
    }
    if !(ctx.cycle_state.rights_merkle_root.is_none() && ctx.cycle_state.rights_committed == 0) {
        return Err(MammothError::RightsPathConflict);
    }
    if rights_amount == 0 {
        return Err(MammothError::ZeroAmount);
    }
    let new_total = match ctx.cycle_state.rights_allocated.checked_add(rights_amount) {
        Some(v) => v,
        None => return Err(MammothError::MathOverflow),
    };
    if new_total > ctx.cycle_state.supply_cap {
        return Err(MammothError::SupplyCapExceeded);
    }
    ctx.cycle_state.rights_allocated = new_total;
    ctx.holder_rights = HolderRights {
        project: ctx.project_key,
        cycle_index: ctx.cycle_state.cycle_index,
        holder,
        rights_amount,
        exercised_amount: 0,
        expiry,
        bump: ctx.holder_rights_bump,
    };
    Ok(())
}

/// The accounts `set_rights_merkle_root` reads and writes.
#[derive(Clone, Copy, Debug, PartialEq, Eq)]
pub struct SetRightsMerkleRoot {
    pub project_state: ProjectState,
    /// Address of the project account.
    pub project_key: Pubkey,
    pub cycle_state: CycleState,
    pub authority_config: Option<AuthorityConfig>,
    /// The signer.
    pub caller: Pubkey,
    /// Current unix time.
    pub now: i64,
}

/// What `set_rights_merkle_root` does: once per cycle, during its rights window and
/// before any rights were handed out one by one, the creator (or an operator allowed
/// to) commits a Merkle root and the total it commits, which may not exceed the cap.
pub open spec fn set_rights_merkle_root_outcome(
    ctx: SetRightsMerkleRoot,
    merkle_root: [u8; 32],
    holder_count: u32,
    total_committed: u64,
) -> Result<(SetRightsMerkleRoot, MerkleRightsSet), MammothError> {
    let c = ctx.cycle_state;
    let auth = authority_check(
        ctx.caller,
        ctx.project_state,
        ctx.project_key,
        ctx.authority_config,
        "set_merkle_root"@,
    );
    if c.project != ctx.project_key {
        Err(MammothError::InvalidCycleProject)
    } else if c.status != CycleStatus::RightsWindow {
        Err(MammothError::NotRightsWindow)
    } else if c.rights_merkle_root is Some {
        Err(MammothError::MerkleRootAlreadySet)
    } else if c.rights_allocated != 0 {
        Err(MammothError::RightsPathConflict)
    } else if total_committed > c.supply_cap {
        Err(MammothError::SupplyCapExceeded)
    } else if auth is Err {
        Err(auth->Err_0)
    } else {
        Ok(
            (
                SetRightsMerkleRoot {
                    cycle_state: CycleState {
                        rights_merkle_root: Some(merkle_root),
                        rights_committed: total_committed,
                        ..c
                    },
                    ..ctx
                },
                MerkleRightsSet {
                    project_mint: ctx.project_state.mint,
                    cycle_index: c.cycle_index,
                    merkle_root,
                    holder_count,
                    timestamp: ctx.now,
                },
            ),
        )
    }
}

/// Commits the Merkle root of (holder, rights amount) pairs for a cycle.
pub fn set_rights_merkle_root(
    ctx: &mut SetRightsMerkleRoot,
    merkle_root: [u8; 32],
    holder_count: u32,
    total_committed: u64,
) -> (r: Result<MerkleRightsSet, MammothError>)
    ensures
        match r {
            Ok(ev) => set_rights_merkle_root_outcome(
                *old(ctx),
                merkle_root,
                holder_count,
                total_committed,
            ) == Ok::<(SetRightsMerkleRoot, MerkleRightsSet), MammothError>((*final(ctx), ev)),
            Err(e) => set_rights_merkle_root_outcome(
                *old(ctx),
                merkle_root,
                holder_count,
                total_committed,
            ) == Err::<(SetRightsMerkleRoot, MerkleRightsSet), MammothError>(e) && *final(ctx)
                == *old(ctx),
        },
        r is Ok ==> cycle_terms_unchanged(old(ctx).cycle_state, final(ctx).cycle_state)
            && final(ctx).cycle_state.status == old(ctx).cycle_state.status,
        old(ctx).cycle_state.rights_merkle_root is Some ==> r is Err,
{
    if !ctx.cycle_state.project.equals(&ctx.project_key) {
        return Err(MammothError::InvalidCycleProject);
    }
    if ctx.cycle_state.status != CycleStatus::RightsWindow {
        return Err(MammothError::NotRightsWindow);
    }
    if ctx.cycle_state.rights_merkle_root.is_some() {
        return Err(MammothError::MerkleRootAlreadySet);
    }
    if ctx.cycle_state.rights_allocated != 0 {
        return Err(MammothError::RightsPathConflict);
    }
    if total_committed > ctx.cycle_state.supply_cap {
        return Err(MammothError::SupplyCapExceeded);
    }
    check_authority(
        &ctx.caller,
        &ctx.project_state,
        &ctx.project_key,
        config_ref(&ctx.authority_config),
        "set_merkle_root",
    )?;
    ctx.cycle_state.rights_merkle_root = Some(merkle_root);
    ctx.cycle_state.rights_committed = total_committed;
    Ok(
        MerkleRightsSet {
            project_mint: ctx.project_state.mint,
            cycle_index: ctx.cycle_state.cycle_index,
            merkle_root,
            holder_count,
            timestamp: ctx.now,
        },
    )
}

/// The accounts `claim_rights` reads and writes.
#[derive(Clone, Copy, Debug, PartialEq, Eq)]
pub struct ClaimRights {
    pub project_state: ProjectState,
    /// Address of the project account.
    pub project_key: Pubkey,
    pub cycle_state: CycleState,
    /// The rights account being initialized.
    pub holder_rights: HolderRights,
    pub holder_rights_bump: u8,
    /// The signer claiming rights.
    pub holder: Pubkey,
    /// Current unix time.
    pub now: i64,
}

/// What `claim_rights` does, given the root that the holder's proof leads to: during
/// the open rights window of a cycle of this project with a committed root, a claim
/// whose proof leads to that root records the holder's rights, expiring with the
/// window, as long as all rights claimed stay within the cycle's cap.
pub open spec fn claim_rights_outcome(
    ctx: ClaimRights,
    computed_root: Seq<u8>,
    rights_amount: u64,
) -> Result<(ClaimRights, RightsClaimed), MammothError> {
    let c = ctx.cycle_state;
    if rights_amount == 0 {
        Err(MammothError::ZeroAmount)
    } else if c.project != ctx.project_key {
        Err(MammothError::InvalidCycleProject)
    } else if c.status != CycleStatus::RightsWindow {
        Err(MammothError::NotRightsWindow)
    } else if ctx.now >= c.rights_window_end {
        Err(MammothError::RightsWindowExpired)
    } else if c.rights_allocated + rights_amount > u64_limit() {
        Err(MammothError::MathOverflow)
    } else if c.rights_allocated + rights_amount > c.supply_cap {
        Err(MammothError::SupplyCapExceeded)
    } else if c.rights_merkle_root is None {
        Err(MammothError::MerkleRootNotSet)
    } else if computed_root != c.rights_merkle_root->Some_0@ {
        Err(MammothError::InvalidMerkleProof)
    } else {
        Ok(
            (
                ClaimRights {
                    cycle_state: CycleState {
                        rights_allocated: (c.rights_allocated + rights_amount) as u64,
                        ..c
                    },
                    holder_rights: HolderRights {
                        project: ctx.project_key,
                        cycle_index: c.cycle_index,
                        holder: ctx.holder,
                        rights_amount,
                        exercised_amount: 0,
                        expiry: c.rights_window_end,
                        bump: ctx.holder_rights_bump,
                    },
                    ..ctx
                },
                RightsClaimed {
                    project_mint: ctx.project_state.mint,
                    holder: ctx.holder,
                    cycle_index: c.cycle_index,
                    amount: rights_amount,
                    timestamp: ctx.now,
                },
            ),
        )
    }
}

/// Records a claim of `rights_amount` rights whose Merkle proof leads to `computed_root`.
pub fn claim_rights_with_root(
    ctx: &mut ClaimRights,
    computed_root: &[u8; 32],
    rights_amount: u64,
) -> (r: Result<RightsClaimed, MammothError>)
    ensures
        match r {
            Ok(ev) => claim_rights_outcome(*old(ctx), computed_root@, rights_amount) == Ok::<
                (ClaimRights, RightsClaimed),
                MammothError,
            >((*final(ctx), ev)),
            Err(e) => claim_rights_outcome(*old(ctx), computed_root@, rights_amount) == Err::<
                (ClaimRights, RightsClaimed),
                MammothError,
            >(e) && *final(ctx) == *old(ctx),
        },
        r is Ok ==> cycle_terms_unchanged(old(ctx).cycle_state, final(ctx).cycle_state)
            && final(ctx).cycle_state.status == old(ctx).cycle_state.status,
        r is Ok ==> final(ctx).cycle_state.rights_allocated <= final(ctx).cycle_state.supply_cap,
{
    if rights_amount == 0 {
        return Err(MammothError::ZeroAmount);
    }
    if !ctx.cycle_state.project.equals(&ctx.project_key) {
        return Err(MammothError::InvalidCycleProject);
    }
    if ctx.cycle_state.status != CycleStatus::RightsWindow {
        return Err(MammothError::NotRightsWindow);
    }
    if ctx.now >= ctx.cycle_state.rights_window_end {
        return Err(MammothError::RightsWindowExpired);
    }
    let new_total = match ctx.cycle_state.rights_allocated.checked_add(rights_amount) {
        Some(v) => v,
        None => return Err(MammothError::MathOverflow),
    };
    if new_total > ctx.cycle_state.supply_cap {
        return Err(MammothError::SupplyCapExceeded);
    }
    let root = match ctx.cycle_state.rights_merkle_root {
        Some(root) => root,
        None => return Err(MammothError::MerkleRootNotSet),
    };
    if !bytes32_equal(computed_root, &root) {
        return Err(MammothError::InvalidMerkleProof);
    }
    ctx.cycle_state.rights_allocated = new_total;
    ctx.holder_rights = HolderRights {
        project: ctx.project_key,
        cycle_index: ctx.cycle_state.cycle_index,
        holder: ctx.holder,
        rights_amount,
        exercised_amount: 0,
        expiry: ctx.cycle_state.rights_window_end,
        bump: ctx.holder_rights_bump,
    };
    Ok(
        RightsClaimed {
            project_mint: ctx.project_state.mint,
            holder: ctx.holder,
            cycle_index: ctx.cycle_state.cycle_index,
            amount: rights_amount,
            timestamp: ctx.now,
        },
    )
}

/// A holder claims `rights_amount` rights with a Merkle proof: the leaf
/// `SHA-256(0x00 || holder || rights_amount as little-endian bytes)` is hashed with each
/// sibling in turn (smaller child first, behind the byte 0x01) and must reach the
/// committed root.
pub fn claim_rights(ctx: &mut ClaimRights, proof: Vec<[u8; 32]>, rights_amount: u64) -> (r: Result<
    RightsClaimed,
    MammothError,
>)
    ensures
        match r {
            Ok(ev) => claim_rights_outcome(
                *old(ctx),
                merkle_fold(leaf_hash(old(ctx).holder, rights_amount), proof@),
                rights_amount,
            ) == Ok::<(ClaimRights, RightsClaimed), MammothError>((*final(ctx), ev)),
            Err(e) => claim_rights_outcome(
                *old(ctx),
                merkle_fold(leaf_hash(old(ctx).holder, rights_amount), proof@),
                rights_amount,
            ) == Err::<(ClaimRights, RightsClaimed), MammothError>(e) && *final(ctx) == *old(ctx),
        },
{
    let leaf = merkle_leaf(&ctx.holder, rights_amount);
    let computed = compute_merkle_root(&leaf, &proof);
    claim_rights_with_root(ctx, &computed, rights_amount)
}

} // verus!
