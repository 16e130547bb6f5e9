//! Who may act on a project: its creator, or an operator the creator delegated to.
use vstd::prelude::*;
use crate::error::MammothError;
use crate::keys::Pubkey;
use crate::state::{AuthorityConfig, ProjectState};
use vstd::utf8::encode_utf8_decode_utf8;
use vstd::string::StringSliceAdditionalSpecFns;

verus! {

/// Whether two strings hold the same characters, compared through their UTF-8 bytes.
pub fn str_equals(a: &str, b: &str) -> (r: bool)
    ensures
        r == (a@ == b@),
{
    let x = a.as_bytes();
    let y = b.as_bytes();
    proof {
        encode_utf8_decode_utf8(a@);
        encode_utf8_decode_utf8(b@);
    }
    if x.len() != y.len() {
        return false;
    }
    let mut i: usize = 0;
    while i < x.len()
        invariant
            x@.len() == y@.len(),
            x@ == a.spec_bytes(),
            y@ == b.spec_bytes(),
            0 <= i <= x@.len(),
            forall|j: int| 0 <= j < i ==> x@[j] == y@[j],
        decreases x@.len() - i,
    {
        if x[i] != y[i] {
            return false;
        }
        i = i + 1;
    }
    assert(x@ =~= y@);
    true
}

/// Whether the operator holds the named permission. Unknown names grant nothing.
pub open spec fn permission_granted(config: AuthorityConfig, permission: Seq<char>) -> bool {
    if permission == "open_cycle"@ {
        config.can_open_cycle
    } else if permission == "close_cycle"@ {
        config.can_close_cycle
    } else if permission == "set_hard_cap"@ {
        config.can_set_hard_cap
    } else if permission == "route_treasury"@ {
        config.can_route_treasury
    } else if permission == "set_merkle_root"@ {
        config.can_set_merkle_root
    } else {
        false
    }
}

/// The configuration a reference points to, if any.
pub open spec fn config_of(o: Option<&AuthorityConfig>) -> Option<AuthorityConfig> {
    match o {
        Some(c) => Some(*c),
        None => None,
    }
}

/// The answer to "may `caller` use `permission` on the project at `project_key`":
/// the creator always may; anyone else must be the registered operator of this very
/// project and hold the permission, and is otherwise refused with `InsufficientAuthority`.
pub open spec fn authority_check(
    caller: Pubkey,
    project_state: ProjectState,
    project_key: Pubkey,
    config: Option<AuthorityConfig>,
    permission: Seq<char>,
) -> Result<(), MammothError> {
    if caller == project_state.creator {
        Ok(())
    } else {
        match config {
            None => Err(MammothError::InsufficientAuthority),
            Some(cfg) => {
                if cfg.project != project_key {
                    Err(MammothError::InsufficientAuthority)
                } else if caller != cfg.operator {
                    Err(MammothError::InsufficientAuthority)
                } else if !permission_granted(cfg, permission) {
                    Err(MammothError::InsufficientAuthority)
                } else {
                    Ok(())
                }
            },
        }
    }
}

/// Checks that the caller is the principal (creator) or an operator authorized for
/// the given permission on this project; any other caller gets `InsufficientAuthority`.
pub fn check_authority(
    caller: &Pubkey,
    project_state: &ProjectState,
    project_key: &Pubkey,
    authority_config: Option<&AuthorityConfig>,
    permission: &str,
) -> (r: Result<(), MammothError>)
    ensures
        r == authority_check(
            *caller,
            *project_state,
            *project_key,
            config_of(authority_config),
            permission@,
        ),
{
    if caller.equals(&project_state.creator) {
        return Ok(());
    }
    let config = match authority_config {
        Some(c) => c,
        None => return Err(MammothError::InsufficientAuthority),
    };
    if !config.project.equals(project_key) {
        return Err(MammothError::InsufficientAuthority);
    }
    if !caller.equals(&config.operator) {
        return Err(MammothError::InsufficientAuthority);
    }
    let permitted = if str_equals(permission, "open_cycle") {
        config.can_open_cycle
    } else if str_equals(permission, "close_cycle") {
        config.can_close_cycle
    } else if str_equals(permission, "set_hard_cap") {
        config.can_set_hard_cap
    } else if str_equals(permission, "route_treasury") {
        config.can_route_treasury
    } else if str_equals(permission, "set_merkle_root") {
        config.can_set_merkle_root
    } else {
        false
    };
    if !permitted {
        return Err(MammothError::InsufficientAuthority);
    }
    Ok(())
}

} // verus!
