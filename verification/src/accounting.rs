//! Basis-point shares, protocol fees and rent top-ups.
use vstd::prelude::*;
use crate::curve::u64_limit;
use crate::error::MammothError;

verus! {

/// `bps` basis points of `amount`, rounded down; `None` when `amount * bps` overflows `u64`.
pub open spec fn bps_share_spec(amount: u64, bps: u16) -> Option<u64> {
    if amount * bps > u64_limit() {
        None
    } else {
        Some(((amount * bps) / 10000) as u64)
    }
}

/// `bps` basis points of `amount`, rounded down, or `MathOverflow` when the product
/// overflows `u64`.
pub fn bps_share(amount: u64, bps: u16) -> (r: Result<u64, MammothError>)
    ensures
        match bps_share_spec(amount, bps) {
            Some(v) => r == Ok::<u64, MammothError>(v),
            None => r == Err::<u64, MammothError>(MammothError::MathOverflow),
        },
{
    match amount.checked_mul(bps as u64) {
        Some(p) => Ok(p / 10000),
        None => Err(MammothError::MathOverflow),
    }
}

/// The protocol's fee on `total` and what remains of it:
/// `fee = total * fee_bps / 10000` and `net = total - fee`.
pub open spec fn fee_split_spec(total: u64, fee_bps: u16) -> Result<(u64, u64), MammothError> {
    match bps_share_spec(total, fee_bps) {
        None => Err(MammothError::MathOverflow),
        Some(fee) => {
            if fee > total {
                Err(MammothError::MathOverflow)
            } else {
                Ok((fee, (total - fee) as u64))
            }
        },
    }
}

/// Splits a payment into the protocol fee and the net amount for the cycle.
pub fn split_protocol_fee(total: u64, fee_bps: u16) -> (r: Result<(u64, u64), MammothError>)
    ensures
        r == fee_split_spec(total, fee_bps),
        r matches Ok((fee, net)) ==> fee + net == total,
        fee_bps <= 10000 ==> r is Ok || total * fee_bps > u64_limit(),
{
    proof {
        if fee_bps <= 10000 {
            assert((total * fee_bps) / 10000 <= total) by (nonlinear_arith)
                requires
                    fee_bps <= 10000,
            ;
        }
    }
    let fee = bps_share(total, fee_bps)?;
    match total.checked_sub(fee) {
        Some(net) => Ok((fee, net)),
        None => Err(MammothError::MathOverflow),
    }
}

/// Lamports that bring a balance of `current` up to `minimum`; 0 when it is there already.
pub open spec fn top_up_spec(current: u64, minimum: u64) -> u64 {
    if current < minimum {
        (minimum - current) as u64
    } else {
        0
    }
}

/// Lamports needed to make an account with `current` lamports rent-exempt.
pub fn rent_top_up(current: u64, rent_exempt_minimum: u64) -> (r: u64)
    ensures
        r == top_up_spec(current, rent_exempt_minimum),
        current + r >= rent_exempt_minimum,
{
    if current < rent_exempt_minimum {
        rent_exempt_minimum - current
    } else {
        0
    }
}

/// A split of proceeds in basis points is valid when its parts make up the whole.
pub open spec fn bps_split_is_whole(creator_bps: u16, reserve_bps: u16, sink_bps: u16) -> bool {
    creator_bps + reserve_bps + sink_bps == 10000
}

/// Whether three basis-point shares sum to 10000.
pub fn is_whole_split(creator_bps: u16, reserve_bps: u16, sink_bps: u16) -> (r: bool)
    ensures
        r == bps_split_is_whole(creator_bps, reserve_bps, sink_bps),
{
    (creator_bps as u64) + (reserve_bps as u64) + (sink_bps as u64) == 10000
}

} // verus!
