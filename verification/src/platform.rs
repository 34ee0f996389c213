//! Platform configuration: a singleton record created once on deployment and
//! mutated only by the platform authority.
//!
//! The surrounding ledger store owns the one-time-creation discipline; this
//! module owns the field rules and the aggregate counters.

use vstd::prelude::*;

use crate::errors::ErrorCode;
use crate::fees::{MAX_FEE_BPS, PLATFORM_FEE_BPS};

verus! {

/// Platform-wide configuration and aggregate counters.
pub struct PlatformConfig {
    /// Identity allowed to change this record.
    pub authority: u64,
    /// Identity that receives the platform's fee share.
    pub treasury: u64,
    /// Platform fee in basis points.
    pub fee_bps: u64,
    /// When set, listing creation and purchases are refused.
    pub paused: bool,
    /// Fees accumulated over all purchases; monotonically non-decreasing.
    pub total_platform_revenue: u64,
    /// Number of listings ever created.
    pub total_datasets: u64,
    /// Number of completed purchases.
    pub total_purchases: u64,
}

impl PlatformConfig {
    /// Well-formedness: the fee stays within its configurable bound.
    pub open spec fn wf(self) -> bool {
        self.fee_bps <= MAX_FEE_BPS
    }
}

/// Creates the platform configuration. Called once on deployment; the ledger
/// store refuses re-initialization. The fee starts at the configured platform
/// rate, unpaused, with zeroed counters.
pub fn initialize_platform(authority: u64, treasury: u64) -> (c: PlatformConfig)
    ensures
        c.wf(),
        c.authority == authority,
        c.treasury == treasury,
        c.fee_bps == PLATFORM_FEE_BPS,
        c.paused == false,
        c.total_platform_revenue == 0,
        c.total_datasets == 0,
        c.total_purchases == 0,
{
    PlatformConfig {
        authority,
        treasury,
        fee_bps: PLATFORM_FEE_BPS,
        paused: false,
        total_platform_revenue: 0,
        total_datasets: 0,
        total_purchases: 0,
    }
}

/// First reason `update_platform_config` would reject this request, if any.
pub open spec fn update_config_check(
    c: PlatformConfig,
    caller: u64,
    new_fee_bps: Option<u64>,
) -> Option<ErrorCode> {
    if caller != c.authority {
        Some(ErrorCode::Unauthorized)
    } else if new_fee_bps matches Some(f) && f > MAX_FEE_BPS {
        Some(ErrorCode::InvalidFeeBps)
    } else {
        None
    }
}

/// Updates platform settings. Authority only; a requested fee above the
/// configurable bound is rejected and nothing is applied.
pub fn update_platform_config(
    c: &mut PlatformConfig,
    caller: u64,
    new_treasury: Option<u64>,
    new_fee_bps: Option<u64>,
    paused: Option<bool>,
) -> (r: Result<(), ErrorCode>)
    requires
        old(c).wf(),
    ensures
        final(c).wf(),
        match r {
            Ok(()) => {
                &&& update_config_check(*old(c), caller, new_fee_bps) is None
                &&& final(c).treasury == (match new_treasury {
                    Some(t) => t,
                    None => old(c).treasury,
                })
                &&& final(c).fee_bps == (match new_fee_bps {
                    Some(f) => f,
                    None => old(c).fee_bps,
                })
                &&& final(c).paused == (match paused {
                    Some(p) => p,
                    None => old(c).paused,
                })
                &&& *final(c) == (PlatformConfig {
                    treasury: final(c).treasury,
                    fee_bps: final(c).fee_bps,
                    paused: final(c).paused,
                    ..*old(c)
                })
            },
            Err(e) => {
                &&& update_config_check(*old(c), caller, new_fee_bps) == Some(e)
                &&& *final(c) == *old(c)
            },
        },
{
    if caller != c.authority {
        return Err(ErrorCode::Unauthorized);
    }
    match new_fee_bps {
        Some(f) => {
            if f > MAX_FEE_BPS {
                return Err(ErrorCode::InvalidFeeBps);
            }
            c.fee_bps = f;
        },
        None => {},
    }
    match new_treasury {
        Some(t) => {
            c.treasury = t;
        },
        None => {},
    }
    match paused {
        Some(p) => {
            c.paused = p;
        },
        None => {},
    }
    Ok(())
}

/// Counts a newly created listing in the platform aggregates; fails whole on
/// counter overflow, leaving the record untouched.
pub fn note_listing_created(c: &mut PlatformConfig) -> (r: Result<(), ErrorCode>)
    requires
        old(c).wf(),
    ensures
        final(c).wf(),
        match r {
            Ok(()) => {
                &&& old(c).total_datasets < u64::MAX
                &&& *final(c) == (PlatformConfig {
                    total_datasets: (old(c).total_datasets + 1) as u64,
                    ..*old(c)
                })
            },
            Err(e) => {
                &&& e == ErrorCode::MathOverflow
                &&& old(c).total_datasets == u64::MAX
                &&& *final(c) == *old(c)
            },
        },
{
    match c.total_datasets.checked_add(1) {
        Some(n) => {
            c.total_datasets = n;
            Ok(())
        },
        None => Err(ErrorCode::MathOverflow),
    }
}

} // verus!
