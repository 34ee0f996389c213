//! Access control: authorizes and meters use of a license.
//!
//! Every access request is checked against ownership, revocation, the usage
//! meter, expiry and the snapshotted usage rights for the requested access
//! class. Only a successful authorization mutates the counters; every denial
//! leaves the license exactly as it was. A license has no terminal state: it
//! stays queryable, access is simply denied once any condition fails.

use vstd::prelude::*;

use crate::errors::ErrorCode;
use crate::purchase::License;
use crate::rights::AccessType;

verus! {

/// Ephemeral grant handed back on a successful authorization; only the
/// counters on the license persist.
#[derive(Clone, Copy, Debug, PartialEq, Eq, Structural)]
pub struct AccessGrant {
    /// The listing whose data may be accessed.
    pub listing_id: u64,
    /// The license holder the grant was issued to.
    pub owner: u64,
    /// The access class that was authorized.
    pub access_type: AccessType,
    /// When the grant was issued.
    pub granted_at: u64,
}

/// First reason this access request would be denied, if any. The usage meter
/// is checked before expiry, so an exhausted license reports the usage limit
/// whatever its expiry state.
pub open spec fn access_check(
    lic: License,
    requester: u64,
    access_type: AccessType,
    now: u64,
) -> Option<ErrorCode> {
    if requester != lic.owner {
        Some(ErrorCode::Unauthorized)
    } else if lic.is_revoked {
        Some(ErrorCode::LicenseRevoked)
    } else if lic.usage_limit matches Some(m) && lic.access_count >= m {
        Some(ErrorCode::UsageLimitReached)
    } else if lic.spec_expired(now) {
        Some(ErrorCode::LicenseExpired)
    } else if access_type == AccessType::Api && !lic.usage_rights.commercial_use {
        Some(ErrorCode::CommercialUseNotLicensed)
    } else if access_type == AccessType::Compute && !lic.usage_rights.ai_training_allowed {
        Some(ErrorCode::AiTrainingNotLicensed)
    } else {
        None
    }
}

/// Authorizes one access under the license, incrementing the meter and
/// stamping the access time on success. Denial is always non-mutating and
/// carries the first failing reason: ownership, revocation, the usage meter
/// (regardless of expiry), expiry, then the right the access class needs.
pub fn authorize_access(
    lic: &mut License,
    requester: u64,
    access_type: AccessType,
    now: u64,
) -> (r: Result<AccessGrant, ErrorCode>)
    requires
        old(lic).wf(),
    ensures
        final(lic).wf(),
        match r {
            Ok(g) => {
                &&& access_check(*old(lic), requester, access_type, now) is None
                &&& old(lic).access_count < u64::MAX
                &&& *final(lic) == (License {
                    access_count: (old(lic).access_count + 1) as u64,
                    last_access: now,
                    ..*old(lic)
                })
                &&& g == (AccessGrant {
                    listing_id: old(lic).listing_id,
                    owner: old(lic).owner,
                    access_type,
                    granted_at: now,
                })
            },
            Err(e) => {
                &&& *final(lic) == *old(lic)
                &&& (match access_check(*old(lic), requester, access_type, now) {
                    Some(reason) => e == reason,
                    None => e == ErrorCode::MathOverflow && old(lic).access_count == u64::MAX,
                })
            },
        },
{
    if requester != lic.owner {
        return Err(ErrorCode::Unauthorized);
    }
    if lic.is_revoked {
        return Err(ErrorCode::LicenseRevoked);
    }
    match lic.usage_limit {
        Some(m) => {
            if lic.access_count >= m {
                return Err(ErrorCode::UsageLimitReached);
            }
        },
        None => {},
    }
    let expired = match lic.expiration {
        Some(t) => now > t,
        None => false,
    };
    if expired {
        return Err(ErrorCode::LicenseExpired);
    }
    match access_type {
        AccessType::Api => {
            if !lic.usage_rights.commercial_use {
                return Err(ErrorCode::CommercialUseNotLicensed);
            }
        },
        AccessType::Compute => {
            if !lic.usage_rights.ai_training_allowed {
                return Err(ErrorCode::AiTrainingNotLicensed);
            }
        },
        AccessType::Download => {},
    }
    let new_count = match lic.access_count.checked_add(1) {
        Some(x) => x,
        None => {
            return Err(ErrorCode::MathOverflow);
        },
    };
    lic.access_count = new_count;
    lic.last_access = now;
    Ok(
        AccessGrant {
            listing_id: lic.listing_id,
            owner: lic.owner,
            access_type,
            granted_at: now,
        },
    )
}

} // verus!
