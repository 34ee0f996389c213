//! Licensing and purchase engine.
//!
//! A purchase runs in two steps around the external payment rail:
//! `prepare_purchase` validates the request and computes the fee split, the
//! caller then moves the seller share and the platform share (two transfers,
//! both must succeed), and `commit_purchase` mints the license and updates
//! the counters. A failed validation or a counter overflow mutates nothing,
//! so a purchase whose transfers never ran leaves the ledger untouched.

use vstd::prelude::*;

use crate::errors::ErrorCode;
use crate::fees::{
    fee_amount, remainder_amount, split_fee, BPS_DENOMINATOR, FeeSplit,
};
use crate::listing::{Listing, SECONDS_PER_DAY};
use crate::platform::PlatformConfig;
use crate::rights::{LicenseType, UsageRights};

verus! {

/// Most transfers a license may go through.
pub const MAX_TRANSFERS: u8 = 3;

/// Overpayment guard: a payment above this multiple of the price is refused.
pub const MAX_PAYMENT_MULTIPLE: u64 = 10;

/// A buyer's purchased right to access a listing's data under usage terms
/// snapshotted at purchase time.
pub struct License {
    /// The listing this license was purchased from.
    pub listing_id: u64,
    /// Current holder of the license.
    pub owner: u64,
    /// First buyer; immutable.
    pub original_buyer: u64,
    /// License bucket, snapshotted from the listing at purchase time.
    pub license_type: LicenseType,
    /// Usage permissions, snapshotted from the listing at purchase time.
    pub usage_rights: UsageRights,
    /// Price actually charged.
    pub purchase_price: u64,
    /// When the purchase completed.
    pub purchase_date: u64,
    /// Absolute expiry timestamp; `None` means perpetual.
    pub expiration: Option<u64>,
    /// Successful accesses so far.
    pub access_count: u64,
    /// Timestamp of the last successful access.
    pub last_access: u64,
    /// Bound on successful accesses; `None` means unmetered.
    pub usage_limit: Option<u64>,
    /// Whether the license may be transferred at all.
    pub is_transferable: bool,
    /// Transfers so far.
    pub transfer_count: u8,
    /// Whether the license has been revoked.
    pub is_revoked: bool,
}

impl License {
    /// Well-formedness: the meter respects its limit and transfers their cap.
    pub open spec fn wf(self) -> bool {
        &&& (self.usage_limit matches Some(m) ==> self.access_count <= m)
        &&& self.transfer_count <= MAX_TRANSFERS
    }

    /// Whether the license has expired at `now`.
    pub open spec fn spec_expired(self, now: u64) -> bool {
        match self.expiration {
            Some(t) => now > t,
            None => false,
        }
    }
}

/// First reason a purchase of `l` by `buyer` would be refused, if any. An
/// exclusive listing that has already sold reports that fact even though the
/// sale also deactivated it, so a second buyer learns the real reason.
pub open spec fn purchase_check(
    l: Listing,
    c: PlatformConfig,
    buyer: u64,
    payment: u64,
    now: u64,
) -> Option<ErrorCode> {
    if c.paused {
        Some(ErrorCode::PlatformPaused)
    } else if l.license_type.spec_is_exclusive() && l.total_sales > 0 {
        Some(ErrorCode::ExclusiveLicenseAlreadySold)
    } else if !l.is_active {
        Some(ErrorCode::ListingInactive)
    } else if !l.verification_status {
        Some(ErrorCode::DatasetNotVerified)
    } else if l.spec_expired(now) {
        Some(ErrorCode::ListingExpired)
    } else if buyer == l.provider {
        Some(ErrorCode::SelfPurchaseNotAllowed)
    } else if payment < l.price {
        Some(ErrorCode::InsufficientFunds)
    } else if payment > MAX_PAYMENT_MULTIPLE * l.price {
        Some(ErrorCode::ExcessivePayment)
    } else if !l.license_type.spec_is_exclusive() && (l.max_owners matches Some(m)
        && l.total_sales >= m) {
        Some(ErrorCode::MaxOwnersReached)
    } else {
        None
    }
}

/// Whether committing the purchase would overflow a counter or the expiry
/// clock; the whole operation aborts in that case.
pub open spec fn purchase_overflow(l: Listing, c: PlatformConfig, now: u64) -> bool {
    ||| l.revenue_earned + remainder_amount(l.price, c.fee_bps, BPS_DENOMINATOR) > u64::MAX
    ||| l.total_sales + 1 > u64::MAX
    ||| c.total_platform_revenue + fee_amount(l.price, c.fee_bps, BPS_DENOMINATOR) > u64::MAX
    ||| c.total_purchases + 1 > u64::MAX
    ||| (l.license_duration_days matches Some(d) && now + d * SECONDS_PER_DAY > u64::MAX)
}

/// The license minted by a successful purchase: usage terms snapshotted from
/// the listing, expiry set from the listing's duration, meters zeroed.
pub open spec fn minted_license(l: Listing, buyer: u64, now: u64) -> License {
    License {
        listing_id: l.id,
        owner: buyer,
        original_buyer: buyer,
        license_type: l.license_type,
        usage_rights: l.usage_rights,
        purchase_price: l.price,
        purchase_date: now,
        expiration: match l.license_duration_days {
            Some(d) => Some((now + d * SECONDS_PER_DAY) as u64),
            None => None,
        },
        access_count: 0,
        last_access: 0,
        usage_limit: None,
        is_transferable: l.license_type == LicenseType::TransferableExclusive,
        transfer_count: 0,
        is_revoked: false,
    }
}

/// Executable purchase validation, shared by the two purchase steps.
fn purchase_gate(
    l: &Listing,
    c: &PlatformConfig,
    buyer: u64,
    payment: u64,
    now: u64,
) -> (r: Option<ErrorCode>)
    requires
        l.wf(),
        c.wf(),
    ensures
        r == purchase_check(*l, *c, buyer, payment, now),
{
    if c.paused {
        return Some(ErrorCode::PlatformPaused);
    }
    if l.license_type.is_exclusive() && l.total_sales > 0 {
        return Some(ErrorCode::ExclusiveLicenseAlreadySold);
    }
    if !l.is_active {
        return Some(ErrorCode::ListingInactive);
    }
    if !l.verification_status {
        return Some(ErrorCode::DatasetNotVerified);
    }
    if l.is_expired(now) {
        return Some(ErrorCode::ListingExpired);
    }
    if buyer == l.provider {
        return Some(ErrorCode::SelfPurchaseNotAllowed);
    }
    if payment < l.price {
        return Some(ErrorCode::InsufficientFunds);
    }
    if payment > MAX_PAYMENT_MULTIPLE * l.price {
        return Some(ErrorCode::ExcessivePayment);
    }
    if !l.license_type.is_exclusive() {
        match l.max_owners {
            Some(m) => {
                if l.total_sales >= m as u64 {
                    return Some(ErrorCode::MaxOwnersReached);
                }
            },
            None => {},
        }
    }
    None
}

/// The fee split a purchase of `l` under `c` produces: the fee share goes to
/// the treasury, the remainder to the seller, and they add up to the price.
pub proof fn lemma_purchase_split_fits(l: Listing, c: PlatformConfig)
    requires
        l.wf(),
        c.wf(),
    ensures
        l.price * c.fee_bps <= u64::MAX,
        c.fee_bps <= BPS_DENOMINATOR,
{
    vstd::arithmetic::mul::lemma_mul_upper_bound(
        l.price as int,
        crate::listing::MAX_PRICE as int,
        c.fee_bps as int,
        crate::fees::MAX_FEE_BPS as int,
    );
}

/// Validates a purchase request and computes the fee split the payment rail
/// must perform: exactly two transfers, the remainder to the seller and the
/// fee to the treasury. Mutates nothing; `commit_purchase` applies the state
/// change once both transfers succeeded.
pub fn prepare_purchase(
    l: &Listing,
    c: &PlatformConfig,
    buyer: u64,
    payment: u64,
    now: u64,
) -> (r: Result<FeeSplit, ErrorCode>)
    requires
        l.wf(),
        c.wf(),
    ensures
        match r {
            Ok(s) => {
                &&& purchase_check(*l, *c, buyer, payment, now) is None
                &&& s.fee == fee_amount(l.price, c.fee_bps, BPS_DENOMINATOR)
                &&& s.remainder == remainder_amount(l.price, c.fee_bps, BPS_DENOMINATOR)
                &&& s.fee + s.remainder == l.price
            },
            Err(e) => purchase_check(*l, *c, buyer, payment, now) == Some(e),
        },
{
    match purchase_gate(l, c, buyer, payment, now) {
        Some(e) => Err(e),
        None => {
            proof {
                lemma_purchase_split_fits(*l, *c);
            }
            let s = match split_fee(l.price, c.fee_bps, BPS_DENOMINATOR) {
                Ok(s) => s,
                Err(e) => {
                    // Dead branch: the bounds above prove the split succeeds.
                    proof {
                        assert(false);
                    }
                    return Err(e);
                },
            };
            Ok(s)
        },
    }
}

/// Mints the license and applies all counter updates for a purchase whose two
/// transfers both succeeded. Re-validates the request; any rejection or any
/// counter overflow leaves both records exactly as they were.
pub fn commit_purchase(
    l: &mut Listing,
    c: &mut PlatformConfig,
    buyer: u64,
    payment: u64,
    now: u64,
) -> (r: Result<License, ErrorCode>)
    requires
        old(l).wf(),
        old(c).wf(),
    ensures
        final(l).wf(),
        final(c).wf(),
        match r {
            Ok(lic) => {
                &&& purchase_check(*old(l), *old(c), buyer, payment, now) is None
                &&& !purchase_overflow(*old(l), *old(c), now)
                &&& lic == minted_license(*old(l), buyer, now)
                &&& lic.wf()
                &&& *final(l) == (Listing {
                    total_sales: (old(l).total_sales + 1) as u64,
                    revenue_earned: (old(l).revenue_earned + remainder_amount(
                        old(l).price,
                        old(c).fee_bps,
                        BPS_DENOMINATOR,
                    )) as u64,
                    is_active: (if old(l).license_type == LicenseType::Exclusive {
                        false
                    } else {
                        old(l).is_active
                    }),
                    updated_at: now,
                    ..*old(l)
                })
                &&& *final(c) == (PlatformConfig {
                    total_platform_revenue: (old(c).total_platform_revenue + fee_amount(
                        old(l).price,
                        old(c).fee_bps,
                        BPS_DENOMINATOR,
                    )) as u64,
                    total_purchases: (old(c).total_purchases + 1) as u64,
                    ..*old(c)
                })
            },
            Err(e) => {
                &&& *final(l) == *old(l)
                &&& *final(c) == *old(c)
                &&& (match purchase_check(*old(l), *old(c), buyer, payment, now) {
                    Some(reason) => e == reason,
                    None => e == ErrorCode::MathOverflow && purchase_overflow(
                        *old(l),
                        *old(c),
                        now,
                    ),
                })
            },
        },
{
    match purchase_gate(l, c, buyer, payment, now) {
        Some(e) => {
            return Err(e);
        },
        None => {},
    }
    proof {
        lemma_purchase_split_fits(*l, *c);
    }
    let split = match split_fee(l.price, c.fee_bps, BPS_DENOMINATOR) {
        Ok(s) => s,
        Err(e) => {
            // Dead branch: the bounds above prove the split succeeds.
            proof {
                assert(false);
            }
            return Err(e);
        },
    };
    // Check every counter before writing any, so an overflow aborts the whole
    // operation with no partial state.
    let new_revenue = match l.revenue_earned.checked_add(split.remainder) {
        Some(x) => x,
        None => {
            return Err(ErrorCode::MathOverflow);
        },
    };
    let new_sales = match l.total_sales.checked_add(1) {
        Some(x) => x,
        None => {
            return Err(ErrorCode::MathOverflow);
        },
    };
    let new_platform_revenue = match c.total_platform_revenue.checked_add(split.fee) {
        Some(x) => x,
        None => {
            return Err(ErrorCode::MathOverflow);
        },
    };
    let new_purchases = match c.total_purchases.checked_add(1) {
        Some(x) => x,
        None => {
            return Err(ErrorCode::MathOverflow);
        },
    };
    let expiration = match l.license_duration_days {
        Some(d) => {
            // The duration bound keeps the product small; only the final sum
            // can overflow.
            let dur = (d as u64) * SECONDS_PER_DAY;
            match now.checked_add(dur) {
                Some(t) => Some(t),
                None => {
                    return Err(ErrorCode::MathOverflow);
                },
            }
        },
        None => None,
    };
    let lic = License {
        listing_id: l.id,
        owner: buyer,
        original_buyer: buyer,
        license_type: l.license_type,
        usage_rights: l.usage_rights,
        purchase_price: l.price,
        purchase_date: now,
        expiration,
        access_count: 0,
        last_access: 0,
        usage_limit: None,
        is_transferable: l.license_type == LicenseType::TransferableExclusive,
        transfer_count: 0,
        is_revoked: false,
    };
    l.revenue_earned = new_revenue;
    l.total_sales = new_sales;
    if l.license_type == LicenseType::Exclusive {
        l.is_active = false;
    }
    l.updated_at = now;
    c.total_platform_revenue = new_platform_revenue;
    c.total_purchases = new_purchases;
    Ok(lic)
}

/// An exclusive listing admits a single sale: once one purchase has gone
/// through, every further attempt on a running platform is refused with the
/// exclusive-already-sold reason, whoever the buyer and whatever the payment.
pub proof fn lemma_exclusive_single_sale(
    l: Listing,
    c: PlatformConfig,
    buyer: u64,
    payment: u64,
    now: u64,
)
    requires
        !c.paused,
        l.license_type.spec_is_exclusive(),
        l.total_sales >= 1,
    ensures
        purchase_check(l, c, buyer, payment, now) == Some(
            ErrorCode::ExclusiveLicenseAlreadySold,
        ),
{
}

} // verus!
