//! Listing registry: create, update and deactivate dataset listings.
//!
//! A listing is created once by its provider and then mutated under a split
//! ownership discipline: the provider owns metadata and price, the
//! verification engine owns the verification fields, and the purchase engine
//! owns the sales counters. Each mutation path here enforces its own
//! authorization and validation and is total: it either applies fully or
//! leaves the record untouched.

use vstd::prelude::*;

use crate::errors::ErrorCode;
use crate::rights::{LicenseType, UsageRights};
use crate::text::{all_zero, trim_bytes, trimmed};

verus! {

/// Longest accepted title, in bytes, after trimming.
pub const MAX_TITLE_LEN: usize = 100;

/// Longest accepted metadata URI, in bytes, after trimming.
pub const MAX_URI_LEN: usize = 200;

/// Longest accepted content hash, in bytes.
pub const MAX_HASH_LEN: usize = 200;

/// Exact length of a bare hex digest accepted as a content hash.
pub const HEX_DIGEST_LEN: usize = 64;

/// Minimum listing price, in the smallest currency unit; prevents spam
/// listings.
pub const MIN_PRICE: u64 = 100_000;

/// Maximum listing price, in the smallest currency unit.
pub const MAX_PRICE: u64 = 1_000_000_000_000;

/// Highest royalty a provider may claim, in basis points (50%).
pub const MAX_ROYALTY_BPS: u16 = 5000;

/// Highest accepted bound on the number of owners.
pub const MAX_OWNERS_BOUND: u32 = 10000;

/// Longest accepted license duration, in days (ten years).
pub const MAX_DURATION_DAYS: u32 = 3650;

/// Seconds in a day, for duration and quota arithmetic.
pub const SECONDS_PER_DAY: u64 = 86400;

/// Longest accepted deactivation reason, in bytes.
pub const MAX_REASON_LEN: usize = 200;

/// Size of a commitment digest, in bytes.
pub const DIGEST_LEN: usize = 32;

/// The all-zero commitment a listing carries until it is verified.
pub open spec fn zero_digest() -> Seq<u8> {
    Seq::new(DIGEST_LEN as nat, |i: int| 0u8)
}

/// A content hash is accepted in one of two shapes: a content-address string
/// with the recognised `Qm` prefix, or a bare hex digest of exactly 64 bytes.
/// Either way it must be non-empty and bounded.
pub open spec fn valid_content_hash(h: Seq<u8>) -> bool {
    &&& 0 < h.len() <= MAX_HASH_LEN
    &&& {
        ||| (h.len() >= 2 && h[0] == 81 && h[1] == 109)  // "Qm"
        ||| h.len() == HEX_DIGEST_LEN
    }
}

/// Whether `h` has an accepted content-hash shape.
pub fn is_valid_content_hash(h: &Vec<u8>) -> (r: bool)
    ensures
        r == valid_content_hash(h@),
{
    if h.len() == 0 || h.len() > MAX_HASH_LEN {
        return false;
    }
    if h.len() >= 2 && h[0] == 81 && h[1] == 109 {
        return true;
    }
    h.len() == HEX_DIGEST_LEN
}

/// A dataset offered for license, with price and usage terms.
pub struct Listing {
    /// Unique identifier of this listing.
    pub id: u64,
    /// Owner identity; immutable after creation.
    pub provider: u64,
    /// Human-readable title, stored trimmed.
    pub title: Vec<u8>,
    /// Metadata URI; empty until the provider sets one.
    pub metadata_uri: Vec<u8>,
    /// Price in the smallest currency unit.
    pub price: u64,
    /// License bucket new purchases are sold under.
    pub license_type: LicenseType,
    /// Usage permissions copied into each license at purchase time.
    pub usage_rights: UsageRights,
    /// Content-addressing hash of the data.
    pub content_hash: Vec<u8>,
    /// Provider royalty in basis points.
    pub royalty_bps: u16,
    /// Bound on the number of owners; `None` means unlimited.
    pub max_owners: Option<u32>,
    /// License duration in days from creation; `None` means perpetual.
    pub license_duration_days: Option<u32>,
    /// Whether an accepted verification record exists.
    pub verification_status: bool,
    /// Commitment digest; all zero until verified.
    pub commitment: Vec<u8>,
    /// Whether the listing accepts new purchases.
    pub is_active: bool,
    /// Number of completed purchases; monotonically non-decreasing.
    pub total_sales: u64,
    /// Seller share accumulated over all purchases; monotonically
    /// non-decreasing.
    pub revenue_earned: u64,
    /// Creation timestamp.
    pub created_at: u64,
    /// Timestamp of the last mutation.
    pub updated_at: u64,
}

impl Listing {
    /// Well-formedness: field bounds, the commitment discipline, and the
    /// exclusivity invariant.
    pub open spec fn wf(self) -> bool {
        &&& 0 < self.title@.len() <= MAX_TITLE_LEN
        &&& self.title@ == trimmed(self.title@)
        &&& self.metadata_uri@.len() <= MAX_URI_LEN
        &&& MIN_PRICE <= self.price <= MAX_PRICE
        &&& self.royalty_bps <= MAX_ROYALTY_BPS
        &&& valid_content_hash(self.content_hash@)
        &&& (self.max_owners matches Some(m) ==> 0 < m <= MAX_OWNERS_BOUND)
        &&& (self.license_duration_days matches Some(d) ==> 0 < d <= MAX_DURATION_DAYS)
        &&& self.commitment@.len() == DIGEST_LEN
        &&& (!self.verification_status ==> all_zero(self.commitment@))
        &&& (self.license_type.spec_is_exclusive() ==> self.total_sales <= 1)
        &&& (self.license_type == LicenseType::Exclusive && self.total_sales == 1
            ==> !self.is_active)
    }

    /// Whether the listing's license-duration clock has run out at `now`.
    pub open spec fn spec_expired(self, now: u64) -> bool {
        match self.license_duration_days {
            Some(d) => now > self.created_at + d * SECONDS_PER_DAY,
            None => false,
        }
    }

    /// Executable expiry check.
    pub fn is_expired(&self, now: u64) -> (r: bool)
        ensures
            r == self.spec_expired(now),
    {
        match self.license_duration_days {
            Some(d) => {
                let dur = match (d as u64).checked_mul(SECONDS_PER_DAY) {
                    Some(x) => x,
                    None => {
                        return false;
                    },
                };
                match self.created_at.checked_add(dur) {
                    Some(deadline) => now > deadline,
                    None => false,
                }
            },
            None => false,
        }
    }
}

/// First reason `create_listing` would reject these inputs, if any. The
/// checks run in a fixed order, each with its own distinct reason.
pub open spec fn create_listing_check(
    title: Seq<u8>,
    price: u64,
    royalty_bps: u16,
    content_hash: Seq<u8>,
    max_owners: Option<u32>,
    duration_days: Option<u32>,
) -> Option<ErrorCode> {
    if trimmed(title).len() == 0 || trimmed(title).len() > MAX_TITLE_LEN {
        Some(ErrorCode::InvalidTitle)
    } else if price < MIN_PRICE {
        Some(ErrorCode::PriceTooLow)
    } else if price > MAX_PRICE {
        Some(ErrorCode::PriceTooHigh)
    } else if royalty_bps > MAX_ROYALTY_BPS {
        Some(ErrorCode::InvalidRoyalty)
    } else if !valid_content_hash(content_hash) {
        Some(ErrorCode::InvalidContentHash)
    } else if max_owners matches Some(m) && !(0 < m <= MAX_OWNERS_BOUND) {
        Some(ErrorCode::InvalidMaxOwners)
    } else if duration_days matches Some(d) && !(0 < d <= MAX_DURATION_DAYS) {
        Some(ErrorCode::InvalidLicenseDuration)
    } else {
        None
    }
}

/// Creates a listing for `provider`, validating every field in a fixed
/// order. On success the listing starts unverified (all-zero commitment),
/// active, with zeroed counters and both timestamps at `now`.
pub fn create_listing(
    id: u64,
    provider: u64,
    title: Vec<u8>,
    price: u64,
    license_type: LicenseType,
    content_hash: Vec<u8>,
    usage_rights: UsageRights,
    royalty_bps: u16,
    max_owners: Option<u32>,
    duration_days: Option<u32>,
    now: u64,
) -> (r: Result<Listing, ErrorCode>)
    ensures
        match r {
            Ok(l) => {
                &&& create_listing_check(
                    title@,
                    price,
                    royalty_bps,
                    content_hash@,
                    max_owners,
                    duration_days,
                ) is None
                &&& l.wf()
                &&& l.id == id
                &&& l.provider == provider
                &&& l.title@ == trimmed(title@)
                &&& l.metadata_uri@.len() == 0
                &&& l.price == price
                &&& l.license_type == license_type
                &&& l.usage_rights == usage_rights
                &&& l.content_hash@ == content_hash@
                &&& l.royalty_bps == royalty_bps
                &&& l.max_owners == max_owners
                &&& l.license_duration_days == duration_days
                &&& l.verification_status == false
                &&& l.commitment@ == zero_digest()
                &&& l.is_active == true
                &&& l.total_sales == 0
                &&& l.revenue_earned == 0
                &&& l.created_at == now
                &&& l.updated_at == now
            },
            Err(e) => create_listing_check(
                title@,
                price,
                royalty_bps,
                content_hash@,
                max_owners,
                duration_days,
            ) == Some(e),
        },
{
    let t = trim_bytes(&title);
    if t.len() == 0 || t.len() > MAX_TITLE_LEN {
        return Err(ErrorCode::InvalidTitle);
    }
    if price < MIN_PRICE {
        return Err(ErrorCode::PriceTooLow);
    }
    if price > MAX_PRICE {
        return Err(ErrorCode::PriceTooHigh);
    }
    if royalty_bps > MAX_ROYALTY_BPS {
        return Err(ErrorCode::InvalidRoyalty);
    }
    if !is_valid_content_hash(&content_hash) {
        return Err(ErrorCode::InvalidContentHash);
    }
    match max_owners {
        Some(m) => {
            if m == 0 || m > MAX_OWNERS_BOUND {
                return Err(ErrorCode::InvalidMaxOwners);
            }
        },
        None => {},
    }
    match duration_days {
        Some(d) => {
            if d == 0 || d > MAX_DURATION_DAYS {
                return Err(ErrorCode::InvalidLicenseDuration);
            }
        },
        None => {},
    }
    let mut commitment: Vec<u8> = Vec::new();
    let mut i: usize = 0;
    while i < DIGEST_LEN
        invariant
            0 <= i <= DIGEST_LEN,
            commitment@.len() == i,
            forall|j: int| 0 <= j < i ==> commitment@[j] == 0,
        decreases DIGEST_LEN - i,
    {
        commitment.push(0);
        i = i + 1;
    }
    proof {
        assert(commitment@ =~= zero_digest());
        // A trimmed string has no leading or trailing whitespace left, so
        // trimming it again changes nothing.
        lemma_trimmed_idempotent(title@);
    }
    Ok(
        Listing {
            id,
            provider,
            title: t,
            metadata_uri: Vec::new(),
            price,
            license_type,
            usage_rights,
            content_hash,
            royalty_bps,
            max_owners,
            license_duration_days: duration_days,
            verification_status: false,
            commitment,
            is_active: true,
            total_sales: 0,
            revenue_earned: 0,
            created_at: now,
            updated_at: now,
        },
    )
}

/// Trimming is idempotent: a trimmed string trims to itself.
pub proof fn lemma_trimmed_idempotent(s: Seq<u8>)
    ensures
        trimmed(trimmed(s)) == trimmed(s),
{
    lemma_trim_front_of_trimmed(s);
    lemma_trim_back_of_trimmed(s);
}

proof fn lemma_trim_front_no_leading_space(s: Seq<u8>)
    ensures
        crate::text::trim_front(s).len() > 0 ==> !crate::text::is_ascii_space(
            crate::text::trim_front(s)[0],
        ),
    decreases s.len(),
{
    if s.len() > 0 && crate::text::is_ascii_space(s[0]) {
        lemma_trim_front_no_leading_space(s.drop_first());
    }
}

proof fn lemma_trim_back_no_trailing_space(s: Seq<u8>)
    ensures
        crate::text::trim_back(s).len() > 0 ==> !crate::text::is_ascii_space(
            crate::text::trim_back(s).last(),
        ),
    decreases s.len(),
{
    if s.len() > 0 && crate::text::is_ascii_space(s.last()) {
        lemma_trim_back_no_trailing_space(s.drop_last());
    }
}

proof fn lemma_trim_back_keeps_first(s: Seq<u8>)
    ensures
        crate::text::trim_back(s).len() > 0 ==> crate::text::trim_back(s)[0] == s[0],
    decreases s.len(),
{
    if s.len() > 0 && crate::text::is_ascii_space(s.last()) {
        lemma_trim_back_keeps_first(s.drop_last());
    }
}

proof fn lemma_trim_front_of_trimmed(s: Seq<u8>)
    ensures
        crate::text::trim_front(trimmed(s)) == trimmed(s),
{
    lemma_trim_front_no_leading_space(s);
    lemma_trim_back_keeps_first(crate::text::trim_front(s));
}

proof fn lemma_trim_back_of_trimmed(s: Seq<u8>)
    ensures
        crate::text::trim_back(trimmed(s)) == trimmed(s),
{
    lemma_trim_back_no_trailing_space(crate::text::trim_front(s));
}

/// First reason `update_listing` would reject this request, if any.
pub open spec fn update_listing_check(
    l: Listing,
    caller: u64,
    new_uri: Option<Seq<u8>>,
    new_price: Option<u64>,
) -> Option<ErrorCode> {
    if caller != l.provider {
        Some(ErrorCode::NotDatasetOwner)
    } else if new_uri matches Some(u) && (trimmed(u).len() == 0 || trimmed(u).len()
        > MAX_URI_LEN) {
        Some(ErrorCode::InvalidUri)
    } else if new_price matches Some(p) && p < MIN_PRICE {
        Some(ErrorCode::PriceTooLow)
    } else if new_price matches Some(p) && p > MAX_PRICE {
        Some(ErrorCode::PriceTooHigh)
    } else if new_price matches Some(p) && l.total_sales > 0 && p < l.price {
        Some(ErrorCode::PriceDecreaseNotAllowed)
    } else {
        None
    }
}

/// Updates listing metadata or price. Provider only. Once anyone has bought
/// at the advertised price, the price may only rise: buyers who already
/// transacted are protected from a bait-and-switch, while the provider can
/// still raise prices going forward.
pub fn update_listing(
    l: &mut Listing,
    caller: u64,
    new_uri: Option<Vec<u8>>,
    new_price: Option<u64>,
    now: u64,
) -> (r: Result<(), ErrorCode>)
    requires
        old(l).wf(),
    ensures
        final(l).wf(),
        match r {
            Ok(()) => {
                &&& update_listing_check(
                    *old(l),
                    caller,
                    match new_uri {
                        Some(u) => Some(u@),
                        None => None,
                    },
                    new_price,
                ) is None
                &&& final(l).metadata_uri@ == (match new_uri {
                    Some(u) => trimmed(u@),
                    None => old(l).metadata_uri@,
                })
                &&& final(l).price == (match new_price {
                    Some(p) => p,
                    None => old(l).price,
                })
                &&& final(l).updated_at == now
                &&& *final(l) == (Listing {
                    metadata_uri: final(l).metadata_uri,
                    price: final(l).price,
                    updated_at: final(l).updated_at,
                    ..*old(l)
                })
            },
            Err(e) => {
                &&& update_listing_check(
                    *old(l),
                    caller,
                    match new_uri {
                        Some(u) => Some(u@),
                        None => None,
                    },
                    new_price,
                ) == Some(e)
                &&& *final(l) == *old(l)
            },
        },
{
    if caller != l.provider {
        return Err(ErrorCode::NotDatasetOwner);
    }
    let trimmed_uri = match new_uri {
        Some(ref u) => {
            let t = trim_bytes(u);
            if t.len() == 0 || t.len() > MAX_URI_LEN {
                return Err(ErrorCode::InvalidUri);
            }
            Some(t)
        },
        None => None,
    };
    match new_price {
        Some(p) => {
            if p < MIN_PRICE {
                return Err(ErrorCode::PriceTooLow);
            }
            if p > MAX_PRICE {
                return Err(ErrorCode::PriceTooHigh);
            }
            if l.total_sales > 0 && p < l.price {
                return Err(ErrorCode::PriceDecreaseNotAllowed);
            }
            l.price = p;
        },
        None => {},
    }
    match trimmed_uri {
        Some(t) => {
            l.metadata_uri = t;
        },
        None => {},
    }
    l.updated_at = now;
    Ok(())
}

/// Deactivates a listing. Gated to the provider or the platform authority;
/// irreversible in this design. The reason is validated here and carried by
/// the caller to its event sink.
pub fn deactivate_listing(
    l: &mut Listing,
    caller: u64,
    authority: u64,
    reason: &Vec<u8>,
) -> (r: Result<(), ErrorCode>)
    requires
        old(l).wf(),
    ensures
        final(l).wf(),
        match r {
            Ok(()) => {
                &&& (caller == old(l).provider || caller == authority)
                &&& reason@.len() <= MAX_REASON_LEN
                &&& *final(l) == (Listing { is_active: false, ..*old(l) })
            },
            Err(e) => {
                &&& *final(l) == *old(l)
                &&& (if caller != old(l).provider && caller != authority {
                    e == ErrorCode::Unauthorized
                } else {
                    e == ErrorCode::ReasonTooLong && reason@.len() > MAX_REASON_LEN
                })
            },
        },
{
    if caller != l.provider && caller != authority {
        return Err(ErrorCode::Unauthorized);
    }
    if reason.len() > MAX_REASON_LEN {
        return Err(ErrorCode::ReasonTooLong);
    }
    l.is_active = false;
    Ok(())
}

} // verus!
