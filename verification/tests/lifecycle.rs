use exchainge::access::authorize_access;
use exchainge::errors::ErrorCode;
use exchainge::fees::{BPS_DENOMINATOR, PLATFORM_FEE_BPS};
use exchainge::listing::{create_listing, Listing};
use exchainge::platform::{initialize_platform, note_listing_created, update_platform_config};
use exchainge::purchase::{commit_purchase, prepare_purchase};
use exchainge::rights::{AccessType, LicenseType, UsageRights};
use exchainge::verification::verify_proof;

const AUTHORITY: u64 = 1;
const TREASURY: u64 = 2;
const PROVIDER: u64 = 11;
const BUYER: u64 = 21;
const OTHER_BUYER: u64 = 22;

fn rights() -> UsageRights {
    UsageRights {
        commercial_use: true,
        derivative_works_allowed: false,
        redistribution_allowed: false,
        attribution_required: false,
        consent_required: false,
        ai_training_allowed: false,
        geographic_restrictions: false,
    }
}

fn listing(license_type: LicenseType, price: u64, now: u64) -> Listing {
    create_listing(
        7,
        PROVIDER,
        b"Verified sensor archive".to_vec(),
        price,
        license_type,
        vec![b'c'; 64],
        rights(),
        0,
        None,
        None,
        now,
    )
    .unwrap()
}

/// Promotes the listing to verified through the proof-of-computation mode.
fn verify(l: &mut Listing, now: u64) {
    let commitment = vec![9u8; 32];
    let mut public_values = commitment.clone();
    public_values.push(90); // verification score
    public_values.push(1); // physics consistency
    public_values.push(90); // anti-synthesis score
    let proof_blob = b"opaque proof bytes".to_vec();
    let r = verify_proof(l, AUTHORITY, &proof_blob, &public_values, &commitment, 1, now);
    assert!(r.is_ok());
    assert!(l.verification_status);
}

#[test]
fn purchase_round_trip_revenue_matches_split() {
    let price: u64 = 100_000;
    let mut config = initialize_platform(AUTHORITY, TREASURY);
    let mut l = listing(LicenseType::ViewOnly, price, 10);
    note_listing_created(&mut config).unwrap();
    verify(&mut l, 20);

    let split = prepare_purchase(&l, &config, BUYER, price, 30).unwrap();
    assert_eq!(split.fee + split.remainder, price);
    // Both transfers succeed on the payment rail, then the purchase commits.
    let lic = commit_purchase(&mut l, &mut config, BUYER, price, 30).unwrap();

    let expected_fee = (price * PLATFORM_FEE_BPS) / BPS_DENOMINATOR;
    assert_eq!(l.revenue_earned, price - expected_fee);
    assert_eq!(l.revenue_earned, split.remainder);
    assert_eq!(l.total_sales, 1);
    assert_eq!(config.total_platform_revenue, expected_fee);
    assert_eq!(config.total_purchases, 1);
    assert_eq!(lic.purchase_price, price);
    assert_eq!(lic.owner, BUYER);
    assert_eq!(lic.original_buyer, BUYER);
    assert_eq!(lic.license_type, LicenseType::ViewOnly);
    assert_eq!(lic.access_count, 0);
    assert!(!lic.is_revoked);
}

#[test]
fn exclusive_listing_sells_exactly_once() {
    let mut config = initialize_platform(AUTHORITY, TREASURY);
    let mut l = listing(LicenseType::Exclusive, 500_000, 10);
    verify(&mut l, 20);

    let first = commit_purchase(&mut l, &mut config, BUYER, 500_000, 30);
    assert!(first.is_ok());
    assert_eq!(l.total_sales, 1);
    assert!(!l.is_active, "a sold exclusive listing is retired");

    let second = commit_purchase(&mut l, &mut config, OTHER_BUYER, 500_000, 40);
    assert_eq!(second.err(), Some(ErrorCode::ExclusiveLicenseAlreadySold));
    assert_eq!(l.total_sales, 1, "the failed purchase must not count");
}

#[test]
fn transferable_exclusive_stays_active_but_sells_once() {
    let mut config = initialize_platform(AUTHORITY, TREASURY);
    let mut l = listing(LicenseType::TransferableExclusive, 500_000, 10);
    verify(&mut l, 20);

    let first = commit_purchase(&mut l, &mut config, BUYER, 500_000, 30).unwrap();
    assert!(first.is_transferable);
    assert!(l.is_active, "a transferable exclusive stays listed for transfer flows");

    let second = commit_purchase(&mut l, &mut config, OTHER_BUYER, 500_000, 40);
    assert_eq!(second.err(), Some(ErrorCode::ExclusiveLicenseAlreadySold));
    assert_eq!(l.total_sales, 1);
}

#[test]
fn purchase_rejections_each_carry_their_reason() {
    let mut config = initialize_platform(AUTHORITY, TREASURY);
    let mut l = listing(LicenseType::ViewOnly, 200_000, 10);

    // Unverified listing.
    assert_eq!(
        prepare_purchase(&l, &config, BUYER, 200_000, 30).err(),
        Some(ErrorCode::DatasetNotVerified)
    );

    verify(&mut l, 20);

    // Self purchase.
    assert_eq!(
        prepare_purchase(&l, &config, PROVIDER, 200_000, 30).err(),
        Some(ErrorCode::SelfPurchaseNotAllowed)
    );
    // Underpayment and gross overpayment.
    assert_eq!(
        prepare_purchase(&l, &config, BUYER, 199_999, 30).err(),
        Some(ErrorCode::InsufficientFunds)
    );
    assert_eq!(
        prepare_purchase(&l, &config, BUYER, 2_000_001, 30).err(),
        Some(ErrorCode::ExcessivePayment)
    );
    // Paused platform wins over everything.
    update_platform_config(&mut config, AUTHORITY, None, None, Some(true)).unwrap();
    assert_eq!(
        prepare_purchase(&l, &config, BUYER, 200_000, 30).err(),
        Some(ErrorCode::PlatformPaused)
    );
    update_platform_config(&mut config, AUTHORITY, None, None, Some(false)).unwrap();
    // Deactivated listing.
    l.is_active = false;
    assert_eq!(
        prepare_purchase(&l, &config, BUYER, 200_000, 30).err(),
        Some(ErrorCode::ListingInactive)
    );
    l.is_active = true;
    // A full owner roster.
    l.max_owners = Some(1);
    l.total_sales = 1;
    assert_eq!(
        prepare_purchase(&l, &config, BUYER, 200_000, 30).err(),
        Some(ErrorCode::MaxOwnersReached)
    );
}

#[test]
fn expired_listing_cannot_be_purchased() {
    let mut config = initialize_platform(AUTHORITY, TREASURY);
    let mut l = create_listing(
        7,
        PROVIDER,
        b"Short-lived archive".to_vec(),
        200_000,
        LicenseType::ViewOnly,
        vec![b'c'; 64],
        rights(),
        0,
        None,
        Some(1),
        1_000,
    )
    .unwrap();
    verify(&mut l, 2_000);
    let after_expiry = 1_000 + 86_400 + 1;
    assert_eq!(
        prepare_purchase(&l, &config, BUYER, 200_000, after_expiry).err(),
        Some(ErrorCode::ListingExpired)
    );
    // At the deadline itself the listing is still purchasable.
    let r = commit_purchase(&mut l, &mut config, BUYER, 200_000, 1_000 + 86_400);
    assert!(r.is_ok());
}

#[test]
fn purchased_license_snapshots_rights_and_meters_access() {
    let mut config = initialize_platform(AUTHORITY, TREASURY);
    let mut l = listing(LicenseType::ViewOnly, 200_000, 10);
    verify(&mut l, 20);
    let mut lic = commit_purchase(&mut l, &mut config, BUYER, 200_000, 30).unwrap();

    // Later listing edits cannot alter the sold license.
    l.usage_rights.commercial_use = false;
    assert!(lic.usage_rights.commercial_use);

    let g = authorize_access(&mut lic, BUYER, AccessType::Api, 40).unwrap();
    assert_eq!(g.owner, BUYER);
    assert_eq!(lic.access_count, 1);
    assert_eq!(lic.last_access, 40);
}

#[test]
fn purchase_counter_overflow_aborts_whole() {
    let mut config = initialize_platform(AUTHORITY, TREASURY);
    let mut l = listing(LicenseType::ViewOnly, 200_000, 10);
    verify(&mut l, 20);
    l.revenue_earned = u64::MAX;

    let r = commit_purchase(&mut l, &mut config, BUYER, 200_000, 30);
    assert_eq!(r.err(), Some(ErrorCode::MathOverflow));
    assert_eq!(l.revenue_earned, u64::MAX, "no partial write on overflow");
    assert_eq!(l.total_sales, 0);
    assert_eq!(config.total_purchases, 0);
}
