use exchainge::errors::ErrorCode;
use exchainge::listing::{create_listing, deactivate_listing, update_listing, Listing};
use exchainge::rights::{LicenseType, UsageRights, VerifierType};

fn rights() -> UsageRights {
    UsageRights {
        commercial_use: true,
        derivative_works_allowed: false,
        redistribution_allowed: false,
        attribution_required: true,
        consent_required: false,
        ai_training_allowed: true,
        geographic_restrictions: false,
    }
}

fn hex_hash() -> Vec<u8> {
    vec![b'a'; 64]
}

fn new_listing() -> Listing {
    create_listing(
        1,
        11,
        b"  Drone survey of the northern coast  ".to_vec(),
        250_000,
        LicenseType::ViewOnly,
        hex_hash(),
        rights(),
        250,
        Some(100),
        Some(30),
        1_000,
    )
    .unwrap()
}

#[test]
fn create_listing_populates_fields() {
    let l = new_listing();
    assert_eq!(l.id, 1);
    assert_eq!(l.provider, 11);
    assert_eq!(l.title, b"Drone survey of the northern coast".to_vec());
    assert_eq!(l.price, 250_000);
    assert!(!l.verification_status);
    assert_eq!(l.commitment, vec![0u8; 32]);
    assert!(l.is_active);
    assert_eq!(l.total_sales, 0);
    assert_eq!(l.revenue_earned, 0);
    assert_eq!(l.created_at, 1_000);
    assert_eq!(l.updated_at, 1_000);
}

#[test]
fn create_listing_rejects_blank_title() {
    let r = create_listing(
        1,
        11,
        b"   ".to_vec(),
        250_000,
        LicenseType::ViewOnly,
        hex_hash(),
        rights(),
        0,
        None,
        None,
        0,
    );
    assert_eq!(r.err(), Some(ErrorCode::InvalidTitle));

    let long = vec![b'x'; 101];
    let r = create_listing(
        1,
        11,
        long,
        250_000,
        LicenseType::ViewOnly,
        hex_hash(),
        rights(),
        0,
        None,
        None,
        0,
    );
    assert_eq!(r.err(), Some(ErrorCode::InvalidTitle));
}

#[test]
fn create_listing_rejects_bad_prices() {
    let r = create_listing(
        1,
        11,
        b"t".to_vec(),
        99_999,
        LicenseType::ViewOnly,
        hex_hash(),
        rights(),
        0,
        None,
        None,
        0,
    );
    assert_eq!(r.err(), Some(ErrorCode::PriceTooLow));

    let r = create_listing(
        1,
        11,
        b"t".to_vec(),
        1_000_000_000_001,
        LicenseType::ViewOnly,
        hex_hash(),
        rights(),
        0,
        None,
        None,
        0,
    );
    assert_eq!(r.err(), Some(ErrorCode::PriceTooHigh));
}

#[test]
fn create_listing_rejects_excessive_royalty() {
    let r = create_listing(
        1,
        11,
        b"t".to_vec(),
        250_000,
        LicenseType::ViewOnly,
        hex_hash(),
        rights(),
        5_001,
        None,
        None,
        0,
    );
    assert_eq!(r.err(), Some(ErrorCode::InvalidRoyalty));
}

#[test]
fn create_listing_rejects_bad_content_hash() {
    // Wrong length for a bare digest and no recognised prefix.
    let r = create_listing(
        1,
        11,
        b"t".to_vec(),
        250_000,
        LicenseType::ViewOnly,
        vec![b'a'; 63],
        rights(),
        0,
        None,
        None,
        0,
    );
    assert_eq!(r.err(), Some(ErrorCode::InvalidContentHash));

    // Empty.
    let r = create_listing(
        1,
        11,
        b"t".to_vec(),
        250_000,
        LicenseType::ViewOnly,
        Vec::new(),
        rights(),
        0,
        None,
        None,
        0,
    );
    assert_eq!(r.err(), Some(ErrorCode::InvalidContentHash));

    // A content-address string with the recognised prefix is accepted.
    let r = create_listing(
        1,
        11,
        b"t".to_vec(),
        250_000,
        LicenseType::ViewOnly,
        b"QmYwAPJzv5CZsnA625s3Xf2nemtYgPpHdWEz79ojWnPbdG".to_vec(),
        rights(),
        0,
        None,
        None,
        0,
    );
    assert!(r.is_ok());
}

#[test]
fn create_listing_rejects_bad_bounds() {
    let r = create_listing(
        1,
        11,
        b"t".to_vec(),
        250_000,
        LicenseType::ViewOnly,
        hex_hash(),
        rights(),
        0,
        Some(0),
        None,
        0,
    );
    assert_eq!(r.err(), Some(ErrorCode::InvalidMaxOwners));

    let r = create_listing(
        1,
        11,
        b"t".to_vec(),
        250_000,
        LicenseType::ViewOnly,
        hex_hash(),
        rights(),
        0,
        Some(10_001),
        None,
        0,
    );
    assert_eq!(r.err(), Some(ErrorCode::InvalidMaxOwners));

    let r = create_listing(
        1,
        11,
        b"t".to_vec(),
        250_000,
        LicenseType::ViewOnly,
        hex_hash(),
        rights(),
        0,
        None,
        Some(3_651),
        0,
    );
    assert_eq!(r.err(), Some(ErrorCode::InvalidLicenseDuration));
}

#[test]
fn update_listing_is_owner_gated() {
    let mut l = new_listing();
    let r = update_listing(&mut l, 999, None, Some(300_000), 2_000);
    assert_eq!(r.err(), Some(ErrorCode::NotDatasetOwner));
    assert_eq!(l.price, 250_000);
}

#[test]
fn update_listing_price_can_only_rise_after_a_sale() {
    let mut l = new_listing();
    l.total_sales = 1;
    let r = update_listing(&mut l, 11, None, Some(200_000), 2_000);
    assert_eq!(r.err(), Some(ErrorCode::PriceDecreaseNotAllowed));
    assert_eq!(l.price, 250_000);

    let r = update_listing(&mut l, 11, None, Some(300_000), 2_000);
    assert!(r.is_ok());
    assert_eq!(l.price, 300_000);
    assert_eq!(l.updated_at, 2_000);
}

#[test]
fn update_listing_sets_trimmed_uri() {
    let mut l = new_listing();
    let r = update_listing(
        &mut l,
        11,
        Some(b"  ipfs://example-metadata  ".to_vec()),
        None,
        2_000,
    );
    assert!(r.is_ok());
    assert_eq!(l.metadata_uri, b"ipfs://example-metadata".to_vec());

    let r = update_listing(&mut l, 11, Some(b"   ".to_vec()), None, 3_000);
    assert_eq!(r.err(), Some(ErrorCode::InvalidUri));
}

#[test]
fn deactivate_listing_is_gated_and_irreversible() {
    let mut l = new_listing();
    let r = deactivate_listing(&mut l, 999, 42, &b"fraud".to_vec());
    assert_eq!(r.err(), Some(ErrorCode::Unauthorized));
    assert!(l.is_active);

    // The platform authority may deactivate.
    let r = deactivate_listing(&mut l, 42, 42, &b"fraud".to_vec());
    assert!(r.is_ok());
    assert!(!l.is_active);
}

#[test]
fn verifier_type_defaults_to_metadata() {
    let default = VerifierType::default();
    assert_eq!(default, VerifierType::Metadata);
}
