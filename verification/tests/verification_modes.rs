use exchainge::errors::ErrorCode;
use exchainge::listing::{create_listing, Listing};
use exchainge::oracle::{add_operator, new_oracle_registry, register_oracle, HardwareOracle, OracleRegistry};
use exchainge::rights::{HardwareType, LicenseType, TrustedHardware, UsageRights};
use exchainge::verification::{build_oracle_message, decode_public_values, verify_hardware, verify_proof};
use sha2::Digest;

const AUTHORITY: u64 = 1;
const PROVIDER: u64 = 11;
const VERIFIER: u64 = 31;
const OPERATOR: u64 = 41;

fn rights() -> UsageRights {
    UsageRights {
        commercial_use: false,
        derivative_works_allowed: false,
        redistribution_allowed: false,
        attribution_required: false,
        consent_required: false,
        ai_training_allowed: false,
        geographic_restrictions: false,
    }
}

fn listing(now: u64) -> Listing {
    create_listing(
        3,
        PROVIDER,
        b"Radar sweep".to_vec(),
        150_000,
        LicenseType::ViewOnly,
        vec![b'f'; 64],
        rights(),
        0,
        None,
        None,
        now,
    )
    .unwrap()
}

fn public_values(commitment: &[u8], score: u8, physics: u8, anti: u8) -> Vec<u8> {
    let mut pv = commitment.to_vec();
    pv.push(score);
    pv.push(physics);
    pv.push(anti);
    pv
}

#[test]
fn proof_verification_accepts_and_promotes() {
    let mut l = listing(10);
    let commitment = vec![5u8; 32];
    let pv = public_values(&commitment, 75, 1, 60);
    let blob = b"raw proof".to_vec();
    let rec = verify_proof(&mut l, VERIFIER, &blob, &pv, &commitment, 99, 50).unwrap();

    assert!(l.verification_status);
    assert_eq!(l.commitment, commitment);
    assert_eq!(l.updated_at, 50);
    assert_eq!(rec.listing_id, 3);
    assert_eq!(rec.verification_score, 75);
    assert_eq!(rec.anti_synthesis_score, 60);
    assert_eq!(rec.nonce, 99);
    // The record stores the digest of the raw proof, not the proof itself.
    let expected: Vec<u8> = sha2::Sha256::digest(b"raw proof").to_vec();
    assert_eq!(rec.proof_digest, expected);
}

#[test]
fn proof_verification_rejects_low_anti_synthesis_score() {
    let mut l = listing(10);
    let commitment = vec![5u8; 32];
    let pv = public_values(&commitment, 75, 1, 59);
    let r = verify_proof(&mut l, VERIFIER, &b"p".to_vec(), &pv, &commitment, 0, 50);
    assert_eq!(r.err(), Some(ErrorCode::LowScore));
    assert!(!l.verification_status, "a failed verification must not promote");
}

#[test]
fn proof_verification_rejects_malformed_evidence() {
    let mut l = listing(10);
    let commitment = vec![5u8; 32];

    // Too short to decode.
    let r = verify_proof(&mut l, VERIFIER, &b"p".to_vec(), &vec![0u8; 34], &commitment, 0, 50);
    assert_eq!(r.err(), Some(ErrorCode::MalformedPublicValues));

    // Commitment in the public values differs from the argument.
    let pv = public_values(&vec![6u8; 32], 75, 1, 75);
    let r = verify_proof(&mut l, VERIFIER, &b"p".to_vec(), &pv, &commitment, 0, 50);
    assert_eq!(r.err(), Some(ErrorCode::CommitmentMismatch));

    // All-zero commitment is refused outright.
    let zero = vec![0u8; 32];
    let pv = public_values(&zero, 75, 1, 75);
    let r = verify_proof(&mut l, VERIFIER, &b"p".to_vec(), &pv, &zero, 0, 50);
    assert_eq!(r.err(), Some(ErrorCode::InvalidCommitment));

    // Physics-consistency flag cleared.
    let pv = public_values(&commitment, 75, 0, 75);
    let r = verify_proof(&mut l, VERIFIER, &b"p".to_vec(), &pv, &commitment, 0, 50);
    assert_eq!(r.err(), Some(ErrorCode::PhysicsCheckFailed));

    // Score above the meaningful range.
    let pv = public_values(&commitment, 101, 1, 75);
    let r = verify_proof(&mut l, VERIFIER, &b"p".to_vec(), &pv, &commitment, 0, 50);
    assert_eq!(r.err(), Some(ErrorCode::InvalidScore));

    assert!(!l.verification_status);
}

#[test]
fn proof_verification_refuses_a_second_run() {
    let mut l = listing(10);
    let commitment = vec![5u8; 32];
    let pv = public_values(&commitment, 75, 1, 75);
    verify_proof(&mut l, VERIFIER, &b"p".to_vec(), &pv, &commitment, 0, 50).unwrap();
    let r = verify_proof(&mut l, VERIFIER, &b"p".to_vec(), &pv, &commitment, 0, 60);
    assert_eq!(r.err(), Some(ErrorCode::AlreadyVerified));
}

#[test]
fn decode_public_values_reads_the_fixed_layout() {
    let mut pv = vec![0u8; 32];
    pv[0] = 0xAA;
    pv[31] = 0xBB;
    pv.push(88);
    pv.push(2);
    pv.push(77);
    let d = decode_public_values(&pv).unwrap();
    assert_eq!(d.commitment[0], 0xAA);
    assert_eq!(d.commitment[31], 0xBB);
    assert_eq!(d.verification_score, 88);
    assert!(d.physics_ok);
    assert_eq!(d.anti_synthesis_score, 77);
}

fn oracle_setup() -> (OracleRegistry, HardwareOracle) {
    let mut reg = new_oracle_registry(AUTHORITY, 144).unwrap();
    add_operator(&mut reg, AUTHORITY, OPERATOR).unwrap();
    let oracle = register_oracle(
        &reg,
        OPERATOR,
        b"drone-7".to_vec(),
        HardwareType::Drone,
        vec![1u8; 32],
        b"cert".to_vec(),
        TrustedHardware::Other,
        5,
    )
    .unwrap();
    (reg, oracle)
}

#[test]
fn hardware_verification_accepts_a_fresh_signature() {
    let (reg, mut oracle) = oracle_setup();
    let mut l = listing(10);
    let now: u64 = 1_000_000;
    let data_hash = b"field-data-hash".to_vec();
    let signature = vec![7u8; 64];

    let rec = verify_hardware(
        &mut l, &reg, &mut oracle, &data_hash, now - 300, &None, &signature, true, 4, now,
    )
    .unwrap();

    assert!(l.verification_status);
    assert_eq!(l.updated_at, now);
    // The commitment is the digest of the attested data hash.
    let expected: Vec<u8> = sha2::Sha256::digest(b"field-data-hash").to_vec();
    assert_eq!(l.commitment, expected);
    let expected_sig: Vec<u8> = sha2::Sha256::digest(&[7u8; 64][..]).to_vec();
    assert_eq!(rec.signature_digest, expected_sig);
    assert_eq!(rec.oracle_operator, OPERATOR);
    assert_eq!(oracle.verifications_today, 1);
    assert_eq!(oracle.total_verifications, 1);
}

#[test]
fn hardware_verification_staleness_boundary_is_inclusive() {
    let now: u64 = 1_000_000;
    let data_hash = b"d".to_vec();
    let signature = vec![7u8; 64];

    // 301 seconds old: stale.
    let (reg, mut oracle) = oracle_setup();
    let mut l = listing(10);
    let r = verify_hardware(
        &mut l, &reg, &mut oracle, &data_hash, now - 301, &None, &signature, true, 0, now,
    );
    assert_eq!(r.err(), Some(ErrorCode::TimestampTooOld));
    assert!(!l.verification_status);
    assert_eq!(oracle.verifications_today, 0, "a rejection must not count");

    // Exactly 300 seconds old: accepted.
    let r = verify_hardware(
        &mut l, &reg, &mut oracle, &data_hash, now - 300, &None, &signature, true, 0, now,
    );
    assert!(r.is_ok());

    // Future-dated: rejected.
    let (reg2, mut oracle2) = oracle_setup();
    let mut l2 = listing(10);
    let r = verify_hardware(
        &mut l2, &reg2, &mut oracle2, &data_hash, now + 1, &None, &signature, true, 0, now,
    );
    assert_eq!(r.err(), Some(ErrorCode::TimestampInFuture));
}

#[test]
fn hardware_verification_authorization_failures() {
    let now: u64 = 1_000_000;
    let data_hash = b"d".to_vec();
    let signature = vec![7u8; 64];

    // Inactive oracle.
    let (reg, mut oracle) = oracle_setup();
    oracle.is_active = false;
    let mut l = listing(10);
    let r = verify_hardware(
        &mut l, &reg, &mut oracle, &data_hash, now, &None, &signature, true, 0, now,
    );
    assert_eq!(r.err(), Some(ErrorCode::OracleInactive));

    // Operator not on the allow-list.
    let (_, mut oracle) = oracle_setup();
    let empty_reg = new_oracle_registry(AUTHORITY, 144).unwrap();
    let r = verify_hardware(
        &mut l, &empty_reg, &mut oracle, &data_hash, now, &None, &signature, true, 0, now,
    );
    assert_eq!(r.err(), Some(ErrorCode::OracleNotWhitelisted));

    // External verifier said no.
    let (reg, mut oracle) = oracle_setup();
    let r = verify_hardware(
        &mut l, &reg, &mut oracle, &data_hash, now, &None, &signature, false, 0, now,
    );
    assert_eq!(r.err(), Some(ErrorCode::SignatureVerificationFailed));

    // Malformed signature.
    let r = verify_hardware(
        &mut l, &reg, &mut oracle, &data_hash, now, &None, &vec![7u8; 63], true, 0, now,
    );
    assert_eq!(r.err(), Some(ErrorCode::InvalidSignature));
}

#[test]
fn canonical_message_layout_is_exact() {
    let msg = build_oracle_message(1, &vec![0xAB, 0xCD], 2, &None);
    let mut expected = vec![1, 0, 0, 0, 0, 0, 0, 0]; // listing id, little endian
    expected.extend_from_slice(&[2, 0, 0, 0, 0, 0, 0, 0]); // timestamp
    expected.extend_from_slice(&[2, 0, 0, 0, 0, 0, 0, 0]); // hash length
    expected.extend_from_slice(&[0xAB, 0xCD]);
    expected.push(0); // no location
    assert_eq!(msg, expected);

    let msg = build_oracle_message(1, &vec![0xAB], 2, &Some(vec![0xEE]));
    let mut expected = vec![1, 0, 0, 0, 0, 0, 0, 0];
    expected.extend_from_slice(&[2, 0, 0, 0, 0, 0, 0, 0]);
    expected.extend_from_slice(&[1, 0, 0, 0, 0, 0, 0, 0]);
    expected.push(0xAB);
    expected.push(1); // location present
    expected.extend_from_slice(&[1, 0, 0, 0, 0, 0, 0, 0]);
    expected.push(0xEE);
    assert_eq!(msg, expected);
}
