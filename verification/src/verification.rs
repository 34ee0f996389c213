//! Verification engine: promotes a listing to verified.
//!
//! Two evidence modes share one outcome. In proof-of-computation mode the
//! caller supplies an opaque proof blob plus the public values an external
//! proof verifier decoded; this engine validates the decoded result and
//! refuses an all-zero or malformed one. In hardware-oracle mode the caller
//! supplies a signed attestation; the external signature verifier's verdict
//! over the exact canonical message built here is handed in as a plain
//! boolean, and this engine owns freshness, allow-listing and the daily
//! quota. Either way, a listing verifies at most once, raw evidence bytes are
//! digested rather than stored, and a rejection mutates nothing.

use vstd::prelude::*;

use crate::digest::{sha256_digest, sha256_of};
use crate::errors::ErrorCode;
use crate::listing::{Listing, DIGEST_LEN};
use crate::oracle::{count_today, day_of, HardwareOracle, OracleRegistry};
use crate::rights::{ProofType, VerifierType};
use crate::text::{all_zero, bytes_eq, copy_bytes, is_all_zero};

verus! {

/// Scores below this threshold are refused.
pub const MIN_SCORE: u8 = 60;

/// Highest meaningful score.
pub const MAX_SCORE: u8 = 100;

/// Shortest accepted public-values blob: a 32-byte commitment, a score byte,
/// a physics-consistency byte and an anti-synthesis score byte.
pub const PUBLIC_VALUES_MIN_LEN: usize = 35;

/// Oldest accepted hardware-signature timestamp, in seconds before `now`
/// (inclusive).
pub const HARDWARE_SIGNATURE_MAX_AGE: u64 = 300;

/// Exact length of a detached hardware signature, in bytes.
pub const SIGNATURE_LEN: usize = 64;

/// Longest accepted location hash, in bytes.
pub const MAX_LOCATION_LEN: usize = 100;

/// Fixed-layout result decoded out of a public-values blob.
pub struct DecodedProof {
    /// Data commitment the proof binds to.
    pub commitment: Vec<u8>,
    /// Verification score, 0 to 100.
    pub verification_score: u8,
    /// Whether the physics-consistency check passed.
    pub physics_ok: bool,
    /// Anti-synthesis score, 0 to 100.
    pub anti_synthesis_score: u8,
}

/// Parses the fixed layout out of a public-values blob: bytes 0..32 are the
/// commitment, byte 32 the verification score, byte 33 the physics flag
/// (non-zero means passed), byte 34 the anti-synthesis score.
pub fn decode_public_values(pv: &Vec<u8>) -> (r: Result<DecodedProof, ErrorCode>)
    ensures
        match r {
            Ok(d) => {
                &&& pv@.len() >= PUBLIC_VALUES_MIN_LEN
                &&& d.commitment@ == pv@.subrange(0, DIGEST_LEN as int)
                &&& d.verification_score == pv@[32]
                &&& d.physics_ok == (pv@[33] != 0)
                &&& d.anti_synthesis_score == pv@[34]
            },
            Err(e) => {
                &&& e == ErrorCode::MalformedPublicValues
                &&& pv@.len() < PUBLIC_VALUES_MIN_LEN
            },
        },
{
    if pv.len() < PUBLIC_VALUES_MIN_LEN {
        return Err(ErrorCode::MalformedPublicValues);
    }
    let mut commitment: Vec<u8> = Vec::new();
    let mut i: usize = 0;
    while i < DIGEST_LEN
        invariant
            0 <= i <= DIGEST_LEN,
            pv@.len() >= PUBLIC_VALUES_MIN_LEN,
            commitment@ == pv@.subrange(0, i as int),
        decreases DIGEST_LEN - i,
    {
        commitment.push(pv[i]);
        proof {
            assert(pv@.subrange(0, i + 1 as int) =~= pv@.subrange(0, i as int).push(
                pv@[i as int],
            ));
        }
        i = i + 1;
    }
    Ok(
        DecodedProof {
            commitment,
            verification_score: pv[32],
            physics_ok: pv[33] != 0,
            anti_synthesis_score: pv[34],
        },
    )
}

/// Tamper-evident record of an accepted proof-of-computation verification.
pub struct VerificationRecord {
    /// The listing this record attests.
    pub listing_id: u64,
    /// Identity that submitted the evidence.
    pub verifier: u64,
    /// Which engine produced the verdict.
    pub verifier_type: VerifierType,
    /// Proof primitive the evidence used.
    pub proof_type: ProofType,
    /// Accepted data commitment.
    pub commitment: Vec<u8>,
    /// SHA-256 digest of the raw proof blob; the blob itself is not stored.
    pub proof_digest: Vec<u8>,
    /// Verification score from the decoded result.
    pub verification_score: u8,
    /// Anti-synthesis score from the decoded result.
    pub anti_synthesis_score: u8,
    /// Physics-consistency verdict from the decoded result.
    pub physics_ok: bool,
    /// When the verification was accepted.
    pub verified_at: u64,
    /// Anti-replay nonce supplied by the caller.
    pub nonce: u64,
}

/// First reason the proof-of-computation mode would refuse this evidence for
/// listing `l`, if any.
pub open spec fn verify_proof_check(
    l: Listing,
    public_values: Seq<u8>,
    commitment: Seq<u8>,
    now: u64,
) -> Option<ErrorCode> {
    if l.verification_status {
        Some(ErrorCode::AlreadyVerified)
    } else if l.spec_expired(now) {
        Some(ErrorCode::ListingExpired)
    } else if public_values.len() < PUBLIC_VALUES_MIN_LEN {
        Some(ErrorCode::MalformedPublicValues)
    } else if public_values.subrange(0, DIGEST_LEN as int) != commitment {
        Some(ErrorCode::CommitmentMismatch)
    } else if all_zero(commitment) {
        Some(ErrorCode::InvalidCommitment)
    } else if public_values[32] > MAX_SCORE || public_values[34] > MAX_SCORE {
        Some(ErrorCode::InvalidScore)
    } else if public_values[32] < MIN_SCORE {
        Some(ErrorCode::LowScore)
    } else if public_values[34] < MIN_SCORE {
        Some(ErrorCode::LowScore)
    } else if public_values[33] == 0 {
        Some(ErrorCode::PhysicsCheckFailed)
    } else {
        None
    }
}

/// Proof-of-computation verification. The external proof verifier has already
/// run; this engine validates the decoded result: the commitment in the
/// public values must equal the commitment argument and be non-zero, both
/// scores must reach the threshold, and the physics flag must be set. On
/// success the listing is promoted to verified and the raw proof blob is
/// digested into the record. On any rejection the listing is untouched.
pub fn verify_proof(
    l: &mut Listing,
    verifier: u64,
    proof_bytes: &Vec<u8>,
    public_values: &Vec<u8>,
    commitment: &Vec<u8>,
    nonce: u64,
    now: u64,
) -> (r: Result<VerificationRecord, ErrorCode>)
    requires
        old(l).wf(),
    ensures
        final(l).wf(),
        match r {
            Ok(rec) => {
                &&& verify_proof_check(*old(l), public_values@, commitment@, now) is None
                &&& final(l).commitment@ == commitment@
                &&& *final(l) == (Listing {
                    verification_status: true,
                    commitment: final(l).commitment,
                    updated_at: now,
                    ..*old(l)
                })
                &&& rec.listing_id == old(l).id
                &&& rec.verifier == verifier
                &&& rec.verifier_type == VerifierType::ZkProof
                &&& rec.proof_type == ProofType::ZkProofOfPossession
                &&& rec.commitment@ == commitment@
                &&& rec.proof_digest@ == sha256_of(proof_bytes@)
                &&& rec.verification_score == public_values@[32]
                &&& rec.anti_synthesis_score == public_values@[34]
                &&& rec.physics_ok == true
                &&& rec.verified_at == now
                &&& rec.nonce == nonce
            },
            Err(e) => {
                &&& verify_proof_check(*old(l), public_values@, commitment@, now) == Some(e)
                &&& *final(l) == *old(l)
            },
        },
{
    if l.verification_status {
        return Err(ErrorCode::AlreadyVerified);
    }
    if l.is_expired(now) {
        return Err(ErrorCode::ListingExpired);
    }
    let decoded = match decode_public_values(public_values) {
        Ok(d) => d,
        Err(e) => {
            return Err(e);
        },
    };
    if !bytes_eq(&decoded.commitment, commitment) {
        return Err(ErrorCode::CommitmentMismatch);
    }
    if is_all_zero(commitment) {
        return Err(ErrorCode::InvalidCommitment);
    }
    if decoded.verification_score > MAX_SCORE || decoded.anti_synthesis_score > MAX_SCORE {
        return Err(ErrorCode::InvalidScore);
    }
    if decoded.verification_score < MIN_SCORE {
        return Err(ErrorCode::LowScore);
    }
    if decoded.anti_synthesis_score < MIN_SCORE {
        return Err(ErrorCode::LowScore);
    }
    if !decoded.physics_ok {
        return Err(ErrorCode::PhysicsCheckFailed);
    }
    let proof_digest = sha256_digest(proof_bytes);
    let rec = VerificationRecord {
        listing_id: l.id,
        verifier,
        verifier_type: VerifierType::ZkProof,
        proof_type: ProofType::ZkProofOfPossession,
        commitment: decoded.commitment,
        proof_digest,
        verification_score: decoded.verification_score,
        anti_synthesis_score: decoded.anti_synthesis_score,
        physics_ok: decoded.physics_ok,
        verified_at: now,
        nonce,
    };
    l.verification_status = true;
    l.commitment = copy_bytes(commitment);
    l.updated_at = now;
    Ok(rec)
}

/// The canonical message a hardware oracle signs: the listing id, the
/// timestamp, the length-prefixed data hash, and the optional length-prefixed
/// location, in that order, with all integers as 8-byte little-endian. The
/// length prefixes keep the encoding injective, so any byte change in any
/// field produces a different message.
pub open spec fn canonical_oracle_message(
    listing_id: u64,
    data_hash: Seq<u8>,
    timestamp: u64,
    location: Option<Seq<u8>>,
) -> Seq<u8> {
    vstd::bytes::spec_u64_to_le_bytes(listing_id) + vstd::bytes::spec_u64_to_le_bytes(timestamp)
        + vstd::bytes::spec_u64_to_le_bytes(data_hash.len() as u64) + data_hash + (match location {
        Some(loc) => seq![1u8] + vstd::bytes::spec_u64_to_le_bytes(loc.len() as u64) + loc,
        None => seq![0u8],
    })
}

/// Builds the canonical byte message the oracle must have signed. The caller
/// hands this to the external signature verifier together with the oracle's
/// registered public key.
pub fn build_oracle_message(
    listing_id: u64,
    data_hash: &Vec<u8>,
    timestamp: u64,
    location: &Option<Vec<u8>>,
) -> (r: Vec<u8>)
    ensures
        r@ == canonical_oracle_message(
            listing_id,
            data_hash@,
            timestamp,
            match location {
                Some(loc) => Some(loc@),
                None => None,
            },
        ),
{
    let mut msg = vstd::bytes::u64_to_le_bytes(listing_id);
    let mut ts = vstd::bytes::u64_to_le_bytes(timestamp);
    msg.append(&mut ts);
    let mut hash_len = vstd::bytes::u64_to_le_bytes(data_hash.len() as u64);
    msg.append(&mut hash_len);
    let mut hash_copy = copy_bytes(data_hash);
    msg.append(&mut hash_copy);
    match location {
        Some(loc) => {
            msg.push(1);
            let mut loc_len = vstd::bytes::u64_to_le_bytes(loc.len() as u64);
            msg.append(&mut loc_len);
            let mut loc_copy = copy_bytes(loc);
            msg.append(&mut loc_copy);
        },
        None => {
            msg.push(0);
        },
    }
    proof {
        assert(msg@ =~= canonical_oracle_message(
            listing_id,
            data_hash@,
            timestamp,
            match location {
                Some(loc) => Some(loc@),
                None => None,
            },
        ));
    }
    msg
}

/// The canonical message pins its inputs down: two attestations that differ
/// anywhere (listing, data hash, timestamp or location) canonically encode
/// to different byte strings, so a signature over one can never be replayed
/// as a signature over the other. This is the engine's half of the
/// tamper-evidence requirement; the external verifier's half is rejecting a
/// changed message.
pub proof fn lemma_canonical_message_injective(
    id1: u64,
    h1: Seq<u8>,
    t1: u64,
    loc1: Option<Seq<u8>>,
    id2: u64,
    h2: Seq<u8>,
    t2: u64,
    loc2: Option<Seq<u8>>,
)
    requires
        canonical_oracle_message(id1, h1, t1, loc1) == canonical_oracle_message(
            id2,
            h2,
            t2,
            loc2,
        ),
        h1.len() <= u64::MAX,
        h2.len() <= u64::MAX,
        (loc1 matches Some(l) ==> l.len() <= u64::MAX),
        (loc2 matches Some(l) ==> l.len() <= u64::MAX),
    ensures
        id1 == id2,
        h1 == h2,
        t1 == t2,
        loc1 == loc2,
{
    vstd::bytes::lemma_auto_spec_u64_to_from_le_bytes();
    let m1 = canonical_oracle_message(id1, h1, t1, loc1);
    let m2 = canonical_oracle_message(id2, h2, t2, loc2);
    let hl1 = h1.len() as int;
    let hl2 = h2.len() as int;
    assert(m1.subrange(0, 8) =~= vstd::bytes::spec_u64_to_le_bytes(id1));
    assert(m2.subrange(0, 8) =~= vstd::bytes::spec_u64_to_le_bytes(id2));
    assert(id1 == id2) by {
        assert(vstd::bytes::spec_u64_from_le_bytes(vstd::bytes::spec_u64_to_le_bytes(id1))
            == vstd::bytes::spec_u64_from_le_bytes(vstd::bytes::spec_u64_to_le_bytes(id2)));
    }
    assert(m1.subrange(8, 16) =~= vstd::bytes::spec_u64_to_le_bytes(t1));
    assert(m2.subrange(8, 16) =~= vstd::bytes::spec_u64_to_le_bytes(t2));
    assert(t1 == t2) by {
        assert(vstd::bytes::spec_u64_from_le_bytes(vstd::bytes::spec_u64_to_le_bytes(t1))
            == vstd::bytes::spec_u64_from_le_bytes(vstd::bytes::spec_u64_to_le_bytes(t2)));
    }
    assert(m1.subrange(16, 24) =~= vstd::bytes::spec_u64_to_le_bytes(h1.len() as u64));
    assert(m2.subrange(16, 24) =~= vstd::bytes::spec_u64_to_le_bytes(h2.len() as u64));
    assert(h1.len() as u64 == h2.len() as u64) by {
        assert(vstd::bytes::spec_u64_from_le_bytes(
            vstd::bytes::spec_u64_to_le_bytes(h1.len() as u64),
        ) == vstd::bytes::spec_u64_from_le_bytes(
            vstd::bytes::spec_u64_to_le_bytes(h2.len() as u64),
        ));
    }
    assert(hl1 == hl2);
    assert(m1.subrange(24, 24 + hl1) =~= h1);
    assert(m2.subrange(24, 24 + hl2) =~= h2);
    assert(h1 =~= h2);
    // The tag byte after the data hash tells the two location shapes apart.
    let tail1 = m1.subrange(24 + hl1, m1.len() as int);
    let tail2 = m2.subrange(24 + hl2, m2.len() as int);
    assert(tail1 =~= tail2);
    match loc1 {
        Some(l1) => {
            assert(tail1[0] == 1);
            match loc2 {
                Some(l2) => {
                    let ll1 = l1.len() as int;
                    let ll2 = l2.len() as int;
                    assert(tail1.subrange(1, 9) =~= vstd::bytes::spec_u64_to_le_bytes(
                        l1.len() as u64,
                    ));
                    assert(tail2.subrange(1, 9) =~= vstd::bytes::spec_u64_to_le_bytes(
                        l2.len() as u64,
                    ));
                    assert(l1.len() as u64 == l2.len() as u64) by {
                        assert(vstd::bytes::spec_u64_from_le_bytes(
                            vstd::bytes::spec_u64_to_le_bytes(l1.len() as u64),
                        ) == vstd::bytes::spec_u64_from_le_bytes(
                            vstd::bytes::spec_u64_to_le_bytes(l2.len() as u64),
                        ));
                    }
                    assert(ll1 == ll2);
                    assert(tail1.subrange(9, 9 + ll1) =~= l1);
                    assert(tail2.subrange(9, 9 + ll2) =~= l2);
                    assert(l1 =~= l2);
                },
                None => {
                    assert(tail2[0] == 0);
                },
            }
        },
        None => {
            assert(tail1[0] == 0);
            match loc2 {
                Some(_) => {
                    assert(tail2[0] == 1);
                },
                None => {},
            }
        },
    }
}

/// Record of an accepted hardware-oracle verification.
pub struct HardwareVerification {
    /// The listing this record attests.
    pub listing_id: u64,
    /// Operator identity of the oracle that signed.
    pub oracle_operator: u64,
    /// Proof primitive the evidence used: a detached digital signature.
    pub proof_type: ProofType,
    /// Data hash the oracle attested.
    pub data_hash: Vec<u8>,
    /// SHA-256 digest of the detached signature; the signature itself is not
    /// stored.
    pub signature_digest: Vec<u8>,
    /// When the oracle signed.
    pub timestamp: u64,
    /// Optional location hash the oracle attested.
    pub location_hash: Option<Vec<u8>>,
    /// When the verification was accepted.
    pub verified_at: u64,
    /// Anti-replay nonce supplied by the caller.
    pub nonce: u64,
}

/// First reason the hardware-oracle mode would refuse this attestation, if
/// any. `signature_valid` is the external verifier's verdict on the canonical
/// message and the oracle's registered key.
pub open spec fn verify_hardware_check(
    l: Listing,
    reg: OracleRegistry,
    o: HardwareOracle,
    data_hash: Seq<u8>,
    timestamp: u64,
    location: Option<Seq<u8>>,
    signature: Seq<u8>,
    signature_valid: bool,
    now: u64,
) -> Option<ErrorCode> {
    if !o.is_active {
        Some(ErrorCode::OracleInactive)
    } else if !reg.allowed_operators@.contains(o.operator) {
        Some(ErrorCode::OracleNotWhitelisted)
    } else if data_hash.len() == 0 {
        Some(ErrorCode::EmptyDataHash)
    } else if data_hash.len() > crate::listing::MAX_HASH_LEN {
        Some(ErrorCode::HashTooLong)
    } else if location matches Some(loc) && loc.len() > MAX_LOCATION_LEN {
        Some(ErrorCode::LocationHashTooLong)
    } else if timestamp > now {
        Some(ErrorCode::TimestampInFuture)
    } else if now - timestamp > HARDWARE_SIGNATURE_MAX_AGE {
        Some(ErrorCode::TimestampTooOld)
    } else if signature.len() != SIGNATURE_LEN {
        Some(ErrorCode::InvalidSignature)
    } else if !signature_valid {
        Some(ErrorCode::SignatureVerificationFailed)
    } else if l.verification_status {
        Some(ErrorCode::AlreadyVerified)
    } else if l.spec_expired(now) {
        Some(ErrorCode::ListingExpired)
    } else if count_today(o, now) + 1 > reg.max_verifications_per_day {
        Some(ErrorCode::RateLimitExceeded)
    } else {
        None
    }
}

/// Hardware-oracle verification. Requires an active, allow-listed oracle, a
/// fresh timestamp (at most the maximum age in the past, inclusive, and never
/// in the future), and a signature the external verifier accepted over the
/// canonical message. Counts the verification against the oracle's daily
/// quota, lapsing the counter first when the day has advanced. On success the
/// listing's commitment becomes the digest of the attested data hash. On any
/// rejection both the listing and the oracle are untouched.
pub fn verify_hardware(
    l: &mut Listing,
    reg: &OracleRegistry,
    o: &mut HardwareOracle,
    data_hash: &Vec<u8>,
    timestamp: u64,
    location: &Option<Vec<u8>>,
    signature: &Vec<u8>,
    signature_valid: bool,
    nonce: u64,
    now: u64,
) -> (r: Result<HardwareVerification, ErrorCode>)
    requires
        old(l).wf(),
        old(o).wf(),
        reg.wf(),
    ensures
        final(l).wf(),
        final(o).wf(),
        match r {
            Ok(rec) => {
                &&& verify_hardware_check(
                    *old(l),
                    *reg,
                    *old(o),
                    data_hash@,
                    timestamp,
                    match location {
                        Some(loc) => Some(loc@),
                        None => None,
                    },
                    signature@,
                    signature_valid,
                    now,
                ) is None
                &&& old(o).total_verifications < u64::MAX
                &&& final(l).commitment@ == sha256_of(data_hash@)
                &&& *final(l) == (Listing {
                    verification_status: true,
                    commitment: final(l).commitment,
                    updated_at: now,
                    ..*old(l)
                })
                &&& *final(o) == (HardwareOracle {
                    last_verification_day: (day_of(now)) as u64,
                    verifications_today: (count_today(*old(o), now) + 1) as u16,
                    total_verifications: (old(o).total_verifications + 1) as u64,
                    ..*old(o)
                })
                &&& rec.listing_id == old(l).id
                &&& rec.oracle_operator == old(o).operator
                &&& rec.proof_type == ProofType::DigitalSignature
                &&& rec.data_hash@ == data_hash@
                &&& rec.signature_digest@ == sha256_of(signature@)
                &&& rec.timestamp == timestamp
                &&& (match location {
                    Some(b) => rec.location_hash matches Some(a) && a@ == b@,
                    None => rec.location_hash is None,
                })
                &&& rec.verified_at == now
                &&& rec.nonce == nonce
            },
            Err(e) => {
                &&& *final(l) == *old(l)
                &&& *final(o) == *old(o)
                &&& (match verify_hardware_check(
                    *old(l),
                    *reg,
                    *old(o),
                    data_hash@,
                    timestamp,
                    match location {
                        Some(loc) => Some(loc@),
                        None => None,
                    },
                    signature@,
                    signature_valid,
                    now,
                ) {
                    Some(reason) => e == reason,
                    None => e == ErrorCode::MathOverflow && old(o).total_verifications
                        == u64::MAX,
                })
            },
        },
{
    if !o.is_active {
        return Err(ErrorCode::OracleInactive);
    }
    if !crate::oracle::is_operator_allowed(reg, o.operator) {
        return Err(ErrorCode::OracleNotWhitelisted);
    }
    if data_hash.len() == 0 {
        return Err(ErrorCode::EmptyDataHash);
    }
    if data_hash.len() > crate::listing::MAX_HASH_LEN {
        return Err(ErrorCode::HashTooLong);
    }
    match location {
        Some(loc) => {
            if loc.len() > MAX_LOCATION_LEN {
                return Err(ErrorCode::LocationHashTooLong);
            }
        },
        None => {},
    }
    if timestamp > now {
        return Err(ErrorCode::TimestampInFuture);
    }
    if now - timestamp > HARDWARE_SIGNATURE_MAX_AGE {
        return Err(ErrorCode::TimestampTooOld);
    }
    if signature.len() != SIGNATURE_LEN {
        return Err(ErrorCode::InvalidSignature);
    }
    if !signature_valid {
        return Err(ErrorCode::SignatureVerificationFailed);
    }
    if l.verification_status {
        return Err(ErrorCode::AlreadyVerified);
    }
    if l.is_expired(now) {
        return Err(ErrorCode::ListingExpired);
    }
    match crate::oracle::note_verification(o, reg.max_verifications_per_day, now) {
        Ok(()) => {},
        Err(e) => {
            return Err(e);
        },
    }
    let commitment = sha256_digest(data_hash);
    let signature_digest = sha256_digest(signature);
    let rec = HardwareVerification {
        listing_id: l.id,
        oracle_operator: o.operator,
        proof_type: ProofType::DigitalSignature,
        data_hash: copy_bytes(data_hash),
        signature_digest,
        timestamp,
        location_hash: match location {
            Some(loc) => Some(copy_bytes(loc)),
            None => None,
        },
        verified_at: now,
        nonce,
    };
    l.verification_status = true;
    l.commitment = commitment;
    l.updated_at = now;
    Ok(rec)
}

} // verus!
