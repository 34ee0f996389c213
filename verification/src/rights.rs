//! License taxonomy, usage rights and related tagged unions.

use vstd::prelude::*;

verus! {

/// License bucket a listing is sold under. Exclusive variants admit a single
/// sale; the plain exclusive one is retired (deactivated) once sold, while the
/// transferable one stays active for later transfer-market flows.
#[derive(Clone, Copy, Debug, PartialEq, Eq, Structural)]
pub enum LicenseType {
    ViewOnly,
    ViewOnlyShared,
    SharedOwnership,
    Exclusive,
    TransferableExclusive,
}

impl LicenseType {
    /// Whether this license bucket admits at most one sale.
    pub open spec fn spec_is_exclusive(self) -> bool {
        self == LicenseType::Exclusive || self == LicenseType::TransferableExclusive
    }

    /// Executable twin of `spec_is_exclusive`.
    #[verifier::when_used_as_spec(spec_is_exclusive)]
    pub fn is_exclusive(self) -> (r: bool)
        ensures
            r == self.spec_is_exclusive(),
    {
        match self {
            LicenseType::Exclusive => true,
            LicenseType::TransferableExclusive => true,
            _ => false,
        }
    }
}

/// Boolean usage permissions attached to a listing and copied into each
/// license at purchase time, so later listing edits cannot retroactively
/// alter a sold license.
#[derive(Clone, Copy, Debug, PartialEq, Eq, Structural)]
pub struct UsageRights {
    pub commercial_use: bool,
    pub derivative_works_allowed: bool,
    pub redistribution_allowed: bool,
    pub attribution_required: bool,
    pub consent_required: bool,
    pub ai_training_allowed: bool,
    pub geographic_restrictions: bool,
}

/// Class of access a license holder requests. Each class is gated by a
/// different snapshotted usage right.
#[derive(Clone, Copy, Debug, PartialEq, Eq, Structural)]
pub enum AccessType {
    /// Plain download or stream; needs no extra right.
    Download,
    /// API-class access; requires `commercial_use`.
    Api,
    /// Compute-class access such as training in place; requires
    /// `ai_training_allowed`.
    Compute,
}

/// Which engine produced a verification verdict.
#[derive(Clone, Copy, Debug, PartialEq, Eq, Structural)]
pub enum VerifierType {
    Metadata,
    AiAgent,
    ZkProof,
    HardwareAttestation,
}

impl Default for VerifierType {
    /// The default verifier is the plain metadata check.
    fn default() -> (r: Self)
        ensures
            r == VerifierType::Metadata,
    {
        VerifierType::Metadata
    }
}

/// Proof primitives a verification record may carry.
#[derive(Clone, Copy, Debug, PartialEq, Eq, Structural)]
pub enum ProofType {
    ZkProofOfPossession,
    MerkleRoot,
    DigitalSignature,
    PhysicsConsistency,
    Custom,
}

/// Types of hardware that can serve as oracles.
#[derive(Clone, Copy, Debug, PartialEq, Eq, Structural)]
pub enum HardwareType {
    Drone,
    Robot,
    IoTSensor,
    Satellite,
    WeatherStation,
    Vehicle,
    Custom,
}

/// Trusted hardware families whitelisted up-front, each with its
/// vendor-specific payload.
#[derive(Debug, PartialEq, Eq)]
pub enum TrustedHardware {
    DjiDrone { serial: Vec<u8>, firmware_hash: Vec<u8> },
    NvidiaJetson { device_id: Vec<u8>, silicon_id: Vec<u8> },
    QualcommRb5 { device_id: Vec<u8>, firmware_hash: Vec<u8> },
    Other,
}

} // verus!
