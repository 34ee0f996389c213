//! Unified error taxonomy for every rejected operation.
//!
//! Each rejection carries a distinct reason so that callers and tests can
//! assert precisely why an operation failed. Failures are always total: a
//! function that returns one of these has mutated nothing.

use vstd::prelude::*;

verus! {

/// Reason an operation was rejected. Grouped by kind: validation of input,
/// authorization, state conflict, arithmetic, and external-dependency failure.
#[derive(Clone, Copy, Debug, PartialEq, Eq, Structural)]
pub enum ErrorCode {
    // Validation: malformed or out-of-range input.
    InvalidTitle,
    PriceTooLow,
    PriceTooHigh,
    InvalidRoyalty,
    InvalidContentHash,
    InvalidMaxOwners,
    InvalidLicenseDuration,
    InvalidUri,
    InvalidInternalKey,
    InvalidFileKey,
    InvalidFileSize,
    InvalidScore,
    LowScore,
    MalformedPublicValues,
    InvalidCommitment,
    CommitmentMismatch,
    PhysicsCheckFailed,
    EmptyDataHash,
    HashTooLong,
    LocationHashTooLong,
    InvalidSignature,
    InvalidPublicKey,
    EmptyHardwareId,
    HardwareIdTooLong,
    EmptyCertificationHash,
    CertificationHashTooLong,
    InvalidDatasetHash,
    InvalidRateLimit,
    OperatorListTooLong,
    ReasonTooLong,
    PriceDecreaseNotAllowed,
    InvalidFeeBps,
    // Authorization: wrong signer, owner or operator.
    Unauthorized,
    NotDatasetOwner,
    SelfPurchaseNotAllowed,
    OracleInactive,
    OracleNotWhitelisted,
    // State conflict: the records refuse the transition.
    PlatformPaused,
    ListingInactive,
    ListingExpired,
    DatasetNotVerified,
    AlreadyVerified,
    ExclusiveLicenseAlreadySold,
    MaxOwnersReached,
    LicenseExpired,
    LicenseRevoked,
    UsageLimitReached,
    RateLimitExceeded,
    TimestampTooOld,
    TimestampInFuture,
    CommercialUseNotLicensed,
    AiTrainingNotLicensed,
    InsufficientFunds,
    ExcessivePayment,
    // Arithmetic: the whole operation aborts with no partial write.
    MathOverflow,
    MathUnderflow,
    DivisionByZero,
    // External dependency reported failure.
    PaymentFailed,
    SignatureVerificationFailed,
}

} // verus!
