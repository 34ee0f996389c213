//! Oracle registry and rate limiter.
//!
//! Hardware oracles attest data authenticity by signature. Onboarding is
//! gated by an operator allow-list, and each oracle is bounded to a daily
//! verification quota via a stored last-counted day and a lazy
//! reset-on-write, so no scheduler is needed inside the core.

use vstd::prelude::*;

use crate::errors::ErrorCode;
use crate::listing::SECONDS_PER_DAY;
use crate::rights::{HardwareType, TrustedHardware};

verus! {

/// Most operators the allow-list can hold.
pub const MAX_OPERATORS: usize = 64;

/// Longest accepted hardware identifier, in bytes.
pub const MAX_HARDWARE_ID_LEN: usize = 64;

/// Longest accepted certification hash, in bytes.
pub const MAX_CERTIFICATION_LEN: usize = 200;

/// Exact length of an oracle's registered public key, in bytes.
pub const PUBLIC_KEY_LEN: usize = 32;

/// Registry gating hardware-oracle onboarding and quotas.
pub struct OracleRegistry {
    /// Identity allowed to change the allow-list.
    pub authority: u64,
    /// Operators allowed to register oracles.
    pub allowed_operators: Vec<u64>,
    /// Daily verification quota applied to every oracle.
    pub max_verifications_per_day: u16,
}

impl OracleRegistry {
    /// Well-formedness: the list stays bounded and the quota positive.
    pub open spec fn wf(self) -> bool {
        &&& self.allowed_operators@.len() <= MAX_OPERATORS
        &&& self.max_verifications_per_day > 0
    }
}

/// Creates an oracle registry with an empty allow-list. A zero quota would
/// shut the verification path off entirely and is refused.
pub fn new_oracle_registry(authority: u64, max_verifications_per_day: u16) -> (r: Result<
    OracleRegistry,
    ErrorCode,
>)
    ensures
        match r {
            Ok(reg) => {
                &&& max_verifications_per_day > 0
                &&& reg.wf()
                &&& reg.authority == authority
                &&& reg.allowed_operators@ == Seq::<u64>::empty()
                &&& reg.max_verifications_per_day == max_verifications_per_day
            },
            Err(e) => e == ErrorCode::InvalidRateLimit && max_verifications_per_day == 0,
        },
{
    if max_verifications_per_day == 0 {
        return Err(ErrorCode::InvalidRateLimit);
    }
    let allowed_operators: Vec<u64> = Vec::new();
    proof {
        assert(allowed_operators@ =~= Seq::<u64>::empty());
    }
    Ok(OracleRegistry { authority, allowed_operators, max_verifications_per_day })
}

/// Whether `operator` is on the registry's allow-list.
pub fn is_operator_allowed(reg: &OracleRegistry, operator: u64) -> (r: bool)
    ensures
        r == reg.allowed_operators@.contains(operator),
{
    let n = reg.allowed_operators.len();
    let mut i: usize = 0;
    while i < n
        invariant
            0 <= i <= n,
            n == reg.allowed_operators@.len(),
            forall|j: int| 0 <= j < i ==> reg.allowed_operators@[j] != operator,
        decreases n - i,
    {
        if reg.allowed_operators[i] == operator {
            return true;
        }
        i = i + 1;
    }
    false
}

/// Adds an operator to the allow-list. Authority only; adding an operator
/// that is already listed changes nothing; a full list refuses the addition.
pub fn add_operator(reg: &mut OracleRegistry, caller: u64, operator: u64) -> (r: Result<
    (),
    ErrorCode,
>)
    requires
        old(reg).wf(),
    ensures
        final(reg).wf(),
        match r {
            Ok(()) => {
                &&& caller == old(reg).authority
                &&& final(reg).allowed_operators@.contains(operator)
                &&& (if old(reg).allowed_operators@.contains(operator) {
                    *final(reg) == *old(reg)
                } else {
                    &&& old(reg).allowed_operators@.len() < MAX_OPERATORS
                    &&& final(reg).allowed_operators@ == old(reg).allowed_operators@.push(operator)
                    &&& *final(reg) == (OracleRegistry {
                        allowed_operators: final(reg).allowed_operators,
                        ..*old(reg)
                    })
                })
            },
            Err(e) => {
                &&& *final(reg) == *old(reg)
                &&& (if caller != old(reg).authority {
                    e == ErrorCode::Unauthorized
                } else {
                    &&& e == ErrorCode::OperatorListTooLong
                    &&& old(reg).allowed_operators@.len() >= MAX_OPERATORS
                    &&& !old(reg).allowed_operators@.contains(operator)
                })
            },
        },
{
    if caller != reg.authority {
        return Err(ErrorCode::Unauthorized);
    }
    if is_operator_allowed(reg, operator) {
        return Ok(());
    }
    if reg.allowed_operators.len() >= MAX_OPERATORS {
        return Err(ErrorCode::OperatorListTooLong);
    }
    reg.allowed_operators.push(operator);
    proof {
        assert(final(reg).allowed_operators@.last() == operator);
    }
    Ok(())
}

/// Hardware oracle registration, with its daily rate-limit state.
pub struct HardwareOracle {
    /// Stable identifier of the device.
    pub hardware_id: Vec<u8>,
    /// Family of device this oracle is.
    pub hardware_type: HardwareType,
    /// Operator identity that registered the oracle.
    pub operator: u64,
    /// Public key the oracle's signatures verify against.
    pub public_key: Vec<u8>,
    /// Hash of the device's certification document.
    pub certification_hash: Vec<u8>,
    /// Whitelisted hardware family payload.
    pub trusted_hardware: TrustedHardware,
    /// Whether the oracle may currently produce verifications.
    pub is_active: bool,
    /// When the oracle was registered.
    pub registered_at: u64,
    /// Verifications produced over the oracle's lifetime.
    pub total_verifications: u64,
    /// Day number (days since the epoch) the daily counter last counted.
    pub last_verification_day: u64,
    /// Verifications counted on `last_verification_day`.
    pub verifications_today: u16,
}

impl HardwareOracle {
    /// Well-formedness: bounded identifiers and a full-size key.
    pub open spec fn wf(self) -> bool {
        &&& 0 < self.hardware_id@.len() <= MAX_HARDWARE_ID_LEN
        &&& 0 < self.certification_hash@.len() <= MAX_CERTIFICATION_LEN
        &&& self.public_key@.len() == PUBLIC_KEY_LEN
    }
}

/// The day number `t` falls in, counting whole days since the epoch.
pub open spec fn day_of(t: u64) -> int {
    t as int / SECONDS_PER_DAY as int
}

/// How many verifications the oracle has recorded on the day `now` falls in.
/// A counter stamped with an older day has lapsed and counts as zero.
pub open spec fn count_today(o: HardwareOracle, now: u64) -> int {
    if o.last_verification_day == day_of(now) {
        o.verifications_today as int
    } else {
        0
    }
}

/// First reason `register_oracle` would reject these inputs, if any.
pub open spec fn register_oracle_check(
    reg: OracleRegistry,
    operator: u64,
    hardware_id: Seq<u8>,
    public_key: Seq<u8>,
    certification_hash: Seq<u8>,
) -> Option<ErrorCode> {
    if !reg.allowed_operators@.contains(operator) {
        Some(ErrorCode::OracleNotWhitelisted)
    } else if hardware_id.len() == 0 {
        Some(ErrorCode::EmptyHardwareId)
    } else if hardware_id.len() > MAX_HARDWARE_ID_LEN {
        Some(ErrorCode::HardwareIdTooLong)
    } else if public_key.len() != PUBLIC_KEY_LEN || crate::text::all_zero(public_key) {
        Some(ErrorCode::InvalidPublicKey)
    } else if certification_hash.len() == 0 {
        Some(ErrorCode::EmptyCertificationHash)
    } else if certification_hash.len() > MAX_CERTIFICATION_LEN {
        Some(ErrorCode::CertificationHashTooLong)
    } else {
        None
    }
}

/// Registers a hardware oracle for an allow-listed operator. The oracle
/// starts active with zeroed counters.
pub fn register_oracle(
    reg: &OracleRegistry,
    operator: u64,
    hardware_id: Vec<u8>,
    hardware_type: HardwareType,
    public_key: Vec<u8>,
    certification_hash: Vec<u8>,
    trusted_hardware: TrustedHardware,
    now: u64,
) -> (r: Result<HardwareOracle, ErrorCode>)
    requires
        reg.wf(),
    ensures
        match r {
            Ok(o) => {
                &&& register_oracle_check(
                    *reg,
                    operator,
                    hardware_id@,
                    public_key@,
                    certification_hash@,
                ) is None
                &&& o.wf()
                &&& o.hardware_id@ == hardware_id@
                &&& o.hardware_type == hardware_type
                &&& o.operator == operator
                &&& o.public_key@ == public_key@
                &&& o.certification_hash@ == certification_hash@
                &&& o.trusted_hardware == trusted_hardware
                &&& o.is_active == true
                &&& o.registered_at == now
                &&& o.total_verifications == 0
                &&& o.last_verification_day == 0
                &&& o.verifications_today == 0
            },
            Err(e) => register_oracle_check(
                *reg,
                operator,
                hardware_id@,
                public_key@,
                certification_hash@,
            ) == Some(e),
        },
{
    if !is_operator_allowed(reg, operator) {
        return Err(ErrorCode::OracleNotWhitelisted);
    }
    if hardware_id.len() == 0 {
        return Err(ErrorCode::EmptyHardwareId);
    }
    if hardware_id.len() > MAX_HARDWARE_ID_LEN {
        return Err(ErrorCode::HardwareIdTooLong);
    }
    if public_key.len() != PUBLIC_KEY_LEN || crate::text::is_all_zero(&public_key) {
        return Err(ErrorCode::InvalidPublicKey);
    }
    if certification_hash.len() == 0 {
        return Err(ErrorCode::EmptyCertificationHash);
    }
    if certification_hash.len() > MAX_CERTIFICATION_LEN {
        return Err(ErrorCode::CertificationHashTooLong);
    }
    Ok(
        HardwareOracle {
            hardware_id,
            hardware_type,
            operator,
            public_key,
            certification_hash,
            trusted_hardware,
            is_active: true,
            registered_at: now,
            total_verifications: 0,
            last_verification_day: 0,
            verifications_today: 0,
        },
    )
}

/// Deactivates an oracle. Gated to its operator or the registry authority.
pub fn deactivate_oracle(o: &mut HardwareOracle, caller: u64, registry_authority: u64) -> (r:
    Result<(), ErrorCode>)
    requires
        old(o).wf(),
    ensures
        final(o).wf(),
        match r {
            Ok(()) => {
                &&& (caller == old(o).operator || caller == registry_authority)
                &&& *final(o) == (HardwareOracle { is_active: false, ..*old(o) })
            },
            Err(e) => {
                &&& e == ErrorCode::Unauthorized
                &&& caller != old(o).operator && caller != registry_authority
                &&& *final(o) == *old(o)
            },
        },
{
    if caller != o.operator && caller != registry_authority {
        return Err(ErrorCode::Unauthorized);
    }
    o.is_active = false;
    Ok(())
}

/// Counts one verification against the oracle's daily quota. If the stored
/// last-counted day is not the day `now` falls in, the counter lapses to zero
/// before the increment. A count that would exceed `max_per_day` fails whole
/// with a rate-limit error and changes nothing.
pub fn note_verification(o: &mut HardwareOracle, max_per_day: u16, now: u64) -> (r: Result<
    (),
    ErrorCode,
>)
    requires
        old(o).wf(),
    ensures
        final(o).wf(),
        match r {
            Ok(()) => {
                &&& count_today(*old(o), now) + 1 <= max_per_day
                &&& old(o).total_verifications < u64::MAX
                &&& *final(o) == (HardwareOracle {
                    last_verification_day: (day_of(now)) as u64,
                    verifications_today: (count_today(*old(o), now) + 1) as u16,
                    total_verifications: (old(o).total_verifications + 1) as u64,
                    ..*old(o)
                })
            },
            Err(e) => {
                &&& *final(o) == *old(o)
                &&& (if count_today(*old(o), now) + 1 > max_per_day {
                    e == ErrorCode::RateLimitExceeded
                } else {
                    e == ErrorCode::MathOverflow && old(o).total_verifications == u64::MAX
                })
            },
        },
{
    let today = now / SECONDS_PER_DAY;
    let current: u16 = if o.last_verification_day == today {
        o.verifications_today
    } else {
        0
    };
    if current >= max_per_day {
        return Err(ErrorCode::RateLimitExceeded);
    }
    let new_total = match o.total_verifications.checked_add(1) {
        Some(x) => x,
        None => {
            return Err(ErrorCode::MathOverflow);
        },
    };
    o.last_verification_day = today;
    o.verifications_today = current + 1;
    o.total_verifications = new_total;
    Ok(())
}

} // verus!
