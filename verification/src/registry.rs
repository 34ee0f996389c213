//! Data registry: dataset hashes anchored under an owner's key.
//!
//! Two registration paths exist. The trustless one derives the stored digest
//! here, hashing `file_key:dataset_id:file_size` so no client-side hashing
//! has to be trusted; the cheaper one stores a digest the client computed.
//! Updates are owner-gated, and closing an entry (the store reclaims it) is
//! owner-gated too.

use vstd::prelude::*;

use crate::digest::{sha256_digest, sha256_of};
use crate::errors::ErrorCode;

verus! {

/// Longest accepted registry key, in bytes.
pub const MAX_INTERNAL_KEY_LEN: usize = 64;

/// Longest accepted file key, in bytes.
pub const MAX_FILE_KEY_LEN: usize = 100;

/// Registry entry storing a dataset's metadata and digest.
pub struct DataRegistry {
    /// Owner and only mutator of this entry.
    pub owner: u64,
    /// Unique key, either client-chosen or derived from the dataset id.
    pub internal_key: Vec<u8>,
    /// SHA-256 digest of the dataset.
    pub dataset_hash: Vec<u8>,
    /// Dataset identifier, when the trustless path was used.
    pub dataset_id: Option<u64>,
    /// File size in bytes, when the trustless path was used.
    pub file_size: Option<u64>,
    /// File key used in the digest derivation, when the trustless path was
    /// used.
    pub file_key: Option<Vec<u8>>,
    /// When the entry was registered.
    pub created_at: u64,
}

impl DataRegistry {
    /// Well-formedness: bounded keys and a full-size digest.
    pub open spec fn wf(self) -> bool {
        &&& 0 < self.internal_key@.len() <= MAX_INTERNAL_KEY_LEN
        &&& self.dataset_hash@.len() == crate::listing::DIGEST_LEN
        &&& (self.file_key matches Some(k) ==> 0 < k@.len() <= MAX_FILE_KEY_LEN)
    }
}

/// The decimal digit string of `n`, most significant digit first.
pub open spec fn decimal_digits(n: nat) -> Seq<u8>
    decreases n,
{
    if n < 10 {
        seq![(48 + n) as u8]
    } else {
        decimal_digits(n / 10).push((48 + n % 10) as u8)
    }
}

/// Powers of ten, for bounding digit counts.
pub open spec fn pow10(k: nat) -> nat
    decreases k,
{
    if k == 0 {
        1nat
    } else {
        10nat * pow10((k - 1) as nat)
    }
}

/// A number below the `k`-th power of ten has at most `k` decimal digits.
pub proof fn lemma_decimal_digits_len(n: nat, k: nat)
    requires
        1 <= k,
        n < pow10(k),
    ensures
        0 < decimal_digits(n).len() <= k,
    decreases k,
{
    if n < 10 {
    } else {
        if k == 1 {
            assert(pow10(1nat) == 10);
        }
        assert(pow10(k) == 10 * pow10((k - 1) as nat));
        vstd::arithmetic::div_mod::lemma_multiply_divide_lt(
            n as int,
            10,
            pow10((k - 1) as nat) as int,
        );
        lemma_decimal_digits_len(n / 10, (k - 1) as nat);
    }
}

/// Every unsigned 64-bit value has at most twenty decimal digits.
pub proof fn lemma_u64_decimal_digits_len(n: u64)
    ensures
        0 < decimal_digits(n as nat).len() <= 20,
{
    reveal_with_fuel(pow10, 21);
    assert(pow10(20nat) == 100000000000000000000nat);
    lemma_decimal_digits_len(n as nat, 20nat);
}

/// Writes `n` in decimal ASCII, most significant digit first.
pub fn u64_to_decimal(n: u64) -> (r: Vec<u8>)
    ensures
        r@ == decimal_digits(n as nat),
        0 < r@.len() <= 20,
    decreases n,
{
    proof {
        lemma_u64_decimal_digits_len(n);
    }
    if n < 10 {
        let mut v: Vec<u8> = Vec::new();
        v.push(48 + (n as u8));
        proof {
            assert(v@ =~= decimal_digits(n as nat));
        }
        v
    } else {
        let mut v = u64_to_decimal(n / 10);
        v.push(48 + ((n % 10) as u8));
        proof {
            assert(v@ =~= decimal_digits(n as nat));
        }
        v
    }
}

/// The colon-separated derivation input `file_key:dataset_id:file_size`
/// whose digest the trustless path stores.
pub open spec fn hash_input(file_key: Seq<u8>, dataset_id: u64, file_size: u64) -> Seq<u8> {
    file_key + seq![58u8] + decimal_digits(dataset_id as nat) + seq![58u8] + decimal_digits(
        file_size as nat,
    )
}

/// The registry key the trustless path derives: `dataset_` followed by the
/// decimal dataset id.
pub open spec fn derived_key(dataset_id: u64) -> Seq<u8> {
    seq![100u8, 97u8, 116u8, 97u8, 115u8, 101u8, 116u8, 95u8] + decimal_digits(dataset_id as nat)
}

/// Registers a dataset the trustless way: the stored digest is derived here,
/// as the SHA-256 of `file_key:dataset_id:file_size`, so the client's hash
/// cannot lie about these fields. The entry's key is derived from the id.
pub fn process_register_dataset(
    owner: u64,
    dataset_id: u64,
    file_size: u64,
    file_key: Vec<u8>,
    now: u64,
) -> (r: Result<DataRegistry, ErrorCode>)
    ensures
        match r {
            Ok(reg) => {
                &&& 0 < file_key@.len() <= MAX_FILE_KEY_LEN
                &&& file_size > 0
                &&& reg.wf()
                &&& reg.owner == owner
                &&& reg.internal_key@ == derived_key(dataset_id)
                &&& reg.dataset_hash@ == sha256_of(hash_input(file_key@, dataset_id, file_size))
                &&& reg.dataset_id == Some(dataset_id)
                &&& reg.file_size == Some(file_size)
                &&& (reg.file_key matches Some(k) && k@ == file_key@)
                &&& reg.created_at == now
            },
            Err(e) => {
                &&& (if file_key@.len() == 0 || file_key@.len() > MAX_FILE_KEY_LEN {
                    e == ErrorCode::InvalidFileKey
                } else {
                    e == ErrorCode::InvalidFileSize && file_size == 0
                })
            },
        },
{
    if file_key.len() == 0 || file_key.len() > MAX_FILE_KEY_LEN {
        return Err(ErrorCode::InvalidFileKey);
    }
    if file_size == 0 {
        return Err(ErrorCode::InvalidFileSize);
    }
    let mut input = crate::text::copy_bytes(&file_key);
    input.push(58);
    let mut id_digits = u64_to_decimal(dataset_id);
    input.append(&mut id_digits);
    input.push(58);
    let mut size_digits = u64_to_decimal(file_size);
    input.append(&mut size_digits);
    proof {
        assert(input@ =~= hash_input(file_key@, dataset_id, file_size));
    }
    let dataset_hash = sha256_digest(&input);
    let mut internal_key: Vec<u8> = Vec::new();
    internal_key.push(100);  // d
    internal_key.push(97);  // a
    internal_key.push(116);  // t
    internal_key.push(97);  // a
    internal_key.push(115);  // s
    internal_key.push(101);  // e
    internal_key.push(116);  // t
    internal_key.push(95);  // _
    let mut key_digits = u64_to_decimal(dataset_id);
    internal_key.append(&mut key_digits);
    proof {
        assert(internal_key@ =~= derived_key(dataset_id));
    }
    Ok(
        DataRegistry {
            owner,
            internal_key,
            dataset_hash,
            dataset_id: Some(dataset_id),
            file_size: Some(file_size),
            file_key: Some(file_key),
            created_at: now,
        },
    )
}

/// Registers a client-computed digest under a client-chosen key: cheaper
/// than the trustless path but requires trusting the client's hashing.
pub fn process_register_hash(
    owner: u64,
    internal_key: Vec<u8>,
    dataset_hash: Vec<u8>,
    now: u64,
) -> (r: Result<DataRegistry, ErrorCode>)
    ensures
        match r {
            Ok(reg) => {
                &&& 0 < internal_key@.len() <= MAX_INTERNAL_KEY_LEN
                &&& dataset_hash@.len() == crate::listing::DIGEST_LEN
                &&& reg.wf()
                &&& reg.owner == owner
                &&& reg.internal_key@ == internal_key@
                &&& reg.dataset_hash@ == dataset_hash@
                &&& reg.dataset_id is None
                &&& reg.file_size is None
                &&& reg.file_key is None
                &&& reg.created_at == now
            },
            Err(e) => {
                &&& (if internal_key@.len() == 0 || internal_key@.len() > MAX_INTERNAL_KEY_LEN {
                    e == ErrorCode::InvalidInternalKey
                } else {
                    e == ErrorCode::InvalidDatasetHash && dataset_hash@.len()
                        != crate::listing::DIGEST_LEN
                })
            },
        },
{
    if internal_key.len() == 0 || internal_key.len() > MAX_INTERNAL_KEY_LEN {
        return Err(ErrorCode::InvalidInternalKey);
    }
    if dataset_hash.len() != crate::listing::DIGEST_LEN {
        return Err(ErrorCode::InvalidDatasetHash);
    }
    Ok(
        DataRegistry {
            owner,
            internal_key,
            dataset_hash,
            dataset_id: None,
            file_size: None,
            file_key: None,
            created_at: now,
        },
    )
}

/// Replaces the stored digest. Owner only; a digest of the wrong size is
/// refused and nothing changes.
pub fn process_update_hash(reg: &mut DataRegistry, caller: u64, new_hash: Vec<u8>) -> (r: Result<
    (),
    ErrorCode,
>)
    requires
        old(reg).wf(),
    ensures
        final(reg).wf(),
        match r {
            Ok(()) => {
                &&& caller == old(reg).owner
                &&& new_hash@.len() == crate::listing::DIGEST_LEN
                &&& final(reg).dataset_hash@ == new_hash@
                &&& *final(reg) == (DataRegistry {
                    dataset_hash: final(reg).dataset_hash,
                    ..*old(reg)
                })
            },
            Err(e) => {
                &&& *final(reg) == *old(reg)
                &&& (if caller != old(reg).owner {
                    e == ErrorCode::Unauthorized
                } else {
                    e == ErrorCode::InvalidDatasetHash && new_hash@.len()
                        != crate::listing::DIGEST_LEN
                })
            },
        },
{
    if caller != reg.owner {
        return Err(ErrorCode::Unauthorized);
    }
    if new_hash.len() != crate::listing::DIGEST_LEN {
        return Err(ErrorCode::InvalidDatasetHash);
    }
    reg.dataset_hash = new_hash;
    Ok(())
}

/// Plain-value summary of a registry entry, for read paths and reporting.
pub struct RegistryView {
    pub owner: u64,
    pub internal_key: Vec<u8>,
    pub dataset_hash: Vec<u8>,
    pub dataset_id: Option<u64>,
    pub file_size: Option<u64>,
    pub created_at: u64,
}

/// Reads an entry back as a plain summary; the caller reports or logs it.
pub fn process_view_hash(reg: &DataRegistry) -> (r: RegistryView)
    ensures
        r.owner == reg.owner,
        r.internal_key@ == reg.internal_key@,
        r.dataset_hash@ == reg.dataset_hash@,
        r.dataset_id == reg.dataset_id,
        r.file_size == reg.file_size,
        r.created_at == reg.created_at,
{
    RegistryView {
        owner: reg.owner,
        internal_key: crate::text::copy_bytes(&reg.internal_key),
        dataset_hash: crate::text::copy_bytes(&reg.dataset_hash),
        dataset_id: reg.dataset_id,
        file_size: reg.file_size,
        created_at: reg.created_at,
    }
}

/// Whether `caller` may close this entry and let the store reclaim it.
/// Owner only; the reclaim itself belongs to the ledger store.
pub fn process_close_registry(reg: &DataRegistry, caller: u64) -> (r: Result<(), ErrorCode>)
    ensures
        match r {
            Ok(()) => caller == reg.owner,
            Err(e) => e == ErrorCode::Unauthorized && caller != reg.owner,
        },
{
    if caller != reg.owner {
        return Err(ErrorCode::Unauthorized);
    }
    Ok(())
}

} // verus!
