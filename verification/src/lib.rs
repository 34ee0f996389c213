//! Transactional core of a data-licensing marketplace.
//!
//! Providers list datasets, an independent verification step attests
//! authenticity, buyers purchase usage-bounded licenses, and license holders
//! consume access under enforced usage rights. This crate holds the decision
//! logic: the state machine over listings, verification records, licenses and
//! oracle quotas, together with the fee-splitting arithmetic. Account storage,
//! value transfer, signature checking and the wall clock are external
//! collaborators; callers hand their outcomes in as plain values.

pub mod access;
pub mod digest;
pub mod errors;
pub mod fees;
pub mod listing;
pub mod oracle;
pub mod platform;
pub mod purchase;
pub mod registry;
pub mod rights;
pub mod text;
pub mod verification;
