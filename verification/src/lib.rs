//! Verified core of the NiffyInsure parametric-insurance contract: the data
//! model, the contract's storage model, the premium-quote and policy-initiation
//! rules.

pub mod ledger;
pub mod policy;
pub mod storage;
pub mod table;
pub mod types;
pub mod validate;
