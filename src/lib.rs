//! Custody of native currency and fungible tokens in a vault whose signing
//! authority is a key-less address derived from fixed seeds.

pub mod address;
pub mod vault;
pub mod listing;
pub mod laws;
