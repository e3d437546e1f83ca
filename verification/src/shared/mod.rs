//! Shared consent and storage types.
pub mod consent;
pub mod storage;
