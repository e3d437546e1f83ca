//! Consent gate state and its log entries.
use vstd::prelude::*;

verus! {

#[verifier::external_type_specification]
#[verifier::external_body]
pub struct ExUuid(uuid::Uuid);

/// `Clone` of `uuid::Uuid`, a `Copy` type: the clone is the same
/// identifier.
pub assume_specification[ <uuid::Uuid as Clone>::clone ](u: &uuid::Uuid) -> (r: uuid::Uuid)
    ensures
        r == *u,
;

/// State of the consent gate.
#[derive(Debug, Clone, Copy, PartialEq, Eq, Structural)]
pub enum ConsentState {
    Pending,
    Acknowledged,
    BypassedNoAckRequired,
}

/// An entry in the consent log.
#[derive(Debug, Clone)]
pub struct ConsentLogEntry {
    pub session_id: uuid::Uuid,
    pub timestamp: std::time::SystemTime,
    pub banner_text: String,
    pub acknowledgment_method: String,
    pub app_version: String,
}

} // verus!
