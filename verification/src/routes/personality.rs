use vstd::prelude::*;

verus! {

/// A request to return the assistant's personality to an earlier version.
#[derive(Debug, Clone, Copy, PartialEq, Eq)]
pub struct RollbackPersonalityRequest {
    pub version: i32,
}

} // verus!

verus! {

/// One version of the assistant's personality.
#[derive(Debug, Clone)]
pub struct PersonalityVersionItem {
    pub version: i32,
    pub description: String,
    pub created_at: crate::time::UtcInstant,
    pub is_current: bool,
}

#[derive(Debug, Clone)]
pub struct PersonalityHistoryResponse {
    pub versions: Vec<PersonalityVersionItem>,
}

} // verus!
