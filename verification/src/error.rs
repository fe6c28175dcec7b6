//! The errors the protocol can answer with.

use vstd::prelude::*;

verus! {

/// Every way an operation of either contract can be refused.
///
/// `NotAuthorized` is the single, deliberately generic denial of the export
/// query: a caller presenting a wrong secret and a caller querying a source
/// that has not migrated at all receive the very same error, so the query
/// path leaks nothing about which of the two happened.
#[derive(Clone, Copy, Debug, PartialEq, Eq, Structural)]
pub enum ContractError {
    /// The caller fails an identity check.
    Unauthorized,
    /// A second migration request on a source that already has a target.
    AlreadyMigrated,
    /// Any state-changing call on a source that has migrated.
    ContractFrozen,
    /// Generic denial of the export query: wrong secret, or no secret stored.
    NotAuthorized,
    /// The target was asked to pull before the source pushed the secret.
    SecretNotSet,
    /// The source refused the target's remote export query.
    RemoteQueryFailed,
}

impl ContractError {
    /// The text shown for this error.
    pub open spec fn message_spec(self) -> Seq<char> {
        match self {
            ContractError::Unauthorized => "Only the authorized account can do this!"@,
            ContractError::AlreadyMigrated => "The contract has already been migrated!"@,
            ContractError::ContractFrozen => (
                "This contract has been migrated. No further state changes are allowed!"@
            ),
            ContractError::NotAuthorized => "This contract has not been migrated yet"@,
            ContractError::SecretNotSet => (
                "The secret has not yet been set by the first contract"@
            ),
            ContractError::RemoteQueryFailed => (
                "The first contract rejected the migration query"@
            ),
        }
    }

    /// Renders the error as text.
    pub fn message(&self) -> (r: String)
        ensures
            r@ == self.message_spec(),
    {
        match self {
            ContractError::Unauthorized => String::from_str(
                "Only the authorized account can do this!",
            ),
            ContractError::AlreadyMigrated => String::from_str(
                "The contract has already been migrated!",
            ),
            ContractError::ContractFrozen => String::from_str(
                "This contract has been migrated. No further state changes are allowed!",
            ),
            ContractError::NotAuthorized => String::from_str(
                "This contract has not been migrated yet",
            ),
            ContractError::SecretNotSet => String::from_str(
                "The secret has not yet been set by the first contract",
            ),
            ContractError::RemoteQueryFailed => String::from_str(
                "The first contract rejected the migration query",
            ),
        }
    }
}

} // verus!
