//! The ways in which a call on the registry can be refused.

use vstd::prelude::*;

verus! {

/// Why the registry refused a call. A refused call changes nothing.
#[derive(Clone, Copy, Debug, PartialEq, Eq, Structural)]
pub enum RegistryError {
    /// No token with this handle has been minted.
    TokenNotFound,
    /// The party named as owner does not own the token.
    NotTokenOwner,
    /// The party a delegated transfer takes the token from does not own it.
    FromNotOwner,
    /// The operator of a delegated transfer is not the approved one.
    NotApproved,
    /// The oracle did not confirm that the acting party authorized the call.
    Unauthorized,
    /// A value that names nobody was given where a token's owner is set.
    InvalidParty,
}

impl RegistryError {
    /// The text that goes with each kind of refusal.
    pub open spec fn text(self) -> Seq<char> {
        match self {
            RegistryError::TokenNotFound => "Token not found"@,
            RegistryError::NotTokenOwner => "Not the token owner"@,
            RegistryError::FromNotOwner => "From not owner"@,
            RegistryError::NotApproved => "Spender is not approved for this token"@,
            RegistryError::Unauthorized => "Unauthorized"@,
            RegistryError::InvalidParty => "Invalid party"@,
        }
    }

    /// A short description of the refusal, fit to show to a user.
    pub fn message(&self) -> (message: &'static str)
        ensures
            message@ == self.text(),
    {
        match self {
            RegistryError::TokenNotFound => "Token not found",
            RegistryError::NotTokenOwner => "Not the token owner",
            RegistryError::FromNotOwner => "From not owner",
            RegistryError::NotApproved => "Spender is not approved for this token",
            RegistryError::Unauthorized => "Unauthorized",
            RegistryError::InvalidParty => "Invalid party",
        }
    }
}

} // verus!
