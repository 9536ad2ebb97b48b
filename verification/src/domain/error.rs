//! Errors of the business rules.
use vstd::prelude::*;
use crate::money::Amount;

verus! {

#[derive(Debug)]
pub enum DomainError {
    UserNotFound(String),
    Unauthorized,
    InternalError,
    EventPublishError,
    InvalidAmount(Amount),
}

impl DomainError {
    /// The message that describes the error.
    pub open spec fn spec_message(&self) -> Seq<char> {
        match self {
            DomainError::UserNotFound(detail) => "User not found with id "@ + detail@,
            DomainError::Unauthorized => "Non autorizzato"@,
            DomainError::InternalError => "Internal error"@,
            DomainError::EventPublishError => "Event publishing failed"@,
            DomainError::InvalidAmount(_) => "Invalid amount"@,
        }
    }

    /// The message that describes the error.
    pub fn to_string(&self) -> (text: String)
        ensures
            text@ == self.spec_message(),
    {
        match self {
            DomainError::UserNotFound(detail) => {
                let mut text = String::from_str("User not found with id ");
                text.append(detail.as_str());
                text
            },
            DomainError::Unauthorized => String::from_str("Non autorizzato"),
            DomainError::InternalError => String::from_str("Internal error"),
            DomainError::EventPublishError => String::from_str("Event publishing failed"),
            DomainError::InvalidAmount(_) => String::from_str("Invalid amount"),
        }
    }

    /// A copy of the error.
    pub fn duplicate(&self) -> (e: DomainError)
        ensures
            e == *self,
    {
        match self {
            DomainError::UserNotFound(detail) => DomainError::UserNotFound(detail.clone()),
            DomainError::Unauthorized => DomainError::Unauthorized,
            DomainError::InternalError => DomainError::InternalError,
            DomainError::EventPublishError => DomainError::EventPublishError,
            DomainError::InvalidAmount(a) => DomainError::InvalidAmount(*a),
        }
    }
}

} // verus!
