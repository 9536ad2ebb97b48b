//! The GraphQL forms of a user.
use vstd::prelude::*;
use crate::clock::Timestamp;
use crate::money::Amount;

verus! {

/// The input of the `createUser` mutation.
pub struct CreateUserInput {
    pub name: String,
}

/// A user as a response shows it.
pub struct UserView {
    pub id: u128,
    pub name: String,
    pub balance: Amount,
    pub created_at: Timestamp,
}

} // verus!
