//! Commands: what a caller asks the application to do.
use vstd::prelude::*;
use crate::money::Amount;

verus! {

pub struct CreateUserCommand {
    pub name: String,
}

pub struct CreateOrderCommand {
    pub name: String,
    pub user_id: u128,
    pub total: Amount,
}

} // verus!
