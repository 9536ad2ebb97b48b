//! Orders.
use vstd::prelude::*;
use crate::clock::{clock_now, Timestamp};
use crate::ids::{random_id, uuid_variant, uuid_version};
use crate::money::Amount;
use crate::text::{trim_text, trimmed};

verus! {

pub struct Order {
    pub id: u128,
    pub user_id: u128,
    pub name: String,
    pub total: Amount,
    pub created_at: Timestamp,
}

impl Clone for Order {
    fn clone(&self) -> (o: Self)
        ensures
            o == *self,
    {
        Order {
            id: self.id,
            user_id: self.user_id,
            name: self.name.clone(),
            total: self.total,
            created_at: self.created_at,
        }
    }
}

impl Order {
    /// A new order of the user `user_id` for `total`, named `name` trimmed, with a
    /// random (version 4) identifier and the current instant as its creation instant.
    pub fn new(name: &str, user_id: u128, total: Amount) -> (o: Order)
        ensures
            o.name@ == trimmed(name@),
            o.user_id == user_id,
            o.total == total,
            uuid_version(o.id) == 4,
            uuid_variant(o.id) == 2,
            o.created_at.wf(),
    {
        let id = random_id();
        let now = clock_now();
        Order::with_identity(name, user_id, total, id, now)
    }

    /// The order that `new` makes, given the identifier and the creation instant.
    pub fn with_identity(name: &str, user_id: u128, total: Amount, id: u128, created_at: Timestamp) -> (o: Order)
        ensures
            o.id == id,
            o.user_id == user_id,
            o.name@ == trimmed(name@),
            o.total == total,
            o.created_at == created_at,
    {
        Order { id, name: trim_text(name), user_id, total, created_at }
    }
}

} // verus!
