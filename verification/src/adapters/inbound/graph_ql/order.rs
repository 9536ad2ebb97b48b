//! The GraphQL forms of an order.
use vstd::prelude::*;
use crate::clock::Timestamp;
use crate::domain::order::Order;
use crate::money::Amount;

verus! {

/// The input of the `createOrder` mutation.
pub struct CreateOrderInput {
    pub name: String,
    pub user_id: u128,
    pub total: Amount,
}

/// An order as a response shows it.
pub struct OrderView {
    pub id: u128,
    pub name: String,
    pub user_id: u128,
    pub total: Amount,
    pub created_at: Timestamp,
}

impl From<Order> for OrderView {
    fn from(o: Order) -> (v: Self)
        ensures
            v.id == o.id,
            v.name == o.name,
            v.user_id == o.user_id,
            v.total == o.total,
            v.created_at == o.created_at,
    {
        OrderView { id: o.id, name: o.name, user_id: o.user_id, total: o.total, created_at: o.created_at }
    }
}

impl vstd::std_specs::convert::FromSpecImpl<Order> for OrderView {
    open spec fn obeys_from_spec() -> bool {
        true
    }

    open spec fn from_spec(o: Order) -> OrderView {
        OrderView { id: o.id, name: o.name, user_id: o.user_id, total: o.total, created_at: o.created_at }
    }
}

/// The view of an order shows the order's own fields: its key, name, user,
/// total (mantissa and scale alike) and creation instant.
pub proof fn lemma_order_view_keeps_fields(o: Order)
    ensures
        <OrderView as vstd::std_specs::convert::FromSpec<Order>>::from_spec(o).id == o.id,
        <OrderView as vstd::std_specs::convert::FromSpec<Order>>::from_spec(o).name == o.name,
        <OrderView as vstd::std_specs::convert::FromSpec<Order>>::from_spec(o).user_id == o.user_id,
        <OrderView as vstd::std_specs::convert::FromSpec<Order>>::from_spec(o).total == o.total,
        <OrderView as vstd::std_specs::convert::FromSpec<Order>>::from_spec(o).created_at == o.created_at,
{
}

} // verus!
