//! The mapping between the GraphQL forms and the commands and entities of the domain.
use vstd::prelude::*;
use crate::adapters::inbound::graph_ql::order::CreateOrderInput;
use crate::adapters::inbound::graph_ql::user::{CreateUserInput, UserView};
use crate::application::command::{CreateOrderCommand, CreateUserCommand};
use crate::domain::user::User;

verus! {

impl From<CreateUserInput> for CreateUserCommand {
    fn from(value: CreateUserInput) -> (c: Self)
        ensures
            c.name == value.name,
    {
        CreateUserCommand { name: value.name }
    }
}

impl vstd::std_specs::convert::FromSpecImpl<CreateUserInput> for CreateUserCommand {
    open spec fn obeys_from_spec() -> bool {
        true
    }

    open spec fn from_spec(value: CreateUserInput) -> CreateUserCommand {
        CreateUserCommand { name: value.name }
    }
}

impl From<CreateOrderInput> for CreateOrderCommand {
    fn from(order: CreateOrderInput) -> (c: Self)
        ensures
            c.name == order.name,
            c.user_id == order.user_id,
            c.total == order.total,
    {
        CreateOrderCommand { name: order.name, user_id: order.user_id, total: order.total }
    }
}

impl vstd::std_specs::convert::FromSpecImpl<CreateOrderInput> for CreateOrderCommand {
    open spec fn obeys_from_spec() -> bool {
        true
    }

    open spec fn from_spec(order: CreateOrderInput) -> CreateOrderCommand {
        CreateOrderCommand { name: order.name, user_id: order.user_id, total: order.total }
    }
}

impl From<User> for UserView {
    fn from(user: User) -> (v: Self)
        ensures
            v.id == user.id,
            v.name == user.name,
            v.balance == user.balance,
            v.created_at == user.created_at,
    {
        UserView { id: user.id, name: user.name, balance: user.balance, created_at: user.created_at }
    }
}

impl vstd::std_specs::convert::FromSpecImpl<User> for UserView {
    open spec fn obeys_from_spec() -> bool {
        true
    }

    open spec fn from_spec(user: User) -> UserView {
        UserView { id: user.id, name: user.name, balance: user.balance, created_at: user.created_at }
    }
}

/// A command made from an input carries the input's own fields.
pub proof fn lemma_commands_keep_input_fields(u: CreateUserInput, o: CreateOrderInput)
    ensures
        <CreateUserCommand as vstd::std_specs::convert::FromSpec<CreateUserInput>>::from_spec(u).name
            == u.name,
        <CreateOrderCommand as vstd::std_specs::convert::FromSpec<CreateOrderInput>>::from_spec(o).name
            == o.name,
        <CreateOrderCommand as vstd::std_specs::convert::FromSpec<CreateOrderInput>>::from_spec(o).user_id
            == o.user_id,
        <CreateOrderCommand as vstd::std_specs::convert::FromSpec<CreateOrderInput>>::from_spec(o).total
            == o.total,
{
}

/// The view of a user shows the user's own fields: its key, name, balance and
/// creation instant.
pub proof fn lemma_user_view_keeps_fields(user: User)
    ensures
        <UserView as vstd::std_specs::convert::FromSpec<User>>::from_spec(user).id == user.id,
        <UserView as vstd::std_specs::convert::FromSpec<User>>::from_spec(user).name == user.name,
        <UserView as vstd::std_specs::convert::FromSpec<User>>::from_spec(user).balance == user.balance,
        <UserView as vstd::std_specs::convert::FromSpec<User>>::from_spec(user).created_at
            == user.created_at,
{
}

} // verus!
