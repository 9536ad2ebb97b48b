//! The stored form of users and orders (one row of the `users` and `orders`
//! tables), the mapping between rows and the domain, and what a lookup answers.
use vstd::prelude::*;
use crate::clock::{clock_now, Timestamp};
use crate::domain::error::DomainError;
use crate::domain::order::Order;
use crate::domain::user::User;
use crate::ids::{format_id, time_ordered_id, uuid_text, uuid_variant, uuid_version};
use crate::money::Amount;

verus! {

/// The columns that every row has: its key and when it was created and last updated.
#[derive(Debug, Clone, Copy)]
pub struct BaseEntity {
    pub id: u128,
    pub created_at: Timestamp,
    pub updated_at: Timestamp,
}

/// A row of the `users` table.
#[derive(Debug)]
pub struct UserEntity {
    pub metadata: BaseEntity,
    pub name: String,
    pub balance: Amount,
}

/// A row of the `orders` table.
#[derive(Debug)]
pub struct OrderEntity {
    pub metadata: BaseEntity,
    pub name: String,
    pub user_id: u128,
    pub total: Amount,
}

impl Clone for UserEntity {
    fn clone(&self) -> (e: Self)
        ensures
            e == *self,
    {
        UserEntity { metadata: self.metadata, name: self.name.clone(), balance: self.balance }
    }
}

impl Clone for OrderEntity {
    fn clone(&self) -> (e: Self)
        ensures
            e == *self,
    {
        OrderEntity {
            metadata: self.metadata,
            name: self.name.clone(),
            user_id: self.user_id,
            total: self.total,
        }
    }
}

impl Default for BaseEntity {
    fn default() -> (b: Self)
        ensures
            uuid_version(b.id) == 7,
            uuid_variant(b.id) == 2,
            b.created_at == b.updated_at,
            b.created_at.wf(),
    {
        BaseEntity::new()
    }
}

impl BaseEntity {
    /// Fresh metadata: a time-ordered (version 7) key, created and updated now.
    pub fn new() -> (b: Self)
        ensures
            uuid_version(b.id) == 7,
            uuid_variant(b.id) == 2,
            b.created_at == b.updated_at,
            b.created_at.wf(),
    {
        BaseEntity::with_id(time_ordered_id())
    }

    /// Metadata for the key `id`, created and updated at `now`.
    pub fn at(id: u128, now: Timestamp) -> (b: Self)
        ensures
            b.id == id,
            b.created_at == now,
            b.updated_at == now,
    {
        BaseEntity { id, created_at: now, updated_at: now }
    }

    /// Metadata for the key `id`, created and updated now (the clock's reading).
    pub fn with_id(id: u128) -> (b: Self)
        ensures
            b.id == id,
            b.created_at == b.updated_at,
            b.created_at.wf(),
    {
        BaseEntity::at(id, clock_now())
    }

    /// Metadata of an existing row, updated at `now`: its key and creation
    /// instant are kept.
    pub fn existing_at(id: u128, created_at: Timestamp, now: Timestamp) -> (b: Self)
        ensures
            b.id == id,
            b.created_at == created_at,
            b.updated_at == now,
    {
        BaseEntity { id, created_at, updated_at: now }
    }

    /// Metadata of an existing row: its key and creation instant are kept,
    /// and it is updated now (the clock's reading).
    pub fn from_existing(id: u128, created_at: Timestamp) -> (b: Self)
        ensures
            b.id == id,
            b.created_at == created_at,
            b.updated_at.wf(),
    {
        BaseEntity::existing_at(id, created_at, clock_now())
    }

    /// Marks the row as updated at `now`; its key and creation instant are kept.
    pub fn touch_at(&mut self, now: Timestamp)
        ensures
            final(self).id == old(self).id,
            final(self).created_at == old(self).created_at,
            final(self).updated_at == now,
    {
        self.updated_at = now;
    }

    /// Marks the row as updated now (the clock's reading); its key and creation
    /// instant are kept.
    pub fn touch(&mut self)
        ensures
            final(self).id == old(self).id,
            final(self).created_at == old(self).created_at,
            final(self).updated_at.wf(),
    {
        self.touch_at(clock_now());
    }
}

/// The order that a row stores.
pub open spec fn order_of_row(value: OrderEntity) -> Order {
    Order {
        id: value.metadata.id,
        user_id: value.user_id,
        name: value.name,
        total: value.total,
        created_at: value.metadata.created_at,
    }
}

/// The user that a row stores.
pub open spec fn user_of_row(entity: UserEntity) -> User {
    User {
        id: entity.metadata.id,
        name: entity.name,
        balance: entity.balance,
        created_at: entity.metadata.created_at,
    }
}

/// The row holds `o`, whatever its update instant.
pub open spec fn row_holds_order(e: OrderEntity, o: Order) -> bool {
    &&& e.metadata.id == o.id
    &&& e.metadata.created_at == o.created_at
    &&& e.name == o.name
    &&& e.user_id == o.user_id
    &&& e.total == o.total
}

/// The row holds `u`, whatever its update instant.
pub open spec fn row_holds_user(e: UserEntity, u: User) -> bool {
    &&& e.metadata.id == u.id
    &&& e.metadata.created_at == u.created_at
    &&& e.name == u.name
    &&& e.balance == u.balance
}

impl From<OrderEntity> for Order {
    fn from(value: OrderEntity) -> (o: Self) {
        Order {
            id: value.metadata.id,
            user_id: value.user_id,
            name: value.name,
            total: value.total,
            created_at: value.metadata.created_at,
        }
    }
}

impl vstd::std_specs::convert::FromSpecImpl<OrderEntity> for Order {
    open spec fn obeys_from_spec() -> bool {
        true
    }

    open spec fn from_spec(value: OrderEntity) -> Order {
        order_of_row(value)
    }
}

impl OrderEntity {
    /// The row that stores `o`, updated at `now`.
    pub fn stored_at(o: &Order, now: Timestamp) -> (e: Self)
        ensures
            row_holds_order(e, *o),
            e.metadata.updated_at == now,
    {
        OrderEntity {
            metadata: BaseEntity::existing_at(o.id, o.created_at, now),
            name: o.name.clone(),
            user_id: o.user_id,
            total: o.total,
        }
    }
}

impl<'a> From<&'a Order> for OrderEntity {
    /// The row that stores `o`, updated now (the clock's reading).
    fn from(o: &'a Order) -> (e: Self)
        ensures
            row_holds_order(e, *o),
            e.metadata.updated_at.wf(),
    {
        OrderEntity::stored_at(o, clock_now())
    }
}

impl<'a> vstd::std_specs::convert::FromSpecImpl<&'a Order> for OrderEntity {
    /// The row's update instant is read from the clock, so no function of `o` gives the row.
    open spec fn obeys_from_spec() -> bool {
        false
    }

    open spec fn from_spec(o: &'a Order) -> OrderEntity {
        OrderEntity {
            metadata: BaseEntity { id: o.id, created_at: o.created_at, updated_at: o.created_at },
            name: o.name,
            user_id: o.user_id,
            total: o.total,
        }
    }
}

impl From<UserEntity> for User {
    fn from(entity: UserEntity) -> (u: Self) {
        User {
            id: entity.metadata.id,
            name: entity.name,
            balance: entity.balance,
            created_at: entity.metadata.created_at,
        }
    }
}

impl vstd::std_specs::convert::FromSpecImpl<UserEntity> for User {
    open spec fn obeys_from_spec() -> bool {
        true
    }

    open spec fn from_spec(entity: UserEntity) -> User {
        user_of_row(entity)
    }
}

impl UserEntity {
    /// The row that stores `user`, updated at `now`.
    pub fn stored_at(user: &User, now: Timestamp) -> (e: Self)
        ensures
            row_holds_user(e, *user),
            e.metadata.updated_at == now,
    {
        UserEntity {
            metadata: BaseEntity::existing_at(user.id, user.created_at, now),
            name: user.name.clone(),
            balance: user.balance,
        }
    }
}

impl<'a> From<&'a User> for UserEntity {
    /// The row that stores `user`, updated now (the clock's reading).
    fn from(user: &'a User) -> (e: Self)
        ensures
            row_holds_user(e, *user),
            e.metadata.updated_at.wf(),
    {
        UserEntity::stored_at(user, clock_now())
    }
}

impl<'a> vstd::std_specs::convert::FromSpecImpl<&'a User> for UserEntity {
    /// The row's update instant is read from the clock, so no function of `user` gives the row.
    open spec fn obeys_from_spec() -> bool {
        false
    }

    open spec fn from_spec(user: &'a User) -> UserEntity {
        UserEntity {
            metadata: BaseEntity { id: user.id, created_at: user.created_at, updated_at: user.created_at },
            name: user.name,
            balance: user.balance,
        }
    }
}

/// The message of the error for a user that no row with key `id` holds.
pub open spec fn missing_id_message(id: u128) -> Seq<char> {
    "User with id "@ + uuid_text(id) + " not found"@
}

/// The message of the error for a user that no row with name `name` holds.
pub open spec fn missing_name_message(name: Seq<char>) -> Seq<char> {
    "User with name "@ + name + " not found"@
}

/// `r` is what a lookup of the user with key `id` answers for the fetched row:
/// the user that the row holds, or `UserNotFound` when there is none.
pub open spec fn found_by_id_answer(row: Option<UserEntity>, id: u128, r: Result<User, DomainError>) -> bool {
    match row {
        Some(e) => r == Ok::<User, DomainError>(user_of_row(e)),
        None => r matches Err(DomainError::UserNotFound(m)) && m@ == missing_id_message(id),
    }
}

/// What a lookup of the user with key `id` answers for the row it fetched:
/// the user that the row holds, or `UserNotFound` when there is none.
pub fn found_user_by_id(row: Option<UserEntity>, id: u128) -> (r: Result<User, DomainError>)
    ensures
        found_by_id_answer(row, id, r),
{
    match row {
        Some(e) => Ok(User::from(e)),
        None => {
            let mut m = String::from_str("User with id ");
            let t = format_id(id);
            m.append(t.as_str());
            m.append(" not found");
            Err(DomainError::UserNotFound(m))
        },
    }
}

/// What a lookup of the user named `name` answers for the row it fetched:
/// the user that the row holds, or `UserNotFound` when there is none.
pub fn found_user_by_name(row: Option<UserEntity>, name: &str) -> (r: Result<User, DomainError>)
    ensures
        match row {
            Some(e) => r == Ok::<User, DomainError>(user_of_row(e)),
            None => r matches Err(DomainError::UserNotFound(m)) && m@ == missing_name_message(name@),
        },
{
    match row {
        Some(e) => Ok(User::from(e)),
        None => {
            let mut m = String::from_str("User with name ");
            m.append(name);
            m.append(" not found");
            Err(DomainError::UserNotFound(m))
        },
    }
}

/// The users that the fetched rows hold, in the order of the rows.
pub fn users_from_rows(rows: Vec<UserEntity>) -> (users: Vec<User>)
    ensures
        users@ == rows@.map_values(|e: UserEntity| user_of_row(e)),
{
    let mut users: Vec<User> = Vec::new();
    let n = rows.len();
    for i in 0..n
        invariant
            n == rows@.len(),
            users@ == rows@.take(i as int).map_values(|e: UserEntity| user_of_row(e)),
    {
        let e = rows[i].clone();
        users.push(User::from(e));
        assert(rows@.take(i + 1) =~= rows@.take(i as int).push(rows@[i as int]));
        assert(users@ =~= rows@.take(i + 1).map_values(|e: UserEntity| user_of_row(e)));
    }
    assert(rows@.take(n as int) =~= rows@);
    users
}

/// The orders that the fetched rows hold, in the order of the rows.
pub fn orders_from_rows(rows: Vec<OrderEntity>) -> (orders: Vec<Order>)
    ensures
        orders@ == orders_of_rows(rows@),
{
    let mut orders: Vec<Order> = Vec::new();
    let n = rows.len();
    for i in 0..n
        invariant
            n == rows@.len(),
            orders@ == rows@.take(i as int).map_values(|e: OrderEntity| order_of_row(e)),
    {
        let e = rows[i].clone();
        orders.push(Order::from(e));
        assert(rows@.take(i + 1) =~= rows@.take(i as int).push(rows@[i as int]));
        assert(orders@ =~= rows@.take(i + 1).map_values(|e: OrderEntity| order_of_row(e)));
    }
    assert(rows@.take(n as int) =~= rows@);
    orders
}

/// A user stored in a row reads back as the same user: every row that
/// `UserEntity::from(&user)` gives maps back to `user` under `User::from`.
pub proof fn lemma_user_row_roundtrip(user: User, row: UserEntity)
    requires
        row_holds_user(row, user),
    ensures
        user_of_row(row) == user,
{
}

/// An order stored in a row reads back as the same order: every row that
/// `OrderEntity::from(&order)` gives maps back to `order` under `Order::from`.
pub proof fn lemma_order_row_roundtrip(order: Order, row: OrderEntity)
    requires
        row_holds_order(row, order),
    ensures
        order_of_row(row) == order,
{
}

/// The orders that the rows hold, in the order of the rows.
pub open spec fn orders_of_rows(rows: Seq<OrderEntity>) -> Seq<Order> {
    rows.map_values(|e: OrderEntity| order_of_row(e))
}

/// Reading back a saved user, the library's part: when the row that the lookup
/// fetches is one that holds `user` (as every row `UserEntity::from(&user)` gives
/// does), the lookup by the user's key answers exactly `user`.
pub proof fn lemma_saved_user_is_found(user: User, row: UserEntity, r: Result<User, DomainError>)
    requires
        row_holds_user(row, user),
        found_by_id_answer(Some(row), user.id, r),
    ensures
        r == Ok::<User, DomainError>(user),
{
}

/// Reading a deleted user, the library's part: when the lookup fetches no row,
/// it answers `UserNotFound` with a message that names the key in its text form.
pub proof fn lemma_missing_user_not_found(id: u128, r: Result<User, DomainError>)
    requires
        found_by_id_answer(None, id, r),
    ensures
        r matches Err(DomainError::UserNotFound(m)) && m@.subrange(13, 49) == uuid_text(id),
{
    let t = uuid_text(id);
    assert("User with id "@.len() == 13) by {
        reveal_strlit("User with id ");
    }
    if let Err(DomainError::UserNotFound(m)) = r {
        assert(m@.subrange(13, 49) =~= t);
    }
}

/// Of rows where exactly one row (the `k`-th) has the key of `order` and holds
/// it, the orders read back hold `order` exactly once, at the same place.
pub proof fn lemma_stored_order_read_once(rows: Seq<OrderEntity>, order: Order, k: int)
    requires
        0 <= k < rows.len(),
        row_holds_order(rows[k], order),
        forall|i: int| 0 <= i < rows.len() && (#[trigger] rows[i]).metadata.id == order.id ==> i == k,
    ensures
        orders_of_rows(rows)[k] == order,
        forall|i: int| 0 <= i < rows.len() && (#[trigger] orders_of_rows(rows)[i]).id == order.id ==> i == k,
{
    let v = orders_of_rows(rows);
    assert forall|i: int| 0 <= i < rows.len() && (#[trigger] v[i]).id == order.id implies i == k by {
        assert(v[i] == order_of_row(rows[i]));
    }
}

} // verus!
