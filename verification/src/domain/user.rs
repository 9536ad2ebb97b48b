//! Users and their business rules.
use vstd::prelude::*;
use crate::clock::{clock_now, Timestamp};
use crate::domain::error::DomainError;
use crate::ids::{random_id, uuid_variant, uuid_version};
use crate::money::{checked_sum, spec_checked_sum, Amount};
use crate::text::{trim_text, trimmed};

verus! {

pub struct User {
    pub id: u128,
    pub name: String,
    pub balance: Amount,
    pub created_at: Timestamp,
}

impl Clone for User {
    fn clone(&self) -> (u: Self)
        ensures
            u == *self,
    {
        User { id: self.id, name: self.name.clone(), balance: self.balance, created_at: self.created_at }
    }
}

impl User {
    /// The user's balance and creation instant are values their types can hold.
    pub open spec fn wf(&self) -> bool {
        self.balance.wf() && self.created_at.wf()
    }

    /// A new user named `name`, trimmed, with a zero balance, a random (version 4)
    /// identifier and the current instant as its creation instant.
    pub fn new(name: &str) -> (u: User)
        ensures
            u.name@ == trimmed(name@),
            u.balance == Amount::spec_zero(),
            uuid_version(u.id) == 4,
            uuid_variant(u.id) == 2,
            u.wf(),
    {
        let id = random_id();
        let now = clock_now();
        User::with_identity(name, id, now)
    }

    /// The user that `new` makes, given the identifier and the creation instant.
    pub fn with_identity(name: &str, id: u128, created_at: Timestamp) -> (u: User)
        ensures
            u.id == id,
            u.name@ == trimmed(name@),
            u.balance == Amount::spec_zero(),
            u.created_at == created_at,
    {
        User { id, name: trim_text(name), balance: Amount::zero(), created_at }
    }

    /// Deposits `amount`: a non-positive amount is refused with `InvalidAmount`
    /// and changes nothing; a positive one is added to the balance, as
    /// `Decimal::checked_add` adds (the addition must not overflow).
    pub fn deposit(&mut self, amount: Amount) -> (r: Result<(), DomainError>)
        requires
            old(self).balance.wf(),
            amount.wf(),
            amount.spec_is_positive() ==> spec_checked_sum(old(self).balance, amount) is Some,
        ensures
            !amount.spec_is_positive() ==> r == Err::<(), DomainError>(DomainError::InvalidAmount(amount))
                && *final(self) == *old(self),
            amount.spec_is_positive() ==> r == Ok::<(), DomainError>(()) && final(self).balance == spec_checked_sum(
                old(self).balance,
                amount,
            ).unwrap() && final(self).id == old(self).id && final(self).name == old(self).name
                && final(self).created_at == old(self).created_at,
            final(self).balance.wf(),
    {
        if !amount.is_positive() {
            return Err(DomainError::InvalidAmount(amount));
        }
        match checked_sum(self.balance, amount) {
            Some(sum) => {
                self.balance = sum;
                Ok(())
            },
            None => {
                proof {
                    assert(false);
                }
                Ok(())
            },
        }
    }

    /// Deposits `amount` where the addition does not overflow (`Some` of what
    /// `deposit` returns); where it would, returns `None` and changes nothing.
    pub fn try_deposit(&mut self, amount: Amount) -> (r: Option<Result<(), DomainError>>)
        requires
            old(self).balance.wf(),
            amount.wf(),
        ensures
            (amount.spec_is_positive() && spec_checked_sum(old(self).balance, amount) is None)
                ==> r is None && *final(self) == *old(self),
            !amount.spec_is_positive() ==> r == Some(Err::<(), DomainError>(DomainError::InvalidAmount(amount)))
                && *final(self) == *old(self),
            (amount.spec_is_positive() && spec_checked_sum(old(self).balance, amount) is Some) ==> r
                == Some(Ok::<(), DomainError>(())) && final(self).balance == spec_checked_sum(
                old(self).balance,
                amount,
            ).unwrap() && final(self).id == old(self).id && final(self).name == old(self).name
                && final(self).created_at == old(self).created_at,
    {
        if amount.is_positive() && checked_sum(self.balance, amount).is_none() {
            return None;
        }
        Some(self.deposit(amount))
    }
}

} // verus!
