use banking_graphql::clock::Timestamp;
use banking_graphql::domain::{DomainError, Order, User};
use banking_graphql::money::Amount;

fn version(id: u128) -> u128 {
    (id >> 76) & 0xf
}

fn variant(id: u128) -> u128 {
    (id >> 62) & 0x3
}

#[test]
fn new_user_is_trimmed_with_zero_balance() {
    let u = User::new("  Mauro \t\n");
    assert_eq!(u.name, "Mauro");
    assert_eq!(u.balance, Amount { mantissa: 0, scale: 0 });
    assert_eq!(version(u.id), 4);
    assert_eq!(variant(u.id), 2);
    assert!(u.created_at.nanos < 2_000_000_000);
}

#[test]
fn new_user_trims_unicode_white_space() {
    let u = User::new("\u{3000}\u{a0}Anna Maria\u{2029}\u{85}");
    assert_eq!(u.name, "Anna Maria");
    let blank = User::new(" \u{2003} ");
    assert_eq!(blank.name, "");
}

#[test]
fn new_user_ids_differ() {
    let a = User::new("a");
    let b = User::new("a");
    assert_ne!(a.id, b.id);
}

#[test]
fn with_identity_keeps_given_identity() {
    let t = Timestamp { secs: 1_700_000_000, nanos: 5 };
    let u = User::with_identity(" Bob ", 42, t);
    assert_eq!(u.id, 42);
    assert_eq!(u.name, "Bob");
    assert_eq!(u.created_at, t);
    assert_eq!(u.balance, Amount::zero());
}

#[test]
fn new_order_is_trimmed_and_keeps_user_and_total() {
    let total = Amount { mantissa: 1999, scale: 2 };
    let o = Order::new("  book  ", 7, total);
    assert_eq!(o.name, "book");
    assert_eq!(o.user_id, 7);
    assert_eq!(o.total, total);
    assert_eq!(version(o.id), 4);
    assert_eq!(variant(o.id), 2);
}

#[test]
fn deposit_adds_positive_amount() {
    let mut u = User::with_identity("Eve", 1, Timestamp { secs: 0, nanos: 0 });
    let r = u.deposit(Amount { mantissa: 105, scale: 1 });
    assert!(r.is_ok());
    assert_eq!(u.balance, Amount { mantissa: 105, scale: 1 });
    let r = u.deposit(Amount { mantissa: 2, scale: 0 });
    assert!(r.is_ok());
    assert_eq!(u.balance, Amount { mantissa: 125, scale: 1 });
    assert_eq!(u.id, 1);
    assert_eq!(u.name, "Eve");
}

#[test]
fn deposit_refuses_zero_and_negative() {
    let mut u = User::with_identity("Eve", 1, Timestamp { secs: 0, nanos: 0 });
    u.deposit(Amount { mantissa: 3, scale: 0 }).unwrap();
    let zero = Amount { mantissa: 0, scale: 4 };
    match u.deposit(zero) {
        Err(DomainError::InvalidAmount(a)) => assert_eq!(a, zero),
        other => panic!("unexpected {:?}", other),
    }
    let negative = Amount { mantissa: -1, scale: 0 };
    match u.deposit(negative) {
        Err(DomainError::InvalidAmount(a)) => assert_eq!(a, negative),
        other => panic!("unexpected {:?}", other),
    }
    assert_eq!(u.balance, Amount { mantissa: 3, scale: 0 });
}

#[test]
fn try_deposit_reports_overflow_and_changes_nothing() {
    let max = Amount { mantissa: 0xffff_ffff_ffff_ffff_ffff_ffff, scale: 0 };
    let mut u = User::with_identity("Rich", 9, Timestamp { secs: 0, nanos: 0 });
    assert!(matches!(u.try_deposit(max), Some(Ok(()))));
    assert_eq!(u.balance, max);
    assert!(u.try_deposit(Amount { mantissa: 1, scale: 0 }).is_none());
    assert_eq!(u.balance, max);
    assert!(matches!(
        u.try_deposit(Amount { mantissa: -5, scale: 0 }),
        Some(Err(DomainError::InvalidAmount(_)))
    ));
}

#[test]
fn domain_error_messages() {
    assert_eq!(
        DomainError::UserNotFound("abc".to_string()).to_string(),
        "User not found with id abc"
    );
    assert_eq!(DomainError::Unauthorized.to_string(), "Non autorizzato");
    assert_eq!(DomainError::InternalError.to_string(), "Internal error");
    assert_eq!(DomainError::EventPublishError.to_string(), "Event publishing failed");
    assert_eq!(
        DomainError::InvalidAmount(Amount { mantissa: -1, scale: 0 }).to_string(),
        "Invalid amount"
    );
}

#[test]
fn domain_error_duplicate_is_equal() {
    match DomainError::UserNotFound("x".to_string()).duplicate() {
        DomainError::UserNotFound(m) => assert_eq!(m, "x"),
        other => panic!("unexpected {:?}", other),
    }
    assert!(matches!(DomainError::Unauthorized.duplicate(), DomainError::Unauthorized));
}

#[test]
fn user_clone_keeps_fields() {
    let u = User::with_identity("Zed", 3, Timestamp { secs: 10, nanos: 20 });
    let c = u.clone();
    assert_eq!(c.id, u.id);
    assert_eq!(c.name, u.name);
    assert_eq!(c.balance, u.balance);
    assert_eq!(c.created_at, u.created_at);
}

#[test]
fn amount_zero_and_sign() {
    assert_eq!(Amount::zero(), Amount { mantissa: 0, scale: 0 });
    assert!(!Amount::zero().is_positive());
    assert!(Amount { mantissa: 1, scale: 28 }.is_positive());
    assert!(!Amount { mantissa: -1, scale: 0 }.is_positive());
}
