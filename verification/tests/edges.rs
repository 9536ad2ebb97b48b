use banking_graphql::adapters::inbound::graph_ql::{CreateOrderInput, CreateUserInput, OrderView, UserView};
use banking_graphql::adapters::outbound::kafka_service::{
    consumer_step, process_event, user_created_request, ConsumerAction, ConsumerInput, EventError,
    PUBLISH_TIMEOUT_SECS,
};
use banking_graphql::adapters::outbound::postgres::{
    found_user_by_id, found_user_by_name, orders_from_rows, users_from_rows, BaseEntity, OrderEntity,
    UserEntity,
};
use banking_graphql::application::{CreateOrderCommand, CreateUserCommand};
use banking_graphql::clock::Timestamp;
use banking_graphql::config::DatabaseConfig;
use banking_graphql::domain::{DomainError, Order, User};
use banking_graphql::ids::{format_id, parse_id};
use banking_graphql::money::Amount;

const SAMPLE: u128 = 0xa1a2a3a4b1b2c1c2d1d2d3d4d5d6d7d8;

#[test]
fn format_id_is_lower_hyphenated() {
    assert_eq!(format_id(SAMPLE), "a1a2a3a4-b1b2-c1c2-d1d2-d3d4d5d6d7d8");
    assert_eq!(format_id(0), "00000000-0000-0000-0000-000000000000");
}

#[test]
fn parse_id_accepts_every_form() {
    assert_eq!(parse_id("a1a2a3a4-b1b2-c1c2-d1d2-d3d4d5d6d7d8"), Some(SAMPLE));
    assert_eq!(parse_id("A1A2A3A4-B1B2-C1C2-D1D2-D3D4D5D6D7D8"), Some(SAMPLE));
    assert_eq!(parse_id("a1a2a3a4b1b2c1c2d1d2d3d4d5d6d7d8"), Some(SAMPLE));
    assert_eq!(parse_id("{a1a2a3a4-b1b2-c1c2-d1d2-d3d4d5d6d7d8}"), Some(SAMPLE));
    assert_eq!(parse_id("URN:uuid:a1a2a3a4-b1b2-c1c2-d1d2-d3d4d5d6d7d8"), Some(SAMPLE));
}

#[test]
fn parse_id_refuses_other_text() {
    assert_eq!(parse_id(""), None);
    assert_eq!(parse_id("not-a-uuid"), None);
    assert_eq!(parse_id("a1a2a3a4-b1b2-c1c2-d1d2-d3d4d5d6d7dg"), None);
    assert_eq!(parse_id("a1a2a3a4_b1b2-c1c2-d1d2-d3d4d5d6d7d8"), None);
    assert_eq!(parse_id("urn:uuix:a1a2a3a4-b1b2-c1c2-d1d2-d3d4d5d6d7d8"), None);
}

#[test]
fn parse_of_format_gives_id_back() {
    for id in [0u128, 1, SAMPLE, u128::MAX, User::new("x").id] {
        assert_eq!(parse_id(&format_id(id)), Some(id));
    }
}

#[test]
fn config_reads_url_and_pool_size() {
    let c = DatabaseConfig::from_values(Some("postgres://db".to_string()), Some("25".to_string())).unwrap();
    assert_eq!(c.url, "postgres://db");
    assert_eq!(c.max_connections, 25);
    let c = DatabaseConfig::from_values(Some("u".to_string()), Some("+7".to_string())).unwrap();
    assert_eq!(c.max_connections, 7);
}

#[test]
fn config_defaults_pool_size_to_ten() {
    for text in [None, Some(""), Some("abc"), Some(" 5"), Some("-1"), Some("+"), Some("4294967296")] {
        let c = DatabaseConfig::from_values(Some("u".to_string()), text.map(|t| t.to_string())).unwrap();
        assert_eq!(c.max_connections, 10);
    }
    let c = DatabaseConfig::from_values(Some("u".to_string()), Some("4294967295".to_string())).unwrap();
    assert_eq!(c.max_connections, u32::MAX);
}

#[test]
fn config_requires_url() {
    let e = DatabaseConfig::from_values(None, Some("3".to_string())).unwrap_err();
    assert_eq!(e, "DATABASE_URL env variable is missing");
}

#[test]
fn inputs_become_commands() {
    let c: CreateUserCommand = CreateUserInput { name: "  Mauro ".to_string() }.into();
    assert_eq!(c.name, "  Mauro ");
    let total = Amount { mantissa: 250, scale: 2 };
    let c: CreateOrderCommand = CreateOrderInput { name: "pen".to_string(), user_id: 5, total }.into();
    assert_eq!(c.name, "pen");
    assert_eq!(c.user_id, 5);
    assert_eq!(c.total, total);
}

#[test]
fn domain_values_become_views() {
    let t = Timestamp { secs: 100, nanos: 1 };
    let u = User::with_identity("Ann", 11, t);
    let v: UserView = u.into();
    assert_eq!(v.id, 11);
    assert_eq!(v.name, "Ann");
    assert_eq!(v.balance, Amount::zero());
    assert_eq!(v.created_at, t);
    let o = Order::with_identity("cup", 11, Amount { mantissa: 3, scale: 0 }, 12, t);
    let v: OrderView = o.into();
    assert_eq!(v.id, 12);
    assert_eq!(v.user_id, 11);
    assert_eq!(v.name, "cup");
    assert_eq!(v.total, Amount { mantissa: 3, scale: 0 });
    assert_eq!(v.created_at, t);
}

#[test]
fn base_entity_new_and_with_id() {
    let b = BaseEntity::new();
    assert_eq!((b.id >> 76) & 0xf, 7);
    assert_eq!((b.id >> 62) & 0x3, 2);
    assert_eq!(b.created_at, b.updated_at);
    let d = BaseEntity::default();
    assert_eq!(d.created_at, d.updated_at);
    let w = BaseEntity::with_id(77);
    assert_eq!(w.id, 77);
    assert_eq!(w.created_at, w.updated_at);
}

#[test]
fn base_entity_at_given_instants() {
    let now = Timestamp { secs: 1_700_000_000, nanos: 7 };
    let b = BaseEntity::at(5, now);
    assert_eq!(b.id, 5);
    assert_eq!(b.created_at, now);
    assert_eq!(b.updated_at, now);
    let created = Timestamp { secs: 10, nanos: 0 };
    let mut e = BaseEntity::existing_at(6, created, now);
    assert_eq!((e.id, e.created_at, e.updated_at), (6, created, now));
    let later = Timestamp { secs: 1_800_000_000, nanos: 0 };
    e.touch_at(later);
    assert_eq!((e.id, e.created_at, e.updated_at), (6, created, later));
}

#[test]
fn rows_stored_at_given_instant() {
    let now = Timestamp { secs: 99, nanos: 1 };
    let u = User::with_identity("Sam", 21, Timestamp { secs: 3, nanos: 4 });
    let e = UserEntity::stored_at(&u, now);
    assert_eq!(e.metadata.id, 21);
    assert_eq!(e.metadata.created_at, u.created_at);
    assert_eq!(e.metadata.updated_at, now);
    assert_eq!(e.name, "Sam");
    let o = Order::with_identity("pad", 21, Amount { mantissa: 5, scale: 1 }, 22, Timestamp { secs: 3, nanos: 4 });
    let e = OrderEntity::stored_at(&o, now);
    assert_eq!(e.metadata.id, 22);
    assert_eq!(e.metadata.updated_at, now);
    assert_eq!(e.user_id, 21);
    assert_eq!(e.total, o.total);
}

#[test]
fn base_entity_from_existing_and_touch_keep_identity() {
    let created = Timestamp { secs: 5, nanos: 6 };
    let mut b = BaseEntity::from_existing(8, created);
    assert_eq!(b.id, 8);
    assert_eq!(b.created_at, created);
    assert!(b.updated_at.secs > created.secs);
    b.touch();
    assert_eq!(b.id, 8);
    assert_eq!(b.created_at, created);
    assert!(b.updated_at.secs > created.secs);
}

#[test]
fn user_row_roundtrip() {
    let mut u = User::with_identity("Row", 31, Timestamp { secs: 9, nanos: 9 });
    u.deposit(Amount { mantissa: 42, scale: 1 }).unwrap();
    let e = UserEntity::from(&u);
    assert_eq!(e.metadata.id, 31);
    assert_eq!(e.metadata.created_at, u.created_at);
    let back = User::from(e);
    assert_eq!(back.id, u.id);
    assert_eq!(back.name, u.name);
    assert_eq!(back.balance, u.balance);
    assert_eq!(back.created_at, u.created_at);
}

#[test]
fn order_row_roundtrip() {
    let o = Order::with_identity("mug", 2, Amount { mantissa: 7, scale: 0 }, 3, Timestamp { secs: 1, nanos: 2 });
    let e = OrderEntity::from(&o);
    let back = Order::from(e);
    assert_eq!(back.id, o.id);
    assert_eq!(back.user_id, o.user_id);
    assert_eq!(back.name, o.name);
    assert_eq!(back.total, o.total);
    assert_eq!(back.created_at, o.created_at);
}

fn row(id: u128, name: &str) -> UserEntity {
    let t = Timestamp { secs: 3, nanos: 0 };
    UserEntity {
        metadata: BaseEntity { id, created_at: t, updated_at: t },
        name: name.to_string(),
        balance: Amount::zero(),
    }
}

#[test]
fn lookup_by_id_answers_row_or_not_found() {
    let u = found_user_by_id(Some(row(4, "Dan")), 4).unwrap();
    assert_eq!(u.id, 4);
    assert_eq!(u.name, "Dan");
    match found_user_by_id(None, SAMPLE) {
        Err(DomainError::UserNotFound(m)) => {
            assert_eq!(m, "User with id a1a2a3a4-b1b2-c1c2-d1d2-d3d4d5d6d7d8 not found")
        }
        other => panic!("unexpected {}", other.is_ok()),
    }
}

#[test]
fn lookup_by_name_answers_row_or_not_found() {
    let u = found_user_by_name(Some(row(4, "Dan")), "Dan").unwrap();
    assert_eq!(u.name, "Dan");
    match found_user_by_name(None, "Zoe") {
        Err(DomainError::UserNotFound(m)) => assert_eq!(m, "User with name Zoe not found"),
        other => panic!("unexpected {}", other.is_ok()),
    }
}

#[test]
fn rows_map_in_order() {
    let users = users_from_rows(vec![row(1, "a"), row(2, "b")]);
    assert_eq!(users.len(), 2);
    assert_eq!(users[0].id, 1);
    assert_eq!(users[1].name, "b");
    assert!(users_from_rows(Vec::new()).is_empty());
    let t = Timestamp { secs: 0, nanos: 0 };
    let orders = orders_from_rows(vec![OrderEntity {
        metadata: BaseEntity { id: 9, created_at: t, updated_at: t },
        name: "o".to_string(),
        user_id: 1,
        total: Amount::zero(),
    }]);
    assert_eq!(orders.len(), 1);
    assert_eq!(orders[0].id, 9);
    assert_eq!(orders[0].user_id, 1);
}

#[test]
fn user_created_request_fields() {
    let r = user_created_request(SAMPLE, "2024-01-01T00:00:00+00:00".to_string());
    assert_eq!(r.topic, "user-events");
    assert_eq!(r.key, "a1a2a3a4-b1b2-c1c2-d1d2-d3d4d5d6d7d8");
    assert_eq!(r.event.event_type, "USER_CREATED");
    assert_eq!(r.event.user_id, SAMPLE);
    assert_eq!(r.event.timestamp, "2024-01-01T00:00:00+00:00");
    assert_eq!(PUBLISH_TIMEOUT_SECS, 5);
    let v: serde_json::Value = serde_json::from_str(&r.payload).unwrap();
    let o = v.as_object().unwrap();
    assert_eq!(o.len(), 3);
    assert_eq!(o["event_type"], "USER_CREATED");
    assert_eq!(o["user_id"], "a1a2a3a4-b1b2-c1c2-d1d2-d3d4d5d6d7d8");
    assert_eq!(o["timestamp"], "2024-01-01T00:00:00+00:00");
    let mut expected = serde_json::Map::new();
    expected.insert("event_type".to_string(), serde_json::Value::from("USER_CREATED"));
    expected.insert("user_id".to_string(), serde_json::Value::from(uuid::Uuid::from_u128(SAMPLE).to_string()));
    expected.insert("timestamp".to_string(), serde_json::Value::from("2024-01-01T00:00:00+00:00"));
    assert_eq!(r.payload, serde_json::to_string(&serde_json::Value::Object(expected)).unwrap());
}

#[test]
fn process_event_accepts_json_only() {
    assert!(process_event(r#"{"event_type":"USER_CREATED"}"#).is_ok());
    assert!(process_event("42").is_ok());
    assert!(process_event("[1,2]").is_ok());
    for bad in ["{oops", "", "not json"] {
        match process_event(bad) {
            Err(EventError::InvalidJson(e)) => {
                let expected = serde_json::from_str::<serde_json::Value>(bad).unwrap_err();
                assert_eq!(e.to_string(), expected.to_string());
            }
            Ok(()) => panic!("accepted {:?}", bad),
        }
    }
}

#[test]
fn consumer_decisions() {
    assert!(matches!(consumer_step(ConsumerInput::StreamError), ConsumerAction::ReportStreamError));
    assert!(matches!(consumer_step(ConsumerInput::Message { payload: None }), ConsumerAction::Skip));
    assert!(matches!(
        consumer_step(ConsumerInput::Message { payload: Some(vec![0xff, 0xfe]) }),
        ConsumerAction::Skip
    ));
    assert!(matches!(
        consumer_step(ConsumerInput::Message { payload: Some(br#"{"a":1}"#.to_vec()) }),
        ConsumerAction::Commit
    ));
    assert!(matches!(
        consumer_step(ConsumerInput::Message { payload: Some(b"not json".to_vec()) }),
        ConsumerAction::ReportProcessingError(EventError::InvalidJson(_))
    ));
}
