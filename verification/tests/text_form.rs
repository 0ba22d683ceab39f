use hedera::error::ErrorKind;
use hedera::id::EntityId;
use hedera::timestamp::Timestamp;
use hedera::transaction_id::TransactionId;

#[test]
fn test_display() {
    let account_id = EntityId::new(7, 5, 1001);
    let transaction_valid_start = Timestamp { seconds: 1234567, nanos: 10001 };
    let transaction_id = TransactionId { account_id, transaction_valid_start };

    assert_eq!(transaction_id.to_text(), "7:5:1001@1234567.10001");
}

#[test]
fn test_parse() {
    let account_id = EntityId::new(7, 5, 1001);
    let transaction_valid_start = Timestamp { seconds: 1234567, nanos: 10001 };
    let transaction_id = TransactionId { account_id, transaction_valid_start };

    assert_eq!(
        "7:5:1001@1234567.10001".parse::<TransactionId>().unwrap(),
        transaction_id
    );
}

#[test]
fn entity_round_trips() {
    let cases = [
        (0i64, 0i64, 0i64),
        (7, 5, 1001),
        (0, 0, 3),
        (1, 2, 9223372036854775807),
        (9223372036854775807, 0, 1),
        (-1, -2, -3),
        (0, 0, -9223372036854775808),
    ];
    for (shard, realm, num) in cases {
        let id = EntityId::new(shard, realm, num);
        let text = id.to_text();
        assert_eq!(EntityId::parse(&text).unwrap(), id);
    }
}

#[test]
fn entity_text_form() {
    assert_eq!(EntityId::new(0, 0, 3).to_text(), "0:0:3");
    assert_eq!(EntityId::new(10, 200, 3000).to_text(), "10:200:3000");
}

#[test]
fn entity_parse_accepts_dot_separator() {
    assert_eq!(EntityId::parse("7.5.1001").unwrap(), EntityId::new(7, 5, 1001));
    assert_eq!(EntityId::parse("7:5.1001").unwrap(), EntityId::new(7, 5, 1001));
}

#[test]
fn entity_parse_rejects_malformed_text() {
    for bad in [
        "",
        "1",
        "1:2",
        "1:2:",
        ":2:3",
        "1:2:x",
        "a:b:c",
        "1:2:3:4",
        "1:2:3x",
        "9223372036854775808:0:0",
        "1:2:99999999999999999999999999",
    ] {
        match EntityId::parse(bad) {
            Err(ErrorKind::Parse(_)) => {}
            other => panic!("{:?} parsed to {:?}", bad, other),
        }
    }
}

#[test]
fn timestamp_round_trips() {
    let cases = [
        (0i64, 0u32),
        (1234567, 10001),
        (1, 999999999),
        (-5, 42),
        (9223372036854775807, 1),
    ];
    for (seconds, nanos) in cases {
        let t = Timestamp { seconds, nanos };
        let text = t.to_text();
        assert_eq!(Timestamp::parse(&text).unwrap(), t);
    }
}

#[test]
fn timestamp_parse_rejects_malformed_text() {
    for bad in ["", "5", "5.", ".5", "5.-1", "5.x", "5.1000000000", "5.1.2"] {
        match Timestamp::parse(bad) {
            Err(ErrorKind::Parse(_)) => {}
            other => panic!("{:?} parsed to {:?}", bad, other),
        }
    }
}

#[test]
fn transaction_id_parse_rejects_malformed_text() {
    for bad in ["", "7:5:1001", "7:5:1001@", "@5.1", "7:5@5.1@2.2", "x@5.1"] {
        match TransactionId::parse(bad) {
            Err(ErrorKind::Parse(_)) => {}
            other => panic!("{:?} parsed to {:?}", bad, other),
        }
    }
}

#[test]
fn timestamp_subtraction_saturates() {
    let t = Timestamp { seconds: 100, nanos: 7 };
    let earlier = t.sub_seconds(30);
    assert_eq!(earlier.seconds, 70);
    assert_eq!(earlier.nanos, 7);

    let low = Timestamp { seconds: 3, nanos: 9 };
    let floored = low.sub_seconds(10);
    assert_eq!(floored.seconds, 0);
    assert_eq!(floored.nanos, 9);
}

#[test]
fn timestamp_ordering() {
    let a = Timestamp { seconds: 1, nanos: 5 };
    let b = Timestamp { seconds: 1, nanos: 6 };
    let c = Timestamp { seconds: 2, nanos: 0 };
    assert!(a.is_before(&b));
    assert!(b.is_before(&c));
    assert!(!b.is_before(&a));
    assert!(!a.is_before(&a));
    assert!(a < b);
    assert!(b < c);
    assert!(c > a);
    assert!(a <= a);
    assert_eq!(a.partial_cmp(&c), Some(std::cmp::Ordering::Less));
}

#[test]
fn now_is_well_formed() {
    let t = Timestamp::now();
    assert!(t.nanos < 1_000_000_000);
    let id = TransactionId::new(EntityId::new(0, 0, 2));
    assert_eq!(id.account_id, EntityId::new(0, 0, 2));
    assert!(id.transaction_valid_start.nanos < 1_000_000_000);
}
