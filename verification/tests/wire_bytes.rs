use hedera::duration::Duration;
use hedera::id::EntityId;
use hedera::timestamp::Timestamp;
use hedera::transaction_id::TransactionId;
use hedera::wire::OperationData;
use hedera::wire::TransactionBody;
use hedera::wire::TransactionCryptoTransfer;
use hedera::wire::encode_body;

fn body(
    account: EntityId,
    start: Timestamp,
    node: EntityId,
    fee: u64,
    generate_record: bool,
    memo: &str,
    transfers: Vec<(EntityId, i64)>,
) -> TransactionBody {
    TransactionBody {
        transaction_id: TransactionId::with_valid_start(account, start),
        node,
        transaction_fee: fee,
        transaction_valid_duration: Duration::new(120, 0),
        generate_record,
        memo: String::from(memo),
        data: OperationData::CryptoTransfer(TransactionCryptoTransfer { transfers }),
    }
}

#[test]
fn canonical_bytes_of_a_small_envelope() {
    let b = body(
        EntityId::new(1, 2, 3),
        Timestamp { seconds: 5, nanos: 6 },
        EntityId::new(0, 0, 3),
        10,
        false,
        "ab",
        vec![],
    );
    let expected: Vec<u8> = vec![
        // transaction id: account (1,2,3) and valid start (5,6)
        10, 14, 10, 6, 8, 2, 16, 4, 24, 6, 18, 4, 8, 10, 16, 6,
        // node (0,0,3)
        18, 6, 8, 0, 16, 0, 24, 6,
        // fee 10
        24, 10,
        // validity window: 120 seconds
        34, 4, 8, 120, 16, 0,
        // no record asked for
        40, 0,
        // memo "ab"
        50, 2, 97, 98,
        // empty transfer payload under its union field
        66, 0,
    ];
    assert_eq!(encode_body(&b), expected);
}

#[test]
fn canonical_bytes_cover_varints_and_negative_amounts() {
    let b = body(
        EntityId::new(0, 0, 1001),
        Timestamp { seconds: 0, nanos: 0 },
        EntityId::new(0, 0, 3),
        300,
        true,
        "",
        vec![(EntityId::new(0, 0, 9), -1)],
    );
    let expected: Vec<u8> = vec![
        // transaction id: account (0,0,1001) needs a two-byte varint
        10, 15, 10, 7, 8, 0, 16, 0, 24, 210, 15, 18, 4, 8, 0, 16, 0,
        // node (0,0,3)
        18, 6, 8, 0, 16, 0, 24, 6,
        // fee 300, a two-byte varint
        24, 172, 2,
        // validity window
        34, 4, 8, 120, 16, 0,
        // a record is asked for
        40, 1,
        // empty memo
        50, 0,
        // one transfer row: account (0,0,9), amount -1 zigzag-folded to 1
        66, 12, 10, 10, 10, 6, 8, 0, 16, 0, 24, 18, 16, 1,
    ];
    assert_eq!(encode_body(&b), expected);
}

#[test]
fn equal_bodies_have_equal_bytes() {
    let make = || {
        body(
            EntityId::new(7, 5, 1001),
            Timestamp { seconds: 1234567, nanos: 10001 },
            EntityId::new(0, 0, 3),
            10,
            false,
            "hello",
            vec![(EntityId::new(0, 0, 3), 42), (EntityId::new(7, 5, 1001), -42)],
        )
    };
    assert_eq!(encode_body(&make()), encode_body(&make()));
}

#[test]
fn different_memos_change_the_bytes() {
    let a = body(
        EntityId::new(1, 1, 1),
        Timestamp { seconds: 1, nanos: 1 },
        EntityId::new(0, 0, 3),
        10,
        false,
        "x",
        vec![],
    );
    let mut b = body(
        EntityId::new(1, 1, 1),
        Timestamp { seconds: 1, nanos: 1 },
        EntityId::new(0, 0, 3),
        10,
        false,
        "y",
        vec![],
    );
    assert_ne!(encode_body(&a), encode_body(&b));
    b.memo = String::from("x");
    assert_eq!(encode_body(&a), encode_body(&b));
}
