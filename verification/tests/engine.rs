use hedera::client::Client;
use hedera::crypto::SecretKey;
use hedera::crypto::SignatureEntry;
use hedera::error::ErrorKind;
use hedera::id::EntityId;
use hedera::precheck::PreCheckCode;
use hedera::transaction::ServiceRoute;
use hedera::transaction::Transaction;
use hedera::transaction::TransactionKind;
use hedera::transaction_id::TransactionId;
use hedera::wire::OperationData;
use hedera::wire::TransactionFileAppend;
use hedera::wire::encode_body;

fn test_client() -> Client {
    let mut client = Client::new("localhost:50211").unwrap();
    client.set_node(EntityId::new(0, 0, 3));
    client.set_operator(
        EntityId::new(0, 0, 1001),
        SecretKey::from_bytes(vec![7u8; 32]).unwrap(),
    );
    client
}

fn frozen_bytes(t: &Transaction) -> Vec<u8> {
    match &t.kind {
        TransactionKind::Frozen(raw) => raw.bytes.clone(),
        other => panic!("not frozen: {:?}", other),
    }
}

#[test]
fn build_twice_is_byte_identical() {
    let client = test_client();
    let mut t = Transaction::crypto_transfer(&client);
    t.transfer(EntityId::new(0, 0, 3), 10);
    t.transfer(EntityId::new(0, 0, 1001), -10);
    t.build().unwrap();
    let first = frozen_bytes(&t);
    t.build().unwrap();
    let second = frozen_bytes(&t);
    assert_eq!(first, second);
}

#[test]
fn mutation_after_build_leaves_frozen_bytes() {
    let client = test_client();
    let mut t = Transaction::crypto_transfer(&client);
    t.transfer(EntityId::new(0, 0, 3), 1);
    t.memo(String::from("before"));
    t.build().unwrap();
    let frozen = frozen_bytes(&t);

    t.memo(String::from("after"));
    t.node(EntityId::new(9, 9, 9));
    t.fee(777);
    t.generate_record(true);
    t.transfer(EntityId::new(4, 4, 4), 99);

    t.build().unwrap();
    assert_eq!(frozen_bytes(&t), frozen);
}

#[test]
fn operator_signature_is_inserted_first() {
    let client = test_client();
    let mut t = Transaction::crypto_transfer(&client);
    t.transfer(EntityId::new(0, 0, 3), 10);
    t.transfer(EntityId::new(0, 0, 1001), -10);
    t.sign(&SecretKey::from_bytes(vec![1u8; 32]).unwrap()).unwrap();
    t.sign(&SecretKey::from_bytes(vec![2u8; 32]).unwrap()).unwrap();
    let prepared = t.execute_prepare().unwrap();

    assert_eq!(prepared.route, ServiceRoute::CryptoTransfer);
    assert_eq!(prepared.tx.sigs.len(), 3);

    // The transfer payload is not rewritten at prepare time, so the sent
    // body re-encodes to exactly the frozen bytes every signature covers.
    let body_bytes = encode_body(&prepared.tx.body);
    let expect = |key: [u8; 32]| -> Vec<u8> {
        let signer = ed25519_dalek::SigningKey::from_bytes(&key);
        ed25519_dalek::Signer::sign(&signer, &body_bytes).to_vec()
    };
    match &prepared.tx.sigs[0] {
        SignatureEntry::Single(sig) => assert_eq!(sig, &expect([7u8; 32])),
        other => panic!("operator entry not flat: {:?}", other),
    }
    match &prepared.tx.sigs[1] {
        SignatureEntry::Single(sig) => assert_eq!(sig, &expect([1u8; 32])),
        other => panic!("first explicit entry not flat: {:?}", other),
    }
    match &prepared.tx.sigs[2] {
        SignatureEntry::Single(sig) => assert_eq!(sig, &expect([2u8; 32])),
        other => panic!("second explicit entry not flat: {:?}", other),
    }
}

#[test]
fn file_signatures_are_wrapped() {
    let client = test_client();
    let mut t = Transaction::new(
        &client,
        OperationData::FileAppend(TransactionFileAppend {
            file: EntityId::new(0, 0, 42),
            contents: vec![1, 2, 3],
        }),
    );
    t.sign(&SecretKey::from_bytes(vec![1u8; 32]).unwrap()).unwrap();
    let prepared = t.execute_prepare().unwrap();

    assert_eq!(prepared.route, ServiceRoute::FileAppend);
    assert_eq!(prepared.tx.sigs.len(), 2);
    assert!(matches!(prepared.tx.sigs[0], SignatureEntry::Single(_)));
    assert!(matches!(prepared.tx.sigs[1], SignatureEntry::Wrapped(_)));
}

#[test]
fn signing_freezes_a_building_transaction_first() {
    let client = test_client();
    let mut t = Transaction::crypto_transfer(&client);
    t.transfer(EntityId::new(0, 0, 3), 1);
    t.sign(&SecretKey::from_bytes(vec![1u8; 32]).unwrap()).unwrap();
    match &t.kind {
        TransactionKind::Frozen(raw) => assert_eq!(raw.tx.sigs.len(), 1),
        other => panic!("sign left the transaction {:?}", other),
    }
}

#[test]
fn missing_node_fails_build_and_execute_alike() {
    let mut client = Client::new("localhost:50211").unwrap();
    client.set_operator(
        EntityId::new(0, 0, 1001),
        SecretKey::from_bytes(vec![7u8; 32]).unwrap(),
    );
    let mut t = Transaction::crypto_transfer(&client);
    t.transfer(EntityId::new(0, 0, 3), 1);

    match t.build() {
        Err(ErrorKind::MissingField("node")) => {}
        other => panic!("build gave {:?}", other),
    }
    match t.execute_prepare() {
        Err(ErrorKind::MissingField("node")) => {}
        other => panic!("execute gave {:?}", other),
    }
}

#[test]
fn missing_operator_fails_build() {
    let mut client = Client::new("localhost:50211").unwrap();
    client.set_node(EntityId::new(0, 0, 3));
    let mut t = Transaction::crypto_transfer(&client);
    match t.build() {
        Err(ErrorKind::MissingField("operator")) => {}
        other => panic!("build gave {:?}", other),
    }
    match t.sign(&SecretKey::from_bytes(vec![1u8; 32]).unwrap()) {
        Err(ErrorKind::MissingField("operator")) => {}
        other => panic!("sign gave {:?}", other),
    }
}

#[test]
fn delete_defaults_transfer_account_to_operator() {
    let client = test_client();
    let mut t = client.account(EntityId::new(5, 5, 5)).delete();
    let prepared = t.execute_prepare().unwrap();
    assert_eq!(prepared.route, ServiceRoute::CryptoDelete);
    match &prepared.tx.body.data {
        OperationData::CryptoDelete(d) => {
            assert_eq!(d.account, EntityId::new(5, 5, 5));
            assert_eq!(d.transfer_account, Some(EntityId::new(0, 0, 1001)));
        }
        other => panic!("payload became {:?}", other),
    }
}

#[test]
fn execute_finish_maps_precheck_codes() {
    let id = TransactionId {
        account_id: EntityId::new(0, 0, 1001),
        transaction_valid_start: hedera::timestamp::Timestamp { seconds: 5, nanos: 6 },
    };
    assert_eq!(Transaction::execute_finish(PreCheckCode::Okay, id), Ok(id));
    match Transaction::execute_finish(PreCheckCode::Busy, id) {
        Err(ErrorKind::PreCheck(PreCheckCode::Busy)) => {}
        other => panic!("finish gave {:?}", other),
    }
    match Transaction::execute_finish(PreCheckCode::InsufficientFee, id) {
        Err(ErrorKind::PreCheck(PreCheckCode::InsufficientFee)) => {}
        other => panic!("finish gave {:?}", other),
    }
}

#[test]
fn claim_builder_carries_account_and_hash() {
    let client = test_client();
    let mut t = client.account(EntityId::new(2, 2, 2)).claim(vec![9, 9]).delete();
    t.build().unwrap();
    match &t.kind {
        TransactionKind::Frozen(raw) => match &raw.tx.body.data {
            OperationData::CryptoDeleteClaim(d) => {
                assert_eq!(d.account, EntityId::new(2, 2, 2));
                assert_eq!(d.hash, vec![9, 9]);
            }
            other => panic!("payload became {:?}", other),
        },
        other => panic!("not frozen: {:?}", other),
    }
}
