use hedera::client::Client;
use hedera::crypto::SecretKey;
use hedera::crypto::SignatureEntry;
use hedera::crypto::sign_envelope;
use hedera::error::ErrorKind;
use hedera::id::EntityId;

#[test]
fn secret_keys_hold_exactly_32_bytes() {
    assert!(SecretKey::from_bytes(vec![0u8; 32]).is_ok());
    match SecretKey::from_bytes(vec![0u8; 31]) {
        Err(ErrorKind::Parse(_)) => {}
        other => panic!("short key gave {:?}", other),
    }
    match SecretKey::from_bytes(vec![0u8; 33]) {
        Err(ErrorKind::Parse(_)) => {}
        other => panic!("long key gave {:?}", other),
    }
}

#[test]
fn signatures_verify_under_the_matching_public_key() {
    let secret = SecretKey::from_bytes(vec![42u8; 32]).unwrap();
    let message = vec![1u8, 2, 3, 4, 5];
    let entry = sign_envelope(&secret, &message, false);
    let sig_bytes = match entry {
        SignatureEntry::Single(sig) => sig,
        other => panic!("unwrapped signing gave {:?}", other),
    };
    assert_eq!(sig_bytes.len(), 64);
    assert_ne!(sig_bytes, message);

    let signer = ed25519_dalek::SigningKey::from_bytes(&[42u8; 32]);
    let verifying = signer.verifying_key();
    let signature = ed25519_dalek::Signature::from_slice(&sig_bytes).unwrap();
    assert!(ed25519_dalek::Verifier::verify(&verifying, &message, &signature).is_ok());

    // A different key signs differently.
    let other = sign_envelope(&SecretKey::from_bytes(vec![43u8; 32]).unwrap(), &message, false);
    match other {
        SignatureEntry::Single(sig) => assert_ne!(sig, sig_bytes),
        other => panic!("unwrapped signing gave {:?}", other),
    }
}

#[test]
fn wrapped_entries_carry_the_same_signature() {
    let secret = SecretKey::from_bytes(vec![42u8; 32]).unwrap();
    let message = vec![9u8, 8, 7];
    let flat = match sign_envelope(&secret, &message, false) {
        SignatureEntry::Single(sig) => sig,
        other => panic!("flat signing gave {:?}", other),
    };
    match sign_envelope(&secret, &message, true) {
        SignatureEntry::Wrapped(sig) => assert_eq!(sig, flat),
        other => panic!("wrapped signing gave {:?}", other),
    }
}

#[test]
fn client_parses_its_address() {
    let client = Client::new("127.0.0.1:50211").unwrap();
    assert_eq!(client.host, "127.0.0.1");
    assert_eq!(client.port, 50211);
    assert!(client.node.is_none());
    assert!(client.operator.is_none());
    assert!(client.operator_secret.is_none());

    let testnet = Client::new("testnet.example:50003").unwrap();
    assert_eq!(testnet.host, "testnet.example");
    assert_eq!(testnet.port, 50003);
}

#[test]
fn client_rejects_malformed_addresses() {
    for bad in ["", "nocolon", "host:", "host:x", "host:65536", "host:-1", "host:1:2"] {
        match Client::new(bad) {
            Err(ErrorKind::Parse(_)) => {}
            other => panic!("{:?} gave {:?}", bad, other),
        }
    }
}

#[test]
fn client_defaults_flow_into_derived_values() {
    let mut client = Client::new("localhost:50211").unwrap();
    client.set_node(EntityId::new(0, 0, 3));
    client.set_operator(
        EntityId::new(0, 0, 1001),
        SecretKey::from_bytes(vec![7u8; 32]).unwrap(),
    );
    assert_eq!(client.node, Some(EntityId::new(0, 0, 3)));
    assert_eq!(client.operator, Some(EntityId::new(0, 0, 1001)));
    assert!(client.operator_secret.is_some());

    let q = client.account(EntityId::new(0, 0, 2)).balance();
    assert_eq!(q.operator, Some(EntityId::new(0, 0, 1001)));
    assert_eq!(q.node, Some(EntityId::new(0, 0, 3)));
    assert_eq!(q.attempt, 0);

    let receipt_query = client
        .transaction(hedera::transaction_id::TransactionId::new(EntityId::new(0, 0, 1001)))
        .receipt();
    assert!(matches!(
        receipt_query.inner,
        hedera::query::QueryKind::GetTransactionReceipt(_)
    ));

    let create = client.create_account();
    assert!(matches!(
        create.kind,
        hedera::transaction::TransactionKind::Building(_)
    ));
}
