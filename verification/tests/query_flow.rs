use hedera::client::Client;
use hedera::crypto::SecretKey;
use hedera::crypto::SignatureEntry;
use hedera::error::ErrorKind;
use hedera::id::EntityId;
use hedera::precheck::Classification;
use hedera::precheck::PreCheckCode;
use hedera::precheck::QueryContext;
use hedera::query::CostStep;
use hedera::query::GetStep;
use hedera::query::Query;
use hedera::query::QueryAnswer;
use hedera::query::QueryGetAccountBalance;
use hedera::query::QueryRoute;
use hedera::query::Response;
use hedera::query::ResponseHeader;
use hedera::query::take_header;
use hedera::record::RecordData;
use hedera::record::TransactionReceipt;
use hedera::record::TransactionRecordBody;
use hedera::wire::OperationData;
use hedera::wire::encode_body;

fn full_client() -> Client {
    let mut client = Client::new("localhost:50211").unwrap();
    client.set_node(EntityId::new(0, 0, 3));
    client.set_operator(
        EntityId::new(0, 0, 1001),
        SecretKey::from_bytes(vec![7u8; 32]).unwrap(),
    );
    client
}

fn balance_response(precheck: PreCheckCode, cost: u64, balance: u64) -> Response {
    Response::GetAccountBalance { header: ResponseHeader { precheck, cost }, balance }
}

#[test]
fn busy_backoff_four_times_then_answer() {
    let client = full_client();
    let mut q = QueryGetAccountBalance::new(&client, EntityId::new(0, 0, 2));
    let mut sleeps: Vec<u64> = Vec::new();
    for _ in 0..4 {
        match q.on_get_response(balance_response(PreCheckCode::Busy, 0, 0)) {
            GetStep::Backoff(secs) => sleeps.push(secs),
            other => panic!("busy gave {:?}", other),
        }
    }
    assert_eq!(sleeps, vec![2, 4, 6, 8]);
    match q.on_get_response(balance_response(PreCheckCode::Okay, 0, 31415)) {
        GetStep::Answer(QueryAnswer::Balance(31415)) => {}
        other => panic!("fifth attempt gave {:?}", other),
    }
}

#[test]
fn fifth_busy_exhausts_retries() {
    let client = full_client();
    let mut q = QueryGetAccountBalance::new(&client, EntityId::new(0, 0, 2));
    for _ in 0..4 {
        match q.on_get_response(balance_response(PreCheckCode::Busy, 0, 0)) {
            GetStep::Backoff(_) => {}
            other => panic!("busy gave {:?}", other),
        }
    }
    match q.on_get_response(balance_response(PreCheckCode::Busy, 0, 0)) {
        GetStep::Failed(ErrorKind::PreCheck(PreCheckCode::Busy)) => {}
        other => panic!("fifth busy gave {:?}", other),
    }
}

#[test]
fn payment_negotiation_attaches_signed_transfer_and_retries_once() {
    let client = full_client();
    let mut q = QueryGetAccountBalance::new(&client, EntityId::new(0, 0, 2));

    // The node demands payment; the defaults are all configured.
    match q.on_get_response(balance_response(PreCheckCode::InvalidTransaction, 0, 0)) {
        GetStep::NegotiatePayment => {}
        other => panic!("demand gave {:?}", other),
    }

    // The cost probe: the quote rides in a nominally invalid response.
    match q.on_cost_response(balance_response(PreCheckCode::InvalidTransaction, 500000, 0)) {
        CostStep::Cost(500000) => {}
        other => panic!("probe gave {:?}", other),
    }

    // The synthesized payment: 500000 tinybars from the operator to the node.
    let pause = q.attach_payment(500000).unwrap();
    assert_eq!(pause, 1);
    let payment = q.payment.as_ref().expect("no payment attached");
    match &payment.body.data {
        OperationData::CryptoTransfer(d) => {
            assert_eq!(
                d.transfers,
                vec![
                    (EntityId::new(0, 0, 3), 500000),
                    (EntityId::new(0, 0, 1001), -500000),
                ]
            );
        }
        other => panic!("payment payload is {:?}", other),
    }
    assert_eq!(payment.body.node, EntityId::new(0, 0, 3));
    assert_eq!(payment.body.transaction_id.account_id, EntityId::new(0, 0, 1001));

    // Fully signed: one flat signature over exactly the payment's bytes.
    assert_eq!(payment.sigs.len(), 1);
    let body_bytes = encode_body(&payment.body);
    let signer = ed25519_dalek::SigningKey::from_bytes(&[7u8; 32]);
    let expected = ed25519_dalek::Signer::sign(&signer, &body_bytes).to_vec();
    match &payment.sigs[0] {
        SignatureEntry::Single(sig) => assert_eq!(sig, &expected),
        other => panic!("payment signature is {:?}", other),
    }

    // Retried exactly once more: the next answer settles it ...
    match q.on_get_response(balance_response(PreCheckCode::Okay, 0, 99)) {
        GetStep::Answer(QueryAnswer::Balance(99)) => {}
        other => panic!("retry gave {:?}", other),
    }

    // ... and a second demand with payment already attached is terminal.
    let mut q2 = QueryGetAccountBalance::new(&client, EntityId::new(0, 0, 2));
    q2.on_get_response(balance_response(PreCheckCode::InvalidTransaction, 0, 0));
    q2.on_cost_response(balance_response(PreCheckCode::Okay, 7, 0));
    q2.attach_payment(7).unwrap();
    match q2.on_get_response(balance_response(PreCheckCode::InvalidTransaction, 0, 0)) {
        GetStep::Failed(ErrorKind::PreCheck(PreCheckCode::InvalidTransaction)) => {}
        other => panic!("paid demand gave {:?}", other),
    }
}

#[test]
fn missing_defaults_fail_without_synthesizing() {
    let client = Client::new("localhost:50211").unwrap();
    let mut q = QueryGetAccountBalance::new(&client, EntityId::new(0, 0, 2));
    match q.on_get_response(balance_response(PreCheckCode::InvalidTransaction, 0, 0)) {
        GetStep::Failed(ErrorKind::PreCheck(PreCheckCode::InvalidTransaction)) => {}
        other => panic!("demand gave {:?}", other),
    }
    assert!(q.payment.is_none());
}

#[test]
fn cost_probe_backs_off_and_fails_on_terminal_codes() {
    let client = full_client();
    let mut q = QueryGetAccountBalance::new(&client, EntityId::new(0, 0, 2));
    q.start_cost();
    match q.on_cost_response(balance_response(PreCheckCode::Busy, 0, 0)) {
        CostStep::Backoff(2) => {}
        other => panic!("busy probe gave {:?}", other),
    }
    match q.on_cost_response(balance_response(PreCheckCode::Okay, 1234, 0)) {
        CostStep::Cost(1234) => {}
        other => panic!("probe gave {:?}", other),
    }
    match q.on_cost_response(balance_response(PreCheckCode::InsufficientFee, 0, 0)) {
        CostStep::Failed(ErrorKind::PreCheck(PreCheckCode::InsufficientFee)) => {}
        other => panic!("probe gave {:?}", other),
    }
}

#[test]
fn record_answers_select_their_body() {
    let client = full_client();
    let receipt = TransactionReceipt { status: 0, account_id: None, file_id: None, contract_id: None };
    let record = RecordData {
        receipt,
        transaction_hash: vec![1, 2],
        consensus_timestamp: None,
        memo: String::from("m"),
        transaction_fee: 5,
        contract_call_result: None,
        contract_create_result: None,
        transfer_list: Some(vec![(EntityId::new(0, 0, 9), -1)]),
    };
    let id = hedera::transaction_id::TransactionId::new(EntityId::new(0, 0, 1001));
    let mut q = Query::new(&client, hedera::query::QueryKind::TransactionGetRecord(id));
    let response = Response::TransactionGetRecord {
        header: ResponseHeader { precheck: PreCheckCode::Okay, cost: 0 },
        record: Some(record),
    };
    match q.on_get_response(response) {
        GetStep::Answer(QueryAnswer::Record(rec)) => {
            assert_eq!(rec.transaction_fee, 5);
            assert_eq!(rec.memo, "m");
            match rec.body {
                TransactionRecordBody::Transfer(rows) => {
                    assert_eq!(rows, vec![(EntityId::new(0, 0, 9), -1)]);
                }
                other => panic!("body became {:?}", other),
            }
        }
        other => panic!("record gave {:?}", other),
    }

    let mut q2 = Query::new(&client, hedera::query::QueryKind::TransactionGetRecord(id));
    let empty = Response::TransactionGetRecord {
        header: ResponseHeader { precheck: PreCheckCode::Okay, cost: 0 },
        record: None,
    };
    match q2.on_get_response(empty) {
        GetStep::Failed(ErrorKind::Parse(_)) => {}
        other => panic!("empty record gave {:?}", other),
    }
}

#[test]
fn explicit_payment_takes_the_frozen_transaction() {
    let client = full_client();
    let mut payment_tx = hedera::transaction::Transaction::crypto_transfer(&client);
    payment_tx.transfer(EntityId::new(0, 0, 3), 25);
    payment_tx.transfer(EntityId::new(0, 0, 1001), -25);
    payment_tx.sign(&SecretKey::from_bytes(vec![7u8; 32]).unwrap()).unwrap();

    let mut q = QueryGetAccountBalance::new(&client, EntityId::new(0, 0, 2));
    q.payment(&mut payment_tx).unwrap();

    // The transaction is consumed and its frozen form rides along.
    assert!(matches!(
        payment_tx.kind,
        hedera::transaction::TransactionKind::Executed
    ));
    let attached = q.payment.as_ref().expect("no payment attached");
    assert_eq!(attached.sigs.len(), 1);
    match &attached.body.data {
        OperationData::CryptoTransfer(d) => assert_eq!(d.transfers.len(), 2),
        other => panic!("payment payload is {:?}", other),
    }

    // The framed request carries the payment.
    let request = q.to_wire();
    assert!(request.payment.is_some());

    // A transaction that cannot freeze attaches nothing.
    let bare = Client::new("localhost:50211").unwrap();
    let mut broken = hedera::transaction::Transaction::crypto_transfer(&bare);
    let mut q2 = QueryGetAccountBalance::new(&client, EntityId::new(0, 0, 2));
    match q2.payment(&mut broken) {
        Err(ErrorKind::MissingField("operator")) => {}
        other => panic!("broken payment gave {:?}", other),
    }
    assert!(q2.payment.is_none());
}

#[test]
fn headers_and_routes() {
    let r = balance_response(PreCheckCode::DuplicateTransaction, 77, 0);
    let h = take_header(&r);
    assert_eq!(h.precheck, PreCheckCode::DuplicateTransaction);
    assert_eq!(h.cost, 77);

    let client = full_client();
    let q = QueryGetAccountBalance::new(&client, EntityId::new(0, 0, 2));
    assert_eq!(q.route(), QueryRoute::CryptoGetBalance);
    let file = hedera::query::QueryFileGetContents::new(&client, EntityId::new(0, 0, 8));
    assert_eq!(file.route(), QueryRoute::GetFileContent);
}

#[test]
fn contract_queries_answer_directly() {
    let client = full_client();
    let mut q = hedera::query::QueryContractGetBytecode::new(&client, EntityId::new(0, 0, 77));
    assert_eq!(q.route(), QueryRoute::ContractGetBytecode);
    let response = Response::ContractGetBytecode {
        header: ResponseHeader { precheck: PreCheckCode::Okay, cost: 0 },
        bytecode: vec![0x60, 0x60],
    };
    match q.on_get_response(response) {
        GetStep::Answer(QueryAnswer::Bytecode(code)) => assert_eq!(code, vec![0x60, 0x60]),
        other => panic!("bytecode query gave {:?}", other),
    }

    let mut q2 = hedera::query::QueryContractGetInfo::new(&client, EntityId::new(0, 0, 77));
    assert_eq!(q2.route(), QueryRoute::GetContractInfo);
    let response = Response::ContractGetInfo {
        header: ResponseHeader { precheck: PreCheckCode::Okay, cost: 0 },
        info: hedera::record::ContractInfo {
            contract_id: EntityId::new(0, 0, 77),
            account_id: EntityId::new(0, 0, 78),
            expiration_time: hedera::timestamp::Timestamp { seconds: 99, nanos: 0 },
            storage: 1024,
            memo: String::from("c"),
        },
    };
    match q2.on_get_response(response) {
        GetStep::Answer(QueryAnswer::ContractInfo(info)) => {
            assert_eq!(info.contract_id, EntityId::new(0, 0, 77));
            assert_eq!(info.storage, 1024);
        }
        other => panic!("contract info query gave {:?}", other),
    }
}

#[test]
fn classification_depends_on_context() {
    assert_eq!(
        PreCheckCode::InvalidTransaction.classify(QueryContext::Answer),
        Classification::NeedsPayment
    );
    assert_eq!(
        PreCheckCode::InvalidTransaction.classify(QueryContext::Cost),
        Classification::Success
    );
    assert_eq!(PreCheckCode::Okay.classify(QueryContext::Answer), Classification::Success);
    assert_eq!(PreCheckCode::Busy.classify(QueryContext::Cost), Classification::Retryable);
    assert_eq!(
        PreCheckCode::from_code(99).classify(QueryContext::Answer),
        Classification::TerminalFailure
    );
    assert_eq!(PreCheckCode::from_code(99), PreCheckCode::Unknown(99));
    assert_eq!(PreCheckCode::from_code(6), PreCheckCode::Busy);
    assert_eq!(PreCheckCode::from_code(0), PreCheckCode::Okay);
}
