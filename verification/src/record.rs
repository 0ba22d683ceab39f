//! What the network reports back after consensus: receipts, records, and
//! the file details a query can retrieve.

use vstd::prelude::*;
use crate::error::ErrorKind;
use crate::error::is_parse_error;
use crate::id::AccountId;
use crate::id::ContractId;
use crate::id::FileId;
use crate::timestamp::Timestamp;

verus! {

/// The terminal status of a transaction once it reaches consensus, with the
/// entity the operation created when it created one. The status is carried
/// as the raw code the network reported.
#[derive(Debug, Clone, Copy, PartialEq, Eq, Structural)]
pub struct TransactionReceipt {
    pub status: i64,
    pub account_id: Option<AccountId>,
    pub file_id: Option<FileId>,
    pub contract_id: Option<ContractId>,
}

/// One log entry a contract call produced.
#[derive(Debug)]
pub struct ContractLogInfo {
    pub bloom: Vec<u8>,
    pub topic: Vec<Vec<u8>>,
    pub data: Vec<u8>,
}

/// The outcome of running a contract function.
#[derive(Debug)]
pub struct ContractFunctionResult {
    pub contract_id: ContractId,
    pub contract_call_result: Vec<u8>,
    pub error_message: String,
    pub bloom: Vec<u8>,
    pub gas_used: u64,
    pub log_info: Vec<ContractLogInfo>,
}

/// The details of a stored file.
#[derive(Debug)]
pub struct FileInfo {
    pub file_id: FileId,
    pub size: i64,
    pub expiration_time: Timestamp,
    pub deleted: bool,
}

/// The details of a smart contract instance.
#[derive(Debug)]
pub struct ContractInfo {
    pub contract_id: ContractId,
    pub account_id: AccountId,
    pub expiration_time: Timestamp,
    pub storage: i64,
    pub memo: String,
}

/// The operation-specific part of a record: exactly one of a contract call
/// result, a contract creation result, or the transfers effected.
#[derive(Debug)]
pub enum TransactionRecordBody {
    ContractCall(ContractFunctionResult),
    ContractCreate(ContractFunctionResult),
    Transfer(Vec<(AccountId, i64)>),
}

/// The post-consensus detail of one transaction, retrievable for a limited
/// window.
#[derive(Debug)]
pub struct TransactionRecord {
    pub receipt: TransactionReceipt,
    pub transaction_hash: Vec<u8>,
    pub consensus_timestamp: Option<Timestamp>,
    pub memo: String,
    pub transaction_fee: u64,
    pub body: TransactionRecordBody,
}

/// A record as the wire carries it: the fixed fields, plus at most one of
/// the three result payloads as separate optional fields.
#[derive(Debug)]
pub struct RecordData {
    pub receipt: TransactionReceipt,
    pub transaction_hash: Vec<u8>,
    pub consensus_timestamp: Option<Timestamp>,
    pub memo: String,
    pub transaction_fee: u64,
    pub contract_call_result: Option<ContractFunctionResult>,
    pub contract_create_result: Option<ContractFunctionResult>,
    pub transfer_list: Option<Vec<(AccountId, i64)>>,
}

/// The body a wire record yields: the contract call result when present,
/// else the contract creation result, else the transfer list; `None` when
/// the record carries none of the three.
pub open spec fn spec_record_body(d: RecordData) -> Option<TransactionRecordBody> {
    if d.contract_call_result is Some {
        Some(TransactionRecordBody::ContractCall(d.contract_call_result->0))
    } else if d.contract_create_result is Some {
        Some(TransactionRecordBody::ContractCreate(d.contract_create_result->0))
    } else if d.transfer_list is Some {
        Some(TransactionRecordBody::Transfer(d.transfer_list->0))
    } else {
        None
    }
}

/// `rec` carries exactly the fixed fields of the wire record `d`.
pub open spec fn record_fields_match(rec: TransactionRecord, d: RecordData) -> bool {
    &&& rec.receipt == d.receipt
    &&& rec.transaction_hash == d.transaction_hash
    &&& rec.consensus_timestamp == d.consensus_timestamp
    &&& rec.memo == d.memo
    &&& rec.transaction_fee == d.transaction_fee
}

impl TransactionRecord {
    /// Reads a record out of its wire form: the fixed fields carry over and
    /// the body is selected per `spec_record_body`; a record with no body
    /// payload at all is malformed.
    pub fn try_from(record: RecordData) -> (r: Result<TransactionRecord, ErrorKind>)
        ensures
            spec_record_body(record) matches Some(b) ==> (r matches Ok(rec)
                && record_fields_match(rec, record) && rec.body == b),
            spec_record_body(record) is None ==> (r matches Err(e) && is_parse_error(e)),
    {
        let RecordData {
            receipt,
            transaction_hash,
            consensus_timestamp,
            memo,
            transaction_fee,
            contract_call_result,
            contract_create_result,
            transfer_list,
        } = record;
        let body: TransactionRecordBody = if let Some(c) = contract_call_result {
            TransactionRecordBody::ContractCall(c)
        } else if let Some(c) = contract_create_result {
            TransactionRecordBody::ContractCreate(c)
        } else if let Some(t) = transfer_list {
            TransactionRecordBody::Transfer(t)
        } else {
            return Err(ErrorKind::Parse("a transaction record body"));
        };
        Ok(
            TransactionRecord {
                receipt,
                transaction_hash,
                consensus_timestamp,
                memo,
                transaction_fee,
                body,
            },
        )
    }
}

} // verus!
