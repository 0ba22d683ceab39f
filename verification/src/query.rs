//! The query engine: cost negotiation, automatic payment, bounded
//! busy-retry, response unwrapping.
//!
//! A query is a single-use value. The caller performs each blocking round
//! trip and feeds the response back in: `on_get_response` decides whether
//! the answer is in hand, the send must be repeated after a backoff, a
//! payment must be negotiated first, or the call has failed for good.
//! `on_cost_response` drives the cost probe the negotiation runs, and
//! `attach_payment` synthesizes and fully signs the implicit transfer that
//! pays the quoted fee. Busy responses are retried at most four times, with
//! linear backoff of two seconds per attempt already made.

use vstd::prelude::*;
use crate::client::Client;
use crate::crypto::SecretKey;
use crate::crypto::SigEntryModel;
use crate::crypto::ed25519_sig;
use crate::crypto::entries_model;
use crate::crypto::secret_key_wf;
use crate::crypto::sign_envelope;
use crate::duration::Duration;
use crate::error::ErrorKind;
use crate::error::is_parse_error;
use crate::id::AccountId;
use crate::id::FileId;
use crate::precheck::Classification;
use crate::precheck::PreCheckCode;
use crate::precheck::QueryContext;
use crate::id::ContractId;
use crate::record::ContractInfo;
use crate::record::FileInfo;
use crate::record::RecordData;
use crate::record::TransactionReceipt;
use crate::record::TransactionRecord;
use crate::record::record_fields_match;
use crate::record::spec_record_body;
use crate::timestamp::timestamp_wf;
use crate::transaction::DEFAULT_FEE;
use crate::transaction::Transaction;
use crate::transaction::TransactionKind;
use crate::transaction::VALID_DURATION_SECONDS;
use crate::transaction::WireTransaction;
use crate::transaction::build_transition;
use crate::transaction::err_of;
use crate::transaction::frozen_body_after_build;
use crate::transaction::frozen_sigs_after_build;
use crate::transaction_id::TransactionId;
use crate::wire::OperationData;
use crate::wire::TransactionBody;
use crate::wire::TransactionCryptoTransfer;
use crate::wire::encode_body;
use crate::wire::s_body;

verus! {

/// The largest transfer amount a payment can carry: the quoted fee must fit
/// in a signed transfer row.
pub const MAX_PAYMENT: u64 = 0x7fff_ffff_ffff_ffff;

/// How many times a busy node is asked again before the call fails.
pub const BUSY_RETRIES: u64 = 4;

/// The seconds to wait before retrying a freshly paid query: the network
/// imposes a minimum interval between consecutive queries to one node.
pub const PAYMENT_PAUSE_SECONDS: u64 = 1;

/// The two response modes a query can ask for: the answer itself, or only
/// what the answer would cost.
#[derive(Debug, Clone, Copy, PartialEq, Eq, Structural)]
pub enum ResponseType {
    AnswerOnly,
    CostAnswer,
}

/// The header every response carries: the node's pre-check code and, when
/// the node quoted one, the fee it asks for the answer.
#[derive(Debug, Clone, Copy, PartialEq, Eq, Structural)]
pub struct ResponseHeader {
    pub precheck: PreCheckCode,
    pub cost: u64,
}

/// One supported query kind, with what it asks about.
#[derive(Debug, Clone, Copy, PartialEq, Eq, Structural)]
pub enum QueryKind {
    GetAccountBalance(AccountId),
    GetTransactionReceipt(TransactionId),
    FileGetInfo(FileId),
    FileGetContents(FileId),
    TransactionGetRecord(TransactionId),
    ContractGetInfo(ContractId),
    ContractGetBytecode(ContractId),
}

/// A framed response: the header plus the answer fields of one query kind.
#[derive(Debug)]
pub enum Response {
    GetAccountBalance { header: ResponseHeader, balance: u64 },
    GetTransactionReceipt { header: ResponseHeader, receipt: TransactionReceipt },
    FileGetInfo { header: ResponseHeader, info: FileInfo },
    FileGetContents { header: ResponseHeader, contents: Vec<u8> },
    TransactionGetRecord { header: ResponseHeader, record: Option<RecordData> },
    ContractGetInfo { header: ResponseHeader, info: ContractInfo },
    ContractGetBytecode { header: ResponseHeader, bytecode: Vec<u8> },
}

/// The header of a response, whichever kind it is.
pub open spec fn spec_header_of(r: Response) -> ResponseHeader {
    match r {
        Response::GetAccountBalance { header, .. } => header,
        Response::GetTransactionReceipt { header, .. } => header,
        Response::FileGetInfo { header, .. } => header,
        Response::FileGetContents { header, .. } => header,
        Response::TransactionGetRecord { header, .. } => header,
        Response::ContractGetInfo { header, .. } => header,
        Response::ContractGetBytecode { header, .. } => header,
    }
}

/// The header of `response`, whichever kind it is. An error can come back
/// in any envelope, so the header is read before the kind is looked at.
pub fn take_header(response: &Response) -> (h: ResponseHeader)
    ensures
        h == spec_header_of(*response),
{
    match response {
        Response::GetAccountBalance { header, .. } => *header,
        Response::GetTransactionReceipt { header, .. } => *header,
        Response::FileGetInfo { header, .. } => *header,
        Response::FileGetContents { header, .. } => *header,
        Response::TransactionGetRecord { header, .. } => *header,
        Response::ContractGetInfo { header, .. } => *header,
        Response::ContractGetBytecode { header, .. } => *header,
    }
}

/// `response` answers the query kind `q`.
pub open spec fn response_matches(q: QueryKind, response: Response) -> bool {
    match q {
        QueryKind::GetAccountBalance(_) => response is GetAccountBalance,
        QueryKind::GetTransactionReceipt(_) => response is GetTransactionReceipt,
        QueryKind::FileGetInfo(_) => response is FileGetInfo,
        QueryKind::FileGetContents(_) => response is FileGetContents,
        QueryKind::TransactionGetRecord(_) => response is TransactionGetRecord,
        QueryKind::ContractGetInfo(_) => response is ContractGetInfo,
        QueryKind::ContractGetBytecode(_) => response is ContractGetBytecode,
    }
}

/// The named remote operation each query kind is dispatched to.
#[derive(Debug, Clone, Copy, PartialEq, Eq, Structural)]
pub enum QueryRoute {
    /// The crypto service's balance call.
    CryptoGetBalance,
    /// The crypto service's receipt lookup.
    GetTransactionReceipts,
    /// The file service's details lookup.
    GetFileInfo,
    /// The file service's contents call.
    GetFileContent,
    /// The crypto service's record lookup.
    GetTxRecordByTxId,
    /// The contract service's details lookup.
    GetContractInfo,
    /// The contract service's bytecode call.
    ContractGetBytecode,
}

/// The dispatch table: the route each query kind takes.
pub open spec fn spec_query_route(q: QueryKind) -> QueryRoute {
    match q {
        QueryKind::GetAccountBalance(_) => QueryRoute::CryptoGetBalance,
        QueryKind::GetTransactionReceipt(_) => QueryRoute::GetTransactionReceipts,
        QueryKind::FileGetInfo(_) => QueryRoute::GetFileInfo,
        QueryKind::FileGetContents(_) => QueryRoute::GetFileContent,
        QueryKind::TransactionGetRecord(_) => QueryRoute::GetTxRecordByTxId,
        QueryKind::ContractGetInfo(_) => QueryRoute::GetContractInfo,
        QueryKind::ContractGetBytecode(_) => QueryRoute::ContractGetBytecode,
    }
}

/// The typed answer of one query.
#[derive(Debug)]
pub enum QueryAnswer {
    Balance(u64),
    Receipt(TransactionReceipt),
    Info(FileInfo),
    Contents(Vec<u8>),
    Record(TransactionRecord),
    ContractInfo(ContractInfo),
    Bytecode(Vec<u8>),
}

/// What the caller must do next after feeding an answer-mode response in.
#[derive(Debug)]
pub enum GetStep {
    /// The typed answer is in hand; the query is spent.
    Answer(QueryAnswer),
    /// The call has failed for good; the query is spent.
    Failed(ErrorKind),
    /// The node was busy: wait this many seconds, then send the same
    /// request again.
    Backoff(u64),
    /// The node demands payment and the defaults can provide it. The query
    /// has switched to cost mode: run the cost probe, hand the quote to
    /// `attach_payment`, and send again after the pause it returns.
    NegotiatePayment,
}

/// What the caller must do next after feeding a cost-mode response in.
#[derive(Debug)]
pub enum CostStep {
    /// The node quoted this fee.
    Cost(u64),
    /// The node was busy: wait this many seconds, then probe again.
    Backoff(u64),
    /// The probe has failed for good.
    Failed(ErrorKind),
}

/// A single-use query: the kind it asks, the response mode it is in, the
/// payment it carries once one is attached, the defaults it inherited from
/// its client, and how many busy retries it has spent.
#[derive(Debug)]
pub struct Query {
    pub kind: ResponseType,
    pub payment: Option<WireTransaction>,
    pub secret: Option<SecretKey>,
    pub operator: Option<AccountId>,
    pub node: Option<AccountId>,
    pub attempt: u64,
    pub inner: QueryKind,
}

/// A configured signing key holds exactly its 32 secret bytes, and no more
/// busy retries are recorded than the budget allows.
pub open spec fn query_wf(q: Query) -> bool {
    &&& (q.secret matches Some(k) ==> secret_key_wf(k))
    &&& q.attempt <= BUSY_RETRIES
}

/// The framed request a query sends: its mode, its payment when one is
/// attached, and the query payload itself.
pub struct QueryRequest<'a> {
    pub response_type: ResponseType,
    pub payment: Option<&'a WireTransaction>,
    pub query: QueryKind,
}

impl Query {
    /// A fresh answer-mode query around `inner`, with the client's
    /// defaults, no payment, and no retries spent.
    pub fn new(client: &Client, inner: QueryKind) -> (r: Query)
        requires
            crate::client::client_wf(*client),
        ensures
            query_wf(r),
            r.kind == ResponseType::AnswerOnly,
            r.payment is None,
            r.operator == client.operator,
            r.node == client.node,
            r.attempt == 0,
            r.inner == inner,
            match client.operator_secret {
                Some(k) => r.secret matches Some(k2) && k2.bytes@ == k.bytes@,
                None => r.secret is None,
            },
    {
        let secret: Option<SecretKey> = match &client.operator_secret {
            Some(k) => Some(k.duplicate()),
            None => None,
        };
        Query {
            kind: ResponseType::AnswerOnly,
            payment: None,
            secret,
            operator: client.operator,
            node: client.node,
            attempt: 0,
            inner,
        }
    }

    /// The framed request to send next.
    pub fn to_wire(&self) -> (r: QueryRequest)
        ensures
            r.response_type == self.kind,
            r.query == self.inner,
            match self.payment {
                Some(p) => r.payment matches Some(q) && *q == p,
                None => r.payment is None,
            },
    {
        QueryRequest {
            response_type: self.kind,
            payment: self.payment.as_ref(),
            query: self.inner,
        }
    }

    /// The route this query's request takes, per `spec_query_route`.
    pub fn route(&self) -> (r: QueryRoute)
        ensures
            r == spec_query_route(self.inner),
    {
        match self.inner {
            QueryKind::GetAccountBalance(_) => QueryRoute::CryptoGetBalance,
            QueryKind::GetTransactionReceipt(_) => QueryRoute::GetTransactionReceipts,
            QueryKind::FileGetInfo(_) => QueryRoute::GetFileInfo,
            QueryKind::FileGetContents(_) => QueryRoute::GetFileContent,
            QueryKind::TransactionGetRecord(_) => QueryRoute::GetTxRecordByTxId,
            QueryKind::ContractGetInfo(_) => QueryRoute::GetContractInfo,
            QueryKind::ContractGetBytecode(_) => QueryRoute::ContractGetBytecode,
        }
    }

    /// Switches the query to cost mode, as the entry into a cost probe.
    pub fn start_cost(&mut self)
        ensures
            *final(self) == (Query { kind: ResponseType::CostAnswer, ..*old(self) }),
    {
        self.kind = ResponseType::CostAnswer;
    }

    /// Attaches an already-signed transaction as this query's payment,
    /// freezing it first when it is still building and consuming it either
    /// way. A freeze failure is returned and nothing is attached.
    pub fn payment(&mut self, transaction: &mut Transaction) -> (r: Result<(), ErrorKind>)
        requires
            !(old(transaction).kind is Executed),
        ensures
            final(transaction).kind is Executed,
            final(transaction).secret == old(transaction).secret,
            match err_of(r) {
                Some(e) => {
                    &&& exists|mid: TransactionKind|
                        build_transition(old(transaction).kind, mid, Some(e))
                    &&& *final(self) == *old(self)
                },
                None => {
                    &&& final(self).payment matches Some(tx)
                        && tx.body == frozen_body_after_build(old(transaction).kind)
                        && entries_model(tx.sigs@) == frozen_sigs_after_build(
                        old(transaction).kind,
                    )
                    &&& *final(self) == (Query {
                        payment: final(self).payment,
                        ..*old(self)
                    })
                },
            },
    {
        let built = transaction.build();
        let kind = transaction.take_kind();
        match built {
            Err(e) => Err(e),
            Ok(_) => {
                match kind {
                    TransactionKind::Frozen(raw) => {
                        self.payment = Some(raw.tx);
                        Ok(())
                    },
                    _ => {
                        proof {
                            assert(false);
                        }
                        Err(ErrorKind::MissingField("operator"))
                    },
                }
            },
        }
    }
}

/// How one answer-mode response moves the query, given the state before it,
/// the response, the state after it and the step handed back: a success
/// header yields the typed answer; a busy header within the retry budget
/// increments the spent count and asks for a backoff of two seconds per
/// attempt made, and past the budget fails with the busy code; a payment
/// demand on an unpaid query switches to cost mode when operator, node and
/// key are all configured and fails with `InvalidTransaction` when not; and
/// every other header fails with its code. Only the attempt count and the
/// response mode ever change.
pub open spec fn get_step_post(pre: Query, response: Response, post: Query, r: GetStep) -> bool {
    let h = spec_header_of(response);
    if h.precheck == PreCheckCode::Okay {
        &&& post == pre
        &&& answer_post(response, r)
    } else if h.precheck == PreCheckCode::Busy {
        if pre.attempt < BUSY_RETRIES {
            &&& post == (Query { attempt: (pre.attempt + 1) as u64, ..pre })
            &&& r == GetStep::Backoff((2 * (pre.attempt + 1)) as u64)
        } else {
            &&& post == pre
            &&& r == GetStep::Failed(ErrorKind::PreCheck(PreCheckCode::Busy))
        }
    } else if h.precheck == PreCheckCode::InvalidTransaction && pre.payment is None {
        if pre.operator is Some && pre.node is Some && pre.secret is Some {
            &&& post == (Query { kind: ResponseType::CostAnswer, ..pre })
            &&& r is NegotiatePayment
        } else {
            &&& post == pre
            &&& r == GetStep::Failed(ErrorKind::PreCheck(PreCheckCode::InvalidTransaction))
        }
    } else {
        &&& post == pre
        &&& r == GetStep::Failed(ErrorKind::PreCheck(h.precheck))
    }
}

/// The typed answer a success response unwraps to: the payload of the
/// response's kind, a record put together per `spec_record_body`, and a
/// malformed-record failure when the record or its body is absent.
pub open spec fn answer_post(response: Response, r: GetStep) -> bool {
    match response {
        Response::GetAccountBalance { balance, .. } => r == GetStep::Answer(
            QueryAnswer::Balance(balance),
        ),
        Response::GetTransactionReceipt { receipt, .. } => r == GetStep::Answer(
            QueryAnswer::Receipt(receipt),
        ),
        Response::FileGetInfo { info, .. } => r == GetStep::Answer(QueryAnswer::Info(info)),
        Response::FileGetContents { contents, .. } => r == GetStep::Answer(
            QueryAnswer::Contents(contents),
        ),
        Response::TransactionGetRecord { record, .. } => match record {
            Some(d) => match spec_record_body(d) {
                Some(b) => r matches GetStep::Answer(a) && a matches QueryAnswer::Record(rec)
                    && record_fields_match(rec, d) && rec.body == b,
                None => r matches GetStep::Failed(e) && is_parse_error(e),
            },
            None => r matches GetStep::Failed(e) && is_parse_error(e),
        },
        Response::ContractGetInfo { info, .. } => r == GetStep::Answer(
            QueryAnswer::ContractInfo(info),
        ),
        Response::ContractGetBytecode { bytecode, .. } => r == GetStep::Answer(
            QueryAnswer::Bytecode(bytecode),
        ),
    }
}

/// How one cost-mode response moves the query: a success header yields the
/// quoted fee, and so does an `InvalidTransaction` header, since the node
/// folds the quote into what is nominally an invalid response when no real
/// answer was computed; busy headers follow the same bounded backoff as the
/// answer mode; everything else fails with its code.
pub open spec fn cost_step_post(pre: Query, response: Response, post: Query, r: CostStep) -> bool {
    let h = spec_header_of(response);
    if h.precheck == PreCheckCode::Okay || h.precheck == PreCheckCode::InvalidTransaction {
        &&& post == pre
        &&& r == CostStep::Cost(h.cost)
    } else if h.precheck == PreCheckCode::Busy {
        if pre.attempt < BUSY_RETRIES {
            &&& post == (Query { attempt: (pre.attempt + 1) as u64, ..pre })
            &&& r == CostStep::Backoff((2 * (pre.attempt + 1)) as u64)
        } else {
            &&& post == pre
            &&& r == CostStep::Failed(ErrorKind::PreCheck(PreCheckCode::Busy))
        }
    } else {
        &&& post == pre
        &&& r == CostStep::Failed(ErrorKind::PreCheck(h.precheck))
    }
}

/// `tx` is the implicit payment of `cost` tinybars from `operator` to
/// `node`: a transfer moving the fee to the node and out of the operator,
/// under a well-formed fresh transaction id, fully signed with `key` over
/// exactly its canonical bytes.
pub open spec fn payment_tx_shape(
    tx: WireTransaction,
    operator: AccountId,
    node: AccountId,
    key: Seq<u8>,
    cost: u64,
) -> bool {
    &&& tx.body.data matches OperationData::CryptoTransfer(d) && d.transfers@ == seq![
        (node, cost as i64),
        (operator, (-(cost as i64)) as i64),
    ]
    &&& tx.body.node == node
    &&& tx.body.transaction_id.account_id == operator
    &&& timestamp_wf(tx.body.transaction_id.transaction_valid_start)
    &&& tx.body.transaction_fee == DEFAULT_FEE
    &&& tx.body.transaction_valid_duration == Duration(VALID_DURATION_SECONDS as u64, 0)
    &&& tx.body.generate_record == false
    &&& tx.body.memo@ == Seq::<char>::empty()
    &&& entries_model(tx.sigs@) == seq![
        SigEntryModel::Single(ed25519_sig(key, s_body(tx.body))),
    ]
}

impl Query {
    /// Feeds one answer-mode response in and decides the next step, per
    /// `get_step_post`.
    pub fn on_get_response(&mut self, response: Response) -> (r: GetStep)
        requires
            query_wf(*old(self)),
            old(self).kind == ResponseType::AnswerOnly,
            response_matches(old(self).inner, response),
        ensures
            query_wf(*final(self)),
            get_step_post(*old(self), response, *final(self), r),
    {
        let header = take_header(&response);
        match header.precheck.classify(QueryContext::Answer) {
            Classification::Success => {
                match response {
                    Response::GetAccountBalance { balance, .. } => GetStep::Answer(
                        QueryAnswer::Balance(balance),
                    ),
                    Response::GetTransactionReceipt { receipt, .. } => GetStep::Answer(
                        QueryAnswer::Receipt(receipt),
                    ),
                    Response::FileGetInfo { info, .. } => GetStep::Answer(QueryAnswer::Info(info)),
                    Response::FileGetContents { contents, .. } => GetStep::Answer(
                        QueryAnswer::Contents(contents),
                    ),
                    Response::TransactionGetRecord { record, .. } => match record {
                        Some(d) => match TransactionRecord::try_from(d) {
                            Ok(rec) => GetStep::Answer(QueryAnswer::Record(rec)),
                            Err(e) => GetStep::Failed(e),
                        },
                        None => GetStep::Failed(ErrorKind::Parse("a transaction record body")),
                    },
                    Response::ContractGetInfo { info, .. } => GetStep::Answer(
                        QueryAnswer::ContractInfo(info),
                    ),
                    Response::ContractGetBytecode { bytecode, .. } => GetStep::Answer(
                        QueryAnswer::Bytecode(bytecode),
                    ),
                }
            },
            Classification::Retryable => {
                if self.attempt < BUSY_RETRIES {
                    self.attempt = self.attempt + 1;
                    GetStep::Backoff(2 * self.attempt)
                } else {
                    GetStep::Failed(ErrorKind::PreCheck(PreCheckCode::Busy))
                }
            },
            Classification::NeedsPayment => {
                if self.payment.is_none() {
                    if self.operator.is_some() && self.node.is_some() && self.secret.is_some() {
                        self.kind = ResponseType::CostAnswer;
                        GetStep::NegotiatePayment
                    } else {
                        GetStep::Failed(ErrorKind::PreCheck(PreCheckCode::InvalidTransaction))
                    }
                } else {
                    GetStep::Failed(ErrorKind::PreCheck(header.precheck))
                }
            },
            Classification::TerminalFailure => GetStep::Failed(ErrorKind::PreCheck(header.precheck)),
        }
    }

    /// Feeds one cost-mode response in and decides the next step, per
    /// `cost_step_post`.
    pub fn on_cost_response(&mut self, response: Response) -> (r: CostStep)
        requires
            query_wf(*old(self)),
            old(self).kind == ResponseType::CostAnswer,
        ensures
            query_wf(*final(self)),
            cost_step_post(*old(self), response, *final(self), r),
    {
        let header = take_header(&response);
        match header.precheck.classify(QueryContext::Cost) {
            Classification::Success => CostStep::Cost(header.cost),
            Classification::Retryable => {
                if self.attempt < BUSY_RETRIES {
                    self.attempt = self.attempt + 1;
                    CostStep::Backoff(2 * self.attempt)
                } else {
                    CostStep::Failed(ErrorKind::PreCheck(PreCheckCode::Busy))
                }
            },
            _ => CostStep::Failed(ErrorKind::PreCheck(header.precheck)),
        }
    }

    /// Synthesizes the implicit payment for the quoted fee and attaches it:
    /// a transfer of `cost` tinybars from the default operator to the
    /// default node, fully signed with the default key, after which the
    /// query is back in answer mode and must be sent again after the
    /// returned pause. Fails with `InvalidTransaction` when any default is
    /// missing, attaching nothing.
    pub fn attach_payment(&mut self, cost: u64) -> (r: Result<u64, ErrorKind>)
        requires
            query_wf(*old(self)),
            cost <= MAX_PAYMENT,
        ensures
            query_wf(*final(self)),
            if old(self).operator is Some && old(self).node is Some && old(self).secret is Some {
                &&& r == Ok::<u64, ErrorKind>(PAYMENT_PAUSE_SECONDS as u64)
                &&& final(self).payment matches Some(tx) && payment_tx_shape(
                    tx,
                    old(self).operator->0,
                    old(self).node->0,
                    old(self).secret->0.bytes@,
                    cost,
                )
                &&& *final(self) == (Query {
                    kind: ResponseType::AnswerOnly,
                    payment: final(self).payment,
                    ..*old(self)
                })
            } else {
                &&& r == Err::<u64, ErrorKind>(
                    ErrorKind::PreCheck(PreCheckCode::InvalidTransaction),
                )
                &&& *final(self) == *old(self)
            },
    {
        let operator = match self.operator {
            Some(o) => o,
            None => {
                return Err(ErrorKind::PreCheck(PreCheckCode::InvalidTransaction));
            },
        };
        let node = match self.node {
            Some(n) => n,
            None => {
                return Err(ErrorKind::PreCheck(PreCheckCode::InvalidTransaction));
            },
        };
        if self.secret.is_none() {
            return Err(ErrorKind::PreCheck(PreCheckCode::InvalidTransaction));
        }
        let mut transfers: Vec<(AccountId, i64)> = Vec::new();
        transfers.push((node, cost as i64));
        transfers.push((operator, -(cost as i64)));
        proof {
            assert(transfers@ =~= seq![
                (node, cost as i64),
                (operator, (-(cost as i64)) as i64),
            ]);
        }
        let body = TransactionBody {
            transaction_id: TransactionId::new(operator),
            node,
            transaction_fee: DEFAULT_FEE,
            transaction_valid_duration: Duration::new(VALID_DURATION_SECONDS, 0),
            generate_record: false,
            memo: String::new(),
            data: OperationData::CryptoTransfer(TransactionCryptoTransfer { transfers }),
        };
        let bytes = encode_body(&body);
        let entry = match &self.secret {
            Some(k) => sign_envelope(k, &bytes, false),
            None => {
                proof {
                    assert(false);
                }
                return Err(ErrorKind::PreCheck(PreCheckCode::InvalidTransaction));
            },
        };
        let mut sigs = Vec::new();
        sigs.push(entry);
        proof {
            assert(entries_model(sigs@) =~= seq![entry@]);
        }
        self.payment = Some(WireTransaction { body, sigs });
        self.kind = ResponseType::AnswerOnly;
        Ok(PAYMENT_PAUSE_SECONDS)
    }
}

/// Asks for the balance of a crypto-currency account.
#[derive(Debug, Clone, Copy, PartialEq, Eq, Structural)]
pub struct QueryGetAccountBalance {
    pub account: AccountId,
}

impl QueryGetAccountBalance {
    /// A fresh balance query for `account` under the client's defaults.
    pub fn new(client: &Client, account: AccountId) -> (r: Query)
        requires
            crate::client::client_wf(*client),
        ensures
            query_wf(r),
            r.inner == QueryKind::GetAccountBalance(account),
            r.kind == ResponseType::AnswerOnly && r.payment is None && r.attempt == 0,
            r.operator == client.operator && r.node == client.node,
    {
        Query::new(client, QueryKind::GetAccountBalance(account))
    }
}

/// Asks for the receipt of a transaction, by its id.
#[derive(Debug, Clone, Copy, PartialEq, Eq, Structural)]
pub struct QueryGetTransactionReceipt {
    pub transaction: TransactionId,
}

impl QueryGetTransactionReceipt {
    /// A fresh receipt query for `transaction` under the client's defaults.
    pub fn new(client: &Client, transaction: TransactionId) -> (r: Query)
        requires
            crate::client::client_wf(*client),
        ensures
            query_wf(r),
            r.inner == QueryKind::GetTransactionReceipt(transaction),
            r.kind == ResponseType::AnswerOnly && r.payment is None && r.attempt == 0,
            r.operator == client.operator && r.node == client.node,
    {
        Query::new(client, QueryKind::GetTransactionReceipt(transaction))
    }
}

/// Asks for the details of a stored file.
#[derive(Debug, Clone, Copy, PartialEq, Eq, Structural)]
pub struct QueryFileGetInfo {
    pub file: FileId,
}

impl QueryFileGetInfo {
    /// A fresh file-details query for `file` under the client's defaults.
    pub fn new(client: &Client, file: FileId) -> (r: Query)
        requires
            crate::client::client_wf(*client),
        ensures
            query_wf(r),
            r.inner == QueryKind::FileGetInfo(file),
            r.kind == ResponseType::AnswerOnly && r.payment is None && r.attempt == 0,
            r.operator == client.operator && r.node == client.node,
    {
        Query::new(client, QueryKind::FileGetInfo(file))
    }
}

/// Asks for the contents of a stored file.
#[derive(Debug, Clone, Copy, PartialEq, Eq, Structural)]
pub struct QueryFileGetContents {
    pub file: FileId,
}

impl QueryFileGetContents {
    /// A fresh file-contents query for `file` under the client's defaults.
    pub fn new(client: &Client, file: FileId) -> (r: Query)
        requires
            crate::client::client_wf(*client),
        ensures
            query_wf(r),
            r.inner == QueryKind::FileGetContents(file),
            r.kind == ResponseType::AnswerOnly && r.payment is None && r.attempt == 0,
            r.operator == client.operator && r.node == client.node,
    {
        Query::new(client, QueryKind::FileGetContents(file))
    }
}

/// Asks for the details of a smart contract instance.
#[derive(Debug, Clone, Copy, PartialEq, Eq, Structural)]
pub struct QueryContractGetInfo {
    pub contract: ContractId,
}

impl QueryContractGetInfo {
    /// A fresh contract-details query for `contract` under the client's
    /// defaults.
    pub fn new(client: &Client, contract: ContractId) -> (r: Query)
        requires
            crate::client::client_wf(*client),
        ensures
            query_wf(r),
            r.inner == QueryKind::ContractGetInfo(contract),
            r.kind == ResponseType::AnswerOnly && r.payment is None && r.attempt == 0,
            r.operator == client.operator && r.node == client.node,
    {
        Query::new(client, QueryKind::ContractGetInfo(contract))
    }
}

/// Asks for the bytecode of a smart contract instance.
#[derive(Debug, Clone, Copy, PartialEq, Eq, Structural)]
pub struct QueryContractGetBytecode {
    pub contract: ContractId,
}

impl QueryContractGetBytecode {
    /// A fresh bytecode query for `contract` under the client's defaults.
    pub fn new(client: &Client, contract: ContractId) -> (r: Query)
        requires
            crate::client::client_wf(*client),
        ensures
            query_wf(r),
            r.inner == QueryKind::ContractGetBytecode(contract),
            r.kind == ResponseType::AnswerOnly && r.payment is None && r.attempt == 0,
            r.operator == client.operator && r.node == client.node,
    {
        Query::new(client, QueryKind::ContractGetBytecode(contract))
    }
}

/// Asks for the post-consensus record of a transaction, by its id.
#[derive(Debug, Clone, Copy, PartialEq, Eq, Structural)]
pub struct QueryTransactionGetRecord {
    pub transaction: TransactionId,
}

impl QueryTransactionGetRecord {
    /// A fresh record query for `transaction` under the client's defaults.
    pub fn new(client: &Client, transaction: TransactionId) -> (r: Query)
        requires
            crate::client::client_wf(*client),
        ensures
            query_wf(r),
            r.inner == QueryKind::TransactionGetRecord(transaction),
            r.kind == ResponseType::AnswerOnly && r.payment is None && r.attempt == 0,
            r.operator == client.operator && r.node == client.node,
    {
        Query::new(client, QueryKind::TransactionGetRecord(transaction))
    }
}

} // verus!
