//! The transaction engine: a four-state lifecycle from a mutable operation
//! description to an immutable signed wire payload.
//!
//! A transaction starts `Building`: its envelope fields are open. `build`
//! validates the required fields and freezes the body to its canonical
//! bytes; the bytes are computed once and never recomputed, and a freeze
//! failure is latched and returned by every later call. A frozen
//! transaction accepts signatures over exactly the frozen bytes. Preparing
//! for execution consumes the transaction, inserts the operator's signature
//! at index zero, and routes the payload to the one remote operation its
//! kind belongs to.

use vstd::prelude::*;
use crate::client::Client;
use crate::crypto::PublicKey;
use crate::crypto::SecretKey;
use crate::crypto::SigEntryModel;
use crate::crypto::SignatureEntry;
use crate::crypto::ed25519_sig;
use crate::crypto::entries_model;
use crate::crypto::secret_key_wf;
use crate::crypto::sign_envelope;
use crate::crypto::spec_sign_envelope;
use crate::duration::Duration;
use crate::error::ErrorKind;
use crate::error::is_missing_field;
use crate::id::AccountId;
use crate::precheck::PreCheckCode;
use crate::timestamp::timestamp_wf;
use crate::transaction_id::TransactionId;
use crate::wire::OperationData;
use crate::wire::TransactionBody;
use crate::wire::TransactionCryptoAddClaim;
use crate::wire::TransactionCryptoDelete;
use crate::wire::TransactionCryptoTransfer;
use crate::wire::encode_body;
use crate::wire::s_body;
use crate::wire::wraps_signatures;

verus! {

/// The default fee of a fresh transaction, in tinybars.
pub const DEFAULT_FEE: u64 = 10;

/// The fixed validity window of every transaction, in seconds.
pub const VALID_DURATION_SECONDS: u64 = 120;

/// A full wire transaction: the frozen body and the signatures over its
/// canonical bytes.
#[derive(Debug)]
pub struct WireTransaction {
    pub body: TransactionBody,
    pub sigs: Vec<SignatureEntry>,
}

/// A transaction frozen to its canonical bytes. The bytes are the exact
/// serialization of `tx.body`, computed once at freeze time; every
/// signature covers them.
#[derive(Debug)]
pub struct TransactionRaw {
    pub bytes: Vec<u8>,
    pub tx: WireTransaction,
}

/// The envelope fields of a transaction still being built.
#[derive(Debug)]
pub struct TransactionBuilder {
    pub id: Option<TransactionId>,
    pub node: Option<AccountId>,
    pub memo: String,
    pub generate_record: bool,
    pub fee: u64,
    pub inner: OperationData,
}

/// Where a transaction stands in its lifecycle.
#[derive(Debug)]
pub enum TransactionKind {
    /// Fields are open; nothing is frozen yet.
    Building(TransactionBuilder),
    /// The canonical bytes stand; signatures may be added.
    Frozen(TransactionRaw),
    /// Freezing failed; the error is returned by every later call.
    ErrorLatched(ErrorKind),
    /// The transaction has been consumed; no further call is allowed.
    Executed,
}

/// A ledger transaction: one operation payload inside the envelope, walked
/// through `Building`, `Frozen` and `Executed` by the calls on it.
#[derive(Debug)]
pub struct Transaction {
    /// The operator's signing key, taken from the client; it signs at
    /// index zero when the transaction is prepared for execution.
    pub secret: Option<SecretKey>,
    pub kind: TransactionKind,
}

/// A transaction is well formed when a configured key holds its 32 bytes.
pub open spec fn transaction_wf(t: Transaction) -> bool {
    t.secret matches Some(k) ==> secret_key_wf(k)
}

/// The body a builder freezes to, once both required fields are present.
pub open spec fn builder_body(b: TransactionBuilder) -> TransactionBody
    recommends
        b.id is Some,
        b.node is Some,
{
    TransactionBody {
        transaction_id: b.id->0,
        node: b.node->0,
        transaction_fee: b.fee,
        transaction_valid_duration: Duration(VALID_DURATION_SECONDS as u64, 0),
        generate_record: b.generate_record,
        memo: b.memo,
        data: b.inner,
    }
}

/// `t` is freshly derived from client `c`: still building, under the
/// client's operator (with a fresh well-formed transaction id) and node
/// when configured, with an empty memo, the default fee, no record asked
/// for, and the client's signing key carried along.
pub open spec fn fresh_from_client(t: Transaction, c: Client) -> bool {
    &&& transaction_wf(t)
    &&& t.kind matches TransactionKind::Building(b) && {
        &&& match c.operator {
            Some(op) => b.id matches Some(tid) && tid.account_id == op && timestamp_wf(
                tid.transaction_valid_start,
            ),
            None => b.id is None,
        }
        &&& b.node == c.node
        &&& b.memo@ == Seq::<char>::empty()
        &&& b.fee == DEFAULT_FEE
        &&& b.generate_record == false
    }
    &&& match c.operator_secret {
        Some(k) => t.secret matches Some(k2) && k2.bytes@ == k.bytes@,
        None => t.secret is None,
    }
}

/// The freeze-time outcome of `r`, as the error it carries if any.
pub open spec fn err_of<T>(r: Result<T, ErrorKind>) -> Option<ErrorKind> {
    match r {
        Ok(_) => None,
        Err(e) => Some(e),
    }
}

/// How one `build` call moves the lifecycle: a building transaction with
/// both required fields freezes to the exact canonical bytes of its body
/// with no signatures; one missing the operator or the node latches the
/// matching `MissingField` error, the operator checked first; a frozen or
/// latched transaction is left exactly as it stands, the latched error
/// returned again.
pub open spec fn build_transition(
    pre: TransactionKind,
    post: TransactionKind,
    r: Option<ErrorKind>,
) -> bool {
    match pre {
        TransactionKind::Building(b) => if b.id is None {
            &&& post matches TransactionKind::ErrorLatched(e)
            &&& is_missing_field(e, "operator"@)
            &&& r == Some(e)
        } else if b.node is None {
            &&& post matches TransactionKind::ErrorLatched(e)
            &&& is_missing_field(e, "node"@)
            &&& r == Some(e)
        } else {
            &&& post matches TransactionKind::Frozen(raw)
            &&& raw.tx.body == builder_body(b)
            &&& raw.bytes@ == s_body(builder_body(b))
            &&& entries_model(raw.tx.sigs@) == Seq::<SigEntryModel>::empty()
            &&& r is None
        },
        TransactionKind::Frozen(_) => post == pre && r is None,
        TransactionKind::ErrorLatched(e) => post == pre && r == Some(e),
        TransactionKind::Executed => false,
    }
}

impl Transaction {
    /// A fresh transaction around `inner`, with the client's defaults: the
    /// client's operator (under a fresh transaction id) and node when
    /// configured, an empty memo, the default fee, and no record requested.
    pub fn new(client: &Client, inner: OperationData) -> (r: Transaction)
        requires
            crate::client::client_wf(*client),
        ensures
            fresh_from_client(r, *client),
            r.kind matches TransactionKind::Building(b) && b.inner == inner,
    {
        let id: Option<TransactionId> = match &client.operator {
            Some(op) => Some(TransactionId::new(*op)),
            None => None,
        };
        let secret: Option<SecretKey> = match &client.operator_secret {
            Some(k) => Some(k.duplicate()),
            None => None,
        };
        Transaction {
            secret,
            kind: TransactionKind::Building(
                TransactionBuilder {
                    id,
                    node: client.node,
                    memo: String::new(),
                    generate_record: false,
                    fee: DEFAULT_FEE,
                    inner,
                },
            ),
        }
    }

    /// Takes the lifecycle state out, leaving `Executed` behind.
    pub(crate) fn take_kind(&mut self) -> (r: TransactionKind)
        ensures
            r == old(self).kind,
            final(self).kind is Executed,
            final(self).secret == old(self).secret,
    {
        let mut taken = TransactionKind::Executed;
        core::mem::swap(&mut taken, &mut self.kind);
        taken
    }

    /// Sets the memo while the transaction is building; after the freeze
    /// the call has no effect and the frozen bytes stand.
    pub fn memo(&mut self, memo: String)
        requires
            !(old(self).kind is Executed),
        ensures
            final(self).secret == old(self).secret,
            match old(self).kind {
                TransactionKind::Building(b) => final(self).kind
                    == TransactionKind::Building(TransactionBuilder { memo, ..b }),
                _ => final(self).kind == old(self).kind,
            },
    {
        let kind = self.take_kind();
        match kind {
            TransactionKind::Building(mut b) => {
                b.memo = memo;
                self.kind = TransactionKind::Building(b);
            },
            other => {
                self.kind = other;
            },
        }
    }

    /// Sets the paying operator: a fresh transaction id for `id` while the
    /// transaction is building (after the freeze the envelope stands), and
    /// `secret` as the key that will sign at execute time in every state.
    pub fn operator(&mut self, id: AccountId, secret: SecretKey)
        requires
            !(old(self).kind is Executed),
            secret_key_wf(secret),
        ensures
            transaction_wf(*final(self)),
            final(self).secret matches Some(k) && k.bytes@ == secret.bytes@,
            match old(self).kind {
                TransactionKind::Building(b) => final(self).kind matches TransactionKind::Building(
                    b2,
                ) && b2.id matches Some(tid) && tid.account_id == id && timestamp_wf(
                    tid.transaction_valid_start,
                ) && b2 == (TransactionBuilder { id: b2.id, ..b }),
                _ => final(self).kind == old(self).kind,
            },
    {
        let kind = self.take_kind();
        match kind {
            TransactionKind::Building(mut b) => {
                b.id = Some(TransactionId::new(id));
                self.kind = TransactionKind::Building(b);
            },
            other => {
                self.kind = other;
            },
        }
        self.secret = Some(secret);
    }

    /// Sets the node to submit to while the transaction is building; after
    /// the freeze the call has no effect and the frozen bytes stand.
    pub fn node(&mut self, id: AccountId)
        requires
            !(old(self).kind is Executed),
        ensures
            final(self).secret == old(self).secret,
            match old(self).kind {
                TransactionKind::Building(b) => final(self).kind
                    == TransactionKind::Building(TransactionBuilder { node: Some(id), ..b }),
                _ => final(self).kind == old(self).kind,
            },
    {
        let kind = self.take_kind();
        match kind {
            TransactionKind::Building(mut b) => {
                b.node = Some(id);
                self.kind = TransactionKind::Building(b);
            },
            other => {
                self.kind = other;
            },
        }
    }

    /// Sets the fee the client pays, split between the network and the
    /// node, while the transaction is building; after the freeze the call
    /// has no effect and the frozen bytes stand.
    pub fn fee(&mut self, fee: u64)
        requires
            !(old(self).kind is Executed),
        ensures
            final(self).secret == old(self).secret,
            match old(self).kind {
                TransactionKind::Building(b) => final(self).kind
                    == TransactionKind::Building(TransactionBuilder { fee, ..b }),
                _ => final(self).kind == old(self).kind,
            },
    {
        let kind = self.take_kind();
        match kind {
            TransactionKind::Building(mut b) => {
                b.fee = fee;
                self.kind = TransactionKind::Building(b);
            },
            other => {
                self.kind = other;
            },
        }
    }

    /// Asks for a record of this transaction to be generated (a receipt
    /// always is) while the transaction is building; after the freeze the
    /// call has no effect and the frozen bytes stand.
    pub fn generate_record(&mut self, generate: bool)
        requires
            !(old(self).kind is Executed),
        ensures
            final(self).secret == old(self).secret,
            match old(self).kind {
                TransactionKind::Building(b) => final(self).kind == TransactionKind::Building(
                    TransactionBuilder { generate_record: generate, ..b },
                ),
                _ => final(self).kind == old(self).kind,
            },
    {
        let kind = self.take_kind();
        match kind {
            TransactionKind::Building(mut b) => {
                b.generate_record = generate;
                self.kind = TransactionKind::Building(b);
            },
            other => {
                self.kind = other;
            },
        }
    }

    /// Freezes the transaction, per `build_transition`: validates the
    /// required fields, serializes the body once to its canonical bytes,
    /// and either holds them or latches the failure. Idempotent once
    /// frozen or latched.
    pub fn build(&mut self) -> (r: Result<(), ErrorKind>)
        requires
            !(old(self).kind is Executed),
        ensures
            final(self).secret == old(self).secret,
            build_transition(old(self).kind, final(self).kind, err_of(r)),
            !(final(self).kind is Executed),
    {
        let kind = self.take_kind();
        match kind {
            TransactionKind::Building(b) => {
                if b.id.is_none() {
                    let e = ErrorKind::MissingField("operator");
                    proof {
                        reveal_strlit("operator");
                    }
                    self.kind = TransactionKind::ErrorLatched(e);
                    Err(e)
                } else if b.node.is_none() {
                    let e = ErrorKind::MissingField("node");
                    proof {
                        reveal_strlit("node");
                    }
                    self.kind = TransactionKind::ErrorLatched(e);
                    Err(e)
                } else {
                    let id = match b.id {
                        Some(id) => id,
                        None => {
                            proof {
                                assert(false);
                            }
                            TransactionId::with_valid_start(
                                AccountId { shard: 0, realm: 0, num: 0 },
                                crate::timestamp::Timestamp { seconds: 0, nanos: 0 },
                            )
                        },
                    };
                    let node = match b.node {
                        Some(node) => node,
                        None => {
                            proof {
                                assert(false);
                            }
                            AccountId { shard: 0, realm: 0, num: 0 }
                        },
                    };
                    let body = TransactionBody {
                        transaction_id: id,
                        node,
                        transaction_fee: b.fee,
                        transaction_valid_duration: Duration::new(VALID_DURATION_SECONDS, 0),
                        generate_record: b.generate_record,
                        memo: b.memo,
                        data: b.inner,
                    };
                    let bytes = encode_body(&body);
                    let raw = TransactionRaw { bytes, tx: WireTransaction { body, sigs: Vec::new() } };
                    proof {
                        assert(entries_model(raw.tx.sigs@) =~= Seq::<SigEntryModel>::empty());
                    }
                    self.kind = TransactionKind::Frozen(raw);
                    Ok(())
                }
            },
            TransactionKind::Frozen(raw) => {
                self.kind = TransactionKind::Frozen(raw);
                Ok(())
            },
            TransactionKind::ErrorLatched(e) => {
                self.kind = TransactionKind::ErrorLatched(e);
                Err(e)
            },
            TransactionKind::Executed => {
                proof {
                    assert(false);
                }
                Err(ErrorKind::MissingField("operator"))
            },
        }
    }

    /// Signs the frozen canonical bytes with `secret` and appends the entry
    /// to the signature list, in call order; a still-building transaction
    /// is frozen first (one cannot sign unfrozen bytes), and a latched
    /// error is returned instead. The entry is nested as a single-element
    /// list exactly for the file operations.
    pub fn sign(&mut self, secret: &SecretKey) -> (r: Result<(), ErrorKind>)
        requires
            !(old(self).kind is Executed),
            secret_key_wf(*secret),
        ensures
            final(self).secret == old(self).secret,
            !(final(self).kind is Executed),
            match err_of(r) {
                Some(e) => build_transition(old(self).kind, final(self).kind, Some(e)),
                None => {
                    &&& final(self).kind matches TransactionKind::Frozen(raw2)
                    &&& raw2.bytes@ == frozen_bytes_after_build(old(self).kind)
                    &&& raw2.tx.body == frozen_body_after_build(old(self).kind)
                    &&& entries_model(raw2.tx.sigs@) == frozen_sigs_after_build(
                        old(self).kind,
                    ).push(
                        spec_sign_envelope(
                            secret.bytes@,
                            frozen_bytes_after_build(old(self).kind),
                            wraps_signatures(frozen_body_after_build(old(self).kind).data),
                        ),
                    )
                },
            },
    {
        let built = self.build();
        if let Err(e) = built {
            return Err(e);
        }
        let kind = self.take_kind();
        match kind {
            TransactionKind::Frozen(mut raw) => {
                let wrap = match &raw.tx.body.data {
                    OperationData::FileCreate(_) => true,
                    OperationData::FileAppend(_) => true,
                    _ => false,
                };
                let entry = sign_envelope(secret, &raw.bytes, wrap);
                raw.tx.sigs.push(entry);
                proof {
                    assert(entries_model(raw.tx.sigs@) =~= entries_model(
                        raw.tx.sigs@.drop_last(),
                    ).push(raw.tx.sigs@.last()@));
                }
                self.kind = TransactionKind::Frozen(raw);
                Ok(())
            },
            _ => {
                proof {
                    assert(false);
                }
                Err(ErrorKind::MissingField("operator"))
            },
        }
    }
}

/// The named remote operation a transaction is dispatched to, one per
/// operation kind. The table is total over the closed union: a kind with no
/// entry cannot be built in the first place.
#[derive(Debug, Clone, Copy, PartialEq, Eq, Structural)]
pub enum ServiceRoute {
    /// The crypto service's account creation call.
    CryptoCreateAccount,
    /// The crypto service's transfer call.
    CryptoTransfer,
    /// The crypto service's account deletion call.
    CryptoDelete,
    /// The crypto service's claim deletion call.
    CryptoDeleteClaim,
    /// The crypto service's claim attachment call.
    CryptoAddClaim,
    /// The file service's file creation call.
    FileCreate,
    /// The file service's append call.
    FileAppend,
    /// The contract service's instance creation call.
    ContractCreate,
}

/// The dispatch table: the route each operation kind takes.
pub open spec fn spec_route(op: OperationData) -> ServiceRoute {
    match op {
        OperationData::CryptoCreate(_) => ServiceRoute::CryptoCreateAccount,
        OperationData::CryptoTransfer(_) => ServiceRoute::CryptoTransfer,
        OperationData::CryptoDelete(_) => ServiceRoute::CryptoDelete,
        OperationData::CryptoDeleteClaim(_) => ServiceRoute::CryptoDeleteClaim,
        OperationData::CryptoAddClaim(_) => ServiceRoute::CryptoAddClaim,
        OperationData::FileCreate(_) => ServiceRoute::FileCreate,
        OperationData::FileAppend(_) => ServiceRoute::FileAppend,
        OperationData::ContractCreate(_) => ServiceRoute::ContractCreate,
    }
}

/// The route the payload `op` takes, per `spec_route`.
pub fn route_of(op: &OperationData) -> (r: ServiceRoute)
    ensures
        r == spec_route(*op),
{
    match op {
        OperationData::CryptoCreate(_) => ServiceRoute::CryptoCreateAccount,
        OperationData::CryptoTransfer(_) => ServiceRoute::CryptoTransfer,
        OperationData::CryptoDelete(_) => ServiceRoute::CryptoDelete,
        OperationData::CryptoDeleteClaim(_) => ServiceRoute::CryptoDeleteClaim,
        OperationData::CryptoAddClaim(_) => ServiceRoute::CryptoAddClaim,
        OperationData::FileCreate(_) => ServiceRoute::FileCreate,
        OperationData::FileAppend(_) => ServiceRoute::FileAppend,
        OperationData::ContractCreate(_) => ServiceRoute::ContractCreate,
    }
}

/// The payload as it goes out: an account deletion with no named target for
/// the remaining balance is pointed at the transaction's own operator
/// immediately before the send; everything else goes out as frozen.
pub open spec fn defaulted_data(data: OperationData, operator: AccountId) -> OperationData {
    match data {
        OperationData::CryptoDelete(d) => if d.transfer_account is None {
            OperationData::CryptoDelete(
                TransactionCryptoDelete { account: d.account, transfer_account: Some(operator) },
            )
        } else {
            data
        },
        _ => data,
    }
}

/// A transaction made ready to send: the id it will be known by, the one
/// remote operation it goes to, and the wire payload itself.
#[derive(Debug)]
pub struct PreparedTransaction {
    pub id: TransactionId,
    pub route: ServiceRoute,
    pub tx: WireTransaction,
}

/// `p` is what preparing a frozen transaction with body `body`, canonical
/// bytes `bytes`, explicit signature models `sigs` and operator key
/// `secret` sends out: the frozen body (deletion target defaulted), routed
/// by its kind, with the operator's flat signature over the frozen bytes
/// inserted at index zero when a key is configured.
pub open spec fn prepared_from(
    p: PreparedTransaction,
    body: TransactionBody,
    bytes: Seq<u8>,
    sigs: Seq<SigEntryModel>,
    secret: Option<SecretKey>,
) -> bool {
    &&& p.id == body.transaction_id
    &&& p.route == spec_route(body.data)
    &&& p.tx.body == (TransactionBody {
        data: defaulted_data(body.data, body.transaction_id.account_id),
        ..body
    })
    &&& match secret {
        Some(k) => entries_model(p.tx.sigs@) == seq![
            SigEntryModel::Single(ed25519_sig(k.bytes@, bytes)),
        ] + sigs,
        None => entries_model(p.tx.sigs@) == sigs,
    }
}

impl Transaction {
    /// Consumes the transaction and readies it for its one dispatch: builds
    /// it if still building (latching any freeze failure), points an
    /// unset deletion target at the operator, and inserts the operator's
    /// signature over the frozen bytes at index zero when the client
    /// carried a key. After this call the transaction is `Executed` and
    /// accepts no further calls.
    pub fn execute_prepare(&mut self) -> (r: Result<PreparedTransaction, ErrorKind>)
        requires
            !(old(self).kind is Executed),
            transaction_wf(*old(self)),
        ensures
            final(self).kind is Executed,
            final(self).secret == old(self).secret,
            match err_of(r) {
                Some(e) => match old(self).kind {
                    TransactionKind::Building(b) => (b.id is None && is_missing_field(
                        e,
                        "operator"@,
                    )) || (b.id is Some && b.node is None && is_missing_field(e, "node"@)),
                    TransactionKind::ErrorLatched(e0) => e == e0,
                    _ => false,
                },
                None => {
                    &&& old(self).kind is Building || old(self).kind is Frozen
                    &&& (old(self).kind matches TransactionKind::Building(b) ==> b.id is Some
                        && b.node is Some)
                    &&& r matches Ok(p) && prepared_from(
                        p,
                        frozen_body_after_build(old(self).kind),
                        frozen_bytes_after_build(old(self).kind),
                        frozen_sigs_after_build(old(self).kind),
                        old(self).secret,
                    )
                },
            },
    {
        let built = self.build();
        if let Err(e) = built {
            let _ = self.take_kind();
            return Err(e);
        }
        let kind = self.take_kind();
        match kind {
            TransactionKind::Frozen(raw) => {
                let TransactionRaw { bytes, mut tx } = raw;
                let route = route_of(&tx.body.data);
                let operator = tx.body.transaction_id.account_id;
                let mut data = OperationData::CryptoTransfer(
                    TransactionCryptoTransfer { transfers: Vec::new() },
                );
                core::mem::swap(&mut data, &mut tx.body.data);
                let data = match data {
                    OperationData::CryptoDelete(d) => {
                        if d.transfer_account.is_none() {
                            OperationData::CryptoDelete(
                                TransactionCryptoDelete {
                                    account: d.account,
                                    transfer_account: Some(operator),
                                },
                            )
                        } else {
                            OperationData::CryptoDelete(d)
                        }
                    },
                    other => other,
                };
                tx.body.data = data;
                match &self.secret {
                    Some(k) => {
                        let ghost explicit = tx.sigs@;
                        let entry = sign_envelope(k, &bytes, false);
                        tx.sigs.insert(0, entry);
                        proof {
                            let s2 = tx.sigs@;
                            assert forall|i: int| 0 <= i < s2.len() implies entries_model(s2)[i]
                                == (seq![s2[0]@] + entries_model(explicit))[i] by {
                                if i > 0 {
                                    assert(s2[i] == explicit[i - 1]);
                                }
                            }
                            assert(entries_model(s2) =~= seq![s2[0]@] + entries_model(explicit));
                        }
                    },
                    None => {},
                }
                Ok(PreparedTransaction { id: tx.body.transaction_id, route, tx })
            },
            _ => {
                proof {
                    assert(false);
                }
                Err(ErrorKind::MissingField("operator"))
            },
        }
    }

    /// The post-dispatch half of execution. A success pre-check yields the
    /// transaction id, under which the receipt and record can later be
    /// looked up; every other code fails with `PreCheck` carrying it. The
    /// transaction stays consumed either way: this layer is single-shot and
    /// never retries.
    pub fn execute_finish(code: PreCheckCode, id: TransactionId) -> (r: Result<
        TransactionId,
        ErrorKind,
    >)
        ensures
            code == PreCheckCode::Okay ==> r == Ok::<TransactionId, ErrorKind>(id),
            code != PreCheckCode::Okay ==> r == Err::<TransactionId, ErrorKind>(
                ErrorKind::PreCheck(code),
            ),
    {
        match code {
            PreCheckCode::Okay => Ok(id),
            _ => Err(ErrorKind::PreCheck(code)),
        }
    }

    /// A fresh transfer transaction with no rows yet.
    pub fn crypto_transfer(client: &Client) -> (r: Transaction)
        requires
            crate::client::client_wf(*client),
        ensures
            fresh_from_client(r, *client),
            r.kind matches TransactionKind::Building(b) && b.inner matches
                OperationData::CryptoTransfer(d) && d.transfers@ == Seq::<(AccountId, i64)>::empty(),
    {
        Transaction::new(
            client,
            OperationData::CryptoTransfer(TransactionCryptoTransfer { transfers: Vec::new() }),
        )
    }

    /// Adds one `(account, amount)` row to a transfer transaction still
    /// being built; on any other operation kind, or after the freeze, the
    /// call has no effect.
    pub fn transfer(&mut self, id: AccountId, amount: i64)
        requires
            !(old(self).kind is Executed),
        ensures
            final(self).secret == old(self).secret,
            match old(self).kind {
                TransactionKind::Building(b) => match b.inner {
                    OperationData::CryptoTransfer(d) => {
                        &&& final(self).kind matches TransactionKind::Building(b2)
                        &&& b2.inner matches OperationData::CryptoTransfer(d2) && d2.transfers@
                            == d.transfers@.push((id, amount))
                        &&& b2 == (TransactionBuilder { inner: b2.inner, ..b })
                    },
                    _ => final(self).kind == old(self).kind,
                },
                _ => final(self).kind == old(self).kind,
            },
    {
        let kind = self.take_kind();
        match kind {
            TransactionKind::Building(mut b) => {
                match b.inner {
                    OperationData::CryptoTransfer(mut d) => {
                        d.transfers.push((id, amount));
                        b.inner = OperationData::CryptoTransfer(d);
                    },
                    other => {
                        b.inner = other;
                    },
                }
                self.kind = TransactionKind::Building(b);
            },
            other => {
                self.kind = other;
            },
        }
    }

    /// Adds one key to a claim-attachment transaction still being built; on
    /// any other operation kind, or after the freeze, the call has no
    /// effect.
    pub fn key(&mut self, key: PublicKey)
        requires
            !(old(self).kind is Executed),
        ensures
            final(self).secret == old(self).secret,
            match old(self).kind {
                TransactionKind::Building(b) => match b.inner {
                    OperationData::CryptoAddClaim(d) => {
                        &&& final(self).kind matches TransactionKind::Building(b2)
                        &&& b2.inner matches OperationData::CryptoAddClaim(d2) && d2.keys@
                            == d.keys@.push(key) && d2.account == d.account && d2.hash@ == d.hash@
                        &&& b2 == (TransactionBuilder { inner: b2.inner, ..b })
                    },
                    _ => final(self).kind == old(self).kind,
                },
                _ => final(self).kind == old(self).kind,
            },
    {
        let kind = self.take_kind();
        match kind {
            TransactionKind::Building(mut b) => {
                match b.inner {
                    OperationData::CryptoAddClaim(mut d) => {
                        d.keys.push(key);
                        b.inner = OperationData::CryptoAddClaim(d);
                    },
                    other => {
                        b.inner = other;
                    },
                }
                self.kind = TransactionKind::Building(b);
            },
            other => {
                self.kind = other;
            },
        }
    }
}

impl TransactionCryptoAddClaim {
    /// A fresh transaction attaching the claim `hash` to `account`, with no
    /// keys yet.
    pub fn new(client: &Client, account: AccountId, hash: Vec<u8>) -> (r: Transaction)
        requires
            crate::client::client_wf(*client),
        ensures
            fresh_from_client(r, *client),
            r.kind matches TransactionKind::Building(b) && b.inner matches
                OperationData::CryptoAddClaim(d) && d.account == account && d.hash@ == hash@
                && d.keys@ == Seq::<PublicKey>::empty(),
    {
        Transaction::new(
            client,
            OperationData::CryptoAddClaim(
                TransactionCryptoAddClaim { account, hash, keys: Vec::new() },
            ),
        )
    }
}

/// Law: signature ordering. However many explicit signatures a frozen
/// transaction collected, preparing it for execution with an operator key
/// configured puts the operator's flat signature over the frozen bytes at
/// index zero, and shifts every explicit signature up by exactly one place
/// in its original order.
pub proof fn lemma_operator_signature_first(
    p: PreparedTransaction,
    body: TransactionBody,
    bytes: Seq<u8>,
    sigs: Seq<SigEntryModel>,
    k: SecretKey,
)
    requires
        prepared_from(p, body, bytes, sigs, Some(k)),
    ensures
        entries_model(p.tx.sigs@).len() == sigs.len() + 1,
        entries_model(p.tx.sigs@)[0] == SigEntryModel::Single(ed25519_sig(k.bytes@, bytes)),
        forall|i: int| 0 <= i < sigs.len() ==> entries_model(p.tx.sigs@)[i + 1] == sigs[i],
{
}

/// The canonical bytes a successful build leaves, as a function of the
/// state before it: the bytes already frozen, or the exact encoding of the
/// builder's body.
pub open spec fn frozen_bytes_after_build(pre: TransactionKind) -> Seq<u8> {
    match pre {
        TransactionKind::Building(b) => s_body(builder_body(b)),
        TransactionKind::Frozen(raw) => raw.bytes@,
        _ => Seq::empty(),
    }
}

/// The frozen body a successful build leaves, as a function of the state
/// before it.
pub open spec fn frozen_body_after_build(pre: TransactionKind) -> TransactionBody
    recommends
        pre is Building || pre is Frozen,
{
    match pre {
        TransactionKind::Building(b) => builder_body(b),
        TransactionKind::Frozen(raw) => raw.tx.body,
        TransactionKind::ErrorLatched(_) => arbitrary(),
        TransactionKind::Executed => arbitrary(),
    }
}

/// The signature models a successful build leaves: none for a fresh
/// freeze, the collected ones when already frozen.
pub open spec fn frozen_sigs_after_build(pre: TransactionKind) -> Seq<SigEntryModel> {
    match pre {
        TransactionKind::Building(_) => Seq::empty(),
        TransactionKind::Frozen(raw) => entries_model(raw.tx.sigs@),
        _ => Seq::empty(),
    }
}

/// Law: freezing is idempotent. Whatever state one `build` call reaches, a
/// second `build` leaves that state exactly as it stands; in particular the
/// canonical bytes of a transaction frozen twice are byte-identical.
pub proof fn lemma_build_idempotent(
    pre: TransactionKind,
    mid: TransactionKind,
    post: TransactionKind,
    r1: Option<ErrorKind>,
    r2: Option<ErrorKind>,
)
    requires
        build_transition(pre, mid, r1),
        build_transition(mid, post, r2),
    ensures
        post == mid,
        mid matches TransactionKind::Frozen(raw) ==> (post matches TransactionKind::Frozen(raw2)
            && raw2.bytes@ == raw.bytes@),
{
}

} // verus!
