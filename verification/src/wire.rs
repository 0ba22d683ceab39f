//! The wire envelope and its canonical byte encoding.
//!
//! A transaction body is an envelope around exactly one operation payload.
//! Freezing a transaction serializes the body once, deterministically, into
//! the canonical bytes that are signed; the encoding is fixed here field by
//! field. Integers go out as base-128 varints (signed ones zigzag-folded
//! first), nested records and byte strings as a length followed by their
//! bytes, every field behind a one-byte tag, in a fixed order.

use vstd::prelude::*;
use vstd::string::StrSliceExecFns;
use crate::crypto::PublicKey;
use crate::duration::Duration;
use crate::id::AccountId;
use crate::id::EntityId;
use crate::id::FileId;
use crate::timestamp::Timestamp;
use crate::transaction_id::TransactionId;

verus! {

// --------------------------------------------------------------------------
// Operation payloads
// --------------------------------------------------------------------------

/// Creates a crypto-currency account.
#[derive(Debug)]
pub struct TransactionCryptoCreate {
    /// The raw bytes of the key that will own the account, when one is set.
    pub key: Option<Vec<u8>>,
    /// The opening balance, in tinybars.
    pub initial_balance: u64,
}

/// Moves tinybars between accounts: a list of `(account, amount)` rows whose
/// amounts a balanced transfer makes sum to zero.
#[derive(Debug)]
pub struct TransactionCryptoTransfer {
    pub transfers: Vec<(AccountId, i64)>,
}

/// Marks an account deleted, moving its remaining balance to another
/// account; when none is named the engine fills in the operator at execute
/// time.
#[derive(Debug)]
pub struct TransactionCryptoDelete {
    pub account: AccountId,
    pub transfer_account: Option<AccountId>,
}

/// Deletes a claim hash attached to an account.
#[derive(Debug)]
pub struct TransactionCryptoDeleteClaim {
    pub account: AccountId,
    pub hash: Vec<u8>,
}

/// Attaches a claim hash to an account, with the keys that may later remove
/// it.
#[derive(Debug)]
pub struct TransactionCryptoAddClaim {
    pub account: AccountId,
    pub hash: Vec<u8>,
    pub keys: Vec<PublicKey>,
}

/// Creates a stored file with the given contents, owned by the given keys.
#[derive(Debug)]
pub struct TransactionFileCreate {
    pub contents: Vec<u8>,
    pub keys: Vec<PublicKey>,
}

/// Appends contents to a stored file.
#[derive(Debug)]
pub struct TransactionFileAppend {
    pub file: FileId,
    pub contents: Vec<u8>,
}

/// Creates a smart contract instance from a stored bytecode file.
#[derive(Debug)]
pub struct TransactionContractCreate {
    pub file: FileId,
    pub gas: i64,
    pub initial_balance: i64,
}

/// The closed union of every operation a transaction can carry: exactly one
/// instance of one payload. An operation kind outside this union cannot be
/// built, so the dispatch table over it is exhaustive by construction.
#[derive(Debug)]
pub enum OperationData {
    CryptoCreate(TransactionCryptoCreate),
    CryptoTransfer(TransactionCryptoTransfer),
    CryptoDelete(TransactionCryptoDelete),
    CryptoDeleteClaim(TransactionCryptoDeleteClaim),
    CryptoAddClaim(TransactionCryptoAddClaim),
    FileCreate(TransactionFileCreate),
    FileAppend(TransactionFileAppend),
    ContractCreate(TransactionContractCreate),
}

/// The envelope around one operation payload: what freezes into the
/// canonical bytes.
#[derive(Debug)]
pub struct TransactionBody {
    pub transaction_id: TransactionId,
    pub node: AccountId,
    pub transaction_fee: u64,
    pub transaction_valid_duration: Duration,
    pub generate_record: bool,
    pub memo: String,
    pub data: OperationData,
}

// --------------------------------------------------------------------------
// Encoding, specification side
// --------------------------------------------------------------------------

/// The base-128 varint bytes of `n`, least significant group first, the
/// high bit marking continuation.
pub open spec fn sv(n: nat) -> Seq<u8>
    decreases n,
{
    if n < 128 {
        seq![n as u8]
    } else {
        seq![(128 + n % 128) as u8] + sv(n / 128)
    }
}

/// The one tag byte before a field: field number and wire kind (0 for a
/// varint, 2 for length-delimited bytes).
pub open spec fn s_tag(f: nat, w: nat) -> Seq<u8>
    recommends
        f < 16,
        w < 8,
{
    seq![(f * 8 + w) as u8]
}

/// An unsigned varint field.
pub open spec fn s_uint_field(f: nat, n: nat) -> Seq<u8> {
    s_tag(f, 0) + sv(n)
}

/// The zigzag fold of a signed value onto the naturals: non-negatives to
/// the evens, negatives to the odds.
pub open spec fn zigzag(n: int) -> nat {
    if n >= 0 {
        (2 * n) as nat
    } else {
        (-2 * n - 1) as nat
    }
}

/// A signed varint field, zigzag-folded.
pub open spec fn s_int_field(f: nat, n: i64) -> Seq<u8> {
    s_uint_field(f, zigzag(n as int))
}

/// A boolean field: one byte, zero or one.
pub open spec fn s_bool_field(f: nat, b: bool) -> Seq<u8> {
    s_tag(f, 0) + seq![
        if b {
            1u8
        } else {
            0u8
        },
    ]
}

/// A length-delimited field: the tag, the byte count as a varint, the bytes.
pub open spec fn s_bytes_field(f: nat, b: Seq<u8>) -> Seq<u8> {
    s_tag(f, 2) + sv(b.len()) + b
}

/// The payload of an entity id record.
pub open spec fn s_entity(e: EntityId) -> Seq<u8> {
    s_int_field(1, e.shard) + s_int_field(2, e.realm) + s_int_field(3, e.num)
}

/// An entity id record as a field.
pub open spec fn s_entity_field(f: nat, e: EntityId) -> Seq<u8> {
    s_bytes_field(f, s_entity(e))
}

/// The payload of a timestamp record.
pub open spec fn s_timestamp(t: Timestamp) -> Seq<u8> {
    s_int_field(1, t.seconds) + s_uint_field(2, t.nanos as nat)
}

/// The payload of a duration record.
pub open spec fn s_duration(d: Duration) -> Seq<u8> {
    s_uint_field(1, d.0 as nat) + s_uint_field(2, d.1 as nat)
}

/// The payload of a transaction id record.
pub open spec fn s_transaction_id(id: TransactionId) -> Seq<u8> {
    s_entity_field(1, id.account_id) + s_bytes_field(2, s_timestamp(id.transaction_valid_start))
}

/// The rows of a transfer list, in order, each as a nested record.
pub open spec fn s_transfers(ts: Seq<(AccountId, i64)>) -> Seq<u8>
    decreases ts.len(),
{
    if ts.len() == 0 {
        Seq::empty()
    } else {
        s_transfers(ts.drop_last()) + s_bytes_field(
            1,
            s_entity_field(1, ts.last().0) + s_int_field(2, ts.last().1),
        )
    }
}

/// A list of raw keys, in order, each as one bytes field.
pub open spec fn s_key_list(f: nat, keys: Seq<PublicKey>) -> Seq<u8>
    decreases keys.len(),
{
    if keys.len() == 0 {
        Seq::empty()
    } else {
        s_key_list(f, keys.drop_last()) + s_bytes_field(f, keys.last().bytes@)
    }
}

/// The field number under which each operation kind sits in the envelope's
/// tagged union.
pub open spec fn op_field(op: OperationData) -> nat {
    match op {
        OperationData::CryptoCreate(_) => 7,
        OperationData::CryptoTransfer(_) => 8,
        OperationData::CryptoDelete(_) => 9,
        OperationData::CryptoDeleteClaim(_) => 10,
        OperationData::CryptoAddClaim(_) => 11,
        OperationData::FileCreate(_) => 12,
        OperationData::FileAppend(_) => 13,
        OperationData::ContractCreate(_) => 14,
    }
}

/// Whether explicit signatures on this operation are nested as
/// single-element signature lists: they are for the operations that create
/// or mutate a file.
pub open spec fn wraps_signatures(op: OperationData) -> bool {
    op is FileCreate || op is FileAppend
}

/// The payload bytes of one operation, field by field in fixed order.
pub open spec fn s_operation_payload(op: OperationData) -> Seq<u8> {
    match op {
        OperationData::CryptoCreate(d) => (match d.key {
            Some(k) => s_bytes_field(1, k@),
            None => Seq::empty(),
        }) + s_uint_field(2, d.initial_balance as nat),
        OperationData::CryptoTransfer(d) => s_transfers(d.transfers@),
        OperationData::CryptoDelete(d) => s_entity_field(1, d.account) + (match d
            .transfer_account {
            Some(a) => s_entity_field(2, a),
            None => Seq::empty(),
        }),
        OperationData::CryptoDeleteClaim(d) => s_entity_field(1, d.account) + s_bytes_field(
            2,
            d.hash@,
        ),
        OperationData::CryptoAddClaim(d) => s_entity_field(1, d.account) + s_bytes_field(
            2,
            d.hash@,
        ) + s_key_list(3, d.keys@),
        OperationData::FileCreate(d) => s_bytes_field(1, d.contents@) + s_key_list(2, d.keys@),
        OperationData::FileAppend(d) => s_entity_field(1, d.file) + s_bytes_field(
            2,
            d.contents@,
        ),
        OperationData::ContractCreate(d) => s_entity_field(1, d.file) + s_int_field(2, d.gas)
            + s_int_field(3, d.initial_balance),
    }
}

/// The canonical bytes of a transaction body: every envelope field in fixed
/// order, then the operation payload under its union field number. Two
/// equal bodies have equal bytes: the encoding is a function of the body
/// alone.
pub open spec fn s_body(b: TransactionBody) -> Seq<u8> {
    s_bytes_field(1, s_transaction_id(b.transaction_id)) + s_entity_field(2, b.node)
        + s_uint_field(3, b.transaction_fee as nat) + s_bytes_field(
        4,
        s_duration(b.transaction_valid_duration),
    ) + s_bool_field(5, b.generate_record) + s_bytes_field(
        6,
        vstd::utf8::encode_utf8(b.memo@),
    ) + s_bytes_field(op_field(b.data), s_operation_payload(b.data))
}

// --------------------------------------------------------------------------
// Encoding, executable side
// --------------------------------------------------------------------------

/// Appends every byte of `b`.
fn push_all(out: &mut Vec<u8>, b: &Vec<u8>)
    ensures
        final(out)@ == old(out)@ + b@,
{
    let mut i: usize = 0;
    while i < b.len()
        invariant
            i <= b@.len(),
            out@ == old(out)@ + b@.take(i as int),
        decreases b@.len() - i,
    {
        out.push(b[i]);
        i = i + 1;
        proof {
            assert(old(out)@ + b@.take(i as int) =~= (old(out)@ + b@.take(i as int - 1)).push(
                b@[i as int - 1],
            ));
        }
    }
    proof {
        assert(b@.take(b@.len() as int) =~= b@);
    }
}

/// Appends the varint bytes of `n`.
fn put_varint(out: &mut Vec<u8>, n: u64)
    ensures
        final(out)@ == old(out)@ + sv(n as nat),
    decreases n,
{
    if n < 128 {
        out.push(n as u8);
        proof {
            assert(sv(n as nat) =~= seq![n as u8]);
            assert(final(out)@ =~= old(out)@ + sv(n as nat));
        }
    } else {
        out.push((128 + n % 128) as u8);
        put_varint(out, n / 128);
        proof {
            assert((n % 128) as nat == (n as nat) % 128);
            assert((n / 128) as nat == (n as nat) / 128);
            assert(sv(n as nat) =~= seq![(128 + (n as nat) % 128) as u8] + sv((n as nat) / 128));
            assert(final(out)@ =~= old(out)@ + sv(n as nat));
        }
    }
}

/// Appends the tag byte of field `f` with wire kind `w`.
fn put_tag(out: &mut Vec<u8>, f: u8, w: u8)
    requires
        f < 16,
        w < 8,
    ensures
        final(out)@ == old(out)@ + s_tag(f as nat, w as nat),
{
    out.push(f * 8 + w);
    proof {
        assert(s_tag(f as nat, w as nat) =~= seq![(f * 8 + w) as u8]);
        assert(final(out)@ =~= old(out)@ + s_tag(f as nat, w as nat));
    }
}

/// Appends an unsigned varint field.
fn put_uint_field(out: &mut Vec<u8>, f: u8, n: u64)
    requires
        f < 16,
    ensures
        final(out)@ == old(out)@ + s_uint_field(f as nat, n as nat),
{
    put_tag(out, f, 0);
    put_varint(out, n);
    proof {
        assert(final(out)@ =~= old(out)@ + s_uint_field(f as nat, n as nat));
    }
}

/// Appends a signed varint field, zigzag-folded.
fn put_int_field(out: &mut Vec<u8>, f: u8, n: i64)
    requires
        f < 16,
    ensures
        final(out)@ == old(out)@ + s_int_field(f as nat, n),
{
    let z: u64 = if n >= 0 {
        (n as u64) * 2
    } else {
        ((-(n + 1)) as u64) * 2 + 1
    };
    proof {
        assert(z as nat == zigzag(n as int));
    }
    put_uint_field(out, f, z);
}

/// Appends a boolean field.
fn put_bool_field(out: &mut Vec<u8>, f: u8, b: bool)
    requires
        f < 16,
    ensures
        final(out)@ == old(out)@ + s_bool_field(f as nat, b),
{
    put_tag(out, f, 0);
    if b {
        out.push(1);
    } else {
        out.push(0);
    }
    proof {
        assert(final(out)@ =~= old(out)@ + s_bool_field(f as nat, b));
    }
}

/// Appends a length-delimited field holding the bytes of `b`.
fn put_bytes_field(out: &mut Vec<u8>, f: u8, b: &Vec<u8>)
    requires
        f < 16,
    ensures
        final(out)@ == old(out)@ + s_bytes_field(f as nat, b@),
{
    put_tag(out, f, 2);
    put_varint(out, b.len() as u64);
    push_all(out, b);
    proof {
        assert(final(out)@ =~= old(out)@ + s_bytes_field(f as nat, b@));
    }
}

/// Appends an entity id record as a field.
fn put_entity_field(out: &mut Vec<u8>, f: u8, e: &EntityId)
    requires
        f < 16,
    ensures
        final(out)@ == old(out)@ + s_entity_field(f as nat, *e),
{
    let mut inner: Vec<u8> = Vec::new();
    put_int_field(&mut inner, 1, e.shard);
    put_int_field(&mut inner, 2, e.realm);
    put_int_field(&mut inner, 3, e.num);
    proof {
        assert(inner@ =~= s_entity(*e));
    }
    put_bytes_field(out, f, &inner);
}

/// Appends a timestamp record as a field.
fn put_timestamp_field(out: &mut Vec<u8>, f: u8, t: &Timestamp)
    requires
        f < 16,
    ensures
        final(out)@ == old(out)@ + s_bytes_field(f as nat, s_timestamp(*t)),
{
    let mut inner: Vec<u8> = Vec::new();
    put_int_field(&mut inner, 1, t.seconds);
    put_uint_field(&mut inner, 2, t.nanos as u64);
    proof {
        assert(inner@ =~= s_timestamp(*t));
    }
    put_bytes_field(out, f, &inner);
}

/// Appends a duration record as a field.
fn put_duration_field(out: &mut Vec<u8>, f: u8, d: &Duration)
    requires
        f < 16,
    ensures
        final(out)@ == old(out)@ + s_bytes_field(f as nat, s_duration(*d)),
{
    let mut inner: Vec<u8> = Vec::new();
    put_uint_field(&mut inner, 1, d.0);
    put_uint_field(&mut inner, 2, d.1 as u64);
    proof {
        assert(inner@ =~= s_duration(*d));
    }
    put_bytes_field(out, f, &inner);
}

/// Appends a transaction id record as a field.
fn put_transaction_id_field(out: &mut Vec<u8>, f: u8, id: &TransactionId)
    requires
        f < 16,
    ensures
        final(out)@ == old(out)@ + s_bytes_field(f as nat, s_transaction_id(*id)),
{
    let mut inner: Vec<u8> = Vec::new();
    put_entity_field(&mut inner, 1, &id.account_id);
    put_timestamp_field(&mut inner, 2, &id.transaction_valid_start);
    proof {
        assert(inner@ =~= s_transaction_id(*id));
    }
    put_bytes_field(out, f, &inner);
}

/// Appends every row of a transfer list.
fn put_transfers(out: &mut Vec<u8>, ts: &Vec<(AccountId, i64)>)
    ensures
        final(out)@ == old(out)@ + s_transfers(ts@),
{
    let mut i: usize = 0;
    while i < ts.len()
        invariant
            i <= ts@.len(),
            out@ == old(out)@ + s_transfers(ts@.take(i as int)),
        decreases ts@.len() - i,
    {
        let mut row: Vec<u8> = Vec::new();
        let (account, amount) = ts[i];
        put_entity_field(&mut row, 1, &account);
        put_int_field(&mut row, 2, amount);
        put_bytes_field(out, 1, &row);
        i = i + 1;
        proof {
            let pre = ts@.take(i as int - 1);
            let cur = ts@.take(i as int);
            assert(cur.drop_last() =~= pre);
            assert(cur.last() == ts@[i as int - 1]);
            assert(out@ =~= old(out)@ + s_transfers(cur));
        }
    }
    proof {
        assert(ts@.take(ts@.len() as int) =~= ts@);
    }
}

/// Appends every key of a key list, each under field `f`.
fn put_key_list(out: &mut Vec<u8>, f: u8, keys: &Vec<PublicKey>)
    requires
        f < 16,
    ensures
        final(out)@ == old(out)@ + s_key_list(f as nat, keys@),
{
    let mut i: usize = 0;
    while i < keys.len()
        invariant
            i <= keys@.len(),
            f < 16,
            out@ == old(out)@ + s_key_list(f as nat, keys@.take(i as int)),
        decreases keys@.len() - i,
    {
        put_bytes_field(out, f, &keys[i].bytes);
        i = i + 1;
        proof {
            let pre = keys@.take(i as int - 1);
            let cur = keys@.take(i as int);
            assert(cur.drop_last() =~= pre);
            assert(cur.last() == keys@[i as int - 1]);
            assert(out@ =~= old(out)@ + s_key_list(f as nat, cur));
        }
    }
    proof {
        assert(keys@.take(keys@.len() as int) =~= keys@);
    }
}

/// Appends the operation payload as a field under its union field number.
fn put_operation(out: &mut Vec<u8>, op: &OperationData)
    ensures
        final(out)@ == old(out)@ + s_bytes_field(op_field(*op), s_operation_payload(*op)),
{
    let mut inner: Vec<u8> = Vec::new();
    let f: u8;
    match op {
        OperationData::CryptoCreate(d) => {
            f = 7;
            match &d.key {
                Some(k) => {
                    put_bytes_field(&mut inner, 1, k);
                },
                None => {},
            }
            put_uint_field(&mut inner, 2, d.initial_balance);
        },
        OperationData::CryptoTransfer(d) => {
            f = 8;
            put_transfers(&mut inner, &d.transfers);
        },
        OperationData::CryptoDelete(d) => {
            f = 9;
            put_entity_field(&mut inner, 1, &d.account);
            match &d.transfer_account {
                Some(a) => {
                    put_entity_field(&mut inner, 2, a);
                },
                None => {},
            }
        },
        OperationData::CryptoDeleteClaim(d) => {
            f = 10;
            put_entity_field(&mut inner, 1, &d.account);
            put_bytes_field(&mut inner, 2, &d.hash);
        },
        OperationData::CryptoAddClaim(d) => {
            f = 11;
            put_entity_field(&mut inner, 1, &d.account);
            put_bytes_field(&mut inner, 2, &d.hash);
            put_key_list(&mut inner, 3, &d.keys);
        },
        OperationData::FileCreate(d) => {
            f = 12;
            put_bytes_field(&mut inner, 1, &d.contents);
            put_key_list(&mut inner, 2, &d.keys);
        },
        OperationData::FileAppend(d) => {
            f = 13;
            put_entity_field(&mut inner, 1, &d.file);
            put_bytes_field(&mut inner, 2, &d.contents);
        },
        OperationData::ContractCreate(d) => {
            f = 14;
            put_entity_field(&mut inner, 1, &d.file);
            put_int_field(&mut inner, 2, d.gas);
            put_int_field(&mut inner, 3, d.initial_balance);
        },
    }
    proof {
        assert(inner@ =~= s_operation_payload(*op));
        assert(f as nat == op_field(*op));
    }
    put_bytes_field(out, f, &inner);
}

/// The canonical bytes of the body: the deterministic serialization that is
/// signed and never recomputed after the freeze.
pub fn encode_body(body: &TransactionBody) -> (r: Vec<u8>)
    ensures
        r@ == s_body(*body),
{
    let mut out: Vec<u8> = Vec::new();
    put_transaction_id_field(&mut out, 1, &body.transaction_id);
    put_entity_field(&mut out, 2, &body.node);
    put_uint_field(&mut out, 3, body.transaction_fee);
    put_duration_field(&mut out, 4, &body.transaction_valid_duration);
    put_bool_field(&mut out, 5, body.generate_record);
    let memo_bytes = body.memo.as_str().as_bytes_vec();
    put_bytes_field(&mut out, 6, &memo_bytes);
    put_operation(&mut out, &body.data);
    proof {
        assert(out@ =~= s_body(*body));
    }
    out
}

} // verus!
