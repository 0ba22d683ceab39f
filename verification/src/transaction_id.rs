//! The identity of one submitted transaction.
//!
//! A transaction id pairs the account that pays for the transaction with the
//! instant its validity window opens. Its text form is
//! `"shard:realm:num@seconds.nanos"`, and parsing the text of any
//! well-formed id yields the id back (`lemma_transaction_id_round_trip`).

use vstd::prelude::*;
use crate::error::ErrorKind;
use crate::error::is_parse_error;
use crate::id::AccountId;
use crate::id::EntityId;
use crate::id::entity_text;
use crate::id::lemma_entity_round_trip;
use crate::id::spec_parse_entity;
use crate::text::dec_seq;
use crate::text::dec_seq_i64;
use crate::text::find_char;
use crate::text::is_dec_digit;
use crate::text::lemma_dec_seq_digits;
use crate::text::lemma_find_char_characterize;
use crate::text::push_at;
use crate::timestamp::Timestamp;
use crate::timestamp::lemma_timestamp_round_trip;
use crate::timestamp::spec_parse_timestamp;
use crate::timestamp::timestamp_text;
use crate::timestamp::timestamp_wf;
use vstd::string::StrSliceExecFns;
use vstd::string::StringExecFns;

verus! {

/// The identity of one submitted transaction: the paying account and the
/// instant the validity window opens. It names the transaction in later
/// receipt and record lookups.
#[derive(Debug, Clone, Copy, PartialEq, Eq, Structural)]
pub struct TransactionId {
    pub account_id: AccountId,
    pub transaction_valid_start: Timestamp,
}

/// The number of seconds a fresh transaction id is backdated, to tolerate
/// the clock of the validating node lagging this machine's.
pub const BACKDATE_SECONDS: u32 = 5;

/// The text of a transaction id: the account's text, `@`, the instant's
/// text.
pub open spec fn transaction_id_text(t: TransactionId) -> Seq<char> {
    entity_text(t.account_id) + seq!['@'] + timestamp_text(t.transaction_valid_start)
}

/// The transaction id the text `s` spells: an entity id, `@`, a timestamp,
/// split at the first `@`; `None` on any other text.
pub open spec fn spec_parse_transaction_id(s: Seq<char>) -> Option<TransactionId> {
    let k = find_char(s, '@', 0);
    if k >= s.len() {
        None
    } else {
        match spec_parse_entity(s.subrange(0, k)) {
            None => None,
            Some(account) => match spec_parse_timestamp(s.subrange(k + 1, s.len() as int)) {
                None => None,
                Some(start) => Some(
                    TransactionId { account_id: account, transaction_valid_start: start },
                ),
            },
        }
    }
}

impl TransactionId {
    /// A fresh id for a transaction paid for by `account_id`: the validity
    /// window opens at the current wall-clock time, backdated by
    /// `BACKDATE_SECONDS` so that a node whose clock lags this machine's
    /// still sees the opening in its past.
    pub fn new(account_id: AccountId) -> (r: TransactionId)
        ensures
            r.account_id == account_id,
            timestamp_wf(r.transaction_valid_start),
    {
        TransactionId {
            account_id,
            transaction_valid_start: Timestamp::now().sub_seconds(BACKDATE_SECONDS),
        }
    }

    /// The id whose validity window opens exactly at `transaction_valid_start`.
    pub fn with_valid_start(account_id: AccountId, transaction_valid_start: Timestamp) -> (r:
        TransactionId)
        ensures
            r == (TransactionId { account_id, transaction_valid_start }),
    {
        TransactionId { account_id, transaction_valid_start }
    }

    /// The text form `"shard:realm:num@seconds.nanos"`.
    pub fn to_text(&self) -> (r: String)
        ensures
            r@ == transaction_id_text(*self),
    {
        let mut out = self.account_id.to_text();
        push_at(&mut out);
        let start = self.transaction_valid_start.to_text();
        out.append(start.as_str());
        proof {
            assert(out@ =~= transaction_id_text(*self));
        }
        out
    }

    /// Reads a transaction id out of its text form, per
    /// `spec_parse_transaction_id`.
    pub fn parse(s: &str) -> (r: Result<TransactionId, ErrorKind>)
        ensures
            spec_parse_transaction_id(s@) matches Some(t) ==> (r matches Ok(v) && v == t),
            spec_parse_transaction_id(s@) is None ==> (r matches Err(err) && is_parse_error(
                err,
            )),
    {
        let len = s.unicode_len();
        let bad: Result<TransactionId, ErrorKind> = Err(
            ErrorKind::Parse("{shard}:{realm}:{num}@{seconds}.{nanos}"),
        );
        let mut k: usize = 0;
        loop
            invariant
                k <= len,
                len == s@.len(),
                forall|j: int| 0 <= j < k ==> s@[j] != '@',
            ensures
                k <= len,
                len == s@.len(),
                forall|j: int| 0 <= j < k ==> s@[j] != '@',
                k == len || s@[k as int] == '@',
            decreases len - k,
        {
            if k == len {
                break ;
            }
            if s.get_char(k) == '@' {
                break ;
            }
            k = k + 1;
        }
        proof {
            lemma_find_char_characterize(s@, '@', 0, k as int);
        }
        if k == len {
            return bad;
        }
        let account_part = s.substring_char(0, k);
        let start_part = s.substring_char(k + 1, len);
        match EntityId::parse(account_part) {
            Err(_) => bad,
            Ok(account) => match Timestamp::parse(start_part) {
                Err(_) => bad,
                Ok(start) => Ok(
                    TransactionId { account_id: account, transaction_valid_start: start },
                ),
            },
        }
    }
}

impl core::str::FromStr for TransactionId {
    type Err = ErrorKind;

    /// Reads a transaction id out of its text form, as `parse` does.
    fn from_str(s: &str) -> Result<TransactionId, ErrorKind> {
        TransactionId::parse(s)
    }
}

/// Every character of an entity id's text is a digit, a sign or a colon; in
/// particular none is an `@`.
proof fn lemma_entity_text_no_at(e: EntityId)
    ensures
        forall|k: int| 0 <= k < entity_text(e).len() ==> #[trigger] entity_text(e)[k] != '@',
{
    let a = dec_seq_i64(e.shard as int);
    let b = dec_seq_i64(e.realm as int);
    let c = dec_seq_i64(e.num as int);
    let s = entity_text(e);
    lemma_dec_seq_i64_no_at(e.shard as int);
    lemma_dec_seq_i64_no_at(e.realm as int);
    lemma_dec_seq_i64_no_at(e.num as int);
    assert forall|k: int| 0 <= k < s.len() implies #[trigger] s[k] != '@' by {
        let p1 = a.len() as int;
        let p2 = p1 + 1 + b.len() as int;
        if k < p1 {
            assert(s[k] == a[k]);
        } else if k == p1 {
            assert(s[k] == ':');
        } else if k < p2 {
            assert(s[k] == b[k - p1 - 1]);
        } else if k == p2 {
            assert(s[k] == ':');
        } else {
            assert(s[k] == c[k - p2 - 1]);
        }
    }
}

/// No character of a signed decimal text is an `@`.
proof fn lemma_dec_seq_i64_no_at(n: int)
    ensures
        forall|k: int| 0 <= k < dec_seq_i64(n).len() ==> #[trigger] dec_seq_i64(n)[k] != '@',
{
    let s = dec_seq_i64(n);
    if n < 0 {
        lemma_dec_seq_digits((-n) as nat);
        assert forall|k: int| 0 <= k < s.len() implies #[trigger] s[k] != '@' by {
            if k > 0 {
                assert(is_dec_digit(dec_seq((-n) as nat)[k - 1]));
                assert(s[k] == dec_seq((-n) as nat)[k - 1]);
            }
        }
    } else {
        lemma_dec_seq_digits(n as nat);
        assert forall|k: int| 0 <= k < s.len() implies #[trigger] s[k] != '@' by {
            assert(is_dec_digit(s[k]));
        }
    }
}

/// Law: the text round trip. Parsing the text of any transaction id whose
/// instant is well formed yields the id back.
pub proof fn lemma_transaction_id_round_trip(t: TransactionId)
    requires
        timestamp_wf(t.transaction_valid_start),
    ensures
        spec_parse_transaction_id(transaction_id_text(t)) == Some(t),
{
    let a = entity_text(t.account_id);
    let b = timestamp_text(t.transaction_valid_start);
    let s = transaction_id_text(t);
    let p = a.len() as int;
    assert(s.len() == p + 1 + b.len());
    lemma_entity_text_no_at(t.account_id);
    assert forall|j: int| 0 <= j < p implies s[j] != '@' by {
        assert(s[j] == a[j]);
        assert(a[j] != '@');
    }
    assert(s[p] == '@');
    lemma_find_char_characterize(s, '@', 0, p);
    assert(s.subrange(0, p) =~= a);
    lemma_entity_round_trip(t.account_id);
    assert(s.subrange(p + 1, s.len() as int) =~= b);
    lemma_timestamp_round_trip(t.transaction_valid_start);
}

} // verus!
