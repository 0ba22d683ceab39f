//! Points in time, as the network counts them.
//!
//! A timestamp is a count of seconds since the epoch and a sub-second
//! nanosecond part. Its text form is `"seconds.nanos"`. Reading the wall
//! clock is the one effect here; everything around it is verified.

use vstd::prelude::*;
use crate::error::ErrorKind;
use crate::error::is_parse_error;
use crate::text::dec_seq;
use crate::text::dec_seq_i64;
use crate::text::lemma_dec_seq_digits;
use crate::text::lemma_parse_i64_at_embedded;
use crate::text::parse_i64_at;
use crate::text::push_dec_i64;
use crate::text::push_dec_u64;
use crate::text::push_dot;
use crate::text::spec_parse_i64_at;
use vstd::string::StrSliceExecFns;

verus! {

/// A point in time: whole seconds since the epoch and the nanoseconds into
/// the current second.
#[derive(Debug, Clone, Copy, PartialEq, Eq, Structural)]
pub struct Timestamp {
    pub seconds: i64,
    pub nanos: u32,
}

/// The nanosecond part names a position inside one second.
pub open spec fn timestamp_wf(t: Timestamp) -> bool {
    t.nanos < 1_000_000_000
}

/// The text of a timestamp: the seconds in decimal, a dot, and the
/// nanosecond part in decimal without padding.
pub open spec fn timestamp_text(t: Timestamp) -> Seq<char> {
    dec_seq_i64(t.seconds as int) + seq!['.'] + dec_seq(t.nanos as nat)
}

/// The timestamp the text `s` spells: a signed decimal second count, a dot,
/// and an unsigned nanosecond part of at most 999 999 999; `None` on any
/// other text.
pub open spec fn spec_parse_timestamp(s: Seq<char>) -> Option<Timestamp> {
    match spec_parse_i64_at(s, 0) {
        None => None,
        Some((sec, p)) => if p + 1 < s.len() && s[p] == '.' && s[p + 1] != '-' {
            match spec_parse_i64_at(s, p + 1) {
                None => None,
                Some((nv, p2)) => if p2 == s.len() && 0 <= nv <= 999_999_999 {
                    Some(Timestamp { seconds: sec as i64, nanos: nv as u32 })
                } else {
                    None
                },
            }
        } else {
            None
        },
    }
}

/// Relies on `chrono::Utc::now`, `chrono::DateTime::timestamp` and
/// `chrono::DateTime::timestamp_subsec_nanos`: one wall-clock reading as
/// whole seconds since the epoch and nanoseconds into the second. The
/// reading is arbitrary; the nanosecond part stays below two seconds'
/// worth (values above 999 999 999 encode a leap second).
#[verifier::external_body]
fn utc_now_parts() -> (r: (i64, u32))
    ensures
        r.1 < 2_000_000_000,
{
    let now = chrono::Utc::now();
    (now.timestamp(), now.timestamp_subsec_nanos())
}

impl Timestamp {
    /// The current wall-clock time. A leap-second reading is folded into the
    /// next second so that the result is well formed.
    pub fn now() -> (r: Timestamp)
        ensures
            timestamp_wf(r),
    {
        let (secs, nanos) = utc_now_parts();
        if nanos >= 1_000_000_000 {
            let folded = if secs < i64::MAX {
                secs + 1
            } else {
                secs
            };
            Timestamp { seconds: folded, nanos: nanos - 1_000_000_000 }
        } else {
            Timestamp { seconds: secs, nanos }
        }
    }

    /// This time less `secs` whole seconds, stopping at the epoch rather
    /// than underflowing below it; the nanosecond part is kept.
    pub fn sub_seconds(self, secs: u32) -> (r: Timestamp)
        ensures
            r.seconds == if self.seconds >= secs as i64 {
                self.seconds - secs as i64
            } else {
                0
            },
            r.nanos == self.nanos,
    {
        if self.seconds >= secs as i64 {
            Timestamp { seconds: self.seconds - secs as i64, nanos: self.nanos }
        } else {
            Timestamp { seconds: 0, nanos: self.nanos }
        }
    }

    /// This time comes strictly before `other`: timestamps are ordered by
    /// seconds first, then by the nanosecond part.
    pub fn is_before(&self, other: &Timestamp) -> (r: bool)
        ensures
            r == (self.seconds < other.seconds || (self.seconds == other.seconds && self.nanos
                < other.nanos)),
    {
        self.seconds < other.seconds || (self.seconds == other.seconds && self.nanos < other.nanos)
    }

    /// The text form `"seconds.nanos"`.
    pub fn to_text(&self) -> (r: String)
        ensures
            r@ == timestamp_text(*self),
    {
        let mut out = String::new();
        push_dec_i64(&mut out, self.seconds);
        push_dot(&mut out);
        push_dec_u64(&mut out, self.nanos as u64);
        proof {
            assert(out@ =~= timestamp_text(*self));
        }
        out
    }

    /// Reads a timestamp out of its text form, per `spec_parse_timestamp`.
    pub fn parse(s: &str) -> (r: Result<Timestamp, ErrorKind>)
        ensures
            spec_parse_timestamp(s@) matches Some(t) ==> (r matches Ok(v) && v == t),
            spec_parse_timestamp(s@) is None ==> (r matches Err(err) && is_parse_error(err)),
    {
        let len = s.unicode_len();
        let bad: Result<Timestamp, ErrorKind> = Err(ErrorKind::Parse("{seconds}.{nanos}"));
        match parse_i64_at(s, 0) {
            None => bad,
            Some((sec, p)) => {
                if p < len && s.get_char(p) == '.' && p + 1 < len && s.get_char(p + 1) != '-' {
                    match parse_i64_at(s, p + 1) {
                        None => bad,
                        Some((nv, p2)) => {
                            if p2 == len && 0 <= nv && nv <= 999_999_999 {
                                Ok(Timestamp { seconds: sec, nanos: nv as u32 })
                            } else {
                                bad
                            }
                        },
                    }
                } else {
                    bad
                }
            },
        }
    }
}

/// Where this timestamp stands relative to `other`: the ordering is total,
/// by seconds first and then by the nanosecond part.
pub open spec fn spec_timestamp_cmp(t: Timestamp, other: Timestamp) -> core::cmp::Ordering {
    if t.seconds < other.seconds {
        core::cmp::Ordering::Less
    } else if t.seconds > other.seconds {
        core::cmp::Ordering::Greater
    } else if t.nanos < other.nanos {
        core::cmp::Ordering::Less
    } else if t.nanos > other.nanos {
        core::cmp::Ordering::Greater
    } else {
        core::cmp::Ordering::Equal
    }
}

impl PartialOrd for Timestamp {
    /// Timestamps are totally ordered, per `spec_timestamp_cmp`.
    fn partial_cmp(&self, other: &Timestamp) -> (r: Option<core::cmp::Ordering>) {
        if self.seconds < other.seconds {
            Some(core::cmp::Ordering::Less)
        } else if self.seconds > other.seconds {
            Some(core::cmp::Ordering::Greater)
        } else if self.nanos < other.nanos {
            Some(core::cmp::Ordering::Less)
        } else if self.nanos > other.nanos {
            Some(core::cmp::Ordering::Greater)
        } else {
            Some(core::cmp::Ordering::Equal)
        }
    }
}

impl vstd::std_specs::cmp::PartialOrdSpecImpl for Timestamp {
    open spec fn obeys_partial_cmp_spec() -> bool {
        true
    }

    open spec fn partial_cmp_spec(&self, other: &Timestamp) -> Option<core::cmp::Ordering> {
        Some(spec_timestamp_cmp(*self, *other))
    }
}

/// Law: the text round trip. Parsing the text of any well-formed timestamp
/// yields the timestamp back.
pub proof fn lemma_timestamp_round_trip(t: Timestamp)
    requires
        timestamp_wf(t),
    ensures
        spec_parse_timestamp(timestamp_text(t)) == Some(t),
{
    let a = dec_seq_i64(t.seconds as int);
    let b = dec_seq(t.nanos as nat);
    let s = timestamp_text(t);
    let p = a.len() as int;
    let p2 = p + 1 + b.len() as int;
    assert(s.len() == p2);
    lemma_dec_seq_digits(t.nanos as nat);
    assert forall|k: int| 0 <= k < a.len() implies s[0 + k] == #[trigger] a[k] by {}
    assert(s[p] == '.');
    lemma_parse_i64_at_embedded(s, 0, t.seconds);
    assert(spec_parse_i64_at(s, 0) == Some::<(int, int)>((t.seconds as int, p)));
    assert(s[p + 1] == b[0]);
    assert(s[p + 1] != '-');
    let bs = dec_seq_i64(t.nanos as int);
    assert(bs == b);
    assert forall|k: int| 0 <= k < bs.len() implies s[p + 1 + k] == #[trigger] bs[k] by {}
    lemma_parse_i64_at_embedded_u32(s, p + 1, t.nanos);
    assert(spec_parse_timestamp(s) == Some(t));
}

/// The embedding lemma specialized to the unsigned nanosecond part.
proof fn lemma_parse_i64_at_embedded_u32(s: Seq<char>, i: int, n: u32)
    requires
        0 <= i,
        i + dec_seq(n as nat).len() <= s.len(),
        forall|k: int| 0 <= k < dec_seq(n as nat).len() ==> s[i + k] == #[trigger] dec_seq(
            n as nat,
        )[k],
        i + dec_seq(n as nat).len() == s.len() || !crate::text::is_dec_digit(
            s[i + dec_seq(n as nat).len()],
        ),
    ensures
        spec_parse_i64_at(s, i) == Some::<(int, int)>((n as int, i + dec_seq(n as nat).len())),
{
    let m: i64 = n as i64;
    assert(dec_seq_i64(m as int) == dec_seq(n as nat));
    lemma_parse_i64_at_embedded(s, i, m);
}

} // verus!
