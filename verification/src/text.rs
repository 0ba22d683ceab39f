//! Decimal text: formatting and parsing of the integers that make up the
//! textual identifier forms.
//!
//! The specification side defines the decimal digit sequence of a number and
//! the value of a digit run; the executable side renders into a `String` and
//! scans out of a `&str`, each proved against the specification. The
//! round-trip lemmas here carry the identifier round-trip laws.

use vstd::prelude::*;
use vstd::string::StrSliceExecFns;
use vstd::string::StringExecFns;

verus! {

// --------------------------------------------------------------------------
// Digits
// --------------------------------------------------------------------------

/// `c` is one of the ten decimal digit characters.
pub open spec fn is_dec_digit(c: char) -> bool {
    c == '0' || c == '1' || c == '2' || c == '3' || c == '4' || c == '5' || c == '6' || c == '7'
        || c == '8' || c == '9'
}

/// The numeric value of a digit character.
pub open spec fn digit_val(c: char) -> nat
    recommends
        is_dec_digit(c),
{
    if c == '0' {
        0
    } else if c == '1' {
        1
    } else if c == '2' {
        2
    } else if c == '3' {
        3
    } else if c == '4' {
        4
    } else if c == '5' {
        5
    } else if c == '6' {
        6
    } else if c == '7' {
        7
    } else if c == '8' {
        8
    } else {
        9
    }
}

/// The digit character of a value below ten.
pub open spec fn digit_char(d: nat) -> char
    recommends
        d < 10,
{
    if d == 0 {
        '0'
    } else if d == 1 {
        '1'
    } else if d == 2 {
        '2'
    } else if d == 3 {
        '3'
    } else if d == 4 {
        '4'
    } else if d == 5 {
        '5'
    } else if d == 6 {
        '6'
    } else if d == 7 {
        '7'
    } else if d == 8 {
        '8'
    } else {
        '9'
    }
}

pub proof fn lemma_digit_char_val(d: nat)
    requires
        d < 10,
    ensures
        is_dec_digit(digit_char(d)),
        digit_val(digit_char(d)) == d,
{
}

// --------------------------------------------------------------------------
// The decimal text of a number
// --------------------------------------------------------------------------

/// The decimal digit sequence of `n`, most significant digit first, with no
/// sign and no leading zero (except the single digit of zero itself).
pub open spec fn dec_seq(n: nat) -> Seq<char>
    decreases n,
{
    if n < 10 {
        seq![digit_char(n)]
    } else {
        dec_seq(n / 10).push(digit_char(n % 10))
    }
}

/// The decimal text of a signed value: a minus sign before the magnitude
/// when the value is negative.
pub open spec fn dec_seq_i64(n: int) -> Seq<char> {
    if n < 0 {
        seq!['-'] + dec_seq((-n) as nat)
    } else {
        dec_seq(n as nat)
    }
}

pub proof fn lemma_dec_seq_digits(n: nat)
    ensures
        dec_seq(n).len() >= 1,
        forall|k: int| 0 <= k < dec_seq(n).len() ==> is_dec_digit(#[trigger] dec_seq(n)[k]),
    decreases n,
{
    if n < 10 {
        lemma_digit_char_val(n);
    } else {
        lemma_dec_seq_digits(n / 10);
        lemma_digit_char_val(n % 10);
    }
}

// --------------------------------------------------------------------------
// The value of a digit run
// --------------------------------------------------------------------------

/// The value of the digit run `s[i..j]`, read left to right.
pub open spec fn dec_value(s: Seq<char>, i: int, j: int) -> nat
    decreases j - i,
{
    if j <= i {
        0
    } else {
        dec_value(s, i, j - 1) * 10 + digit_val(s[j - 1])
    }
}

/// All characters of `s[i..j]` are decimal digits.
pub open spec fn all_digits(s: Seq<char>, i: int, j: int) -> bool {
    forall|k: int| i <= k < j ==> is_dec_digit(#[trigger] s[k])
}

/// The value of a run depends only on the characters inside it.
pub proof fn lemma_dec_value_congruent(s: Seq<char>, t: Seq<char>, i: int, j: int)
    requires
        forall|k: int| i <= k < j ==> s[k] == #[trigger] t[k],
    ensures
        dec_value(s, i, j) == dec_value(t, i, j),
    decreases j - i,
{
    if j > i {
        lemma_dec_value_congruent(s, t, i, j - 1);
    }
}

/// Reading back the decimal text of `n` yields `n`.
pub proof fn lemma_dec_value_of_dec_seq(n: nat)
    ensures
        dec_value(dec_seq(n), 0, dec_seq(n).len() as int) == n,
    decreases n,
{
    if n < 10 {
        lemma_digit_char_val(n);
        let s = dec_seq(n);
        assert(s =~= seq![digit_char(n)]);
        assert(s.len() == 1);
        assert(s[0] == digit_char(n));
        assert(dec_value(s, 0, 1) == dec_value(s, 0, 0) * 10 + digit_val(s[0]));
        assert(dec_value(s, 0, 1) == n);
    } else {
        lemma_dec_value_of_dec_seq(n / 10);
        lemma_digit_char_val(n % 10);
        let s = dec_seq(n);
        let p = dec_seq(n / 10);
        let len = p.len() as int;
        assert(s == p.push(digit_char(n % 10)));
        assert(s.len() == len + 1);
        lemma_dec_value_congruent(s, p, 0, len);
        assert(dec_value(p, 0, len) == n / 10);
        assert(dec_value(s, 0, len) == n / 10);
        assert(s[len] == digit_char(n % 10));
        assert(digit_val(s[len]) == n % 10);
        assert(dec_value(s, 0, len + 1) == dec_value(s, 0, len) * 10 + digit_val(s[len]));
        assert((n / 10) * 10 + (n % 10) == n);
        assert(dec_value(s, 0, len + 1) == n);
        assert(s.len() as int == len + 1);
    }
}

/// A digit run embedded in `s` at `[i..j]` that spells `dec_seq(n)` has
/// value `n`.
pub proof fn lemma_dec_value_embedded(s: Seq<char>, i: int, n: nat)
    requires
        0 <= i,
        i + dec_seq(n).len() <= s.len(),
        forall|k: int|
            0 <= k < dec_seq(n).len() ==> s[i + k] == #[trigger] dec_seq(n)[k],
    ensures
        dec_value(s, i, i + dec_seq(n).len()) == n,
{
    let t = dec_seq(n);
    lemma_dec_value_of_dec_seq(n);
    lemma_dec_value_shift(s, t, i, t.len() as int);
}

/// A run of `s` starting at `i` that matches `t` from its start has the
/// value of the matching prefix of `t`.
proof fn lemma_dec_value_shift(s: Seq<char>, t: Seq<char>, i: int, m: int)
    requires
        0 <= i,
        0 <= m <= t.len(),
        i + t.len() <= s.len(),
        forall|k: int| 0 <= k < t.len() ==> s[i + k] == #[trigger] t[k],
    ensures
        dec_value(s, i, i + m) == dec_value(t, 0, m),
    decreases m,
{
    if m > 0 {
        lemma_dec_value_shift(s, t, i, m - 1);
        assert(s[i + (m - 1)] == t[m - 1]);
    }
}

// --------------------------------------------------------------------------
// Scanning
// --------------------------------------------------------------------------

/// The index of the first character at or after `i` that is not a decimal
/// digit, or the length of `s` when every remaining character is one.
pub open spec fn scan_digits(s: Seq<char>, i: int) -> int
    recommends
        0 <= i <= s.len(),
    decreases s.len() - i,
{
    if i < 0 || i >= s.len() || !is_dec_digit(s[i]) {
        i
    } else {
        scan_digits(s, i + 1)
    }
}

pub proof fn lemma_scan_digits_characterize(s: Seq<char>, i: int, j: int)
    requires
        0 <= i <= j <= s.len(),
        all_digits(s, i, j),
        j == s.len() || !is_dec_digit(s[j]),
    ensures
        scan_digits(s, i) == j,
    decreases j - i,
{
    if i < j {
        lemma_scan_digits_characterize(s, i + 1, j);
    }
}

/// The index of the first occurrence of `c` at or after `i`, or the length
/// of `s` when it does not occur.
pub open spec fn find_char(s: Seq<char>, c: char, i: int) -> int
    recommends
        0 <= i <= s.len(),
    decreases s.len() - i,
{
    if i < 0 || i >= s.len() || s[i] == c {
        i
    } else {
        find_char(s, c, i + 1)
    }
}

pub proof fn lemma_find_char_characterize(s: Seq<char>, c: char, i: int, j: int)
    requires
        0 <= i <= j <= s.len(),
        forall|k: int| i <= k < j ==> s[k] != c,
        j == s.len() || s[j] == c,
    ensures
        find_char(s, c, i) == j,
    decreases j - i,
{
    if i < j {
        lemma_find_char_characterize(s, c, i + 1, j);
    }
}

// --------------------------------------------------------------------------
// Parsing a signed integer
// --------------------------------------------------------------------------

/// The signed integer read at position `i` of `s`: an optional minus sign,
/// then a nonempty digit run; `None` when no digit follows the position (or
/// the sign), or when the value does not fit in an `i64`. On success the
/// second component is the index of the first character after the run.
pub open spec fn spec_parse_i64_at(s: Seq<char>, i: int) -> Option<(int, int)> {
    let neg = i < s.len() && s[i] == '-';
    let d0 = if neg {
        i + 1
    } else {
        i
    };
    let j = scan_digits(s, d0);
    if j == d0 {
        None
    } else {
        let m = dec_value(s, d0, j) as int;
        let v = if neg {
            -m
        } else {
            m
        };
        if i64::MIN as int <= v <= i64::MAX as int {
            Some((v, j))
        } else {
            None
        }
    }
}

/// Where `s` spells `dec_seq_i64(n)` at `[i..end]` and no digit follows
/// `end`, parsing at `i` reads exactly `n` and stops at `end`.
pub proof fn lemma_parse_i64_at_embedded(s: Seq<char>, i: int, n: i64)
    requires
        0 <= i,
        i + dec_seq_i64(n as int).len() <= s.len(),
        forall|k: int|
            0 <= k < dec_seq_i64(n as int).len()
                ==> s[i + k] == #[trigger] dec_seq_i64(n as int)[k],
        i + dec_seq_i64(n as int).len() == s.len()
            || !is_dec_digit(s[i + dec_seq_i64(n as int).len()]),
    ensures
        spec_parse_i64_at(s, i) == Some::<(int, int)>(
            (n as int, i + dec_seq_i64(n as int).len()),
        ),
{
    let t = dec_seq_i64(n as int);
    let end = i + t.len();
    if n >= 0 {
        let m = n as nat;
        lemma_dec_seq_digits(m);
        assert(t == dec_seq(m));
        assert(s[i] == t[0]);
        assert(is_dec_digit(s[i]));
        assert(s[i] != '-');
        assert(all_digits(s, i, end)) by {
            assert forall|k: int| i <= k < end implies is_dec_digit(#[trigger] s[k]) by {
                assert(s[k] == t[k - i]);
            }
        }
        lemma_scan_digits_characterize(s, i, end);
        lemma_dec_value_embedded(s, i, m);
    } else {
        let m = (-(n as int)) as nat;
        lemma_dec_seq_digits(m);
        assert(t == seq!['-'] + dec_seq(m));
        assert(t[0] == '-');
        assert(s[i] == '-');
        assert forall|k: int|
            0 <= k < dec_seq(m).len() implies s[i + 1 + k] == #[trigger] dec_seq(m)[k] by {
            assert(s[i + (1 + k)] == t[1 + k]);
            assert(t[1 + k] == dec_seq(m)[k]);
        }
        assert(all_digits(s, i + 1, end)) by {
            assert forall|k: int| i + 1 <= k < end implies is_dec_digit(#[trigger] s[k]) by {
                assert(s[k] == dec_seq(m)[k - i - 1]);
            }
        }
        lemma_scan_digits_characterize(s, i + 1, end);
        lemma_dec_value_embedded(s, i + 1, m);
        assert(scan_digits(s, i + 1) == end);
        assert(end > i + 1) by {
            assert(dec_seq(m).len() >= 1);
        }
    }
}

/// The value of a digit character, or `None` for any other character.
pub fn char_digit(c: char) -> (r: Option<u8>)
    ensures
        is_dec_digit(c) ==> (r matches Some(d) && d == digit_val(c)),
        !is_dec_digit(c) ==> r is None,
{
    if c == '0' {
        Some(0)
    } else if c == '1' {
        Some(1)
    } else if c == '2' {
        Some(2)
    } else if c == '3' {
        Some(3)
    } else if c == '4' {
        Some(4)
    } else if c == '5' {
        Some(5)
    } else if c == '6' {
        Some(6)
    } else if c == '7' {
        Some(7)
    } else if c == '8' {
        Some(8)
    } else if c == '9' {
        Some(9)
    } else {
        None
    }
}

/// Appends one digit character.
pub fn push_digit(out: &mut String, d: u8)
    requires
        d < 10,
    ensures
        final(out)@ == old(out)@ + seq![digit_char(d as nat)],
{
    if d == 0 {
        proof {
            reveal_strlit("0");
            assert("0"@ =~= seq![digit_char(0)]);
        }
        out.append("0");
    } else if d == 1 {
        proof {
            reveal_strlit("1");
            assert("1"@ =~= seq![digit_char(1)]);
        }
        out.append("1");
    } else if d == 2 {
        proof {
            reveal_strlit("2");
            assert("2"@ =~= seq![digit_char(2)]);
        }
        out.append("2");
    } else if d == 3 {
        proof {
            reveal_strlit("3");
            assert("3"@ =~= seq![digit_char(3)]);
        }
        out.append("3");
    } else if d == 4 {
        proof {
            reveal_strlit("4");
            assert("4"@ =~= seq![digit_char(4)]);
        }
        out.append("4");
    } else if d == 5 {
        proof {
            reveal_strlit("5");
            assert("5"@ =~= seq![digit_char(5)]);
        }
        out.append("5");
    } else if d == 6 {
        proof {
            reveal_strlit("6");
            assert("6"@ =~= seq![digit_char(6)]);
        }
        out.append("6");
    } else if d == 7 {
        proof {
            reveal_strlit("7");
            assert("7"@ =~= seq![digit_char(7)]);
        }
        out.append("7");
    } else if d == 8 {
        proof {
            reveal_strlit("8");
            assert("8"@ =~= seq![digit_char(8)]);
        }
        out.append("8");
    } else {
        proof {
            reveal_strlit("9");
            assert("9"@ =~= seq![digit_char(9)]);
        }
        out.append("9");
    }
}

/// Appends the decimal text of `n`.
pub fn push_dec_u64(out: &mut String, n: u64)
    ensures
        final(out)@ == old(out)@ + dec_seq(n as nat),
    decreases n,
{
    if n >= 10 {
        push_dec_u64(out, n / 10);
    }
    push_digit(out, (n % 10) as u8);
    proof {
        if n >= 10 {
            assert(dec_seq(n as nat) =~= dec_seq((n as nat) / 10) + seq![
                digit_char((n as nat) % 10),
            ]);
            assert((n / 10) as nat == (n as nat) / 10);
            assert((n % 10) as nat == (n as nat) % 10);
        } else {
            assert(dec_seq(n as nat) =~= seq![digit_char(n as nat)]);
        }
    }
}

/// Appends the decimal text of the signed value `n`.
pub fn push_dec_i64(out: &mut String, n: i64)
    ensures
        final(out)@ == old(out)@ + dec_seq_i64(n as int),
{
    if n < 0 {
        proof {
            reveal_strlit("-");
            assert("-"@ =~= seq!['-']);
        }
        out.append("-");
        let m: u64 = ((-(n + 1)) as u64) + 1;
        assert(m as nat == (-(n as int)) as nat);
        push_dec_u64(out, m);
        assert(final(out)@ =~= old(out)@ + dec_seq_i64(n as int));
    } else {
        push_dec_u64(out, n as u64);
    }
}

/// Appends the separator between the parts of an entity id.
pub fn push_colon(out: &mut String)
    ensures
        final(out)@ == old(out)@ + seq![':'],
{
    proof {
        reveal_strlit(":");
        assert(":"@ =~= seq![':']);
    }
    out.append(":");
}

/// Appends the separator between the seconds and nanoseconds of a timestamp.
pub fn push_dot(out: &mut String)
    ensures
        final(out)@ == old(out)@ + seq!['.'],
{
    proof {
        reveal_strlit(".");
        assert("."@ =~= seq!['.']);
    }
    out.append(".");
}

/// Appends the separator between the account and the timestamp of a
/// transaction id.
pub fn push_at(out: &mut String)
    ensures
        final(out)@ == old(out)@ + seq!['@'],
{
    proof {
        reveal_strlit("@");
        assert("@"@ =~= seq!['@']);
    }
    out.append("@");
}

/// Reads a signed integer at character position `i` of `s`, per
/// `spec_parse_i64_at`.
pub fn parse_i64_at(s: &str, i: usize) -> (r: Option<(i64, usize)>)
    requires
        i <= s@.len(),
    ensures
        match spec_parse_i64_at(s@, i as int) {
            Some(p) => r matches Some(q) && q.0 as int == p.0 && q.1 as int == p.1,
            None => r is None,
        },
{
    let len = s.unicode_len();
    let mut k = i;
    let mut neg = false;
    if k < len && s.get_char(k) == '-' {
        neg = true;
        k = k + 1;
    }
    let d0 = k;
    let mut acc: u64 = 0;
    let mut overflow = false;
    loop
        invariant
            i <= s@.len(),
            d0 <= k <= len,
            len == s@.len(),
            all_digits(s@, d0 as int, k as int),
            !overflow ==> acc as nat == dec_value(s@, d0 as int, k as int),
            overflow ==> dec_value(s@, d0 as int, k as int) > u64::MAX as nat,
        ensures
            d0 <= k <= len,
            len == s@.len(),
            all_digits(s@, d0 as int, k as int),
            k == len || !is_dec_digit(s@[k as int]),
            !overflow ==> acc as nat == dec_value(s@, d0 as int, k as int),
            overflow ==> dec_value(s@, d0 as int, k as int) > u64::MAX as nat,
        decreases len - k,
    {
        if k == len {
            break ;
        }
        let c = s.get_char(k);
        match char_digit(c) {
            None => {
                break ;
            },
            Some(d) => {
                proof {
                    assert(dec_value(s@, d0 as int, k as int + 1) == dec_value(
                        s@,
                        d0 as int,
                        k as int,
                    ) * 10 + digit_val(s@[k as int]));
                }
                if overflow {
                    proof {
                        let dv = dec_value(s@, d0 as int, k as int);
                        assert(dv * 10 >= dv) by (nonlinear_arith)
                            requires dv > 0,
                        ;
                    }
                } else if acc > (u64::MAX - (d as u64)) / 10 {
                    proof {
                        let lim = (u64::MAX - (d as u64)) as nat;
                        assert(acc as nat >= lim / 10 + 1);
                        assert((lim / 10 + 1) * 10 > lim) by (nonlinear_arith);
                        assert(acc as nat * 10 >= (lim / 10 + 1) * 10) by (nonlinear_arith)
                            requires acc as nat >= lim / 10 + 1,
                        ;
                    }
                    overflow = true;
                } else {
                    proof {
                        let lim = (u64::MAX - (d as u64)) as nat;
                        assert(acc as nat <= lim / 10);
                        assert((lim / 10) * 10 <= lim);
                        assert(acc as nat * 10 <= (lim / 10) * 10) by (nonlinear_arith)
                            requires acc as nat <= lim / 10,
                        ;
                    }
                    acc = acc * 10 + (d as u64);
                }
                k = k + 1;
            },
        }
    }
    proof {
        lemma_scan_digits_characterize(s@, d0 as int, k as int);
    }
    if k == d0 {
        return None;
    }
    if overflow {
        return None;
    }
    if neg {
        if acc > 9223372036854775808u64 {
            None
        } else if acc == 9223372036854775808u64 {
            Some((i64::MIN, k))
        } else {
            Some((-(acc as i64), k))
        }
    } else {
        if acc > i64::MAX as u64 {
            None
        } else {
            Some((acc as i64, k))
        }
    }
}

} // verus!
