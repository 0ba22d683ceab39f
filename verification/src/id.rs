//! Ledger entity addresses.
//!
//! An entity id is the triple `(shard, realm, num)`. Its canonical text form
//! is `"shard:realm:num"`; a `.` is also accepted as the separator on parse.
//! Parsing the canonical text of any id yields the id back
//! (`lemma_entity_round_trip`).

use vstd::prelude::*;
use crate::error::ErrorKind;
use crate::error::is_parse_error;
use crate::text::dec_seq_i64;
use crate::text::is_dec_digit;
use crate::text::lemma_parse_i64_at_embedded;
use crate::text::parse_i64_at;
use crate::text::push_colon;
use crate::text::push_dec_i64;
use crate::text::spec_parse_i64_at;
use vstd::string::StrSliceExecFns;

verus! {

/// A ledger entity address: the shard and realm it lives in and its number
/// within them. Accounts, files and contracts are all addressed this way.
#[derive(Debug, Clone, Copy, PartialEq, Eq, Structural)]
pub struct EntityId {
    pub shard: i64,
    pub realm: i64,
    pub num: i64,
}

/// The address of a crypto-currency account.
pub type AccountId = EntityId;

/// The address of a stored file.
pub type FileId = EntityId;

/// The address of a smart contract instance.
pub type ContractId = EntityId;

/// `c` separates the parts of an entity id.
pub open spec fn is_sep(c: char) -> bool {
    c == ':' || c == '.'
}

/// The canonical text of an entity id: the three parts in decimal, separated
/// by colons.
pub open spec fn entity_text(e: EntityId) -> Seq<char> {
    dec_seq_i64(e.shard as int) + seq![':'] + dec_seq_i64(e.realm as int) + seq![':']
        + dec_seq_i64(e.num as int)
}

/// The entity id that the text `s` spells: three signed decimal integers
/// separated by `:` or `.`, nothing more; `None` on any other text.
pub open spec fn spec_parse_entity(s: Seq<char>) -> Option<EntityId> {
    match spec_parse_i64_at(s, 0) {
        None => None,
        Some((shard, p1)) => if p1 < s.len() && is_sep(s[p1]) {
            match spec_parse_i64_at(s, p1 + 1) {
                None => None,
                Some((realm, p2)) => if p2 < s.len() && is_sep(s[p2]) {
                    match spec_parse_i64_at(s, p2 + 1) {
                        None => None,
                        Some((num, p3)) => if p3 == s.len() {
                            Some(
                                EntityId {
                                    shard: shard as i64,
                                    realm: realm as i64,
                                    num: num as i64,
                                },
                            )
                        } else {
                            None
                        },
                    }
                } else {
                    None
                },
            }
        } else {
            None
        },
    }
}

/// `c` separates the parts of an entity id.
pub fn is_sep_char(c: char) -> (r: bool)
    ensures
        r == is_sep(c),
{
    c == ':' || c == '.'
}

impl EntityId {
    /// The id `(shard, realm, num)`.
    pub fn new(shard: i64, realm: i64, num: i64) -> (r: EntityId)
        ensures
            r == (EntityId { shard, realm, num }),
    {
        EntityId { shard, realm, num }
    }

    /// The canonical text form `"shard:realm:num"`.
    pub fn to_text(&self) -> (r: String)
        ensures
            r@ == entity_text(*self),
    {
        let mut out = String::new();
        push_dec_i64(&mut out, self.shard);
        push_colon(&mut out);
        push_dec_i64(&mut out, self.realm);
        push_colon(&mut out);
        push_dec_i64(&mut out, self.num);
        proof {
            assert(out@ =~= entity_text(*self));
        }
        out
    }

    /// Reads an entity id out of its text form, per `spec_parse_entity`.
    pub fn parse(s: &str) -> (r: Result<EntityId, ErrorKind>)
        ensures
            spec_parse_entity(s@) matches Some(e) ==> (r matches Ok(v) && v == e),
            spec_parse_entity(s@) is None ==> (r matches Err(err) && is_parse_error(err)),
    {
        let len = s.unicode_len();
        let bad: Result<EntityId, ErrorKind> = Err(
            ErrorKind::Parse("{shard}:{realm}:{num}"),
        );
        match parse_i64_at(s, 0) {
            None => bad,
            Some((shard, p1)) => {
                if p1 < len && is_sep_char(s.get_char(p1)) {
                    match parse_i64_at(s, p1 + 1) {
                        None => bad,
                        Some((realm, p2)) => {
                            if p2 < len && is_sep_char(s.get_char(p2)) {
                                match parse_i64_at(s, p2 + 1) {
                                    None => bad,
                                    Some((num, p3)) => {
                                        if p3 == len {
                                            Ok(EntityId { shard, realm, num })
                                        } else {
                                            bad
                                        }
                                    },
                                }
                            } else {
                                bad
                            }
                        },
                    }
                } else {
                    bad
                }
            },
        }
    }
}

impl core::str::FromStr for EntityId {
    type Err = ErrorKind;

    /// Reads an entity id out of its text form, as `parse` does.
    fn from_str(s: &str) -> Result<EntityId, ErrorKind> {
        EntityId::parse(s)
    }
}

/// Law: the text round trip. Parsing the canonical text of any entity id
/// yields the id back; in particular this holds for every valid triple of
/// non-negative parts.
pub proof fn lemma_entity_round_trip(e: EntityId)
    ensures
        spec_parse_entity(entity_text(e)) == Some(e),
{
    let a = dec_seq_i64(e.shard as int);
    let b = dec_seq_i64(e.realm as int);
    let c = dec_seq_i64(e.num as int);
    let s = entity_text(e);
    let p1 = a.len() as int;
    let p2 = p1 + 1 + b.len() as int;
    let p3 = p2 + 1 + c.len() as int;
    assert(s.len() == p3);
    assert forall|k: int| 0 <= k < a.len() implies s[0 + k] == #[trigger] a[k] by {}
    assert(s[p1] == ':');
    assert(!is_dec_digit(':'));
    lemma_parse_i64_at_embedded(s, 0, e.shard);
    assert forall|k: int| 0 <= k < b.len() implies s[p1 + 1 + k] == #[trigger] b[k] by {}
    assert(s[p2] == ':');
    lemma_parse_i64_at_embedded(s, p1 + 1, e.realm);
    assert forall|k: int| 0 <= k < c.len() implies s[p2 + 1 + k] == #[trigger] c[k] by {}
    lemma_parse_i64_at_embedded(s, p2 + 1, e.num);
    assert(spec_parse_i64_at(s, 0) == Some::<(int, int)>((e.shard as int, p1)));
    assert(is_sep(s[p1]));
    assert(spec_parse_i64_at(s, p1 + 1) == Some::<(int, int)>((e.realm as int, p2)));
    assert(is_sep(s[p2]));
    assert(spec_parse_i64_at(s, p2 + 1) == Some::<(int, int)>((e.num as int, p3)));
    assert(spec_parse_entity(s) == Some(e));
}

} // verus!
