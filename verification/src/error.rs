//! The error taxonomy of the library.

use vstd::prelude::*;
use crate::precheck::PreCheckCode;

verus! {

/// Every failure the library reports to its callers.
#[derive(Debug, Clone, Copy, PartialEq)]
pub enum ErrorKind {
    /// A required envelope field was absent when the transaction was frozen.
    MissingField(&'static str),
    /// A textual identifier did not have the expected format; the payload
    /// names the format that was expected.
    Parse(&'static str),
    /// The node rejected the request, with the code it reported.
    PreCheck(PreCheckCode),
}

/// `e` is the freeze-time error for the absent field named `field`.
pub open spec fn is_missing_field(e: ErrorKind, field: Seq<char>) -> bool {
    e matches ErrorKind::MissingField(f) && f@ == field
}

/// `e` is a malformed-text error.
pub open spec fn is_parse_error(e: ErrorKind) -> bool {
    e is Parse
}

/// `e` carries the pre-check code `code`.
pub open spec fn is_precheck(e: ErrorKind, code: PreCheckCode) -> bool {
    e == ErrorKind::PreCheck(code)
}

} // verus!
