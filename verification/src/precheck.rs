//! The response-status vocabulary of the network and its retry
//! classification.
//!
//! Every response carries a pre-check code: the receiving node's immediate
//! validation result, returned before consensus. The query engine and the
//! transaction engine both decide what to do next from the classification of
//! that code alone.

use vstd::prelude::*;

verus! {

/// A server-reported outcome attached to each response.
///
/// Codes outside the closed vocabulary are carried as `Unknown` so that the
/// caller can still inspect the raw value.
#[derive(Debug, Clone, Copy, PartialEq, Eq, Structural)]
pub enum PreCheckCode {
    Okay,
    InvalidTransaction,
    InvalidAccount,
    InsufficientFee,
    InsufficientBalance,
    DuplicateTransaction,
    Busy,
    NotSupported,
    Unknown(i64),
}

/// What an engine should do with a response, derived from its pre-check code.
#[derive(Debug, Clone, Copy, PartialEq, Eq, Structural)]
pub enum Classification {
    Success,
    Retryable,
    NeedsPayment,
    TerminalFailure,
}

/// The two request modes of the query engine. A cost probe treats an
/// `InvalidTransaction` header as a successful fee quote, while an answer
/// request treats it as a demand for payment.
#[derive(Debug, Clone, Copy, PartialEq, Eq, Structural)]
pub enum QueryContext {
    Answer,
    Cost,
}

/// The classification of `code` in context `ctx`: `Okay` is success, `Busy` is
/// retryable, `InvalidTransaction` demands payment when an answer was asked
/// for but is a success when only the cost was, and everything else is a
/// terminal failure.
pub open spec fn spec_classify(code: PreCheckCode, ctx: QueryContext) -> Classification {
    match code {
        PreCheckCode::Okay => Classification::Success,
        PreCheckCode::Busy => Classification::Retryable,
        PreCheckCode::InvalidTransaction => match ctx {
            QueryContext::Answer => Classification::NeedsPayment,
            QueryContext::Cost => Classification::Success,
        },
        _ => Classification::TerminalFailure,
    }
}

impl PreCheckCode {
    /// The numeric wire value this code stands for.
    pub fn from_code(code: i64) -> (r: PreCheckCode)
        ensures
            r == spec_from_code(code),
    {
        if code == 0 {
            PreCheckCode::Okay
        } else if code == 1 {
            PreCheckCode::InvalidTransaction
        } else if code == 2 {
            PreCheckCode::InvalidAccount
        } else if code == 3 {
            PreCheckCode::InsufficientFee
        } else if code == 4 {
            PreCheckCode::InsufficientBalance
        } else if code == 5 {
            PreCheckCode::DuplicateTransaction
        } else if code == 6 {
            PreCheckCode::Busy
        } else if code == 7 {
            PreCheckCode::NotSupported
        } else {
            PreCheckCode::Unknown(code)
        }
    }

    /// What an engine in context `ctx` should do with this code.
    pub fn classify(self, ctx: QueryContext) -> (r: Classification)
        ensures
            r == spec_classify(self, ctx),
    {
        match self {
            PreCheckCode::Okay => Classification::Success,
            PreCheckCode::Busy => Classification::Retryable,
            PreCheckCode::InvalidTransaction => match ctx {
                QueryContext::Answer => Classification::NeedsPayment,
                QueryContext::Cost => Classification::Success,
            },
            _ => Classification::TerminalFailure,
        }
    }
}

/// The code that the numeric wire value `code` stands for; values outside
/// the closed vocabulary keep their raw number.
pub open spec fn spec_from_code(code: i64) -> PreCheckCode {
    if code == 0 {
        PreCheckCode::Okay
    } else if code == 1 {
        PreCheckCode::InvalidTransaction
    } else if code == 2 {
        PreCheckCode::InvalidAccount
    } else if code == 3 {
        PreCheckCode::InsufficientFee
    } else if code == 4 {
        PreCheckCode::InsufficientBalance
    } else if code == 5 {
        PreCheckCode::DuplicateTransaction
    } else if code == 6 {
        PreCheckCode::Busy
    } else if code == 7 {
        PreCheckCode::NotSupported
    } else {
        PreCheckCode::Unknown(code)
    }
}

} // verus!
