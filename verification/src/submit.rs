//! Classifying the gateway's answer to a submitted envelope.
//!
//! Submission is never auto-retried here: resending an accepted envelope
//! risks a duplicate payment, so recovery from any failure is a
//! whole-pipeline re-run, starting from a fresh sequence fetch.

use vstd::prelude::*;
use vstd::string::*;
use crate::errors::AppError;
use crate::json::{json_nested_string, json_string_at, json_string_at_path, json_top_string};

verus! {

/// A 2xx status.
pub open spec fn is_2xx(status: u16) -> bool {
    200 <= status < 300
}

/// A 5xx status.
pub open spec fn is_5xx(status: u16) -> bool {
    500 <= status < 600
}

/// How a submission attempt failed to even reach a gateway verdict.
#[derive(Debug, PartialEq, Eq, Structural)]
pub enum TransportKind {
    Timeout,
    Connection,
    Other,
}

/// The gateway's verdict on one submitted envelope. Terminal: the core
/// never resubmits the same envelope.
#[derive(Debug)]
pub enum SubmissionOutcome {
    Success { hash: String },
    Rejected { code: String, message: String },
    TransportError { kind: TransportKind },
}

/// The actionable message for a structured rejection code: recognized
/// codes get advice, unknown codes are surfaced verbatim.
pub open spec fn rejection_message(code: Seq<char>) -> Seq<char> {
    if code == "tx_bad_seq"@ {
        "stale sequence: re-fetch the sequence and re-run the whole pipeline"@
    } else if code == "tx_insufficient_balance"@ {
        "insufficient balance: fund the source account"@
    } else {
        code
    }
}

/// Character-by-character string equality.
fn str_eq(a: &str, b: &str) -> (r: bool)
    ensures
        r == (a@ == b@),
{
    let n = a.unicode_len();
    let m = b.unicode_len();
    if n != m {
        return false;
    }
    let mut i: usize = 0;
    while i < n
        invariant
            i <= n,
            n == a@.len() == b@.len(),
            forall|j: int| 0 <= j < i ==> a@[j] == b@[j],
        decreases n - i,
    {
        if a.get_char(i) != b.get_char(i) {
            return false;
        }
        i = i + 1;
    }
    proof {
        assert(a@ =~= b@);
    }
    true
}

/// Maps a structured rejection code to its actionable message.
fn message_for_code(code: &str) -> (r: String)
    ensures
        r@ == rejection_message(code@),
{
    if str_eq(code, "tx_bad_seq") {
        "stale sequence: re-fetch the sequence and re-run the whole pipeline".to_owned()
    } else if str_eq(code, "tx_insufficient_balance") {
        "insufficient balance: fund the source account".to_owned()
    } else {
        code.to_owned()
    }
}

/// Classifies the gateway's HTTP response to a submission.
///
/// A 2xx response must carry a `hash`; its absence is a fatal parse
/// error. A non-2xx response with a structured code at
/// `extras.result_codes.transaction` is a rejection carrying the
/// actionable message for that code; without one, the raw status and body
/// surface unclassified.
pub fn classify_submit_response(status: u16, body: &str) -> (r: Result<SubmissionOutcome, AppError>)
    ensures
        is_2xx(status) ==> match json_string_at(body@, "hash"@) {
            Some(h) => (r matches Ok(o) && o matches SubmissionOutcome::Success { hash } && hash@
                == h),
            None => (r matches Err(e) && e matches AppError::ParseError { message } && message@
                == "missing hash in submission response"@),
        },
        !is_2xx(status) ==> match json_string_at_path(
            body@,
            "extras"@,
            "result_codes"@,
            "transaction"@,
        ) {
            Some(c) => (r matches Ok(o) && o matches SubmissionOutcome::Rejected { code, message }
                && code@ == c && message@ == rejection_message(c)),
            None => (r matches Err(e) && e matches AppError::UnclassifiedRejection {
                status: st,
                body: b,
            } && st == status && b@ == body@),
        },
{
    if 200 <= status && status < 300 {
        match json_top_string(body, "hash") {
            Some(hash) => Ok(SubmissionOutcome::Success { hash }),
            None => Err(
                AppError::ParseError {
                    message: "missing hash in submission response".to_owned(),
                },
            ),
        }
    } else {
        match json_nested_string(body, "extras", "result_codes", "transaction") {
            Some(code) => {
                let message = message_for_code(code.as_str());
                Ok(SubmissionOutcome::Rejected { code, message })
            },
            None => Err(AppError::UnclassifiedRejection { status, body: body.to_owned() }),
        }
    }
}

} // verus!
