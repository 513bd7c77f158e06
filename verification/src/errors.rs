//! The error taxonomy every stage of the pipeline reports through.

use vstd::prelude::*;

verus! {

/// What can go wrong during one payment run, from configuration to the
/// gateway's verdict. Every failure surfaces as one of these; nothing is
/// swallowed at its origin.
#[derive(Debug)]
pub enum AppError {
    /// Missing or malformed settings.
    ConfigError { message: String },
    /// A secret seed or receiver address that does not decode.
    CryptoError { message: String },
    /// A 5xx from the gateway on the sequence fetch; retried per policy.
    TransientNetworkError { status: u16 },
    /// A 4xx, or a 5xx that survived retry exhaustion.
    FatalHttpError { status: u16, body: String },
    /// An expected JSON field that is missing or malformed.
    ParseError { message: String },
    /// A structured rejection code from the gateway.
    LedgerRejection { code: String, message: String },
    /// A non-2xx submission response with no usable structured code.
    UnclassifiedRejection { status: u16, body: String },
}

} // verus!
