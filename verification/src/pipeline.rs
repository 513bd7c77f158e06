//! The orchestrator: one linear run from sequence fetch through build,
//! sign and submit, with every failure carried to a terminal state.
//!
//! The caller performs the I/O each action asks for and feeds the result
//! back; the decisions all live here. A run that fails is only ever
//! recovered by a whole new run -- never by resubmitting the same
//! envelope.

use vstd::prelude::*;
use crate::envelope::{base64_of_envelope, env_wf, sign_transaction, signature_base,
    SignedEnvelope};
use crate::errors::AppError;
use crate::json::{json_string_at, json_string_at_path};
use crate::keys::{account_id_bytes, decode_account_id, derive_public_key, ed25519_sig,
    seed_public_key, seed_valid, sha256_of};
use crate::sequence::{backoff_delay, fetch_step, is_transient_event, sequence_of_body, FetchEvent,
    FetchStep, RetryPolicy};
use crate::submit::{classify_submit_response, is_2xx, is_5xx, rejection_message,
    SubmissionOutcome};
use crate::tx::{build, built_tx, intent_valid, AccountSequence, PaymentIntent};

verus! {

/// Where one run stands: the linear progression of the pipeline, with the
/// two terminal outcomes.
#[derive(Debug)]
pub enum PipelineState {
    /// Awaiting the account response; `attempts` fetches have been made.
    Fetching { attempts: u32 },
    /// Built and signed; awaiting the gateway's verdict on the envelope.
    Submitting { envelope: SignedEnvelope },
    /// The gateway acknowledged the transaction under this hash.
    Succeeded { hash: String },
    /// The run is over; the originating error is preserved.
    Failed { error: AppError },
}

/// What the caller must do next.
#[derive(Debug)]
pub enum PipelineAction {
    /// Wait `delay_ms`, then fetch the sender's account from the gateway.
    FetchAccount { delay_ms: u64 },
    /// Post this base64 text (as ASCII bytes) as the `tx` form field.
    SubmitTx { wire: Vec<u8> },
    /// Nothing: the run reached a terminal state.
    Halt,
}

/// The fixed inputs of one run. Constructing one validates the secret
/// seed, so a run with a bad seed dies before any network action is ever
/// issued.
pub struct Orchestrator {
    pub intent: PaymentIntent,
    pub secret: String,
    pub policy: RetryPolicy,
    pub network_id: Vec<u8>,
}

impl Orchestrator {
    pub open spec fn wf(&self) -> bool {
        &&& self.intent.wf()
        &&& self.policy.wf()
        &&& self.network_id@.len() == 32
    }
}

/// The state and action pair that hands a freshly signed envelope to the
/// caller: the envelope carries exactly the transaction built from the
/// orchestrator's intent at fetched sequence `v`, and the wire text is
/// its base64 encoding.
pub open spec fn advanced_to_submit(
    o: Orchestrator,
    v: i64,
    st: PipelineState,
    act: PipelineAction,
) -> bool
    recommends
        v < i64::MAX,
{
    st matches PipelineState::Submitting { envelope } && env_wf(envelope@) && envelope@.tx
        == built_tx(o.intent@, v) && envelope@.tx.sequence == v + 1 && envelope@.signature
        == ed25519_sig(o.secret@, sha256_of(signature_base(o.network_id@, built_tx(o.intent@, v))))
        && (act matches PipelineAction::SubmitTx { wire } && wire@ == base64_of_envelope(envelope@))
}

/// Decodes both credentials into a payment intent: the sender's key from
/// the secret seed, the receiver's from its account id. Either failing to
/// decode is a fatal configuration fault, caught here before any network
/// call is made.
pub fn prepare_intent(
    secret: &str,
    receiver: &str,
    amount: i64,
    memo: Vec<u8>,
    fee: u32,
) -> (r: Result<PaymentIntent, AppError>)
    ensures
        r is Ok <==> seed_valid(secret@) && account_id_bytes(receiver@) is Some,
        (r matches Ok(i) ==> i.wf() && i@.sender == seed_public_key(secret@).unwrap() && i@.receiver
            == account_id_bytes(receiver@).unwrap() && i@.amount == amount && i@.memo == memo@
            && i@.fee == fee),
        !seed_valid(secret@) ==> (r matches Err(e) && e matches AppError::CryptoError { message }
            && message@ == "invalid secret seed"@),
        seed_valid(secret@) && account_id_bytes(receiver@) is None ==> (r matches Err(e)
            && e matches AppError::CryptoError { message } && message@
            == "invalid receiver address"@),
{
    let sender_key = match derive_public_key(secret) {
        Some(k) => k,
        None => {
            return Err(AppError::CryptoError { message: "invalid secret seed".to_owned() });
        },
    };
    let receiver_key = match decode_account_id(receiver) {
        Some(k) => k,
        None => {
            return Err(AppError::CryptoError { message: "invalid receiver address".to_owned() });
        },
    };
    Ok(
        PaymentIntent {
            sender: crate::tx::AccountId { key: sender_key },
            receiver: crate::tx::AccountId { key: receiver_key },
            amount,
            memo,
            fee,
        },
    )
}

impl Orchestrator {
    /// Assembles a run, validating the secret seed first: a seed that
    /// fails decoding is rejected here, before any network call is made.
    pub fn new(
        intent: PaymentIntent,
        secret: String,
        policy: RetryPolicy,
        network_id: Vec<u8>,
    ) -> (r: Result<Orchestrator, AppError>)
        requires
            intent.wf(),
            policy.wf(),
            network_id@.len() == 32,
        ensures
            r is Ok <==> seed_valid(secret@),
            (r matches Ok(o) ==> o.wf() && seed_valid(o.secret@) && o.intent@ == intent@
                && o.secret@ == secret@ && o.policy == policy && o.network_id@ == network_id@),
            (r matches Err(e) ==> e matches AppError::CryptoError { message } && message@
                == "invalid secret seed"@),
    {
        match derive_public_key(secret.as_str()) {
            Some(_) => Ok(Orchestrator { intent, secret, policy, network_id }),
            None => Err(AppError::CryptoError { message: "invalid secret seed".to_owned() }),
        }
    }

    /// Begins a run: fetch the account at once.
    pub fn start(&self) -> (r: (PipelineState, PipelineAction))
        ensures
            (r.0 matches PipelineState::Fetching { attempts } && attempts == 0),
            (r.1 matches PipelineAction::FetchAccount { delay_ms } && delay_ms == 0),
    {
        (PipelineState::Fetching { attempts: 0 }, PipelineAction::FetchAccount { delay_ms: 0 })
    }

    /// Advances the run on the outcome of one fetch attempt: a usable
    /// sequence moves straight through build and sign to a submission
    /// action; a rejected intent or malformed body halts the run; a
    /// transient failure within budget schedules the next fetch after the
    /// backoff delay.
    pub fn on_fetch_event(&self, attempts: u32, ev: &FetchEvent) -> (r: (
        PipelineState,
        PipelineAction,
    ))
        requires
            self.wf(),
            attempts < self.policy.max_attempts,
        ensures
            (ev matches FetchEvent::Response { status, body } ==> (is_2xx(*status)
                ==> match sequence_of_body(body@) {
                Some(v) => ((0 <= v < i64::MAX && intent_valid(self.intent@) && seed_valid(
                    self.secret@,
                ) ==> advanced_to_submit(*self, v as i64, r.0, r.1)) && (0 <= v < i64::MAX
                    && intent_valid(self.intent@) && !seed_valid(self.secret@) ==> (
                r.0 matches PipelineState::Failed { error }
                    && error matches AppError::CryptoError { message } && message@
                    == "invalid secret seed"@ && r.1 is Halt)) && (v == i64::MAX ==> (
                r.0 matches PipelineState::Failed { error }
                    && error matches AppError::ParseError { message } && message@
                    == "sequence out of range"@ && r.1 is Halt)) && (v < i64::MAX && !intent_valid(
                    self.intent@,
                ) ==> (r.0 matches PipelineState::Failed { error }
                    && error matches AppError::ConfigError { .. } && r.1 is Halt))),
                None => (r.0 matches PipelineState::Failed { error }
                    && error matches AppError::ParseError { message } && message@
                    == "missing or invalid sequence in account response"@ && r.1 is Halt),
            })),
            is_transient_event(*ev) && attempts + 1 < self.policy.max_attempts ==> ((
            r.0 matches PipelineState::Fetching { attempts: a } && a == attempts + 1) && (
            r.1 matches PipelineAction::FetchAccount { delay_ms } && delay_ms as int
                == backoff_delay(self.policy, attempts as nat))),
            (ev matches FetchEvent::Response { status, body } ==> (is_5xx(*status) && attempts + 1
                >= self.policy.max_attempts ==> (r.0 matches PipelineState::Failed { error }
                && error matches AppError::FatalHttpError { status: st, body: b } && st == *status
                && b@ == body@ && r.1 is Halt))),
            (ev matches FetchEvent::TransportFailed && attempts + 1 >= self.policy.max_attempts
                ==> (r.0 matches PipelineState::Failed { error }
                && error matches AppError::FatalHttpError { status: st, body: b } && st == 0 && b@
                == "transport failure"@ && r.1 is Halt)),
            (ev matches FetchEvent::Response { status, body } ==> (!is_2xx(*status) && !is_5xx(
                *status,
            ) ==> (r.0 matches PipelineState::Failed { error }
                && error matches AppError::FatalHttpError { status: st, body: b } && st == *status
                && b@ == body@ && r.1 is Halt))),
    {
        let (made, step) = fetch_step(&self.policy, attempts, ev);
        match step {
            FetchStep::Done { sequence } => {
                if sequence == i64::MAX {
                    return (
                        PipelineState::Failed {
                            error: AppError::ParseError {
                                message: "sequence out of range".to_owned(),
                            },
                        },
                        PipelineAction::Halt,
                    );
                }
                // Replay prevention keys off the number alone; the
                // printable account id is not needed past the fetch.
                let acct = AccountSequence { account_id: String::new(), sequence };
                match build(&self.intent, &acct) {
                    Ok(tx) => {
                        match sign_transaction(tx, self.secret.as_str(), &self.network_id) {
                            Ok(envelope) => {
                                let wire = crate::envelope::envelope_wire(&envelope);
                                (
                                    PipelineState::Submitting { envelope },
                                    PipelineAction::SubmitTx { wire },
                                )
                            },
                            Err(e) => (PipelineState::Failed { error: e }, PipelineAction::Halt),
                        }
                    },
                    Err(e) => (PipelineState::Failed { error: e }, PipelineAction::Halt),
                }
            },
            FetchStep::RetryAfter { delay_ms, error: _ } => (
                PipelineState::Fetching { attempts: made },
                PipelineAction::FetchAccount { delay_ms },
            ),
            FetchStep::Failed { error } => (PipelineState::Failed { error }, PipelineAction::Halt),
        }
    }

    /// Settles the run on a submission outcome: success carries the
    /// gateway's hash; a structured rejection fails the run with its
    /// actionable message; a transport failure fails the run without a
    /// verdict -- the envelope is never resent.
    pub fn on_submit_outcome(&self, outcome: SubmissionOutcome) -> (r: (
        PipelineState,
        PipelineAction,
    ))
        ensures
            r.1 is Halt,
            (outcome matches SubmissionOutcome::Success { hash } ==> (
            r.0 matches PipelineState::Succeeded { hash: h } && h@ == hash@)),
            (outcome matches SubmissionOutcome::Rejected { code, message } ==> (
            r.0 matches PipelineState::Failed { error }
                && error matches AppError::LedgerRejection { code: c, message: m } && c@ == code@
                && m@ == message@)),
            (outcome matches SubmissionOutcome::TransportError { .. } ==> (
            r.0 matches PipelineState::Failed { error }
                && error matches AppError::FatalHttpError { status, body } && status == 0 && body@
                == "submission transport failure"@)),
    {
        match outcome {
            SubmissionOutcome::Success { hash } => (
                PipelineState::Succeeded { hash },
                PipelineAction::Halt,
            ),
            SubmissionOutcome::Rejected { code, message } => (
                PipelineState::Failed { error: AppError::LedgerRejection { code, message } },
                PipelineAction::Halt,
            ),
            SubmissionOutcome::TransportError { .. } => (
                PipelineState::Failed {
                    error: AppError::FatalHttpError {
                        status: 0,
                        body: "submission transport failure".to_owned(),
                    },
                },
                PipelineAction::Halt,
            ),
        }
    }

    /// Settles the run on the gateway's HTTP response to the submission.
    pub fn on_submit_response(&self, status: u16, body: &str) -> (r: (
        PipelineState,
        PipelineAction,
    ))
        ensures
            r.1 is Halt,
            is_2xx(status) ==> match json_string_at(body@, "hash"@) {
                Some(h) => (r.0 matches PipelineState::Succeeded { hash } && hash@ == h),
                None => (r.0 matches PipelineState::Failed { error }
                    && error matches AppError::ParseError { message } && message@
                    == "missing hash in submission response"@),
            },
            !is_2xx(status) ==> match json_string_at_path(
                body@,
                "extras"@,
                "result_codes"@,
                "transaction"@,
            ) {
                Some(c) => (r.0 matches PipelineState::Failed { error }
                    && error matches AppError::LedgerRejection { code, message } && code@ == c
                    && message@ == rejection_message(c)),
                None => (r.0 matches PipelineState::Failed { error }
                    && error matches AppError::UnclassifiedRejection { status: st, body: b } && st
                    == status && b@ == body@),
            },
    {
        match classify_submit_response(status, body) {
            Ok(outcome) => self.on_submit_outcome(outcome),
            Err(e) => (PipelineState::Failed { error: e }, PipelineAction::Halt),
        }
    }
}

} // verus!
