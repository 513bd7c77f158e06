use stellar_remit::config::AppConfig;
use stellar_remit::envelope::decode_envelope;
use stellar_remit::errors::AppError;
use stellar_remit::keys::testnet_network_id;
use stellar_remit::pipeline::{prepare_intent, Orchestrator, PipelineAction, PipelineState};
use stellar_remit::sequence::{standard_policy, FetchEvent};
use stellar_remit::submit::{SubmissionOutcome, TransportKind};
use stellar_remit::tx::{PaymentIntent, MIN_BASE_FEE};

const SEED: &str = "SCRG6SFG64YDEVGWDWTZBE6BWEW25WICOGOUTODVICCA3L3FOQIG26E6";
const RECEIVER: &str = "GB5YW3UGJQ635LBGCXJVU3D2TXJIQRX7LRRWFMD2PKZLQ3G2OIZY4ZWO";

fn test_intent(amount: i64) -> PaymentIntent {
    prepare_intent(SEED, RECEIVER, amount, b"Remittance".to_vec(), MIN_BASE_FEE)
        .expect("both keys decode")
}

fn orchestrator(amount: i64) -> Orchestrator {
    Orchestrator::new(test_intent(amount), SEED.to_string(), standard_policy(),
        testnet_network_id())
        .expect("valid seed")
}

#[test]
fn a_bad_seed_never_reaches_a_network_action() {
    // Crypto validation happens at construction, before the first fetch
    // action can even be produced.
    let r = Orchestrator::new(test_intent(1), "SNOTASEED".to_string(), standard_policy(),
        testnet_network_id());
    match r {
        Err(AppError::CryptoError { message }) => assert_eq!(message, "invalid secret seed"),
        _ => panic!("a bad seed must fail before any network call"),
    }
}

#[test]
fn a_run_starts_with_an_immediate_fetch() {
    let o = orchestrator(1);
    let (state, action) = o.start();
    assert!(matches!(state, PipelineState::Fetching { attempts: 0 }));
    assert!(matches!(action, PipelineAction::FetchAccount { delay_ms: 0 }));
}

#[test]
fn a_good_fetch_moves_straight_to_submission() {
    let o = orchestrator(1_000_000);
    let ev = FetchEvent::Response {
        status: 200,
        body: "{\"sequence\":\"100\"}".to_string(),
    };
    let (state, action) = o.on_fetch_event(0, &ev);
    let envelope = match state {
        PipelineState::Submitting { envelope } => envelope,
        _ => panic!("a parsed 2xx must move to submission"),
    };
    assert_eq!(envelope.tx.sequence, 101);
    assert_eq!(envelope.tx.amount, 1_000_000);
    let wire = match action {
        PipelineAction::SubmitTx { wire } => wire,
        _ => panic!("the next action must be the submission"),
    };
    // The wire text is base64; it must be ASCII and non-empty.
    assert!(!wire.is_empty());
    assert!(wire.iter().all(|b| b.is_ascii()));
}

#[test]
fn the_submitted_wire_decodes_back_to_the_built_payment() {
    let o = orchestrator(42);
    let ev = FetchEvent::Response {
        status: 200,
        body: "{\"sequence\":\"7\"}".to_string(),
    };
    let (state, _) = o.on_fetch_event(0, &ev);
    let envelope = match state {
        PipelineState::Submitting { envelope } => envelope,
        _ => panic!("expected submission"),
    };
    let bytes = stellar_remit::envelope::encode_envelope(&envelope);
    let decoded = decode_envelope(&bytes).unwrap();
    assert_eq!(decoded.tx.sequence, 8);
    assert_eq!(decoded.tx.amount, 42);
    let receiver_key = stellar_base::crypto::PublicKey::from_account_id(RECEIVER)
        .unwrap()
        .as_bytes()
        .to_vec();
    assert_eq!(decoded.tx.destination.key, receiver_key);
}

#[test]
fn an_invalid_amount_halts_before_any_submission() {
    let o = orchestrator(0);
    let ev = FetchEvent::Response {
        status: 200,
        body: "{\"sequence\":\"100\"}".to_string(),
    };
    let (state, action) = o.on_fetch_event(0, &ev);
    match state {
        PipelineState::Failed { error: AppError::ConfigError { message } } => {
            assert_eq!(message, "invalid amount: must be positive");
        }
        _ => panic!("amount 0 must fail the run"),
    }
    assert!(matches!(action, PipelineAction::Halt));
}

#[test]
fn a_transient_fetch_schedules_a_retry() {
    let o = orchestrator(1);
    let ev = FetchEvent::Response { status: 503, body: String::new() };
    let (state, action) = o.on_fetch_event(0, &ev);
    assert!(matches!(state, PipelineState::Fetching { attempts: 1 }));
    assert!(matches!(action, PipelineAction::FetchAccount { delay_ms: 300 }));
}

#[test]
fn submission_success_carries_the_hash() {
    let o = orchestrator(1);
    let (state, action) = o.on_submit_response(200, "{\"hash\":\"feedface\"}");
    match state {
        PipelineState::Succeeded { hash } => assert_eq!(hash, "feedface"),
        _ => panic!("a 2xx with a hash must succeed"),
    }
    assert!(matches!(action, PipelineAction::Halt));
}

#[test]
fn submission_rejection_fails_the_run_with_the_actionable_message() {
    let o = orchestrator(1);
    let body = "{\"extras\":{\"result_codes\":{\"transaction\":\"tx_bad_seq\"}}}";
    let (state, _) = o.on_submit_response(400, body);
    match state {
        PipelineState::Failed { error: AppError::LedgerRejection { code, message } } => {
            assert_eq!(code, "tx_bad_seq");
            assert_eq!(message, "stale sequence: re-fetch the sequence and re-run the whole pipeline");
        }
        _ => panic!("tx_bad_seq must fail the run as a ledger rejection"),
    }
}

#[test]
fn submission_transport_failure_halts_without_a_resend() {
    let o = orchestrator(1);
    let (state, action) =
        o.on_submit_outcome(SubmissionOutcome::TransportError { kind: TransportKind::Timeout });
    match state {
        PipelineState::Failed { error: AppError::FatalHttpError { status, body } } => {
            assert_eq!(status, 0);
            assert_eq!(body, "submission transport failure");
        }
        _ => panic!("a transport failure must fail the run"),
    }
    assert!(matches!(action, PipelineAction::Halt));
}

#[test]
fn config_holds_its_plain_fields() {
    let cfg = AppConfig {
        horizon_url: "https://horizon-testnet.stellar.org".to_string(),
        sender_secret: SEED.to_string(),
        receiver_address: RECEIVER.to_string(),
    };
    assert!(cfg.horizon_url.contains("https://"));
    assert!(cfg.sender_secret.starts_with('S'));
    assert!(cfg.receiver_address.starts_with('G'));
}
