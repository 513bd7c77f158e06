use stellar_remit::errors::AppError;
use stellar_remit::submit::{classify_submit_response, SubmissionOutcome, TransportKind};

#[test]
fn tx_bad_seq_maps_to_the_stale_sequence_message() {
    let body = "{\"extras\":{\"result_codes\":{\"transaction\":\"tx_bad_seq\"}}}";
    match classify_submit_response(400, body) {
        Ok(SubmissionOutcome::Rejected { code, message }) => {
            assert_eq!(code, "tx_bad_seq");
            assert_eq!(message, "stale sequence: re-fetch the sequence and re-run the whole pipeline");
        }
        _ => panic!("a structured tx_bad_seq must classify as a rejection"),
    }
}

#[test]
fn insufficient_balance_maps_to_the_funding_message() {
    let body = "{\"extras\":{\"result_codes\":{\"transaction\":\"tx_insufficient_balance\"}}}";
    match classify_submit_response(400, body) {
        Ok(SubmissionOutcome::Rejected { code, message }) => {
            assert_eq!(code, "tx_insufficient_balance");
            assert_eq!(message, "insufficient balance: fund the source account");
        }
        _ => panic!("a structured tx_insufficient_balance must classify as a rejection"),
    }
}

#[test]
fn unknown_codes_surface_verbatim() {
    let body = "{\"extras\":{\"result_codes\":{\"transaction\":\"tx_strange\"}}}";
    match classify_submit_response(400, body) {
        Ok(SubmissionOutcome::Rejected { code, message }) => {
            assert_eq!(code, "tx_strange");
            assert_eq!(message, "tx_strange");
        }
        _ => panic!("an unknown code must still classify as a rejection"),
    }
}

#[test]
fn non_2xx_without_a_code_is_unclassified_with_status_and_body() {
    let body = "{\"title\":\"gone\"}";
    match classify_submit_response(410, body) {
        Err(AppError::UnclassifiedRejection { status, body: b }) => {
            assert_eq!(status, 410);
            assert_eq!(b, body);
        }
        _ => panic!("a codeless non-2xx must surface the raw status and body"),
    }
}

#[test]
fn a_2xx_with_a_hash_succeeds() {
    let body = "{\"hash\":\"abcdef0123\"}";
    match classify_submit_response(200, body) {
        Ok(SubmissionOutcome::Success { hash }) => assert_eq!(hash, "abcdef0123"),
        _ => panic!("a 2xx with a hash must succeed"),
    }
}

#[test]
fn a_2xx_without_a_hash_is_a_fatal_parse_error() {
    for body in ["{}", "not json", "{\"hash\":7}"] {
        match classify_submit_response(200, body) {
            Err(AppError::ParseError { message }) => {
                assert_eq!(message, "missing hash in submission response");
            }
            _ => panic!("a 2xx without a hash must be a parse error"),
        }
    }
}

#[test]
fn transport_kinds_compare() {
    assert_eq!(TransportKind::Timeout, TransportKind::Timeout);
    assert_ne!(TransportKind::Timeout, TransportKind::Connection);
}
