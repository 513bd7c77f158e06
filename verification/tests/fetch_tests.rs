use stellar_remit::sequence::{fetch_step, parse_sequence, standard_policy, FetchEvent, FetchStep};
use stellar_remit::errors::AppError;
use stellar_remit::tx::{build, AccountId, AccountSequence, PaymentIntent, MIN_BASE_FEE};

fn ok_body(seq: &str) -> String {
    let mut b = String::from("{\"sequence\":\"");
    b.push_str(seq);
    b.push_str("\"}");
    b
}

#[test]
fn parse_sequence_exact_values() {
    assert_eq!(parse_sequence("0"), Some(0));
    assert_eq!(parse_sequence("100"), Some(100));
    assert_eq!(parse_sequence("000123"), Some(123));
    assert_eq!(parse_sequence("9223372036854775807"), Some(i64::MAX));
}

#[test]
fn parse_sequence_rejects_malformed_and_overflow() {
    assert_eq!(parse_sequence(""), None);
    assert_eq!(parse_sequence("12a"), None);
    assert_eq!(parse_sequence("+5"), None);
    assert_eq!(parse_sequence("-5"), None);
    assert_eq!(parse_sequence(" 5"), None);
    assert_eq!(parse_sequence("9223372036854775808"), None);
    assert_eq!(parse_sequence("99999999999999999999999"), None);
}

#[test]
fn backoff_delays_are_300_600_1200_capped_at_2000() {
    let p = standard_policy();
    assert_eq!(p.delay_ms(0), 300);
    assert_eq!(p.delay_ms(1), 600);
    assert_eq!(p.delay_ms(2), 1200);
    assert_eq!(p.delay_ms(3), 2000);
    assert_eq!(p.delay_ms(10), 2000);
}

#[test]
fn two_503s_then_200_take_exactly_three_attempts_and_sequence_101() {
    let policy = standard_policy();
    let e503 = FetchEvent::Response { status: 503, body: String::from("oops") };

    let (attempts, step) = fetch_step(&policy, 0, &e503);
    assert_eq!(attempts, 1);
    match step {
        FetchStep::RetryAfter { delay_ms, .. } => assert_eq!(delay_ms, 300),
        _ => panic!("first 503 should schedule a retry"),
    }

    let (attempts, step) = fetch_step(&policy, attempts, &e503);
    assert_eq!(attempts, 2);
    match step {
        FetchStep::RetryAfter { delay_ms, .. } => assert_eq!(delay_ms, 600),
        _ => panic!("second 503 should schedule a retry"),
    }

    let e200 = FetchEvent::Response { status: 200, body: ok_body("100") };
    let (attempts, step) = fetch_step(&policy, attempts, &e200);
    assert_eq!(attempts, 3);
    let sequence = match step {
        FetchStep::Done { sequence } => sequence,
        _ => panic!("the 200 should finish the fetch"),
    };
    assert_eq!(sequence, 100);

    let intent = PaymentIntent {
        sender: AccountId { key: vec![1; 32] },
        receiver: AccountId { key: vec![2; 32] },
        amount: 1,
        memo: Vec::new(),
        fee: MIN_BASE_FEE,
    };
    let fetched = AccountSequence { account_id: String::new(), sequence };
    let tx = build(&intent, &fetched).unwrap();
    assert_eq!(tx.sequence, 101);
}

#[test]
fn retry_exhaustion_surfaces_the_last_transient_as_fatal() {
    let policy = standard_policy();
    let e503 = FetchEvent::Response { status: 503, body: String::from("down") };
    let (a, _) = fetch_step(&policy, 0, &e503);
    let (a, _) = fetch_step(&policy, a, &e503);
    let (a, step) = fetch_step(&policy, a, &e503);
    assert_eq!(a, 3);
    match step {
        FetchStep::Failed { error: AppError::FatalHttpError { status, body } } => {
            assert_eq!(status, 503);
            assert_eq!(body, "down");
        }
        _ => panic!("the third 503 should be fatal"),
    }
}

#[test]
fn a_4xx_is_fatal_at_once() {
    let policy = standard_policy();
    let e404 = FetchEvent::Response { status: 404, body: String::from("no such account") };
    let (a, step) = fetch_step(&policy, 0, &e404);
    assert_eq!(a, 1);
    match step {
        FetchStep::Failed { error: AppError::FatalHttpError { status, body } } => {
            assert_eq!(status, 404);
            assert_eq!(body, "no such account");
        }
        _ => panic!("a 4xx must not be retried"),
    }
}

#[test]
fn malformed_2xx_bodies_are_fatal_parse_errors_never_retried() {
    let policy = standard_policy();
    for body in ["not json", "{}", "{\"sequence\":12}", "{\"sequence\":\"abc\"}",
        "{\"sequence\":\"-1\"}"] {
        let ev = FetchEvent::Response { status: 200, body: body.to_string() };
        let (_, step) = fetch_step(&policy, 0, &ev);
        match step {
            FetchStep::Failed { error: AppError::ParseError { message } } => {
                assert_eq!(message, "missing or invalid sequence in account response");
            }
            _ => panic!("a malformed 2xx body must fail the fetch"),
        }
    }
}

#[test]
fn transport_failures_are_retried_then_fatal() {
    let policy = standard_policy();
    let (a, step) = fetch_step(&policy, 0, &FetchEvent::TransportFailed);
    assert_eq!(a, 1);
    assert!(matches!(step, FetchStep::RetryAfter { delay_ms: 300, .. }));
    let (a, _) = fetch_step(&policy, a, &FetchEvent::TransportFailed);
    let (_, step) = fetch_step(&policy, a, &FetchEvent::TransportFailed);
    match step {
        FetchStep::Failed { error: AppError::FatalHttpError { status, body } } => {
            assert_eq!(status, 0);
            assert_eq!(body, "transport failure");
        }
        _ => panic!("the third transport failure should be fatal"),
    }
}
