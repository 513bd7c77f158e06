//! The sequence fetcher: decimal sequence parsing, the retry policy with
//! bounded exponential backoff, and the per-attempt decision logic.
//!
//! The fetcher's network calls are the caller's; each response (or
//! transport failure) is fed into `fetch_step`, which decides whether the
//! fetch is done, should be retried after a delay, or has failed.

use vstd::prelude::*;
use vstd::arithmetic::power::{lemma_pow_increases, pow};
use vstd::arithmetic::mul::lemma_mul_inequality;
use vstd::string::*;
use crate::errors::AppError;
use crate::json::{json_string_at, json_top_string};
use crate::submit::{is_2xx, is_5xx};

verus! {

/// A decimal digit.
pub open spec fn is_digit(c: char) -> bool {
    48 <= c as int <= 57
}

/// The numeric value of a decimal digit.
pub open spec fn digit_val(c: char) -> int {
    c as int - 48
}

/// Every character is a decimal digit.
pub open spec fn all_digits(s: Seq<char>) -> bool {
    forall|i: int| 0 <= i < s.len() ==> is_digit(#[trigger] s[i])
}

/// The value of a decimal digit string.
pub open spec fn dec_value(s: Seq<char>) -> int
    decreases s.len(),
{
    if s.len() == 0 {
        0
    } else {
        dec_value(s.drop_last()) * 10 + digit_val(s.last())
    }
}

/// What the gateway must hand back in the `sequence` field: at least one
/// character, all digits, and a value no bigger than a signed 64-bit
/// integer holds.
pub open spec fn valid_sequence_str(s: Seq<char>) -> bool {
    s.len() >= 1 && all_digits(s) && dec_value(s) <= i64::MAX
}

/// A digit string's value is never negative.
pub proof fn lemma_dec_value_nonneg(s: Seq<char>)
    requires
        all_digits(s),
    ensures
        dec_value(s) >= 0,
    decreases s.len(),
{
    if s.len() > 0 {
        lemma_dec_value_nonneg(s.drop_last());
    }
}

/// A digit string's value is at least the value of any of its prefixes.
pub proof fn lemma_dec_value_prefix(s: Seq<char>, j: int)
    requires
        all_digits(s),
        0 <= j <= s.len(),
    ensures
        dec_value(s) >= dec_value(s.take(j)),
    decreases s.len() - j,
{
    if j == s.len() {
        assert(s.take(j) =~= s);
    } else {
        assert(s.take(j + 1).drop_last() =~= s.take(j));
        assert(s.take(j + 1).last() == s[j]);
        assert(all_digits(s.take(j))) by {
            assert(forall|k: int| 0 <= k < j ==> s.take(j)[k] == s[k]);
        }
        lemma_dec_value_nonneg(s.take(j));
        assert(dec_value(s.take(j + 1)) == dec_value(s.take(j)) * 10 + digit_val(s[j]));
        lemma_dec_value_prefix(s, j + 1);
    }
}

/// Parses a string-encoded non-negative sequence number exactly: digits
/// only, value within a signed 64-bit integer.
#[verifier::loop_isolation(false)]
pub fn parse_sequence(s: &str) -> (r: Option<i64>)
    ensures
        r is Some <==> valid_sequence_str(s@),
        (r matches Some(v) ==> v == dec_value(s@) && v >= 0),
{
    let n = s.unicode_len();
    if n == 0 {
        return None;
    }
    let mut acc: i64 = 0;
    let mut i: usize = 0;
    while i < n
        invariant
            0 < n == s@.len(),
            i <= n,
            all_digits(s@.take(i as int)),
            acc == dec_value(s@.take(i as int)),
            0 <= acc,
        decreases n - i,
    {
        let c = s.get_char(i);
        let d = c as u32;
        if d < 48 || d > 57 {
            assert(!is_digit(s@[i as int]));
            return None;
        }
        let dv = (d - 48) as i64;
        proof {
            assert(s@.take(i as int + 1).drop_last() =~= s@.take(i as int));
            assert(s@.take(i as int + 1).last() == s@[i as int]);
        }
        if acc > (i64::MAX - dv) / 10 {
            proof {
                assert(acc * 10 + dv > i64::MAX);
                if all_digits(s@) {
                    lemma_dec_value_nonneg(s@.take(i as int + 1));
                    lemma_dec_value_prefix(s@, i as int + 1);
                }
            }
            return None;
        }
        acc = acc * 10 + dv;
        i = i + 1;
    }
    proof {
        assert(s@.take(n as int) =~= s@);
    }
    Some(acc)
}

/// The canonical retry policy value object: base delay, multiplier, cap
/// per attempt, and the attempt budget.
#[derive(Debug)]
pub struct RetryPolicy {
    pub base_ms: u64,
    pub factor: u64,
    pub cap_ms: u64,
    pub max_attempts: u32,
}

impl RetryPolicy {
    /// A multiplier of at least one (backoff never shrinks) and at least
    /// one attempt.
    pub open spec fn wf(&self) -> bool {
        self.factor >= 1 && self.max_attempts >= 1
    }
}

/// The delay before the retry after failure number `i` (counting from
/// zero): the base delay grown `i` times by the multiplier, capped.
pub open spec fn backoff_delay(p: RetryPolicy, i: nat) -> int {
    let raw = p.base_ms * pow(p.factor as int, i);
    if raw <= p.cap_ms as int {
        raw
    } else {
        p.cap_ms as int
    }
}

/// The fetch policy the system runs with: 300 ms base delay, doubling,
/// capped at 2000 ms per attempt, at most 3 attempts in all.
pub fn standard_policy() -> (r: RetryPolicy)
    ensures
        r.base_ms == 300,
        r.factor == 2,
        r.cap_ms == 2000,
        r.max_attempts == 3,
        r.wf(),
{
    RetryPolicy { base_ms: 300, factor: 2, cap_ms: 2000, max_attempts: 3 }
}

impl RetryPolicy {
    /// Computes the backoff delay for retry number `retry_index`.
    #[verifier::loop_isolation(false)]
    pub fn delay_ms(&self, retry_index: u32) -> (r: u64)
        requires
            self.wf(),
        ensures
            r as int == backoff_delay(*self, retry_index as nat),
    {
        let mut d: u64 = self.base_ms;
        let mut k: u32 = 0;
        proof {
            vstd::arithmetic::power::lemma_pow0(self.factor as int);
            lemma_pow_increases(self.factor as nat, 0, retry_index as nat);
            lemma_mul_inequality(
                pow(self.factor as int, 0),
                pow(self.factor as int, retry_index as nat),
                self.base_ms as int,
            );
            vstd::arithmetic::mul::lemma_mul_is_commutative(
                self.base_ms as int,
                pow(self.factor as int, retry_index as nat),
            );
        }
        while k < retry_index
            invariant
                k <= retry_index,
                d as int == self.base_ms * pow(self.factor as int, k as nat),
                d <= self.cap_ms || d as int <= self.base_ms * pow(
                    self.factor as int,
                    retry_index as nat,
                ),
            decreases retry_index - k,
        {
            proof {
                lemma_pow_increases(self.factor as nat, (k + 1) as nat, retry_index as nat);
                lemma_mul_inequality(
                    pow(self.factor as int, (k + 1) as nat),
                    pow(self.factor as int, retry_index as nat),
                    self.base_ms as int,
                );
                assert(self.base_ms * pow(self.factor as int, (k + 1) as nat) == (d as int)
                    * (self.factor as int)) by {
                    vstd::arithmetic::mul::lemma_mul_is_associative(
                        self.base_ms as int,
                        pow(self.factor as int, k as nat),
                        self.factor as int,
                    );
                    assert(pow(self.factor as int, (k + 1) as nat) == pow(
                        self.factor as int,
                        k as nat,
                    ) * (self.factor as int)) by {
                        vstd::arithmetic::power::lemma_pow1(self.factor as int);
                        vstd::arithmetic::power::lemma_pow_adds(self.factor as int, k as nat, 1);
                    }
                }
            }
            match d.checked_mul(self.factor) {
                Some(x) => {
                    if x > self.cap_ms {
                        return self.cap_ms;
                    }
                    d = x;
                },
                None => {
                    return self.cap_ms;
                },
            }
            k = k + 1;
        }
        if d > self.cap_ms {
            self.cap_ms
        } else {
            d
        }
    }
}

/// The decision after one fetch attempt.
#[derive(Debug)]
pub enum FetchStep {
    /// The gateway answered with a usable sequence number.
    Done { sequence: i64 },
    /// A transient failure with attempt budget left: retry after the
    /// backoff delay. The transient error itself rides along.
    RetryAfter { delay_ms: u64, error: AppError },
    /// A terminal failure: a parse error, a client error, or retry
    /// exhaustion.
    Failed { error: AppError },
}

/// What one fetch attempt came back with.
#[derive(Debug)]
pub enum FetchEvent {
    /// The gateway answered with this status and body.
    Response { status: u16, body: String },
    /// The request never reached the gateway or the reply never arrived.
    TransportFailed,
}

/// An event the policy treats as transient: a 5xx answer or a transport
/// failure.
pub open spec fn is_transient_event(ev: FetchEvent) -> bool {
    match ev {
        FetchEvent::Response { status, .. } => is_5xx(status),
        FetchEvent::TransportFailed => true,
    }
}

/// The sequence number carried by a 2xx account body, when the `sequence`
/// field is present, all digits, and in range.
pub open spec fn sequence_of_body(body: Seq<char>) -> Option<int> {
    match json_string_at(body, "sequence"@) {
        Some(s) => if valid_sequence_str(s) {
            Some(dec_value(s))
        } else {
            None
        },
        None => None,
    }
}

/// Decides what to do after one fetch attempt: a 2xx answer must parse
/// (malformed bodies are fatal, never retried); a 5xx answer or a
/// transport failure is retried with backoff until the attempt budget is
/// spent, then surfaces as a fatal failure; any other answer is fatal at
/// once. Returns the new number of attempts made and the decision.
pub fn fetch_step(policy: &RetryPolicy, attempts_made: u32, ev: &FetchEvent) -> (r: (u32, FetchStep))
    requires
        policy.wf(),
        attempts_made < policy.max_attempts,
    ensures
        r.0 == attempts_made + 1,
        is_transient_event(*ev) && attempts_made + 1 < policy.max_attempts ==> (
        r.1 matches FetchStep::RetryAfter { delay_ms, error } && (delay_ms as int == backoff_delay(
            *policy,
            attempts_made as nat,
        )) && (error matches AppError::TransientNetworkError { status: st } && st == (
        match *ev {
            FetchEvent::Response { status, .. } => status,
            FetchEvent::TransportFailed => 0u16,
        }))),
        (ev matches FetchEvent::Response { status, body } ==> ((is_2xx(*status)
            ==> match sequence_of_body(body@) {
            Some(v) => (r.1 matches FetchStep::Done { sequence } && sequence == v && v >= 0),
            None => (r.1 matches FetchStep::Failed { error } && error matches AppError::ParseError {
                message,
            } && message@ == "missing or invalid sequence in account response"@),
        }) && (is_5xx(*status) && attempts_made + 1 >= policy.max_attempts ==> (
        r.1 matches FetchStep::Failed { error } && error matches AppError::FatalHttpError {
            status: st,
            body: b,
        } && st == *status && b@ == body@)) && (!is_2xx(*status) && !is_5xx(*status) ==> (
        r.1 matches FetchStep::Failed { error } && error matches AppError::FatalHttpError {
            status: st,
            body: b,
        } && st == *status && b@ == body@)))),
        (ev matches FetchEvent::TransportFailed && attempts_made + 1 >= policy.max_attempts ==> (
        r.1 matches FetchStep::Failed { error } && error matches AppError::FatalHttpError {
            status: st,
            body: b,
        } && st == 0 && b@ == "transport failure"@)),
{
    let made = attempts_made + 1;
    match ev {
        FetchEvent::Response { status, body } => {
            let st = *status;
            if 200 <= st && st < 300 {
                match json_top_string(body.as_str(), "sequence") {
                    Some(seq_str) => match parse_sequence(seq_str.as_str()) {
                        Some(v) => (made, FetchStep::Done { sequence: v }),
                        None => (
                            made,
                            FetchStep::Failed {
                                error: AppError::ParseError {
                                    message: "missing or invalid sequence in account response".to_owned(),
                                },
                            },
                        ),
                    },
                    None => (
                        made,
                        FetchStep::Failed {
                            error: AppError::ParseError {
                                message: "missing or invalid sequence in account response".to_owned(),
                            },
                        },
                    ),
                }
            } else if 500 <= st && st < 600 {
                if made < policy.max_attempts {
                    (
                        made,
                        FetchStep::RetryAfter {
                            delay_ms: policy.delay_ms(attempts_made),
                            error: AppError::TransientNetworkError { status: st },
                        },
                    )
                } else {
                    (
                        made,
                        FetchStep::Failed {
                            error: AppError::FatalHttpError { status: st, body: body.clone() },
                        },
                    )
                }
            } else {
                (
                    made,
                    FetchStep::Failed {
                        error: AppError::FatalHttpError { status: st, body: body.clone() },
                    },
                )
            }
        },
        FetchEvent::TransportFailed => {
            if made < policy.max_attempts {
                (
                    made,
                    FetchStep::RetryAfter {
                        delay_ms: policy.delay_ms(attempts_made),
                        error: AppError::TransientNetworkError { status: 0 },
                    },
                )
            } else {
                (
                    made,
                    FetchStep::Failed {
                        error: AppError::FatalHttpError {
                            status: 0,
                            body: "transport failure".to_owned(),
                        },
                    },
                )
            }
        },
    }
}

} // verus!
