//! The transport rules: building endpoint URLs, categorizing responses,
//! and the bounded retry loop for transient failures.
//!
//! The network shell performs one HTTP attempt at a time and asks
//! `retry_step` what to do with its outcome; `run_retry_schedule` is the
//! same loop run against a fixed sequence of outcomes, which is how the
//! retry bound is stated and exercised.

use vstd::prelude::*;

use crate::config::{policy_ok, RetryPolicy};
use crate::error::{spec_status_message, Error};

verus! {

// ---------------------------------------------------------------------------
// URLs
// ---------------------------------------------------------------------------

/// `s` without its trailing slashes.
pub open spec fn trim_end_slashes(s: Seq<char>) -> Seq<char>
    decreases s.len(),
{
    if s.len() > 0 && s[s.len() - 1] == '/' {
        trim_end_slashes(s.drop_last())
    } else {
        s
    }
}

/// `s` without its leading slashes.
pub open spec fn trim_start_slashes(s: Seq<char>) -> Seq<char>
    decreases s.len(),
{
    if s.len() > 0 && s[0] == '/' {
        trim_start_slashes(s.skip(1))
    } else {
        s
    }
}

/// The URL of an endpoint under a base: one slash between them, whatever
/// either side carried.
pub open spec fn spec_build_url(base: Seq<char>, endpoint: Seq<char>) -> Seq<char> {
    trim_end_slashes(base) + seq!['/'] + trim_start_slashes(endpoint)
}

/// Build a full URL for an endpoint.
pub fn build_url(base_url: &str, endpoint: &str) -> (r: String)
    ensures
        r@ == spec_build_url(base_url@, endpoint@),
{
    let base_len = base_url.unicode_len();
    let mut end: usize = base_len;
    proof {
        assert(base_url@.subrange(0, base_len as int) =~= base_url@);
    }
    while end > 0 && base_url.get_char(end - 1) == '/'
        invariant
            end <= base_len,
            base_len == base_url@.len(),
            trim_end_slashes(base_url@) == trim_end_slashes(base_url@.subrange(0, end as int)),
        decreases end,
    {
        proof {
            assert(base_url@.subrange(0, end as int).drop_last() =~= base_url@.subrange(
                0,
                end - 1,
            ));
        }
        end = end - 1;
    }
    proof {
        if end > 0 {
            assert(trim_end_slashes(base_url@.subrange(0, end as int)) =~= base_url@.subrange(
                0,
                end as int,
            ));
        } else {
            assert(base_url@.subrange(0, 0) =~= Seq::<char>::empty());
        }
    }
    let ep_len = endpoint.unicode_len();
    let mut start: usize = 0;
    proof {
        assert(endpoint@.subrange(0, ep_len as int) =~= endpoint@);
    }
    while start < ep_len && endpoint.get_char(start) == '/'
        invariant
            start <= ep_len,
            ep_len == endpoint@.len(),
            trim_start_slashes(endpoint@) == trim_start_slashes(
                endpoint@.subrange(start as int, ep_len as int),
            ),
        decreases ep_len - start,
    {
        proof {
            assert(endpoint@.subrange(start as int, ep_len as int).skip(1) =~= endpoint@.subrange(
                start + 1,
                ep_len as int,
            ));
        }
        start = start + 1;
    }
    proof {
        assert(trim_start_slashes(endpoint@.subrange(start as int, ep_len as int))
            =~= endpoint@.subrange(start as int, ep_len as int));
    }
    let mut out = String::from_str(base_url.substring_char(0, end));
    out.append("/");
    out.append(endpoint.substring_char(start, ep_len));
    proof {
        reveal_strlit("/");
        assert(out@ =~= spec_build_url(base_url@, endpoint@));
    }
    out
}

// ---------------------------------------------------------------------------
// Response categorization
// ---------------------------------------------------------------------------

/// The `error` field of a JSON error body, when the body parses as a JSON
/// object carrying a string there; a function of the body text alone.
pub uninterp spec fn error_field_of(body: Seq<char>) -> Option<Seq<char>>;

/// Relies on `serde_json::from_str` and `Value::get`: the best-effort parse
/// of an error body, and the string under its `error` key, depend on the
/// body text alone.
#[verifier::external_body]
fn json_error_field(body: &str) -> (r: Option<String>)
    ensures
        (r is Some) == (error_field_of(body@) is Some),
        r matches Some(t) ==> (error_field_of(body@) matches Some(u) && t@ == u),
{
    match serde_json::from_str::<serde_json::Value>(body) {
        Ok(v) => v.get("error").and_then(|e| e.as_str()).map(|s| s.to_string()),
        Err(_) => None,
    }
}

/// The message that categorization uses: the `error` field of the body when
/// it parses, the raw body text otherwise.
pub open spec fn spec_error_message_of(body: Seq<char>) -> Seq<char> {
    match error_field_of(body) {
        Some(m) => m,
        None => body,
    }
}

/// Handle one terminal response: a success status passes the body through,
/// anything else becomes an error of the category its status implies, with
/// the message taken from the body's `error` field when there is one.
pub fn handle_response(status: u16, body: String) -> (r: Result<String, Error>)
    ensures
        r is Ok <==> 200 <= status < 300,
        r matches Ok(b) ==> b@ == body@,
        r matches Err(e) ==> e.spec_message() == spec_status_message(
            status as nat,
            spec_error_message_of(body@),
        ),
        r matches Err(e) ==> (if status == 400 {
            e is Validation
        } else if 401 <= status <= 599 {
            e is Api
        } else {
            e is Internal
        }),
{
    if 200 <= status && status < 300 {
        return Ok(body);
    }
    let message = match json_error_field(body.as_str()) {
        Some(m) => m,
        None => body,
    };
    Err(Error::from_http_status(status, message))
}

// ---------------------------------------------------------------------------
// The retry loop
// ---------------------------------------------------------------------------

/// What one HTTP attempt produced: a status with its body text, or a
/// transport failure, classified by whether it is worth retrying.
#[derive(Debug)]
pub enum AttemptOutcome {
    /// The server answered with this status and body.
    Status { code: u16, body: String },
    /// The transport failed in a transient way (connection reset, timeout).
    TransportTransient { message: String },
    /// The transport failed in a way retrying cannot mend.
    TransportFatal { message: String },
}

/// A status that triggers a retry: rate limiting or a transient gateway
/// failure.
pub open spec fn transient_status(code: u16) -> bool {
    code == 429 || code == 502 || code == 503 || code == 504
}

/// An outcome that triggers a retry.
pub open spec fn transient_outcome(o: AttemptOutcome) -> bool {
    match o {
        AttemptOutcome::Status { code, .. } => transient_status(code),
        AttemptOutcome::TransportTransient { .. } => true,
        AttemptOutcome::TransportFatal { .. } => false,
    }
}

/// What the retry loop does after one attempt.
#[derive(Debug)]
pub enum RetryDecision {
    /// The outcome is terminal: hand it to response handling.
    Done,
    /// Wait this many milliseconds and try again.
    RetryAfterMs(u64),
    /// Stop with this error.
    GiveUp(Error),
}

/// Decide what follows the attempt numbered `attempt` (counting from zero):
/// a terminal outcome is done; a transient one is retried with a backoff
/// delay while attempts remain, and exhausts into a network error.
pub fn retry_step(policy: &RetryPolicy, attempt: u32, outcome: &AttemptOutcome) -> (r:
    RetryDecision)
    requires
        policy_ok(*policy),
        attempt <= policy.max_retries,
    ensures
        !transient_outcome(*outcome) && (outcome matches AttemptOutcome::Status { .. }) ==> r
            is Done,
        outcome matches AttemptOutcome::TransportFatal { message } ==> (r matches RetryDecision::GiveUp(e)
            && e is Network && e.spec_message() == message@),
        transient_outcome(*outcome) && attempt < policy.max_retries ==> (r matches
            RetryDecision::RetryAfterMs(d) && 1 <= d <= policy.max_delay_ms
            && crate::config::spec_delay_floor(*policy, (attempt + 1) as nat) <= d),
        transient_outcome(*outcome) && attempt == policy.max_retries ==> (r matches
            RetryDecision::GiveUp(e) && e is Network),
{
    let is_transient = match outcome {
        AttemptOutcome::Status { code, .. } => *code == 429 || *code == 502 || *code == 503
            || *code == 504,
        AttemptOutcome::TransportTransient { .. } => true,
        AttemptOutcome::TransportFatal { .. } => false,
    };
    if is_transient {
        if attempt < policy.max_retries {
            RetryDecision::RetryAfterMs(policy.calculate_delay(attempt + 1))
        } else {
            RetryDecision::GiveUp(
                Error::Network(String::from_str("Retries exhausted on transient failures")),
            )
        }
    } else {
        match outcome {
            AttemptOutcome::TransportFatal { message } => {
                RetryDecision::GiveUp(Error::Network(message.clone()))
            },
            _ => RetryDecision::Done,
        }
    }
}

/// How a finished retry loop ended: the index of the terminal outcome it
/// accepted, or the error it gave up with.
#[derive(Debug)]
pub enum RetryRunResult {
    Accepted(usize),
    Failed(Error),
}

/// The record of one retry loop run against a fixed sequence of outcomes.
#[derive(Debug)]
pub struct RetryRunReport {
    /// How many attempts were made.
    pub attempts: usize,
    /// The delay waited before each retry, in order.
    pub delays: Vec<u64>,
    /// How the loop ended.
    pub result: RetryRunResult,
}

/// Run the retry loop against a fixed sequence of attempt outcomes, one per
/// attempt the loop may make.  This is the loop the network shell mirrors;
/// stated here over given outcomes, it pins the retry bound: attempts stop
/// at the first terminal outcome, and a stream of transient outcomes is cut
/// off after exactly `1 + max_retries` attempts.
pub fn run_retry_schedule(policy: &RetryPolicy, outcomes: &Vec<AttemptOutcome>) -> (r:
    RetryRunReport)
    requires
        policy_ok(*policy),
        outcomes@.len() > policy.max_retries,
    ensures
        1 <= r.attempts <= policy.max_retries + 1,
        r.delays@.len() + 1 == r.attempts,
        forall|i: int| 0 <= i < r.delays@.len() ==> 1 <= #[trigger] r.delays@[i]
            <= policy.max_delay_ms,
        forall|i: int| 0 <= i < r.delays@.len() ==> crate::config::spec_delay_floor(
            *policy,
            (i + 1) as nat,
        ) <= #[trigger] r.delays@[i],
        forall|i: int| 0 <= i < r.attempts - 1 ==> transient_outcome(#[trigger] outcomes@[i]),
        r.result matches RetryRunResult::Accepted(k) ==> k == r.attempts - 1 && !transient_outcome(
            outcomes@[k as int],
        ) && (outcomes@[k as int] matches AttemptOutcome::Status { .. }),
        r.result matches RetryRunResult::Failed(e) ==> e is Network,
        (forall|i: int| 0 <= i <= policy.max_retries ==> transient_outcome(
            #[trigger] outcomes@[i],
        )) ==> r.attempts == policy.max_retries + 1 && (r.result matches RetryRunResult::Failed(e)
            && e is Network),
        !transient_outcome(outcomes@[0]) ==> r.attempts == 1,
{
    let mut attempt: u32 = 0;
    let mut delays: Vec<u64> = Vec::new();
    let mut result_opt: Option<RetryRunResult> = None;
    loop
        invariant_except_break
            result_opt is None,
            attempt <= policy.max_retries,
        invariant
            policy_ok(*policy),
            outcomes@.len() > policy.max_retries,
            delays@.len() == attempt,
            forall|i: int| 0 <= i < delays@.len() ==> 1 <= #[trigger] delays@[i]
                <= policy.max_delay_ms,
            forall|i: int| 0 <= i < delays@.len() ==> crate::config::spec_delay_floor(
                *policy,
                (i + 1) as nat,
            ) <= #[trigger] delays@[i],
            forall|i: int| 0 <= i < attempt ==> transient_outcome(#[trigger] outcomes@[i]),
        ensures
            attempt <= policy.max_retries,
            result_opt matches Some(res) && (match res {
                RetryRunResult::Accepted(k) => k == attempt && !transient_outcome(
                    outcomes@[k as int],
                ) && (outcomes@[k as int] matches AttemptOutcome::Status { .. }),
                RetryRunResult::Failed(e) => e is Network && ((transient_outcome(
                    outcomes@[attempt as int],
                ) && attempt == policy.max_retries) || (outcomes@[attempt as int] matches
                    AttemptOutcome::TransportFatal { .. })),
            }),
        decreases policy.max_retries - attempt,
    {
        let outcome = &outcomes[attempt as usize];
        match retry_step(policy, attempt, outcome) {
            RetryDecision::Done => {
                result_opt = Some(RetryRunResult::Accepted(attempt as usize));
                break ;
            },
            RetryDecision::RetryAfterMs(d) => {
                delays.push(d);
                attempt = attempt + 1;
            },
            RetryDecision::GiveUp(e) => {
                result_opt = Some(RetryRunResult::Failed(e));
                break ;
            },
        }
    }
    let result = match result_opt {
        Some(res) => res,
        None => {
            proof {
                assert(false);
            }
            RetryRunResult::Failed(Error::Network(String::new()))
        },
    };
    let attempts = (attempt + 1) as usize;
    RetryRunReport { attempts, delays, result }
}

} // verus!
