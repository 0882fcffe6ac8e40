//! Response classification and the retry/backoff decision logic of the
//! request pipeline.
//!
//! The pipeline retries only transport-level send failures, with an
//! exponential backoff of `2^attempt` seconds between attempts.  A received
//! HTTP response is classified immediately and never retried, whatever its
//! status.  The transport itself (the part that actually sends bytes) is
//! unverified and drives these functions from outside the library.

use vstd::prelude::*;

verus! {

use vstd::string::StringExecFns;
use crate::errors::Error;
use crate::errors::ErrorV;

/// The mathematical value of a pipeline result: the raw body text of a
/// successful response, or a typed error.
pub open spec fn outcome_view(r: Result<String, Error>) -> Result<Seq<char>, ErrorV> {
    match r {
        Ok(body) => Ok(body@),
        Err(e) => Err(e@),
    }
}

/// How a received HTTP response is classified, by status code:
/// success keeps the raw body for decoding, every other status maps to one
/// error kind of the taxonomy.
pub open spec fn classify_view(status: u16, body: Seq<char>) -> Result<Seq<char>, ErrorV> {
    if 200 <= status < 300 {
        Ok(body)
    } else if status == 401 {
        Err(ErrorV::Authentication("Invalid API key"@))
    } else if status == 404 {
        Err(ErrorV::NotFound(body))
    } else if status == 422 {
        Err(ErrorV::Validation(body))
    } else if status == 429 {
        Err(ErrorV::RateLimit { retry_after: 1 })
    } else {
        Err(ErrorV::Api { status, message: body })
    }
}

/// Classifies a received HTTP response by its status code.
///
/// A success (2xx) returns the raw body, which the caller then decodes as the
/// expected shape.  The rate-limit hint is the fixed default of 1 second.
pub fn classify_response(status: u16, body: String) -> (r: Result<String, Error>)
    ensures
        outcome_view(r) == classify_view(status, body@),
{
    if 200 <= status && status < 300 {
        Ok(body)
    } else if status == 401 {
        Err(Error::Authentication(String::from_str("Invalid API key")))
    } else if status == 404 {
        Err(Error::NotFound(body))
    } else if status == 422 {
        Err(Error::Validation(body))
    } else if status == 429 {
        Err(Error::RateLimit { retry_after: 1 })
    } else {
        Err(Error::Api { status, message: body })
    }
}

/// What the transport reports for one attempt: a received HTTP response
/// (whatever its status), or a transport-level send failure (DNS, connect,
/// timeout) described by a message.
#[derive(Debug, PartialEq, Eq)]
pub enum SendOutcome {
    Response { status: u16, body: String },
    TransportFailure { message: String },
}

/// The mathematical value of a [`SendOutcome`].
pub enum SendOutcomeV {
    Response { status: u16, body: Seq<char> },
    TransportFailure { message: Seq<char> },
}

impl View for SendOutcome {
    type V = SendOutcomeV;

    open spec fn view(&self) -> SendOutcomeV {
        match self {
            SendOutcome::Response { status, body } => SendOutcomeV::Response {
                status: *status,
                body: body@,
            },
            SendOutcome::TransportFailure { message } => SendOutcomeV::TransportFailure {
                message: message@,
            },
        }
    }
}

/// What the pipeline does after one attempt: stop with a result, or sleep
/// for the given backoff delay and try again.
#[derive(Debug, PartialEq, Eq)]
pub enum RetryStep {
    Done(Result<String, Error>),
    Backoff { delay_secs: u64 },
}

/// The mathematical value of a [`RetryStep`].
pub enum RetryStepV {
    Done(Result<Seq<char>, ErrorV>),
    Backoff { delay_secs: u64 },
}

impl View for RetryStep {
    type V = RetryStepV;

    open spec fn view(&self) -> RetryStepV {
        match self {
            RetryStep::Done(r) => RetryStepV::Done(outcome_view(*r)),
            RetryStep::Backoff { delay_secs } => RetryStepV::Backoff { delay_secs: *delay_secs },
        }
    }
}

/// The connection-error message recorded for a failed send attempt.
pub open spec fn send_failure_text(message: Seq<char>) -> Seq<char> {
    "Request failed: "@ + message
}

/// The decision the pipeline takes after attempt number `attempt`
/// (counted from 0) out of `max_retries` attempts:
/// a received response is classified at once, never retried; a transport
/// failure backs off `2^attempt` seconds unless this was the last attempt,
/// in which case its connection error is final.
pub open spec fn retry_step_view(attempt: u32, max_retries: u32, outcome: SendOutcomeV) -> RetryStepV {
    match outcome {
        SendOutcomeV::Response { status, body } => RetryStepV::Done(classify_view(status, body)),
        SendOutcomeV::TransportFailure { message } => {
            if attempt + 1 < max_retries {
                RetryStepV::Backoff { delay_secs: (1u64 << attempt) }
            } else {
                RetryStepV::Done(Err(ErrorV::Connection(send_failure_text(message))))
            }
        },
    }
}

/// Retries apply only to transport-level send failures: after a received
/// HTTP response, whatever its status and whatever the attempt counters,
/// the pipeline never backs off and never sends again — it stops at once
/// with that response's classification.
pub proof fn lemma_responses_are_never_retried(
    attempt: u32,
    max_retries: u32,
    status: u16,
    body: Seq<char>,
)
    ensures
        retry_step_view(attempt, max_retries, SendOutcomeV::Response { status, body })
            == RetryStepV::Done(classify_view(status, body)),
{
}

/// Decides what follows one send attempt.
///
/// Retries apply only to transport-level failures; the backoff before retry
/// number `attempt + 1` is `2^attempt` seconds (1s, 2s, 4s, ...).
pub fn retry_step(attempt: u32, max_retries: u32, outcome: SendOutcome) -> (r: RetryStep)
    requires
        attempt < max_retries,
        attempt < 64,
    ensures
        r@ == retry_step_view(attempt, max_retries, outcome@),
{
    match outcome {
        SendOutcome::Response { status, body } => RetryStep::Done(classify_response(status, body)),
        SendOutcome::TransportFailure { message } => {
            if attempt + 1 < max_retries {
                RetryStep::Backoff { delay_secs: 1u64 << attempt }
            } else {
                let mut text: String = String::from_str("Request failed: ");
                text.append(message.as_str());
                RetryStep::Done(Err(Error::Connection(text)))
            }
        },
    }
}

/// The error returned when the retry loop was never entered because the
/// configured number of attempts is zero.
pub fn max_retries_exceeded() -> (r: Error)
    ensures
        r@ == ErrorV::Connection("Max retries exceeded"@),
{
    Error::Connection(String::from_str("Max retries exceeded"))
}

} // verus!
