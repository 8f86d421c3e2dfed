//! What came back from one call, and how it is judged.

use vstd::prelude::*;

verus! {

/// The flag value by which a called function reports that it passed.
pub const PASS_FLAG: i8 = 1;

/// What the sandbox handed back for one call, before it is judged.
#[derive(Clone, Debug, PartialEq, Eq)]
pub enum Response {
    /// The call ran to completion and returned `payload`, having emitted `logs`.
    Returned { payload: Vec<u8>, logs: Vec<String> },
    /// The call was rejected or its execution failed; `error` describes how.
    Failed { error: String },
}

/// How a completed call is judged.
#[derive(Clone, Copy, Debug, PartialEq, Eq)]
pub enum Criterion {
    /// A call that completes has succeeded, whatever it returned.
    Completion,
    /// A call has succeeded only if its payload is the JSON integer 1.
    Flag,
}

/// Why a call counts as failed.
#[derive(Clone, Debug, PartialEq, Eq)]
pub enum Failure {
    /// The sandbox reported the call as failed.
    Rejected { error: String },
    /// A flag was expected, and the payload is not a JSON integer that fits `i8`.
    Malformed { payload: Vec<u8> },
    /// A flag was expected, and the payload is a flag other than the passing one.
    Flag { value: i8 },
}

/// The judged result of one call.
#[derive(Clone, Debug, PartialEq, Eq)]
pub enum Outcome {
    Success { payload: Vec<u8>, logs: Vec<String> },
    Failure { cause: Failure },
}

/// What `serde_json::from_slice::<i8>` makes of `text`: the integer, or
/// `None` where it reports an error.
pub uninterp spec fn json_i8(text: Seq<u8>) -> Option<i8>;

/// Trusted: `serde_json::from_slice` at type `i8`. Its result depends on the
/// bytes alone; the contract only gives that result its name, with the
/// outside error reduced to `None`.
#[verifier::external_body]
fn decode_flag(payload: &Vec<u8>) -> (flag: Option<i8>)
    ensures
        flag == json_i8(payload@),
{
    serde_json::from_slice::<i8>(payload.as_slice()).ok()
}

/// The outcome of a call given its response and, for a returned payload,
/// what the payload decodes to as a flag.
pub open spec fn judged(criterion: Criterion, response: Response, decoded: Option<i8>) -> Outcome {
    match response {
        Response::Failed { error } => Outcome::Failure { cause: Failure::Rejected { error } },
        Response::Returned { payload, logs } => match criterion {
            Criterion::Completion => Outcome::Success { payload, logs },
            Criterion::Flag => match decoded {
                None => Outcome::Failure { cause: Failure::Malformed { payload } },
                Some(value) => if value == PASS_FLAG {
                    Outcome::Success { payload, logs }
                } else {
                    Outcome::Failure { cause: Failure::Flag { value } }
                },
            },
        },
    }
}

/// The flag that the payload of `response` decodes to, if it has one.
pub open spec fn decoded_flag(response: Response) -> Option<i8> {
    match response {
        Response::Returned { payload, .. } => json_i8(payload@),
        Response::Failed { .. } => None,
    }
}

/// The outcome of a call given its response alone.
pub open spec fn outcome_of(criterion: Criterion, response: Response) -> Outcome {
    judged(criterion, response, decoded_flag(response))
}

/// Judges a response whose payload has already been decoded: `decoded` is
/// the flag read from the payload, or `None` where it holds no flag.
pub fn judge(criterion: Criterion, response: Response, decoded: Option<i8>) -> (outcome: Outcome)
    ensures
        outcome == judged(criterion, response, decoded),
{
    match response {
        Response::Failed { error } => Outcome::Failure { cause: Failure::Rejected { error } },
        Response::Returned { payload, logs } => match criterion {
            Criterion::Completion => Outcome::Success { payload, logs },
            Criterion::Flag => match decoded {
                None => Outcome::Failure { cause: Failure::Malformed { payload } },
                Some(value) => if value == PASS_FLAG {
                    Outcome::Success { payload, logs }
                } else {
                    Outcome::Failure { cause: Failure::Flag { value } }
                },
            },
        },
    }
}

/// Judges a response, decoding the payload as a flag where the criterion asks
/// for one. A failed response is a failure under either criterion; a payload
/// that is not a flag is reported as malformed, never guessed at.
pub fn classify(criterion: Criterion, response: Response) -> (outcome: Outcome)
    ensures
        outcome == outcome_of(criterion, response),
        criterion is Completion ==> (outcome is Success <==> response is Returned),
        response is Failed ==> outcome is Failure,
{
    let decoded = match (&response, criterion) {
        (Response::Returned { payload, .. }, Criterion::Flag) => decode_flag(payload),
        _ => None,
    };
    judge(criterion, response, decoded)
}

impl Outcome {
    /// Whether the call succeeded.
    pub fn is_success(&self) -> (yes: bool)
        ensures
            yes == (self is Success),
    {
        match self {
            Outcome::Success { .. } => true,
            Outcome::Failure { .. } => false,
        }
    }

    /// The log lines that the call emitted: those of a success, none of a failure.
    pub fn logs(&self) -> (logs: Option<&Vec<String>>)
        ensures
            logs == (match *self {
                Outcome::Success { logs, .. } => Some(&logs),
                Outcome::Failure { .. } => None,
            }),
    {
        match self {
            Outcome::Success { logs, .. } => Some(logs),
            Outcome::Failure { .. } => None,
        }
    }

    /// The payload that the call returned: that of a success, none of a failure.
    pub fn payload(&self) -> (payload: Option<&Vec<u8>>)
        ensures
            payload == (match *self {
                Outcome::Success { payload, .. } => Some(&payload),
                Outcome::Failure { .. } => None,
            }),
    {
        match self {
            Outcome::Success { payload, .. } => Some(payload),
            Outcome::Failure { .. } => None,
        }
    }
}

} // verus!
